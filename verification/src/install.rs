//! The installation engine: walks from a version down to a leaf, the one
//! version that is installed.
//!
//! The engine is a state. [`install`] gives the first one; [`InstallState::request`]
//! says what the state waits for; [`install_step`] takes the reply and gives the
//! next state, or the end of the walk.
//!
//! Only the first level of the walk takes a name that was given with the
//! call. Below it every level with children asks which one to take; the
//! children are shown in the order in which the record lists them.

use crate::config::{exist_version, get_versions, Config, ConfigView};
use crate::error::ErrorKind;
use crate::navigator::child_path;
use crate::protocol::{Reply, ReplyView, Request, RequestView};
use vstd::prelude::*;
use vstd::string::StringExecFns;

verus! {

/// The leaf that a walk ended at: its place and its record.
#[derive(Debug, PartialEq, Eq)]
pub struct LeafTarget {
    /// Place of the leaf: the names that lead to it.
    pub path: Vec<String>,
    /// The leaf's record. It has no children.
    pub record: Config,
}

/// A [`LeafTarget`] as mathematical values.
pub struct LeafTargetView {
    pub path: Seq<Seq<char>>,
    pub record: ConfigView,
}

impl View for LeafTarget {
    type V = LeafTargetView;

    open spec fn view(&self) -> LeafTargetView {
        LeafTargetView { path: self.path.deep_view(), record: self.record@ }
    }
}

/// Where a walk stands. Each state waits for the reply to one request.
#[derive(Debug, PartialEq, Eq)]
pub enum InstallState {
    /// Waits for the record of the version at `path`, of which a child is to
    /// be taken: the child `requested`, or the one that will be chosen.
    LoadRecord { path: Vec<String>, requested: Option<String> },
    /// Waits for the choice among the children of the version at `path`.
    Choose { path: Vec<String>, record: Config },
    /// Waits for the record of the child at `path`.
    LoadChild { path: Vec<String> },
}

/// An [`InstallState`] as mathematical values.
pub enum InstallStateView {
    LoadRecord { path: Seq<Seq<char>>, requested: Option<Seq<char>> },
    Choose { path: Seq<Seq<char>>, record: ConfigView },
    LoadChild { path: Seq<Seq<char>> },
}

impl View for InstallState {
    type V = InstallStateView;

    open spec fn view(&self) -> InstallStateView {
        match self {
            InstallState::LoadRecord { path, requested } => InstallStateView::LoadRecord {
                path: path.deep_view(),
                requested: match requested {
                    Some(name) => Some(name@),
                    None => None,
                },
            },
            InstallState::Choose { path, record } => InstallStateView::Choose {
                path: path.deep_view(),
                record: record@,
            },
            InstallState::LoadChild { path } => InstallStateView::LoadChild {
                path: path.deep_view(),
            },
        }
    }
}

/// What a reply leads to: the next state, or the end of the walk.
#[derive(Debug, PartialEq, Eq)]
pub enum InstallStep {
    Continue(InstallState),
    Finish(Result<LeafTarget, ErrorKind>),
}

/// An [`InstallStep`] as mathematical values.
pub enum InstallStepView {
    Continue(InstallStateView),
    Finish(Result<LeafTargetView, ErrorKind>),
}

impl View for InstallStep {
    type V = InstallStepView;

    open spec fn view(&self) -> InstallStepView {
        match self {
            InstallStep::Continue(state) => InstallStepView::Continue(state@),
            InstallStep::Finish(Ok(leaf)) => InstallStepView::Finish(Ok(leaf@)),
            InstallStep::Finish(Err(error)) => InstallStepView::Finish(Err(*error)),
        }
    }
}

/// The child that a choice stands for. The children are numbered from 1 in
/// the order of the list; no number, or any other number, is no choice.
pub open spec fn chosen_child(children: Seq<Seq<char>>, choice: Option<usize>) -> Result<
    Seq<char>,
    ErrorKind,
> {
    match choice {
        Some(number) => if 1 <= number <= children.len() {
            Ok(children[number - 1])
        } else {
            Err(ErrorKind::InvalidSelection)
        },
        None => Err(ErrorKind::InvalidSelection),
    }
}

impl InstallStateView {
    /// The state in which the walk from `path` begins.
    pub open spec fn start(requested: Option<Seq<char>>, path: Seq<Seq<char>>) -> InstallStateView {
        InstallStateView::LoadRecord { path, requested }
    }

    /// What the state waits for.
    pub open spec fn request(self) -> RequestView {
        match self {
            InstallStateView::LoadRecord { path, .. } => RequestView::LoadRecord { path },
            InstallStateView::Choose { record, .. } => RequestView::Choose {
                options: record.children,
            },
            InstallStateView::LoadChild { path } => RequestView::LoadRecord { path },
        }
    }

    /// Where `reply` leads. A reply of a kind that does not answer the
    /// state's request leaves the state as it is.
    pub open spec fn next(self, reply: ReplyView) -> InstallStepView {
        match (self, reply) {
            (InstallStateView::LoadRecord { .. }, ReplyView::Record(Err(error))) => {
                InstallStepView::Finish(Err(error))
            },
            (InstallStateView::LoadRecord { path, requested }, ReplyView::Record(Ok(record))) => {
                match requested {
                    Some(name) => if record.has_child(name) {
                        InstallStepView::Continue(
                            InstallStateView::LoadChild { path: path.push(name) },
                        )
                    } else {
                        InstallStepView::Finish(Err(ErrorKind::UnknownVersion))
                    },
                    None => InstallStepView::Continue(InstallStateView::Choose { path, record }),
                }
            },
            (InstallStateView::Choose { path, record }, ReplyView::Choice(choice)) => {
                match chosen_child(record.children, choice) {
                    Ok(name) => InstallStepView::Continue(
                        InstallStateView::LoadChild { path: path.push(name) },
                    ),
                    Err(error) => InstallStepView::Finish(Err(error)),
                }
            },
            (InstallStateView::LoadChild { .. }, ReplyView::Record(Err(error))) => {
                InstallStepView::Finish(Err(error))
            },
            (InstallStateView::LoadChild { path }, ReplyView::Record(Ok(record))) => {
                if record.is_leaf() {
                    InstallStepView::Finish(Ok(LeafTargetView { path, record }))
                } else {
                    InstallStepView::Continue(
                        InstallStateView::LoadRecord { path, requested: None },
                    )
                }
            },
            _ => InstallStepView::Continue(self),
        }
    }
}

/// The lines that tell how to install the leaf `version_name`, a child of the
/// directory `parent_path`, into the target of its record.
pub open spec fn install_lines(
    target: Seq<char>,
    version_name: Seq<char>,
    parent_path: Seq<char>,
) -> Seq<Seq<char>> {
    seq![
        "Installing config "@ + version_name,
        "Execute the following commands:"@,
        "cd "@ + parent_path,
        "stow -t "@ + target + " "@ + version_name,
    ]
}

/// Begins the walk from the version at `current_path` to a leaf, through the
/// child `version` where one is given.
pub fn install(version: &Option<String>, current_path: Vec<String>) -> (state: InstallState)
    ensures
        state@ == InstallStateView::start(
            match version {
                Some(name) => Some(name@),
                None => None,
            },
            current_path.deep_view(),
        ),
{
    let requested = match version {
        Some(name) => Some(name.clone()),
        None => None,
    };
    InstallState::LoadRecord { path: current_path, requested }
}

/// The child of `record` that `choice` stands for, or `InvalidSelection`.
pub fn choose_child(record: &Config, choice: Option<usize>) -> (child: Result<String, ErrorKind>)
    ensures
        match child {
            Ok(name) => chosen_child(record@.children, choice) == Ok::<Seq<char>, ErrorKind>(name@),
            Err(error) => chosen_child(record@.children, choice) == Err::<Seq<char>, ErrorKind>(
                error,
            ),
        },
{
    let children = get_versions(record);
    match choice {
        Some(number) => if 1 <= number && number <= children.len() {
            Ok(children[number - 1].clone())
        } else {
            Err(ErrorKind::InvalidSelection)
        },
        None => Err(ErrorKind::InvalidSelection),
    }
}

impl InstallState {
    /// What the state waits for.
    pub fn request(&self) -> (request: Request)
        ensures
            request@ == self@.request(),
    {
        match self {
            InstallState::LoadRecord { path, .. } => Request::LoadRecord { path: path.clone() },
            InstallState::Choose { record, .. } => Request::Choose {
                options: get_versions(record).clone(),
            },
            InstallState::LoadChild { path } => Request::LoadRecord { path: path.clone() },
        }
    }
}

/// Takes the reply to the request of `state` and says what is next.
pub fn install_step(state: InstallState, reply: Reply) -> (step: InstallStep)
    ensures
        step@ == state@.next(reply@),
{
    match state {
        InstallState::LoadRecord { path, requested } => match reply {
            Reply::Record(Err(error)) => InstallStep::Finish(Err(error)),
            Reply::Record(Ok(record)) => match requested {
                Some(name) => if exist_version(&record, name.as_str()) {
                    InstallStep::Continue(
                        InstallState::LoadChild { path: child_path(&path, name.as_str()) },
                    )
                } else {
                    InstallStep::Finish(Err(ErrorKind::UnknownVersion))
                },
                None => InstallStep::Continue(InstallState::Choose { path, record }),
            },
            _ => InstallStep::Continue(InstallState::LoadRecord { path, requested }),
        },
        InstallState::Choose { path, record } => match reply {
            Reply::Choice(choice) => match choose_child(&record, choice) {
                Ok(name) => InstallStep::Continue(
                    InstallState::LoadChild { path: child_path(&path, name.as_str()) },
                ),
                Err(error) => InstallStep::Finish(Err(error)),
            },
            _ => InstallStep::Continue(InstallState::Choose { path, record }),
        },
        InstallState::LoadChild { path } => match reply {
            Reply::Record(Err(error)) => InstallStep::Finish(Err(error)),
            Reply::Record(Ok(record)) => if record.is_leaf() {
                InstallStep::Finish(Ok(LeafTarget { path, record }))
            } else {
                InstallStep::Continue(InstallState::LoadRecord { path, requested: None })
            },
            _ => InstallStep::Continue(InstallState::LoadChild { path }),
        },
    }
}

/// The lines that tell how to install the leaf `version_name` with record
/// `config`, a child of the directory `parent_path`.
pub fn install_config(config: &Config, version_name: &str, parent_path: &str) -> (lines: Vec<
    String,
>)
    ensures
        lines.deep_view() == install_lines(config@.target, version_name@, parent_path@),
{
    let heading = String::from_str("Installing config ").concat(version_name);
    let notice = String::from_str("Execute the following commands:");
    let change = String::from_str("cd ").concat(parent_path);
    let link = String::from_str("stow -t ").concat(config.target().as_str()).concat(" ").concat(
        version_name,
    );
    let mut lines: Vec<String> = Vec::new();
    lines.push(heading);
    lines.push(notice);
    lines.push(change);
    lines.push(link);
    assert(lines.deep_view() =~= install_lines(config@.target, version_name@, parent_path@));
    lines
}

} // verus!
