//! A model of what the engines work on: the tree of directories and record
//! files, and what comes of a request that is carried out on it.
//!
//! Nothing here runs. The model says what a program that carries out the
//! requests faithfully does to the tree, so that whole operations, and not
//! only single steps, can be reasoned about: see [`crate::guarantees`].

use crate::config::ConfigView;
use crate::create::{CreateStateView, CreateStepView, Outcome};
use crate::error::ErrorKind;
use crate::install::{InstallStateView, InstallStepView, LeafTargetView};
use crate::navigator::{ProvisionStepView, ProvisionView};
use crate::protocol::{ReplyView, RequestView};
use vstd::prelude::*;

verus! {

/// The directories and record files below the directory where an operation
/// starts. A record file holds a record, or content that is none (`None`).
#[verifier::ext_equal]
pub struct Tree {
    pub directories: Set<Seq<Seq<char>>>,
    pub records: Map<Seq<Seq<char>>, Option<ConfigView>>,
}

/// What the tree does not decide about one request: whether a change of the
/// tree succeeds, and what the person at the prompt answers.
pub struct Fate {
    /// Whether making a directory, writing a record or removing a directory
    /// succeeds.
    pub succeeds: bool,
    /// The answer to a yes-or-no question.
    pub yes: bool,
    /// The answer to a question for a text.
    pub text: Seq<char>,
    /// The answer to a choice.
    pub choice: Option<usize>,
}

impl Tree {
    /// Whether the directory at `path` holds a record file.
    pub open spec fn has_record(self, path: Seq<Seq<char>>) -> bool {
        self.records.dom().contains(path)
    }

    /// Reading the record of the directory at `path`.
    pub open spec fn load(self, path: Seq<Seq<char>>) -> Result<ConfigView, ErrorKind> {
        if !self.has_record(path) {
            Err(ErrorKind::NotFound)
        } else {
            match self.records[path] {
                Some(record) => Ok(record),
                None => Err(ErrorKind::Malformed),
            }
        }
    }

    /// The tree without the directory at `path` and all that lies in it.
    pub open spec fn without(self, path: Seq<Seq<char>>) -> Tree {
        Tree {
            directories: Set::new(
                |place: Seq<Seq<char>>|
                    self.directories.contains(place) && !path.is_prefix_of(place),
            ),
            records: Map::new(
                |place: Seq<Seq<char>>| self.has_record(place) && !path.is_prefix_of(place),
                |place: Seq<Seq<char>>| self.records[place],
            ),
        }
    }

    /// The reply to `request` when it is carried out on this tree.
    pub open spec fn reply(self, request: RequestView, fate: Fate) -> ReplyView {
        match request {
            RequestView::LoadRecord { path } => ReplyView::Record(self.load(path)),
            RequestView::ProbeDirectory { path } => ReplyView::Present(
                self.directories.contains(path),
            ),
            RequestView::ProbeRecord { path } => ReplyView::Present(self.has_record(path)),
            RequestView::CreateDirectory { .. }
            | RequestView::SaveRecord { .. }
            | RequestView::RemoveDirectory { .. } => ReplyView::Completed(fate.succeeds),
            RequestView::Ask { question } => if question is SameTarget {
                ReplyView::Confirmed(fate.yes)
            } else {
                ReplyView::Text(fate.text)
            },
            RequestView::Choose { .. } => ReplyView::Choice(fate.choice),
        }
    }

    /// The tree after `request` was carried out on it. A change that fails
    /// changes nothing: a record file holds the old content or the new.
    pub open spec fn after(self, request: RequestView, fate: Fate) -> Tree {
        if !fate.succeeds {
            self
        } else {
            match request {
                RequestView::CreateDirectory { path } => Tree {
                    directories: self.directories.insert(path),
                    records: self.records,
                },
                RequestView::SaveRecord { path, record } => Tree {
                    directories: self.directories,
                    records: self.records.insert(path, Some(record)),
                },
                RequestView::RemoveDirectory { path } => self.without(path),
                _ => self,
            }
        }
    }
}

/// Making sure of a directory, from `state` on, with one fate for each
/// request: the tree that is left and how it ended, `None` if the fates ran
/// out before the end.
pub open spec fn run_ensure(tree: Tree, state: ProvisionView, fates: Seq<Fate>) -> (
    Tree,
    Option<Result<bool, ErrorKind>>,
)
    decreases fates.len(),
{
    if fates.len() == 0 {
        (tree, None)
    } else {
        let request = state.request();
        let tree_after = tree.after(request, fates[0]);
        match state.next(tree.reply(request, fates[0])) {
            ProvisionStepView::Done(result) => (tree_after, Some(result)),
            ProvisionStepView::Continue(state_after) => run_ensure(
                tree_after,
                state_after,
                fates.drop_first(),
            ),
        }
    }
}

/// A creation, from `state` on, with one fate for each request: the tree
/// that is left and how it ended, `None` if the fates ran out before the end.
pub open spec fn run_create(tree: Tree, state: CreateStateView, fates: Seq<Fate>) -> (
    Tree,
    Option<Result<Outcome, ErrorKind>>,
)
    decreases fates.len(),
{
    if fates.len() == 0 {
        (tree, None)
    } else {
        let request = state.request();
        let tree_after = tree.after(request, fates[0]);
        match state.next(tree.reply(request, fates[0])) {
            CreateStepView::Finish(result) => (tree_after, Some(result)),
            CreateStepView::Continue(state_after) => run_create(
                tree_after,
                state_after,
                fates.drop_first(),
            ),
        }
    }
}

/// A walk to a leaf, from `state` on, with one fate for each request: the
/// tree that is left and how it ended, `None` if the fates ran out before
/// the end.
pub open spec fn run_install(tree: Tree, state: InstallStateView, fates: Seq<Fate>) -> (
    Tree,
    Option<Result<LeafTargetView, ErrorKind>>,
)
    decreases fates.len(),
{
    if fates.len() == 0 {
        (tree, None)
    } else {
        let request = state.request();
        let tree_after = tree.after(request, fates[0]);
        match state.next(tree.reply(request, fates[0])) {
            InstallStepView::Finish(result) => (tree_after, Some(result)),
            InstallStepView::Continue(state_after) => run_install(
                tree_after,
                state_after,
                fates.drop_first(),
            ),
        }
    }
}

} // verus!
