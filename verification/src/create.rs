//! The creation engine: makes a root version where there is no record yet,
//! and a sub-version where there is one.
//!
//! The engine is a state. [`create`] gives the first one; [`CreateState::request`]
//! says what the state waits for; [`create_step`] takes the reply and gives the
//! next state, or the end of the operation.
//!
//! A sub-version is made in this order: the name is looked for among the
//! parent's children, the child directory is made unless it is there, the
//! child's record is made unless it has one, and only then the parent's record
//! is written with the new name. So a parent never lists a child that was not
//! made. Where that last write fails, a child directory that this operation
//! made is removed again; one that was there before is left alone.

use crate::config::{add_version, exist_version, Config, ConfigView};
use crate::dialogue::{create_config, Dialogue, DialogueStep, DialogueStepView, DialogueView};
use crate::error::ErrorKind;
use crate::navigator::{child_path, ensure_directory, Provision, ProvisionStep, ProvisionStepView, ProvisionView};
use crate::protocol::{Reply, ReplyView, Request, RequestView};
use vstd::prelude::*;

verus! {

/// How a creation ended well.
#[derive(Debug, Clone, Copy, PartialEq, Eq, Structural)]
pub enum Outcome {
    /// The directory had no record: it is a root version now.
    RootCreated,
    /// A sub-version was made and the parent lists it.
    ChildCreated,
    /// The child directory had a record of its own already. That record was
    /// left as it was, and the parent lists the child now. A warning, no
    /// failure: to change such a child is another operation.
    ChildAdopted,
}

/// The sub-version that is being made.
#[derive(Debug, PartialEq, Eq)]
pub struct SubVersion {
    /// Place of the parent.
    pub base: Vec<String>,
    /// Name of the sub-version.
    pub name: String,
    /// The parent's record as it was read.
    pub parent: Config,
}

/// A [`SubVersion`] as mathematical values.
pub struct SubVersionView {
    pub base: Seq<Seq<char>>,
    pub name: Seq<char>,
    pub parent: ConfigView,
}

impl View for SubVersion {
    type V = SubVersionView;

    open spec fn view(&self) -> SubVersionView {
        SubVersionView { base: self.base.deep_view(), name: self.name@, parent: self.parent@ }
    }
}

impl SubVersionView {
    /// Place of the sub-version: its name below its parent.
    pub open spec fn path(self) -> Seq<Seq<char>> {
        self.base.push(self.name)
    }

    /// The parent's record once it lists the sub-version.
    pub open spec fn parent_record(self) -> ConfigView {
        self.parent.with_child(self.name)
    }
}

/// Where a creation stands. Each state waits for the reply to one request.
#[derive(Debug, PartialEq, Eq)]
pub enum CreateState {
    /// Waits for the record of the directory where the version is made.
    LoadBase { base: Vec<String>, name: String },
    /// Root version: waits for an answer about the new record.
    RootDialogue { base: Vec<String>, dialogue: Dialogue },
    /// Root version: waits for its record to be written.
    RootSave { base: Vec<String>, record: Config },
    /// Waits while the child directory is made sure of.
    Directory { job: SubVersion, provision: Provision },
    /// Waits to learn whether the child directory holds a record.
    ProbeRecord { job: SubVersion, made_directory: bool },
    /// Waits for an answer about the child's record.
    ChildDialogue { job: SubVersion, made_directory: bool, dialogue: Dialogue },
    /// Waits for the child's record to be written.
    ChildSave { job: SubVersion, made_directory: bool, record: Config },
    /// Waits for the parent's record, with the new name, to be written.
    ParentSave { job: SubVersion, made_directory: bool, made_record: bool },
    /// The parent's record could not be written: waits for the child
    /// directory, which this operation made, to be removed.
    Rollback { job: SubVersion },
}

/// A [`CreateState`] as mathematical values.
pub enum CreateStateView {
    LoadBase { base: Seq<Seq<char>>, name: Seq<char> },
    RootDialogue { base: Seq<Seq<char>>, dialogue: DialogueView },
    RootSave { base: Seq<Seq<char>>, record: ConfigView },
    Directory { job: SubVersionView, provision: ProvisionView },
    ProbeRecord { job: SubVersionView, made_directory: bool },
    ChildDialogue { job: SubVersionView, made_directory: bool, dialogue: DialogueView },
    ChildSave { job: SubVersionView, made_directory: bool, record: ConfigView },
    ParentSave { job: SubVersionView, made_directory: bool, made_record: bool },
    Rollback { job: SubVersionView },
}

impl View for CreateState {
    type V = CreateStateView;

    open spec fn view(&self) -> CreateStateView {
        match self {
            CreateState::LoadBase { base, name } => CreateStateView::LoadBase {
                base: base.deep_view(),
                name: name@,
            },
            CreateState::RootDialogue { base, dialogue } => CreateStateView::RootDialogue {
                base: base.deep_view(),
                dialogue: dialogue@,
            },
            CreateState::RootSave { base, record } => CreateStateView::RootSave {
                base: base.deep_view(),
                record: record@,
            },
            CreateState::Directory { job, provision } => CreateStateView::Directory {
                job: job@,
                provision: provision@,
            },
            CreateState::ProbeRecord { job, made_directory } => CreateStateView::ProbeRecord {
                job: job@,
                made_directory: *made_directory,
            },
            CreateState::ChildDialogue {
                job,
                made_directory,
                dialogue,
            } => CreateStateView::ChildDialogue {
                job: job@,
                made_directory: *made_directory,
                dialogue: dialogue@,
            },
            CreateState::ChildSave { job, made_directory, record } => CreateStateView::ChildSave {
                job: job@,
                made_directory: *made_directory,
                record: record@,
            },
            CreateState::ParentSave {
                job,
                made_directory,
                made_record,
            } => CreateStateView::ParentSave {
                job: job@,
                made_directory: *made_directory,
                made_record: *made_record,
            },
            CreateState::Rollback { job } => CreateStateView::Rollback { job: job@ },
        }
    }
}

/// What a reply leads to: the next state, or the end of the creation.
#[derive(Debug, PartialEq, Eq)]
pub enum CreateStep {
    Continue(CreateState),
    Finish(Result<Outcome, ErrorKind>),
}

/// A [`CreateStep`] as mathematical values.
pub enum CreateStepView {
    Continue(CreateStateView),
    Finish(Result<Outcome, ErrorKind>),
}

impl View for CreateStep {
    type V = CreateStepView;

    open spec fn view(&self) -> CreateStepView {
        match self {
            CreateStep::Continue(state) => CreateStepView::Continue(state@),
            CreateStep::Finish(result) => CreateStepView::Finish(*result),
        }
    }
}

impl CreateStateView {
    /// The state in which the creation of `name` at `base` begins.
    pub open spec fn start(name: Seq<char>, base: Seq<Seq<char>>) -> CreateStateView {
        CreateStateView::LoadBase { base, name }
    }

    /// What the state waits for.
    pub open spec fn request(self) -> RequestView {
        match self {
            CreateStateView::LoadBase { base, .. } => RequestView::LoadRecord { path: base },
            CreateStateView::RootDialogue { dialogue, .. } => RequestView::Ask {
                question: dialogue.question(),
            },
            CreateStateView::RootSave { base, record } => RequestView::SaveRecord {
                path: base,
                record,
            },
            CreateStateView::Directory { provision, .. } => provision.request(),
            CreateStateView::ProbeRecord { job, .. } => RequestView::ProbeRecord {
                path: job.path(),
            },
            CreateStateView::ChildDialogue { dialogue, .. } => RequestView::Ask {
                question: dialogue.question(),
            },
            CreateStateView::ChildSave { job, record, .. } => RequestView::SaveRecord {
                path: job.path(),
                record,
            },
            CreateStateView::ParentSave { job, .. } => RequestView::SaveRecord {
                path: job.base,
                record: job.parent_record(),
            },
            CreateStateView::Rollback { job } => RequestView::RemoveDirectory { path: job.path() },
        }
    }

    /// Where `reply` leads. A reply of a kind that does not answer the
    /// state's request leaves the state as it is.
    pub open spec fn next(self, reply: ReplyView) -> CreateStepView {
        match (self, reply) {
            (CreateStateView::LoadBase { base, name }, ReplyView::Record(Err(error))) => {
                if error is NotFound {
                    CreateStepView::Continue(
                        CreateStateView::RootDialogue { base, dialogue: DialogueView::start(None) },
                    )
                } else {
                    CreateStepView::Finish(Err(error))
                }
            },
            (CreateStateView::LoadBase { base, name }, ReplyView::Record(Ok(parent))) => {
                if parent.has_child(name) {
                    CreateStepView::Finish(Err(ErrorKind::DuplicateName))
                } else {
                    CreateStepView::Continue(
                        CreateStateView::Directory {
                            job: SubVersionView { base, name, parent },
                            provision: ProvisionView::start(base.push(name)),
                        },
                    )
                }
            },
            (CreateStateView::RootDialogue { base, dialogue }, _) => {
                match dialogue.next(reply) {
                    DialogueStepView::Continue(dialogue) => CreateStepView::Continue(
                        CreateStateView::RootDialogue { base, dialogue },
                    ),
                    DialogueStepView::Done(record) => CreateStepView::Continue(
                        CreateStateView::RootSave { base, record },
                    ),
                }
            },
            (CreateStateView::RootSave { .. }, ReplyView::Completed(written)) => {
                if written {
                    CreateStepView::Finish(Ok(Outcome::RootCreated))
                } else {
                    CreateStepView::Finish(Err(ErrorKind::IOFailure))
                }
            },
            (CreateStateView::Directory { job, provision }, _) => {
                match provision.next(reply) {
                    ProvisionStepView::Continue(provision) => CreateStepView::Continue(
                        CreateStateView::Directory { job, provision },
                    ),
                    ProvisionStepView::Done(Ok(made_directory)) => CreateStepView::Continue(
                        CreateStateView::ProbeRecord { job, made_directory },
                    ),
                    ProvisionStepView::Done(Err(error)) => CreateStepView::Finish(Err(error)),
                }
            },
            (
                CreateStateView::ProbeRecord { job, made_directory },
                ReplyView::Present(present),
            ) => {
                if present {
                    CreateStepView::Continue(
                        CreateStateView::ParentSave { job, made_directory, made_record: false },
                    )
                } else {
                    CreateStepView::Continue(
                        CreateStateView::ChildDialogue {
                            job,
                            made_directory,
                            dialogue: DialogueView::start(Some(job.parent)),
                        },
                    )
                }
            },
            (CreateStateView::ChildDialogue { job, made_directory, dialogue }, _) => {
                match dialogue.next(reply) {
                    DialogueStepView::Continue(dialogue) => CreateStepView::Continue(
                        CreateStateView::ChildDialogue { job, made_directory, dialogue },
                    ),
                    DialogueStepView::Done(record) => CreateStepView::Continue(
                        CreateStateView::ChildSave { job, made_directory, record },
                    ),
                }
            },
            (
                CreateStateView::ChildSave { job, made_directory, .. },
                ReplyView::Completed(written),
            ) => {
                if written {
                    CreateStepView::Continue(
                        CreateStateView::ParentSave { job, made_directory, made_record: true },
                    )
                } else {
                    CreateStepView::Finish(Err(ErrorKind::IOFailure))
                }
            },
            (
                CreateStateView::ParentSave { job, made_directory, made_record },
                ReplyView::Completed(written),
            ) => {
                if written {
                    CreateStepView::Finish(
                        Ok(
                            if made_record {
                                Outcome::ChildCreated
                            } else {
                                Outcome::ChildAdopted
                            },
                        ),
                    )
                } else if made_directory {
                    CreateStepView::Continue(CreateStateView::Rollback { job })
                } else {
                    CreateStepView::Finish(
                        Err(ErrorKind::PersistFailure { rollback_failed: false }),
                    )
                }
            },
            (CreateStateView::Rollback { .. }, ReplyView::Completed(removed)) => {
                CreateStepView::Finish(Err(ErrorKind::PersistFailure { rollback_failed: !removed }))
            },
            _ => CreateStepView::Continue(self),
        }
    }
}

/// Begins the creation of the version `version` in the directory at
/// `current_path`: a root version if the directory has no record, else a
/// sub-version of the version that the directory holds.
pub fn create(version: &str, current_path: Vec<String>) -> (state: CreateState)
    ensures
        state@ == CreateStateView::start(version@, current_path.deep_view()),
{
    CreateState::LoadBase { base: current_path, name: version.to_owned() }
}

impl SubVersion {
    /// Place of the sub-version: its name below its parent.
    pub fn path(&self) -> (path: Vec<String>)
        ensures
            path.deep_view() == self@.path(),
    {
        child_path(&self.base, self.name.as_str())
    }

    /// The parent's record once it lists the sub-version.
    pub fn parent_record(&self) -> (record: Config)
        ensures
            record@ == self@.parent_record(),
    {
        let mut record = self.parent.clone();
        add_version(&mut record, self.name.as_str());
        record
    }
}

impl CreateState {
    /// What the state waits for.
    pub fn request(&self) -> (request: Request)
        ensures
            request@ == self@.request(),
    {
        match self {
            CreateState::LoadBase { base, .. } => Request::LoadRecord { path: base.clone() },
            CreateState::RootDialogue { dialogue, .. } => Request::Ask {
                question: dialogue.question(),
            },
            CreateState::RootSave { base, record } => Request::SaveRecord {
                path: base.clone(),
                record: record.clone(),
            },
            CreateState::Directory { provision, .. } => provision.request(),
            CreateState::ProbeRecord { job, .. } => Request::ProbeRecord { path: job.path() },
            CreateState::ChildDialogue { dialogue, .. } => Request::Ask {
                question: dialogue.question(),
            },
            CreateState::ChildSave { job, record, .. } => Request::SaveRecord {
                path: job.path(),
                record: record.clone(),
            },
            CreateState::ParentSave { job, .. } => Request::SaveRecord {
                path: job.base.clone(),
                record: job.parent_record(),
            },
            CreateState::Rollback { job } => Request::RemoveDirectory { path: job.path() },
        }
    }
}

/// Takes the reply to the request of `state` and says what is next.
pub fn create_step(state: CreateState, reply: Reply) -> (step: CreateStep)
    ensures
        step@ == state@.next(reply@),
{
    match state {
        CreateState::LoadBase { base, name } => match reply {
            Reply::Record(Err(error)) => match error {
                ErrorKind::NotFound => CreateStep::Continue(
                    CreateState::RootDialogue { base, dialogue: create_config(None) },
                ),
                _ => CreateStep::Finish(Err(error)),
            },
            Reply::Record(Ok(parent)) => {
                if exist_version(&parent, name.as_str()) {
                    CreateStep::Finish(Err(ErrorKind::DuplicateName))
                } else {
                    let job = SubVersion { base, name, parent };
                    let provision = ensure_directory(job.path());
                    CreateStep::Continue(CreateState::Directory { job, provision })
                }
            },
            _ => CreateStep::Continue(CreateState::LoadBase { base, name }),
        },
        CreateState::RootDialogue { base, dialogue } => match dialogue.answer(reply) {
            DialogueStep::Continue(dialogue) => CreateStep::Continue(
                CreateState::RootDialogue { base, dialogue },
            ),
            DialogueStep::Done(record) => CreateStep::Continue(
                CreateState::RootSave { base, record },
            ),
        },
        CreateState::RootSave { base, record } => match reply {
            Reply::Completed(written) => if written {
                CreateStep::Finish(Ok(Outcome::RootCreated))
            } else {
                CreateStep::Finish(Err(ErrorKind::IOFailure))
            },
            _ => CreateStep::Continue(CreateState::RootSave { base, record }),
        },
        CreateState::Directory { job, provision } => match provision.answer(reply) {
            ProvisionStep::Continue(provision) => CreateStep::Continue(
                CreateState::Directory { job, provision },
            ),
            ProvisionStep::Done(Ok(made_directory)) => CreateStep::Continue(
                CreateState::ProbeRecord { job, made_directory },
            ),
            ProvisionStep::Done(Err(error)) => CreateStep::Finish(Err(error)),
        },
        CreateState::ProbeRecord { job, made_directory } => match reply {
            Reply::Present(present) => if present {
                CreateStep::Continue(
                    CreateState::ParentSave { job, made_directory, made_record: false },
                )
            } else {
                let dialogue = create_config(Some(&job.parent));
                CreateStep::Continue(CreateState::ChildDialogue { job, made_directory, dialogue })
            },
            _ => CreateStep::Continue(CreateState::ProbeRecord { job, made_directory }),
        },
        CreateState::ChildDialogue { job, made_directory, dialogue } => match dialogue.answer(
            reply,
        ) {
            DialogueStep::Continue(dialogue) => CreateStep::Continue(
                CreateState::ChildDialogue { job, made_directory, dialogue },
            ),
            DialogueStep::Done(record) => CreateStep::Continue(
                CreateState::ChildSave { job, made_directory, record },
            ),
        },
        CreateState::ChildSave { job, made_directory, record } => match reply {
            Reply::Completed(written) => if written {
                CreateStep::Continue(
                    CreateState::ParentSave { job, made_directory, made_record: true },
                )
            } else {
                CreateStep::Finish(Err(ErrorKind::IOFailure))
            },
            _ => CreateStep::Continue(CreateState::ChildSave { job, made_directory, record }),
        },
        CreateState::ParentSave { job, made_directory, made_record } => match reply {
            Reply::Completed(written) => if written {
                CreateStep::Finish(
                    Ok(
                        if made_record {
                            Outcome::ChildCreated
                        } else {
                            Outcome::ChildAdopted
                        },
                    ),
                )
            } else if made_directory {
                CreateStep::Continue(CreateState::Rollback { job })
            } else {
                CreateStep::Finish(Err(ErrorKind::PersistFailure { rollback_failed: false }))
            },
            _ => CreateStep::Continue(CreateState::ParentSave { job, made_directory, made_record }),
        },
        CreateState::Rollback { job } => match reply {
            Reply::Completed(removed) => CreateStep::Finish(
                Err(ErrorKind::PersistFailure { rollback_failed: !removed }),
            ),
            _ => CreateStep::Continue(CreateState::Rollback { job }),
        },
    }
}

} // verus!
