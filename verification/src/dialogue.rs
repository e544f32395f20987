//! The questions that give a new version its record.
//!
//! A root version is asked for its target directory and its description. A
//! sub-version is first asked whether it takes its parent's target: on a yes
//! the target is copied from the parent as it is at that moment, on a no it
//! is asked for.

use crate::config::{Config, ConfigView};
use crate::protocol::{Question, QuestionView, Reply, ReplyView, RequestView};
use vstd::prelude::*;

verus! {

/// Where the questioning stands: the question that is open.
#[derive(Debug, PartialEq, Eq)]
pub enum Dialogue {
    /// A root version's target directory is open.
    DefaultTarget,
    /// Whether the sub-version takes `parent_target` is open.
    SameTarget { parent_target: String },
    /// The sub-version's own target directory is open.
    NewTarget,
    /// The target is settled, the description is open.
    Info { target: String },
}

/// A [`Dialogue`] as mathematical values.
pub enum DialogueView {
    DefaultTarget,
    SameTarget { parent_target: Seq<char> },
    NewTarget,
    Info { target: Seq<char> },
}

impl View for Dialogue {
    type V = DialogueView;

    open spec fn view(&self) -> DialogueView {
        match self {
            Dialogue::DefaultTarget => DialogueView::DefaultTarget,
            Dialogue::SameTarget { parent_target } => DialogueView::SameTarget {
                parent_target: parent_target@,
            },
            Dialogue::NewTarget => DialogueView::NewTarget,
            Dialogue::Info { target } => DialogueView::Info { target: target@ },
        }
    }
}

/// What an answer leads to: the next open question, or the finished record.
#[derive(Debug, PartialEq, Eq)]
pub enum DialogueStep {
    Continue(Dialogue),
    Done(Config),
}

/// A [`DialogueStep`] as mathematical values.
pub enum DialogueStepView {
    Continue(DialogueView),
    Done(ConfigView),
}

impl View for DialogueStep {
    type V = DialogueStepView;

    open spec fn view(&self) -> DialogueStepView {
        match self {
            DialogueStep::Continue(dialogue) => DialogueStepView::Continue(dialogue@),
            DialogueStep::Done(record) => DialogueStepView::Done(record@),
        }
    }
}

impl DialogueView {
    /// The first open question: for a root version its target, for a
    /// sub-version whether it takes the target of `parent`.
    pub open spec fn start(parent: Option<ConfigView>) -> DialogueView {
        match parent {
            None => DialogueView::DefaultTarget,
            Some(record) => DialogueView::SameTarget { parent_target: record.target },
        }
    }

    /// The question that is open.
    pub open spec fn question(self) -> QuestionView {
        match self {
            DialogueView::DefaultTarget => QuestionView::DefaultTarget,
            DialogueView::SameTarget { parent_target } => QuestionView::SameTarget {
                parent_target,
            },
            DialogueView::NewTarget => QuestionView::NewTarget,
            DialogueView::Info { .. } => QuestionView::Info,
        }
    }

    /// Where `reply` leads. A reply that does not answer the open question
    /// leaves it open.
    pub open spec fn next(self, reply: ReplyView) -> DialogueStepView {
        match (self, reply) {
            (DialogueView::DefaultTarget, ReplyView::Text(target)) => DialogueStepView::Continue(
                DialogueView::Info { target },
            ),
            (
                DialogueView::SameTarget { parent_target },
                ReplyView::Confirmed(yes),
            ) => DialogueStepView::Continue(
                if yes {
                    DialogueView::Info { target: parent_target }
                } else {
                    DialogueView::NewTarget
                },
            ),
            (DialogueView::NewTarget, ReplyView::Text(target)) => DialogueStepView::Continue(
                DialogueView::Info { target },
            ),
            (DialogueView::Info { target }, ReplyView::Text(info)) => DialogueStepView::Done(
                ConfigView::fresh(target, info),
            ),
            _ => DialogueStepView::Continue(self),
        }
    }
}

/// Opens the questioning for a new version: a sub-version of the version
/// with record `parent_config`, or a root version where there is none.
pub fn create_config(parent_config: Option<&Config>) -> (dialogue: Dialogue)
    ensures
        dialogue@ == DialogueView::start(
            match parent_config {
                Some(record) => Some(record@),
                None => None,
            },
        ),
{
    match parent_config {
        None => Dialogue::DefaultTarget,
        Some(record) => Dialogue::SameTarget { parent_target: record.target().clone() },
    }
}

impl Dialogue {
    /// The question that is open.
    pub fn question(&self) -> (question: Question)
        ensures
            question@ == self@.question(),
    {
        match self {
            Dialogue::DefaultTarget => Question::DefaultTarget,
            Dialogue::SameTarget { parent_target } => Question::SameTarget {
                parent_target: parent_target.clone(),
            },
            Dialogue::NewTarget => Question::NewTarget,
            Dialogue::Info { .. } => Question::Info,
        }
    }

    /// Takes the answer to the open question and says what is next.
    pub fn answer(self, reply: Reply) -> (step: DialogueStep)
        ensures
            step@ == self@.next(reply@),
    {
        match self {
            Dialogue::DefaultTarget => match reply {
                Reply::Text(target) => DialogueStep::Continue(Dialogue::Info { target }),
                _ => DialogueStep::Continue(Dialogue::DefaultTarget),
            },
            Dialogue::SameTarget { parent_target } => match reply {
                Reply::Confirmed(yes) => if yes {
                    DialogueStep::Continue(Dialogue::Info { target: parent_target })
                } else {
                    DialogueStep::Continue(Dialogue::NewTarget)
                },
                _ => DialogueStep::Continue(Dialogue::SameTarget { parent_target }),
            },
            Dialogue::NewTarget => match reply {
                Reply::Text(target) => DialogueStep::Continue(Dialogue::Info { target }),
                _ => DialogueStep::Continue(Dialogue::NewTarget),
            },
            Dialogue::Info { target } => match reply {
                Reply::Text(info) => DialogueStep::Done(Config::fresh(target, info)),
                _ => DialogueStep::Continue(Dialogue::Info { target }),
            },
        }
    }
}

/// A reply of a kind that does not answer the open question changes nothing.
pub proof fn lemma_dialogue_passes_over(dialogue: DialogueView, reply: ReplyView)
    requires
        !(RequestView::Ask { question: dialogue.question() }).accepts(reply),
    ensures
        dialogue.next(reply) == DialogueStepView::Continue(dialogue),
{
}

/// A reply of the kind that answers the open question moves the questioning
/// on: to another question, or to the finished record.
pub proof fn lemma_dialogue_moves_on(dialogue: DialogueView, reply: ReplyView)
    requires
        (RequestView::Ask { question: dialogue.question() }).accepts(reply),
    ensures
        dialogue.next(reply) != DialogueStepView::Continue(dialogue),
{
}

/// The record that the questioning ends with is that of a version just made:
/// it has no sub-version, so it is a leaf and keeps the record's invariant.
pub proof fn lemma_dialogue_ends_fresh(dialogue: DialogueView, reply: ReplyView)
    requires
        dialogue.next(reply) is Done,
    ensures
        dialogue.next(reply)->Done_0.is_leaf(),
        dialogue.next(reply)->Done_0.unique_children(),
        dialogue.next(reply)->Done_0.ignore.len() == 0,
{
}

/// A sub-version that takes its parent's target has the target that its
/// parent has when it is made, whatever the description.
pub proof fn lemma_inherited_target(parent: ConfigView, info: Seq<char>)
    ensures
        DialogueView::start(Some(parent)).next(ReplyView::Confirmed(true))
            == DialogueStepView::Continue(DialogueView::Info { target: parent.target }),
        (DialogueView::Info { target: parent.target }).next(ReplyView::Text(info))
            == DialogueStepView::Done(ConfigView::fresh(parent.target, info)),
{
}

} // verus!
