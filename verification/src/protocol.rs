//! What an engine asks of the program around it, and what the program answers.
//!
//! An engine touches no file and reads no line. It hands out a [`Request`];
//! the program carries the request out and hands back a [`Reply`].

use crate::config::{Config, ConfigView};
use crate::error::ErrorKind;
use vstd::prelude::*;

verus! {

/// A question for the person at the prompt.
#[derive(Debug, PartialEq, Eq)]
pub enum Question {
    /// Which target directory a new root version has.
    DefaultTarget,
    /// Whether a new sub-version has its parent's target directory.
    SameTarget { parent_target: String },
    /// Which target directory of its own a new sub-version has.
    NewTarget,
    /// What there is to say about the new version.
    Info,
}

/// A [`Question`] as mathematical values.
pub enum QuestionView {
    DefaultTarget,
    SameTarget { parent_target: Seq<char> },
    NewTarget,
    Info,
}

impl View for Question {
    type V = QuestionView;

    open spec fn view(&self) -> QuestionView {
        match self {
            Question::DefaultTarget => QuestionView::DefaultTarget,
            Question::SameTarget { parent_target } => QuestionView::SameTarget {
                parent_target: parent_target@,
            },
            Question::NewTarget => QuestionView::NewTarget,
            Question::Info => QuestionView::Info,
        }
    }
}

/// What an engine wants done before it goes on.
#[derive(Debug, PartialEq, Eq)]
pub enum Request {
    /// Read the record of the directory at `path`.
    LoadRecord { path: Vec<String> },
    /// Find out whether `path` is a directory.
    ProbeDirectory { path: Vec<String> },
    /// Make the directory at `path`.
    CreateDirectory { path: Vec<String> },
    /// Find out whether the directory at `path` holds a record file.
    ProbeRecord { path: Vec<String> },
    /// Put a question and read the answer.
    Ask { question: Question },
    /// Show the options, numbered from 1, and read which one is chosen.
    Choose { options: Vec<String> },
    /// Write `record` as the record of the directory at `path`.
    SaveRecord { path: Vec<String>, record: Config },
    /// Remove the directory at `path` with all that is in it.
    RemoveDirectory { path: Vec<String> },
}

/// A [`Request`] as mathematical values.
pub enum RequestView {
    LoadRecord { path: Seq<Seq<char>> },
    ProbeDirectory { path: Seq<Seq<char>> },
    CreateDirectory { path: Seq<Seq<char>> },
    ProbeRecord { path: Seq<Seq<char>> },
    Ask { question: QuestionView },
    Choose { options: Seq<Seq<char>> },
    SaveRecord { path: Seq<Seq<char>>, record: ConfigView },
    RemoveDirectory { path: Seq<Seq<char>> },
}

impl View for Request {
    type V = RequestView;

    open spec fn view(&self) -> RequestView {
        match self {
            Request::LoadRecord { path } => RequestView::LoadRecord { path: path.deep_view() },
            Request::ProbeDirectory { path } => RequestView::ProbeDirectory {
                path: path.deep_view(),
            },
            Request::CreateDirectory { path } => RequestView::CreateDirectory {
                path: path.deep_view(),
            },
            Request::ProbeRecord { path } => RequestView::ProbeRecord { path: path.deep_view() },
            Request::Ask { question } => RequestView::Ask { question: question@ },
            Request::Choose { options } => RequestView::Choose { options: options.deep_view() },
            Request::SaveRecord { path, record } => RequestView::SaveRecord {
                path: path.deep_view(),
                record: record@,
            },
            Request::RemoveDirectory { path } => RequestView::RemoveDirectory {
                path: path.deep_view(),
            },
        }
    }
}

/// What came of a [`Request`].
#[derive(Debug, PartialEq, Eq)]
pub enum Reply {
    /// The record that was read, or why none was: `NotFound` where there is
    /// no record file, `Malformed` where its content is no record.
    Record(Result<Config, ErrorKind>),
    /// Whether what was probed for is there.
    Present(bool),
    /// Whether the directory was made, the record written, the directory removed.
    Completed(bool),
    /// The answer to a yes-or-no question.
    Confirmed(bool),
    /// The answer to a question for a text.
    Text(String),
    /// The number that was chosen, `None` where the answer was no number.
    Choice(Option<usize>),
}

/// A [`Reply`] as mathematical values.
pub enum ReplyView {
    Record(Result<ConfigView, ErrorKind>),
    Present(bool),
    Completed(bool),
    Confirmed(bool),
    Text(Seq<char>),
    Choice(Option<usize>),
}

impl View for Reply {
    type V = ReplyView;

    open spec fn view(&self) -> ReplyView {
        match self {
            Reply::Record(Ok(record)) => ReplyView::Record(Ok(record@)),
            Reply::Record(Err(error)) => ReplyView::Record(Err(*error)),
            Reply::Present(present) => ReplyView::Present(*present),
            Reply::Completed(done) => ReplyView::Completed(*done),
            Reply::Confirmed(yes) => ReplyView::Confirmed(*yes),
            Reply::Text(text) => ReplyView::Text(text@),
            Reply::Choice(number) => ReplyView::Choice(*number),
        }
    }
}

impl RequestView {
    /// Whether `reply` is of the kind that answers this request.
    pub open spec fn accepts(self, reply: ReplyView) -> bool {
        match self {
            RequestView::LoadRecord { .. } => reply is Record,
            RequestView::ProbeDirectory { .. } | RequestView::ProbeRecord { .. } => reply is Present,
            RequestView::CreateDirectory { .. }
            | RequestView::SaveRecord { .. }
            | RequestView::RemoveDirectory { .. } => reply is Completed,
            RequestView::Ask { question } => if question is SameTarget {
                reply is Confirmed
            } else {
                reply is Text
            },
            RequestView::Choose { .. } => reply is Choice,
        }
    }
}

impl Request {
    /// Whether `reply` is of the kind that answers this request. An engine
    /// passes over a reply of another kind.
    pub fn accepts(&self, reply: &Reply) -> (fits: bool)
        ensures
            fits == self@.accepts(reply@),
    {
        match self {
            Request::LoadRecord { .. } => matches!(reply, Reply::Record(_)),
            Request::ProbeDirectory { .. } | Request::ProbeRecord { .. } => matches!(
                reply,
                Reply::Present(_)
            ),
            Request::CreateDirectory { .. }
            | Request::SaveRecord { .. }
            | Request::RemoveDirectory { .. } => matches!(reply, Reply::Completed(_)),
            Request::Ask { question } => match question {
                Question::SameTarget { .. } => matches!(reply, Reply::Confirmed(_)),
                _ => matches!(reply, Reply::Text(_)),
            },
            Request::Choose { .. } => matches!(reply, Reply::Choice(_)),
        }
    }
}

} // verus!
