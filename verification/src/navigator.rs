//! Places in the version tree, and making sure that a directory is there.
//!
//! A place is the list of names that lead to it from the directory where an
//! operation starts.

use crate::error::ErrorKind;
use crate::protocol::{Reply, ReplyView, Request, RequestView};
use vstd::prelude::*;

verus! {

/// The place of the child `name` of the version at `path`.
///
/// Only the list of names is made; no file is touched.
pub fn child_path(path: &Vec<String>, name: &str) -> (child: Vec<String>)
    ensures
        child.deep_view() == path.deep_view().push(name@),
{
    let mut child = path.clone();
    child.push(name.to_owned());
    assert(child.deep_view() =~= path.deep_view().push(name@));
    child
}

/// Where making sure of a directory stands.
#[derive(Debug, PartialEq, Eq)]
pub enum Provision {
    /// Waits to learn whether the directory is there.
    Probe { path: Vec<String> },
    /// The directory is not there: waits for it to be made.
    Create { path: Vec<String> },
}

/// A [`Provision`] as mathematical values.
pub enum ProvisionView {
    Probe { path: Seq<Seq<char>> },
    Create { path: Seq<Seq<char>> },
}

impl View for Provision {
    type V = ProvisionView;

    open spec fn view(&self) -> ProvisionView {
        match self {
            Provision::Probe { path } => ProvisionView::Probe { path: path.deep_view() },
            Provision::Create { path } => ProvisionView::Create { path: path.deep_view() },
        }
    }
}

/// What a reply leads to: the next state, or the end. At a good end the
/// value says whether the directory had to be made.
#[derive(Debug, PartialEq, Eq)]
pub enum ProvisionStep {
    Continue(Provision),
    Done(Result<bool, ErrorKind>),
}

/// A [`ProvisionStep`] as mathematical values.
pub enum ProvisionStepView {
    Continue(ProvisionView),
    Done(Result<bool, ErrorKind>),
}

impl View for ProvisionStep {
    type V = ProvisionStepView;

    open spec fn view(&self) -> ProvisionStepView {
        match self {
            ProvisionStep::Continue(state) => ProvisionStepView::Continue(state@),
            ProvisionStep::Done(result) => ProvisionStepView::Done(*result),
        }
    }
}

impl ProvisionView {
    /// The state in which making sure of the directory at `path` begins.
    pub open spec fn start(path: Seq<Seq<char>>) -> ProvisionView {
        ProvisionView::Probe { path }
    }

    /// The directory that is made sure of.
    pub open spec fn path(self) -> Seq<Seq<char>> {
        match self {
            ProvisionView::Probe { path } => path,
            ProvisionView::Create { path } => path,
        }
    }

    /// What the state waits for.
    pub open spec fn request(self) -> RequestView {
        match self {
            ProvisionView::Probe { path } => RequestView::ProbeDirectory { path },
            ProvisionView::Create { path } => RequestView::CreateDirectory { path },
        }
    }

    /// Where `reply` leads: a directory that is there is left alone, one
    /// that is not is made, and only a failure to make it is a failure. A
    /// reply of a kind that does not answer the state's request leaves the
    /// state as it is.
    pub open spec fn next(self, reply: ReplyView) -> ProvisionStepView {
        match (self, reply) {
            (ProvisionView::Probe { path }, ReplyView::Present(present)) => {
                if present {
                    ProvisionStepView::Done(Ok(false))
                } else {
                    ProvisionStepView::Continue(ProvisionView::Create { path })
                }
            },
            (ProvisionView::Create { .. }, ReplyView::Completed(made)) => {
                if made {
                    ProvisionStepView::Done(Ok(true))
                } else {
                    ProvisionStepView::Done(Err(ErrorKind::IOFailure))
                }
            },
            _ => ProvisionStepView::Continue(self),
        }
    }
}

/// Begins making sure that the directory at `path` is there.
pub fn ensure_directory(path: Vec<String>) -> (state: Provision)
    ensures
        state@ == ProvisionView::start(path.deep_view()),
{
    Provision::Probe { path }
}

impl Provision {
    /// What the state waits for.
    pub fn request(&self) -> (request: Request)
        ensures
            request@ == self@.request(),
    {
        match self {
            Provision::Probe { path } => Request::ProbeDirectory { path: path.clone() },
            Provision::Create { path } => Request::CreateDirectory { path: path.clone() },
        }
    }

    /// Takes the reply to the state's request and says what is next.
    pub fn answer(self, reply: Reply) -> (step: ProvisionStep)
        ensures
            step@ == self@.next(reply@),
    {
        match self {
            Provision::Probe { path } => match reply {
                Reply::Present(present) => if present {
                    ProvisionStep::Done(Ok(false))
                } else {
                    ProvisionStep::Continue(Provision::Create { path })
                },
                _ => ProvisionStep::Continue(Provision::Probe { path }),
            },
            Provision::Create { path } => match reply {
                Reply::Completed(made) => if made {
                    ProvisionStep::Done(Ok(true))
                } else {
                    ProvisionStep::Done(Err(ErrorKind::IOFailure))
                },
                _ => ProvisionStep::Continue(Provision::Create { path }),
            },
        }
    }
}

} // verus!
