//! The one error type of the library.
use vstd::prelude::*;

verus! {

/// Why nothing could be taken from a channel.
#[derive(Clone, Copy, Debug, PartialEq, Eq, Structural)]
pub enum TryRecvFailure {
    /// Nothing waits, and the channel is open.
    Empty,
    /// Nothing waits, and the channel is closed.
    Closed,
}

/// Why nothing could be put into a channel.
#[derive(Clone, Copy, Debug, PartialEq, Eq, Structural)]
pub enum TrySendFailure {
    /// The channel holds as many messages as it can.
    Full,
    /// The channel is closed.
    Closed,
}

/// What can go wrong in supervising a process.
#[derive(Debug)]
pub enum Error {
    /// A run was asked for while one is active.
    AlreadyRunning,
    /// A stop was asked for while nothing runs.
    NotRunning,
    /// A stop was asked for while the process handle is gone: the child has
    /// exited and was not started again yet.
    ProcIsAbsent,
    /// A message could not be sent; the text says why.
    SendError(String),
    /// A channel was closed while a message was awaited.
    RecvError,
    /// Nothing could be taken from a channel.
    TryRecvError(TryRecvFailure),
    /// The background task could not be scheduled, or failed.
    TaskError(String),
    /// An event subscription could not be installed; the text says why.
    CallbackError(String),
}

/// An [`Error`] as a mathematical value: texts as sequences of characters.
pub enum ErrorView {
    AlreadyRunning,
    NotRunning,
    ProcIsAbsent,
    SendError(Seq<char>),
    RecvError,
    TryRecvError(TryRecvFailure),
    TaskError(Seq<char>),
    CallbackError(Seq<char>),
}

impl View for Error {
    type V = ErrorView;

    open spec fn view(&self) -> ErrorView {
        match *self {
            Error::AlreadyRunning => ErrorView::AlreadyRunning,
            Error::NotRunning => ErrorView::NotRunning,
            Error::ProcIsAbsent => ErrorView::ProcIsAbsent,
            Error::SendError(text) => ErrorView::SendError(text@),
            Error::RecvError => ErrorView::RecvError,
            Error::TryRecvError(why) => ErrorView::TryRecvError(why),
            Error::TaskError(text) => ErrorView::TaskError(text@),
            Error::CallbackError(text) => ErrorView::CallbackError(text@),
        }
    }
}

/// A result with no value but success, as a mathematical value.
pub open spec fn outcome_view(r: Result<(), Error>) -> Result<(), ErrorView> {
    match r {
        Ok(_) => Ok(()),
        Err(e) => Err(e@),
    }
}

} // verus!
