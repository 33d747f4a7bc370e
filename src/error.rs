use vstd::prelude::*;

verus! {

/// What went wrong while running an action or reaching shared state.
#[derive(Clone, Copy, Debug, PartialEq, Eq, Structural)]
pub enum ErrorKind {
    /// A provider had nothing to return.
    NoData,
    /// Shared state could not be locked.
    Locked,
    /// An action reported a failure.
    ActionFailed,
    /// A result could not be delivered from the worker.
    ChannelFailed,
    /// The item lacks the capability that the key asked for.
    NotSelectable,
}

/// An error with a human-readable message.
#[derive(Debug)]
pub struct ActionError {
    pub kind: ErrorKind,
    pub message: String,
}

/// The mathematical model of an [`ActionError`].
pub struct ErrorView {
    pub kind: ErrorKind,
    pub message: Seq<char>,
}

impl View for ActionError {
    type V = ErrorView;

    open spec fn view(&self) -> ErrorView {
        ErrorView { kind: self.kind, message: self.message@ }
    }
}

impl ActionError {
    pub fn new(kind: ErrorKind, message: &str) -> (r: ActionError)
        ensures
            r.kind == kind,
            r.message@ == message@,
    {
        ActionError { kind, message: message.to_string() }
    }

    pub fn description(&self) -> (r: &str)
        ensures
            r@ == self.message@,
    {
        self.message.as_str()
    }
}

impl Clone for ActionError {
    fn clone(&self) -> (r: Self)
        ensures
            r == *self,
    {
        ActionError { kind: self.kind, message: self.message.clone() }
    }
}

} // verus!
