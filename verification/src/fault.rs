//! Input/output failures as plain values.

use vstd::prelude::*;

verus! {

/// The kinds of input/output failure that the library tells apart.
#[derive(Clone, Copy, Debug, PartialEq, Eq, Structural)]
pub enum IoErrorKind {
    /// A parameter was not acceptable.
    InvalidInput,
    /// An object of another type already stands at the path.
    AlreadyExists,
    /// Nothing stands at the path.
    NotFound,
    /// The stream ended inside a value.
    UnexpectedEof,
    /// The bytes do not form an acceptable value.
    InvalidData,
    /// The receiving side is gone.
    BrokenPipe,
    /// Any other failure.
    Other,
}

/// An input/output failure: its kind and the text that describes it.
#[derive(Clone, Debug)]
pub struct IoFailure {
    /// What kind of failure it is.
    pub kind: IoErrorKind,
    /// The description shown to people.
    pub message: String,
}

/// What an [`IoFailure`] says.
pub struct IoFailureView {
    /// The kind of the failure.
    pub kind: IoErrorKind,
    /// The characters of the description.
    pub message: Seq<char>,
}

impl View for IoFailure {
    type V = IoFailureView;

    open spec fn view(&self) -> IoFailureView {
        IoFailureView { kind: self.kind, message: self.message@ }
    }
}

impl IoFailure {
    /// A failure of the given kind with the given description.
    pub fn new(kind: IoErrorKind, message: &str) -> (failure: Self)
        ensures
            failure@ == (IoFailureView { kind, message: message@ }),
    {
        IoFailure { kind, message: message.to_owned() }
    }
}

} // verus!
