//! Resource library vocabulary.

use vstd::prelude::*;
use crate::error::decode_message;

verus! {

/// A namespace of the resource library.
#[derive(Copy, Clone, Debug, PartialEq, Eq, Structural)]
pub enum LibraryNamespace {
    PromptChunk,
    MainPreset,
    CharacterPreset,
    Vibe,
}

/// Which class of failure a [`ResourceLibraryError`] reports.
#[derive(Copy, Clone, Debug, PartialEq, Eq, Structural)]
pub enum ResourceLibraryErrorKind {
    NotFound,
    Conflict,
    Repository,
}

/// A failure of the resource library store.
#[derive(Clone, Debug)]
pub struct ResourceLibraryError {
    kind: ResourceLibraryErrorKind,
    message: String,
}

impl ResourceLibraryError {
    /// The kind of this error.
    pub closed spec fn spec_kind(&self) -> ResourceLibraryErrorKind {
        self.kind
    }

    /// The message of this error.
    pub closed spec fn spec_message(&self) -> Seq<char> {
        self.message@
    }

    /// An error of `kind` carrying `message`.
    pub fn new(kind: ResourceLibraryErrorKind, message: String) -> (error: Self)
        ensures
            error.spec_kind() == kind,
            error.spec_message() == message@,
    {
        ResourceLibraryError { kind, message }
    }

    /// The kind of this error.
    pub fn kind(&self) -> (kind: ResourceLibraryErrorKind)
        ensures
            kind == self.spec_kind(),
    {
        self.kind
    }

    /// The message of this error.
    pub fn message(&self) -> (message: &str)
        ensures
            message@ == self.spec_message(),
    {
        self.message.as_str()
    }
}

/// The result type of resource library operations.
pub type ResourceLibraryResult<T> = Result<T, ResourceLibraryError>;

/// A repository error reporting that `value` is not a known `kind`.
pub fn library_value_error(kind: &str, value: &str) -> (error: ResourceLibraryError)
    ensures
        error.spec_kind() == ResourceLibraryErrorKind::Repository,
        error.spec_message() == decode_message(kind@, value@),
{
    let mut message = "unknown ".to_owned();
    message.append(kind);
    message.append(" `");
    message.append(value);
    message.append("`");
    ResourceLibraryError::new(ResourceLibraryErrorKind::Repository, message)
}

} // verus!
