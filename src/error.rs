use vstd::prelude::*;

verus! {

/// Why a document could not be decoded, or an item could not be built.
#[derive(Debug, Clone, PartialEq)]
pub enum Error {
    /// A required key was absent.
    MissingField(String),
    /// A key occurred twice in one object.
    DuplicateField(String),
    /// A key that the schema does not know.
    UnknownField(String),
    /// The value under a key has the wrong JSON type.
    InvalidType(String),
    /// A value that must be an object is not one.
    ExpectedObject,
    /// An item builder was finalized without HTML or text content.
    MissingContent,
}

/// Mathematical model of [`Error`].
pub enum ErrorV {
    MissingField(Seq<char>),
    DuplicateField(Seq<char>),
    UnknownField(Seq<char>),
    InvalidType(Seq<char>),
    ExpectedObject,
    MissingContent,
}

impl View for Error {
    type V = ErrorV;

    open spec fn view(&self) -> ErrorV {
        match self {
            Error::MissingField(s) => ErrorV::MissingField(s@),
            Error::DuplicateField(s) => ErrorV::DuplicateField(s@),
            Error::UnknownField(s) => ErrorV::UnknownField(s@),
            Error::InvalidType(s) => ErrorV::InvalidType(s@),
            Error::ExpectedObject => ErrorV::ExpectedObject,
            Error::MissingContent => ErrorV::MissingContent,
        }
    }
}

/// A `Result` of exec values agrees with one of models.
pub open spec fn result_matches<A: View>(r: Result<A, Error>, s: Result<A::V, ErrorV>) -> bool {
    match (r, s) {
        (Ok(a), Ok(b)) => a@ == b,
        (Err(e), Err(g)) => e@ == g,
        _ => false,
    }
}

} // verus!
