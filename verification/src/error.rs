//! The typed failures that the library hands to its callers.

use vstd::prelude::*;

verus! {

/// A field of a remote answer that the decoder insists on.
#[derive(Clone, Copy, Debug, PartialEq, Eq, Structural)]
pub enum Field {
    /// The numeric identifier of a page.
    PageId,
    /// The title of a page.
    Title,
    /// The marker of an outline entry.
    Number,
}

/// Everything that can go wrong in the library.
#[derive(Clone, Copy, Debug, PartialEq, Eq, Structural)]
pub enum Error {
    /// The caller handed over something unusable, such as an empty query.
    InvalidInput,
    /// The remote service could not be reached in time. The caller may try again.
    TransportError,
    /// The remote service answered with a status outside the success range.
    ApiError(u16),
    /// A required field of the answer is absent or malformed.
    DecodeError(Field),
    /// No page exists for the requested title or identifier.
    NotFound,
    /// The outline entry does not belong to the document on screen.
    InvalidSelection,
    /// There is no earlier page to go back to.
    EmptyHistory,
}

impl Field {
    /// The name of the field as a sequence of characters.
    pub open spec fn name_spec(self) -> Seq<char> {
        match self {
            Field::PageId => "page_id"@,
            Field::Title => "title"@,
            Field::Number => "number"@,
        }
    }

    /// The name under which the field appears in a remote answer.
    pub fn name(self) -> (s: &'static str)
        ensures
            s@ == self.name_spec(),
    {
        match self {
            Field::PageId => "page_id",
            Field::Title => "title",
            Field::Number => "number",
        }
    }
}

impl Error {
    /// True for the failures that a caller may answer by submitting again.
    pub open spec fn retryable_spec(self) -> bool {
        self == Error::TransportError
    }

    /// Tells whether submitting the same request again can help.
    pub fn is_retryable(self) -> (b: bool)
        ensures
            b == self.retryable_spec(),
    {
        match self {
            Error::TransportError => true,
            _ => false,
        }
    }
}

} // verus!
