//! Error taxonomy of the crawl engine. Every variant is recoverable: the
//! offending link or unit is skipped and the crawl continues.

use vstd::prelude::*;

verus! {

/// Errors raised while turning a discovered hyperlink into a typed resource.
#[derive(Clone, Copy, Debug, PartialEq, Eq, Structural)]
pub enum Error {
    /// The hyperlink could not be resolved to a syntactically valid
    /// absolute address.
    InvalidLocator,
    /// The locator matched no classification rule that yields a resource.
    UnclassifiableLocator,
    /// A direct file download was found without the surrounding metadata
    /// needed to name it.
    MissingFileMetadata,
}

impl Error {
    /// A human-readable description, for logging at the unit boundary.
    pub fn message(&self) -> (r: &'static str)
        ensures
            r@ == self.message_spec(),
    {
        match self {
            Error::InvalidLocator => "invalid locator",
            Error::UnclassifiableLocator => "unclassifiable locator",
            Error::MissingFileMetadata => "can't construct file object without file metadata",
        }
    }

    /// View of [`Error::message`].
    pub open spec fn message_spec(&self) -> Seq<char> {
        match self {
            Error::InvalidLocator => "invalid locator"@,
            Error::UnclassifiableLocator => "unclassifiable locator"@,
            Error::MissingFileMetadata => "can't construct file object without file metadata"@,
        }
    }
}

} // verus!
