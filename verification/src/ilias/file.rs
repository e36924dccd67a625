//! The decision core of the file handler. Fetching and writing the stream
//! live outside the library; whether the unit downloads at all is decided
//! here.

use vstd::prelude::*;

verus! {

/// Whether a file unit downloads: never when file downloads are switched
/// off, and not when the file is already present unless a re-download is
/// forced.
pub fn should_download(skip_files: bool, force: bool, present: bool) -> (r: bool)
    ensures
        r == (!skip_files && (force || !present)),
{
    if skip_files {
        false
    } else {
        force || !present
    }
}

} // verus!
