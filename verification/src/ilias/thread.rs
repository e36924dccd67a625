//! The decision core of the thread handler: picking the displayed author
//! out of the `|`-separated fields of a post header. Scraping the posts and
//! writing them live outside the library.

use vstd::prelude::*;

use crate::util::str_eq;

verus! {

/// Picks the author field of a post header, given the `|`-separated fields
/// of its byline: two fields mean a pseudonymous forum, where the pseudonym
/// (the first field) is the author; with three fields the real name stands
/// second, unless it is only the pseudonym marker. Any other shape is
/// unrecognized and `None`.
pub fn pick_author_index(parts: &Vec<String>) -> (r: Option<usize>)
    ensures
        r == (if parts.deep_view().len() == 2 {
            Some(0usize)
        } else if parts.deep_view().len() == 3 {
            if parts.deep_view()[1] == "Pseudonym"@ {
                Some(0usize)
            } else {
                Some(1usize)
            }
        } else {
            None::<usize>
        }),
{
    if parts.len() == 2 {
        Some(0)
    } else if parts.len() == 3 {
        proof {
            assert(parts.deep_view()[1] == parts@[1]@);
        }
        if str_eq(parts[1].as_str(), "Pseudonym") {
            Some(0)
        } else {
            Some(1)
        }
    } else {
        None
    }
}

} // verus!
