//! The decision core of the course handler: recognizing a group whose page
//! only offers a join form, which is silently skipped when the content tree
//! cannot be read. The content extraction itself lives outside the library.

use vstd::prelude::*;

use crate::util::{contains_seq, contains_str};

verus! {

/// Whether a course page only offers a join form — a group the account is
/// not a member of, whose content-tree failure is not worth a warning.
pub fn is_join_only_page(html: &str) -> (r: bool)
    ensures
        r == contains_seq(html@, "input[name=\"cmd[join]\""@),
{
    contains_str(html, "input[name=\"cmd[join]\"")
}

} // verus!
