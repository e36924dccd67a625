//! The decision core of the weblink handler: whether the resolved address
//! is a link list served by the site itself, and which of a list's entries
//! are real outgoing links.

use vstd::prelude::*;

use crate::base_url_spec;
use crate::base_url;
use crate::util::{starts_with, str_eq};

verus! {

/// Whether the address a weblink resolved to is a link list on the site
/// itself (to be expanded entry by entry) rather than a direct external
/// link (to be saved as it is).
pub fn is_link_list(resolved_url: &str) -> (r: bool)
    ensures
        r == base_url_spec().is_prefix_of(resolved_url@),
{
    starts_with(resolved_url, base_url())
}

/// Whether one entry of a link list is an outgoing link worth saving: only
/// locators whose command calls the link are.
pub fn is_call_link_cmd(cmd: &Option<String>) -> (r: bool)
    ensures
        r == (match cmd {
            Some(c) => c@ == "callLink"@,
            None => false,
        }),
{
    match cmd {
        Some(c) => str_eq(c.as_str(), "callLink"),
        None => false,
    }
}

} // verus!
