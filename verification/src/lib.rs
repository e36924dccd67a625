//! Crawl engine for mirroring a tree-structured learning-platform repository
//! into a local directory: a locator parser and resource classifier for
//! discovered hyperlinks, a hierarchical ignore-pattern matcher, and the
//! flow-control state (worker permits, request rate, bounded retry) that
//! governs the crawl.

pub mod cli;
pub mod errors;
pub mod ilias;
pub mod iliasignore;
pub mod queue;
pub mod retry;
pub mod util;

use vstd::prelude::*;

verus! {

/// The site base address every relative link is resolved against.
pub open spec fn base_url_spec() -> Seq<char> {
    "https://ilias.studium.kit.edu/"@
}

/// Returns the site base address.
pub fn base_url() -> (r: &'static str)
    ensures
        r@ == base_url_spec(),
{
    "https://ilias.studium.kit.edu/"
}

/// What a scheduled unit does once it holds its permit.
#[derive(Clone, Copy, Debug, PartialEq, Eq, Structural)]
pub enum UnitPlan {
    /// The destination is out of scope; the unit ends without work.
    Skip,
    /// The unit runs its kind-specific work, creating its directory first
    /// where the resource is a container.
    Run { create_dir: bool },
}

/// What every scheduled unit decides first, before its kind-specific work:
/// the destination, relative to the sync target, is held against the
/// layered ignore rules; in scope, a container gets its directory created
/// before its handler runs and may then submit child units.
pub fn plan_unit(
    ignore: &iliasignore::IliasIgnore,
    relative_path: &str,
    obj: &ilias::Object,
) -> (r: UnitPlan)
    requires
        ignore.wf(),
        relative_path@.len() > 0 ==> relative_path@[0] != '/',
    ensures
        r == (if iliasignore::should_ignore_spec(ignore@, relative_path@, obj@.is_dir_spec()) {
            UnitPlan::Skip
        } else {
            UnitPlan::Run { create_dir: obj@.is_dir_spec() }
        }),
{
    let is_dir = obj.is_dir();
    if ignore.should_ignore(relative_path, is_dir) {
        UnitPlan::Skip
    } else {
        UnitPlan::Run { create_dir: is_dir }
    }
}

} // verus!
