//! The decision core of the forum handler: how a thread's directory is
//! named and when an already saved thread is skipped. Walking the thread
//! table itself is page scraping and lives outside the library.

use vstd::prelude::*;

verus! {

/// View of [`thread_dir_name`].
pub open spec fn thread_dir_name_spec(thr_pk: Seq<char>, title: Seq<char>) -> Seq<char> {
    thr_pk + "_"@ + title
}

/// The directory name of one thread: its `thr_pk` parameter and its title,
/// joined by an underscore.
pub fn thread_dir_name(thr_pk: &str, title: &str) -> (r: String)
    ensures
        r@ == thread_dir_name_spec(thr_pk@, title@),
{
    let mut s = thr_pk.to_owned();
    s.append("_");
    s.append(title);
    s
}

/// Whether a thread is skipped: it is when no more posts are available than
/// are already saved, unless a re-download is forced.
pub fn thread_up_to_date(available_posts: usize, saved_posts: usize, force: bool) -> (r: bool)
    ensures
        r == (available_posts <= saved_posts && !force),
{
    available_posts <= saved_posts && !force
}

} // verus!
