//! The decision core of the video-plugin handler: the address of a course's
//! video list, and the query rewrite that turns the paginated list link
//! into the full asynchronous table request. Fetching and scraping the
//! table live outside the library.

use vstd::prelude::*;

use crate::base_url_spec;
use crate::base_url;

verus! {

/// View of [`video_list_url`].
pub open spec fn video_list_url_spec(ref_id: Seq<char>) -> Seq<char> {
    base_url_spec() + "ilias.php?ref_id="@ + ref_id
        + "&cmdClass=xocteventgui&cmdNode=nc:n4:14u&baseClass=ilObjPluginDispatchGUI&lang=de&limit=20&cmd=asyncGetTableGUI&cmdMode=asynch"@
}

/// The address under which the site serves the (paginated) video list of a
/// course.
pub fn video_list_url(ref_id: &str) -> (r: String)
    ensures
        r@ == video_list_url_spec(ref_id@),
{
    let mut s = String::from_str(base_url());
    s.append("ilias.php?ref_id=");
    s.append(ref_id);
    s.append(
        "&cmdClass=xocteventgui&cmdNode=nc:n4:14u&baseClass=ilObjPluginDispatchGUI&lang=de&limit=20&cmd=asyncGetTableGUI&cmdMode=asynch",
    );
    s
}

/// One query pair of the full-list link, rewritten: the command becomes the
/// asynchronous table request, the command class the video event handler.
pub open spec fn rewrite_pair(p: (Seq<char>, Seq<char>)) -> (Seq<char>, Seq<char>) {
    if p.0 == "cmd"@ {
        (p.0, "asyncGetTableGUI"@)
    } else if p.0 == "cmdClass"@ {
        (p.0, "xocteventgui"@)
    } else {
        p
    }
}

/// View of [`rewrite_video_query`]: every pair rewritten, and the
/// asynchronous mode appended.
pub open spec fn rewrite_spec(pairs: Seq<(Seq<char>, Seq<char>)>) -> Seq<(Seq<char>, Seq<char>)> {
    pairs.map_values(|p: (Seq<char>, Seq<char>)| rewrite_pair(p)).push(("cmdMode"@, "asynch"@))
}

/// Rewrites the query pairs of the full video list link so that the site
/// answers with the complete asynchronous table.
pub fn rewrite_video_query(pairs: &Vec<(String, String)>) -> (r: Vec<(String, String)>)
    ensures
        r.deep_view() == rewrite_spec(pairs.deep_view()),
{
    let ghost pv = pairs.deep_view();
    let mut out: Vec<(String, String)> = Vec::new();
    let n: usize = pairs.len();
    let mut i: usize = 0;
    while i < n
        invariant
            n == pairs@.len(),
            pv == pairs.deep_view(),
            i <= n,
            out.deep_view() =~= pv.subrange(0, i as int).map_values(
                |p: (Seq<char>, Seq<char>)| rewrite_pair(p),
            ),
        decreases n - i,
    {
        let pair: &(String, String) = &pairs[i];
        proof {
            assert(pv[i as int] == (pair.0@, pair.1@));
        }
        let k: String = pair.0.clone();
        if crate::util::str_eq(k.as_str(), "cmd") {
            out.push((k, String::from_str("asyncGetTableGUI")));
        } else if crate::util::str_eq(k.as_str(), "cmdClass") {
            out.push((k, String::from_str("xocteventgui")));
        } else {
            out.push((k, pair.1.clone()));
        }
        proof {
            assert(pv.subrange(0, i + 1).map_values(
                |p: (Seq<char>, Seq<char>)| rewrite_pair(p),
            ) =~= pv.subrange(0, i as int).map_values(
                |p: (Seq<char>, Seq<char>)| rewrite_pair(p),
            ).push(rewrite_pair(pv[i as int])));
            assert(out.deep_view() =~= pv.subrange(0, i as int).map_values(
                |p: (Seq<char>, Seq<char>)| rewrite_pair(p),
            ).push(rewrite_pair(pv[i as int])));
        }
        i = i + 1;
    }
    out.push((String::from_str("cmdMode"), String::from_str("asynch")));
    proof {
        assert(pv.subrange(0, n as int) =~= pv);
        assert(out.deep_view() =~= rewrite_spec(pv));
    }
    out
}

} // verus!
