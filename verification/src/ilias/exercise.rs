//! The decision core of the exercise handler: which links of an exercise
//! page are download links. The page walk and the naming of colliding
//! files live outside the library.

use vstd::prelude::*;

use crate::util::{str_eq, dec_spec, to_decimal, rfind_spec, rfind_char, contains_string};

verus! {

/// Whether a link's command marks it as a download of the exercise sheet,
/// a feedback file, or the global feedback file.
pub fn is_exercise_download_cmd(cmd: &str) -> (r: bool)
    ensures
        r == (cmd@ == "downloadFile"@ || cmd@ == "downloadGlobalFeedbackFile"@ || cmd@
            == "downloadFeedbackFile"@),
{
    str_eq(cmd, "downloadFile") || str_eq(cmd, "downloadGlobalFeedbackFile") || str_eq(
        cmd,
        "downloadFeedbackFile",
    )
}

/// The stem of a file name: everything before the last dot; empty where
/// there is no dot.
pub open spec fn stem_spec(filename: Seq<char>) -> Seq<char> {
    match rfind_spec(filename, '.') {
        None => Seq::empty(),
        Some(i) => filename.subrange(0, i),
    }
}

/// The extension of a file name: everything after the last dot; the whole
/// name where there is no dot.
pub open spec fn ext_spec(filename: Seq<char>) -> Seq<char> {
    match rfind_spec(filename, '.') {
        None => filename,
        Some(i) => filename.subrange(i + 1, filename.len() as int),
    }
}

/// The `i`-th alternative name for a colliding file: the counter goes in
/// front of the extension, or after the whole name where there is no stem.
pub open spec fn candidate_spec(stem: Seq<char>, ext: Seq<char>, i: nat) -> Seq<char> {
    if stem.len() == 0 {
        ext + dec_spec(i)
    } else {
        stem + dec_spec(i) + "."@ + ext
    }
}

/// The first alternative name, counted from `i` with `fuel` tries left,
/// that is not taken.
pub open spec fn disamb_spec(
    taken: Seq<Seq<char>>,
    stem: Seq<char>,
    ext: Seq<char>,
    i: nat,
    fuel: nat,
) -> Option<Seq<char>>
    decreases fuel,
{
    if fuel == 0 {
        None
    } else if !taken.contains(candidate_spec(stem, ext, i)) {
        Some(candidate_spec(stem, ext, i))
    } else {
        disamb_spec(taken, stem, ext, i + 1, (fuel - 1) as nat)
    }
}

/// The name under which a file is saved among names already taken: the
/// file name itself where it is free, else the first numbered alternative,
/// counted from 2, that is free. Distinct numbered alternatives cannot all
/// collide with `taken`, but only up to `taken.len() + 1` of them are
/// tried, so a caller must treat `None` as a collision it could not name.
pub fn unique_filename(taken: &Vec<String>, filename: &str) -> (r: Option<String>)
    requires
        taken@.len() <= usize::MAX - 2,
    ensures
        !taken.deep_view().contains(filename@) ==> r is Some && r->0@ == filename@,
        taken.deep_view().contains(filename@) ==> ({
            let expect = disamb_spec(
                taken.deep_view(),
                stem_spec(filename@),
                ext_spec(filename@),
                2,
                taken.deep_view().len() + 1,
            );
            &&& (r is Some) == (expect is Some)
            &&& r is Some ==> expect == Some(r->0@)
        }),
{
    if !contains_string(taken, filename) {
        return Some(filename.to_owned());
    }
    let ghost st = stem_spec(filename@);
    let ghost ex = ext_spec(filename@);
    let dot: Option<usize> = rfind_char(filename, '.');
    let len: usize = filename.unicode_len();
    let fuel: usize = taken.len() + 1;
    let mut tries: usize = 0;
    while tries < fuel
        invariant
            taken.deep_view().contains(filename@),
            fuel == taken.deep_view().len() + 1,
            taken@.len() <= usize::MAX - 2,
            tries <= fuel,
            len == filename@.len(),
            st == stem_spec(filename@),
            ex == ext_spec(filename@),
            match dot {
                Some(d) => d < len && rfind_spec(filename@, '.') == Some(d as int),
                None => rfind_spec(filename@, '.') is None,
            },
            disamb_spec(taken.deep_view(), st, ex, 2, fuel as nat) == disamb_spec(
                taken.deep_view(),
                st,
                ex,
                (2 + tries) as nat,
                (fuel - tries) as nat,
            ),
        decreases fuel - tries,
    {
        let i: usize = 2 + tries;
        let num = to_decimal(i);
        let cand: String = match dot {
            None => {
                let mut s = filename.to_owned();
                s.append(num.as_str());
                s
            },
            Some(d) => {
                if d == 0 {
                    let mut s = filename.substring_char(1, len).to_owned();
                    s.append(num.as_str());
                    s
                } else {
                    let mut s = filename.substring_char(0, d).to_owned();
                    s.append(num.as_str());
                    s.append(".");
                    s.append(filename.substring_char(d + 1, len));
                    s
                }
            },
        };
        proof {
            assert(cand@ == candidate_spec(st, ex, i as nat)) by {
                match rfind_spec(filename@, '.') {
                    None => {
                        assert(st.len() == 0);
                        assert(ex == filename@);
                    },
                    Some(d) => {
                        if d == 0 {
                            assert(st =~= Seq::<char>::empty());
                        }
                    },
                }
            }
        }
        let free = !contains_string(taken, cand.as_str());
        proof {
            assert(disamb_spec(
                taken.deep_view(),
                st,
                ex,
                (2 + tries) as nat,
                (fuel - tries) as nat,
            ) == if !taken.deep_view().contains(cand@) {
                Some(cand@)
            } else {
                disamb_spec(
                    taken.deep_view(),
                    st,
                    ex,
                    (2 + tries + 1) as nat,
                    (fuel - tries - 1) as nat,
                )
            });
        }
        if free {
            return Some(cand);
        }
        tries = tries + 1;
    }
    None
}

} // verus!
