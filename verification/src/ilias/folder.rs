//! The decision core of the folder handler: recognizing the link that
//! expands a collapsed session block, which is followed instead of the
//! folder's own listing. The listing walk lives outside the library.

use vstd::prelude::*;

verus! {

/// A decimal digit.
pub open spec fn is_ascii_digit(c: char) -> bool {
    '0' <= c && c <= '9'
}

/// View of [`has_expand_link`]: the address carries an `expand=` query
/// parameter with a digit after it.
pub open spec fn expand_link_spec(s: Seq<char>) -> bool {
    exists|i: int|
        0 <= i && i + 8 <= s.len() && #[trigger] s.subrange(i, i + 7) =~= "expand="@
            && is_ascii_digit(s[i + 7])
}

/// Whether a link of a folder listing expands a collapsed session block.
pub fn has_expand_link(href: &str) -> (r: bool)
    ensures
        r == expand_link_spec(href@),
{
    let len: usize = href.unicode_len();
    if len < 8 {
        assert(!expand_link_spec(href@));
        return false;
    }
    let last: usize = len - 8;
    let mut i: usize = 0;
    while i <= last
        invariant
            len == href@.len(),
            len >= 8,
            last == len - 8,
            i <= last + 1,
            forall|k: int|
                0 <= k < i ==> !(#[trigger] href@.subrange(k, k + 7) =~= "expand="@
                    && is_ascii_digit(href@[k + 7])),
        decreases last + 1 - i,
    {
        let mut j: usize = 0;
        let mut all: bool = true;
        let pat: &str = "expand=";
        proof {
            reveal_strlit("expand=");
        }
        while j < 7
            invariant
                len == href@.len(),
                i + 8 <= len,
                j <= 7,
                pat@ =~= "expand="@,
                pat@.len() == 7,
                all == (forall|k: int| 0 <= k < j ==> href@[i + k] == pat@[k]),
            decreases 7 - j,
        {
            if href.get_char(i + j) != pat.get_char(j) {
                all = false;
                assert(href@[i + j] != pat@[j as int]);
                j = 7;
            } else {
                j = j + 1;
            }
        }
        if all {
            let c: char = href.get_char(i + 7);
            if '0' <= c && c <= '9' {
                proof {
                    assert(href@.subrange(i as int, i + 7) =~= "expand="@);
                }
                return true;
            }
        }
        proof {
            assert(!(href@.subrange(i as int, i + 7) =~= "expand="@ && is_ascii_digit(
                href@[i + 7],
            ))) by {
                if href@.subrange(i as int, i + 7) =~= "expand="@ {
                    assert(forall|k: int|
                        0 <= k < 7 ==> href@[i + k] == #[trigger] "expand="@[k]);
                }
            }
        }
        i = i + 1;
    }
    false
}

} // verus!
