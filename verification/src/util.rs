//! String primitives shared by the locator parser, the classifier and the
//! path handling: predicates over `Seq<char>` views and executable
//! counterparts proved against them.

use vstd::prelude::*;

verus! {

/// ASCII lower-casing of a single character; everything outside `A`..`Z`
/// is left alone.
pub open spec fn lower_char(c: char) -> char {
    if 'A' <= c && c <= 'Z' {
        ((c as u32) + 32) as char
    } else {
        c
    }
}

/// ASCII lower-casing of a whole character sequence.
pub open spec fn lower(s: Seq<char>) -> Seq<char> {
    Seq::new(s.len(), |i: int| lower_char(s[i]))
}

/// First position of `c` in `s` at or after `from`.
pub open spec fn find_spec(s: Seq<char>, c: char, from: int) -> Option<int>
    decreases s.len() - from,
{
    if from < 0 || from >= s.len() {
        None
    } else if s[from] == c {
        Some(from)
    } else {
        find_spec(s, c, from + 1)
    }
}

/// Does `sub` occur contiguously anywhere in `s`?
pub open spec fn contains_seq(s: Seq<char>, sub: Seq<char>) -> bool {
    exists|i: int| 0 <= i <= s.len() - sub.len() && sub =~= #[trigger] s.subrange(i, i + sub.len())
}

/// Characters never allowed in a file name; they are replaced by `-`.
pub open spec fn escape_char(c: char) -> char {
    if c == '/' || c == '\\' {
        '-'
    } else {
        c
    }
}

/// View of [`file_escape`]: every path separator replaced by `-`.
pub open spec fn file_escape_spec(s: Seq<char>) -> Seq<char> {
    Seq::new(s.len(), |i: int| escape_char(s[i]))
}

/// Whether two string slices hold the same characters.
pub fn str_eq(a: &str, b: &str) -> (r: bool)
    ensures
        r == (a@ == b@),
{
    let alen: usize = a.unicode_len();
    let blen: usize = b.unicode_len();
    if alen != blen {
        return false;
    }
    let mut i: usize = 0;
    while i < alen
        invariant
            alen == a@.len(),
            blen == b@.len(),
            alen == blen,
            i <= alen,
            forall|j: int| 0 <= j < i ==> a@[j] == b@[j],
        decreases alen - i,
    {
        if a.get_char(i) != b.get_char(i) {
            return false;
        }
        i = i + 1;
    }
    proof {
        assert(a@ =~= b@);
    }
    true
}

/// Whether `s` starts with `prefix`.
pub fn starts_with(s: &str, prefix: &str) -> (r: bool)
    ensures
        r == prefix@.is_prefix_of(s@),
{
    let plen: usize = prefix.unicode_len();
    let slen: usize = s.unicode_len();
    if plen > slen {
        assert(!prefix@.is_prefix_of(s@));
        return false;
    }
    let mut i: usize = 0;
    while i < plen
        invariant
            plen == prefix@.len(),
            slen == s@.len(),
            plen <= slen,
            i <= plen,
            forall|j: int| 0 <= j < i ==> s@[j] == prefix@[j],
        decreases plen - i,
    {
        if s.get_char(i) != prefix.get_char(i) {
            assert(!prefix@.is_prefix_of(s@));
            return false;
        }
        i = i + 1;
    }
    proof {
        assert(prefix@ =~= s@.subrange(0, plen as int));
    }
    true
}

/// Whether `s` ends with `suffix`.
pub fn ends_with(s: &str, suffix: &str) -> (r: bool)
    ensures
        r == suffix@.is_suffix_of(s@),
{
    let xlen: usize = suffix.unicode_len();
    let slen: usize = s.unicode_len();
    if xlen > slen {
        assert(!suffix@.is_suffix_of(s@));
        return false;
    }
    let off: usize = slen - xlen;
    let mut i: usize = 0;
    while i < xlen
        invariant
            xlen == suffix@.len(),
            slen == s@.len(),
            off == slen - xlen,
            i <= xlen,
            forall|j: int| 0 <= j < i ==> s@[off + j] == suffix@[j],
        decreases xlen - i,
    {
        if s.get_char(off + i) != suffix.get_char(i) {
            assert(!suffix@.is_suffix_of(s@));
            return false;
        }
        i = i + 1;
    }
    proof {
        assert(suffix@ =~= s@.subrange(off as int, slen as int));
    }
    true
}

/// Whether lower-casing `s` yields exactly `lowered` (which callers pass as
/// an already lower-case literal).
pub fn eq_lower(s: &str, lowered: &str) -> (r: bool)
    ensures
        r == (lower(s@) == lowered@),
{
    let slen: usize = s.unicode_len();
    let llen: usize = lowered.unicode_len();
    if slen != llen {
        assert(lower(s@).len() == s@.len());
        return false;
    }
    let mut i: usize = 0;
    while i < slen
        invariant
            slen == s@.len(),
            llen == lowered@.len(),
            slen == llen,
            i <= slen,
            forall|j: int| 0 <= j < i ==> lower_char(s@[j]) == lowered@[j],
        decreases slen - i,
    {
        let c: char = s.get_char(i);
        let d: char = lowered.get_char(i);
        let cu: u32 = c as u32;
        let du: u32 = d as u32;
        let matches_here: bool = if cu >= 65 && cu <= 90 {
            cu + 32 == du
        } else {
            cu == du
        };
        if !matches_here {
            proof {
                assert(lower_char(s@[i as int]) != lowered@[i as int]);
                assert(lower(s@)[i as int] != lowered@[i as int]);
            }
            return false;
        }
        i = i + 1;
    }
    proof {
        assert(lower(s@) =~= lowered@);
    }
    true
}

/// First position of `c` in `s` at or after `from`.
pub fn find_char(s: &str, c: char, from: usize) -> (r: Option<usize>)
    ensures
        match r {
            Some(i) => from <= i && i < s@.len() && s@[i as int] == c && find_spec(
                s@,
                c,
                from as int,
            ) == Some(i as int),
            None => find_spec(s@, c, from as int) is None,
        },
    decreases s@.len() - from,
{
    if from >= s.unicode_len() {
        None
    } else if s.get_char(from) == c {
        Some(from)
    } else {
        match find_char(s, c, from + 1) {
            Some(i) => Some(i),
            None => None,
        }
    }
}

/// Whether `sub` occurs contiguously anywhere in `s`.
pub fn contains_str(s: &str, sub: &str) -> (r: bool)
    ensures
        r == contains_seq(s@, sub@),
{
    let slen: usize = s.unicode_len();
    let xlen: usize = sub.unicode_len();
    if xlen > slen {
        assert(!contains_seq(s@, sub@));
        return false;
    }
    let last: usize = slen - xlen;
    let mut i: usize = 0;
    while i <= last
        invariant
            slen == s@.len(),
            xlen == sub@.len(),
            last == slen - xlen,
            i <= last + 1,
            forall|k: int| 0 <= k < i ==> !(sub@ =~= #[trigger] s@.subrange(k, k + sub@.len())),
        decreases last + 1 - i,
    {
        let mut j: usize = 0;
        let mut all: bool = true;
        while j < xlen
            invariant
                slen == s@.len(),
                xlen == sub@.len(),
                i + xlen <= slen,
                j <= xlen,
                all == (forall|k: int| 0 <= k < j ==> s@[i + k] == sub@[k]),
            decreases xlen - j,
        {
            if s.get_char(i + j) != sub.get_char(j) {
                all = false;
                assert(s@[i + j] != sub@[j as int]);
                j = xlen;
            } else {
                j = j + 1;
            }
        }
        if all {
            proof {
                assert(sub@ =~= s@.subrange(i as int, i + sub@.len()));
            }
            return true;
        }
        proof {
            assert(!(sub@ =~= s@.subrange(i as int, i + sub@.len())));
        }
        i = i + 1;
    }
    false
}

/// The character of one decimal digit.
pub open spec fn dec_digit(d: int) -> char {
    if d == 0 {
        '0'
    } else if d == 1 {
        '1'
    } else if d == 2 {
        '2'
    } else if d == 3 {
        '3'
    } else if d == 4 {
        '4'
    } else if d == 5 {
        '5'
    } else if d == 6 {
        '6'
    } else if d == 7 {
        '7'
    } else if d == 8 {
        '8'
    } else {
        '9'
    }
}

/// The decimal rendering of a number, most significant digit first.
pub open spec fn dec_spec(n: nat) -> Seq<char>
    decreases n,
{
    if n < 10 {
        seq![dec_digit(n as int)]
    } else {
        dec_spec(n / 10).push(dec_digit((n % 10) as int))
    }
}

/// The character of one decimal digit.
fn digit_char(d: usize) -> (c: char)
    requires
        d < 10,
    ensures
        c == dec_digit(d as int),
{
    match d {
        0 => '0',
        1 => '1',
        2 => '2',
        3 => '3',
        4 => '4',
        5 => '5',
        6 => '6',
        7 => '7',
        8 => '8',
        _ => '9',
    }
}

/// Renders a number in decimal.
pub fn to_decimal(n: usize) -> (r: String)
    ensures
        r@ == dec_spec(n as nat),
    decreases n,
{
    if n < 10 {
        let mut s = String::new();
        push_char(&mut s, digit_char(n));
        proof {
            assert(s@ =~= dec_spec(n as nat));
        }
        s
    } else {
        let mut s = to_decimal(n / 10);
        push_char(&mut s, digit_char(n % 10));
        s
    }
}

/// ASCII whitespace, as far as trimming is concerned.
pub open spec fn is_space(c: char) -> bool {
    c == ' ' || c == '\t' || c == '\r' || c == '\n'
}

/// Number of whitespace characters at the front of `s`.
pub open spec fn head_spaces(s: Seq<char>) -> int
    decreases s.len(),
{
    if s.len() == 0 || !is_space(s[0]) {
        0
    } else {
        1 + head_spaces(s.drop_first())
    }
}

/// Number of whitespace characters at the back of `s`.
pub open spec fn tail_spaces(s: Seq<char>) -> int
    decreases s.len(),
{
    if s.len() == 0 || !is_space(s.last()) {
        0
    } else {
        1 + tail_spaces(s.drop_last())
    }
}

/// View of [`trim`]: `s` without leading and trailing ASCII whitespace.
pub open spec fn trim_spec(s: Seq<char>) -> Seq<char> {
    let a = head_spaces(s);
    let b = s.len() - tail_spaces(s);
    if a < b {
        s.subrange(a, b)
    } else {
        Seq::empty()
    }
}

proof fn lemma_head_spaces(s: Seq<char>, k: int)
    requires
        0 <= k <= s.len(),
        forall|j: int| 0 <= j < k ==> is_space(s[j]),
        k < s.len() ==> !is_space(s[k]),
    ensures
        head_spaces(s) == k,
    decreases k,
{
    if k == 0 {
    } else {
        lemma_head_spaces(s.drop_first(), k - 1);
    }
}

proof fn lemma_tail_spaces(s: Seq<char>, e: int)
    requires
        0 <= e <= s.len(),
        forall|j: int| e <= j < s.len() ==> is_space(s[j]),
        e > 0 ==> !is_space(s[e - 1]),
    ensures
        tail_spaces(s) == s.len() - e,
    decreases s.len() - e,
{
    if e == s.len() {
    } else {
        lemma_tail_spaces(s.drop_last(), e);
    }
}

/// Whether the character of `s` at position `i` is ASCII whitespace.
fn space_at(s: &str, i: usize) -> (r: bool)
    requires
        i < s@.len(),
    ensures
        r == is_space(s@[i as int]),
{
    let c: char = s.get_char(i);
    c == ' ' || c == '\t' || c == '\r' || c == '\n'
}

/// `s` without leading and trailing ASCII whitespace.
pub fn trim(s: &str) -> (r: &str)
    ensures
        r@ == trim_spec(s@),
{
    let len: usize = s.unicode_len();
    let mut start: usize = 0;
    while start < len && space_at(s, start)
        invariant
            len == s@.len(),
            start <= len,
            forall|j: int| 0 <= j < start ==> is_space(s@[j]),
        decreases len - start,
    {
        start = start + 1;
    }
    proof {
        lemma_head_spaces(s@, start as int);
    }
    if start == len {
        proof {
            lemma_tail_spaces(s@, 0);
        }
        return s.substring_char(len, len);
    }
    let mut end: usize = len;
    while end > start && space_at(s, end - 1)
        invariant
            len == s@.len(),
            start < len,
            !is_space(s@[start as int]),
            start <= end <= len,
            forall|j: int| end <= j < len ==> is_space(s@[j]),
        decreases end,
    {
        end = end - 1;
    }
    proof {
        assert(end > start);
        lemma_tail_spaces(s@, end as int);
    }
    s.substring_char(start, end)
}

/// Last position of `c` in `s`.
pub open spec fn rfind_spec(s: Seq<char>, c: char) -> Option<int>
    decreases s.len(),
{
    if s.len() == 0 {
        None
    } else if s.last() == c {
        Some(s.len() - 1)
    } else {
        rfind_spec(s.drop_last(), c)
    }
}

/// Last position of `c` in `s`.
pub fn rfind_char(s: &str, c: char) -> (r: Option<usize>)
    ensures
        match r {
            Some(i) => i < s@.len() && rfind_spec(s@, c) == Some(i as int),
            None => rfind_spec(s@, c) is None,
        },
    decreases s@.len(),
{
    let len: usize = s.unicode_len();
    if len == 0 {
        None
    } else if s.get_char(len - 1) == c {
        Some(len - 1)
    } else {
        let head: &str = s.substring_char(0, len - 1);
        proof {
            assert(head@ =~= s@.drop_last());
        }
        rfind_char(head, c)
    }
}

/// Whether one of the strings holds exactly these characters.
pub fn contains_string(v: &Vec<String>, s: &str) -> (r: bool)
    ensures
        r == v.deep_view().contains(s@),
{
    let n: usize = v.len();
    let mut i: usize = 0;
    while i < n
        invariant
            n == v@.len(),
            i <= n,
            forall|j: int| 0 <= j < i ==> v.deep_view()[j] != s@,
        decreases n - i,
    {
        proof {
            assert(v.deep_view()[i as int] == v@[i as int]@);
        }
        if str_eq(v[i].as_str(), s) {
            return true;
        }
        i = i + 1;
    }
    proof {
        assert(forall|j: int| 0 <= j < v.deep_view().len() ==> v.deep_view()[j] != s@);
    }
    false
}

/// Relies on `String::push` of std: appends the given character to the end
/// of the string.
#[verifier::external_body]
pub(crate) fn push_char(s: &mut String, c: char)
    ensures
        final(s)@ == old(s)@.push(c),
{
    s.push(c);
}

/// Replaces the characters that cannot appear in a file name by `-`.
pub fn file_escape(s: &str) -> (r: String)
    ensures
        r@ == file_escape_spec(s@),
{
    let len: usize = s.unicode_len();
    let mut out: String = String::new();
    let mut i: usize = 0;
    while i < len
        invariant
            len == s@.len(),
            i <= len,
            out@ =~= file_escape_spec(s@.subrange(0, i as int)),
        decreases len - i,
    {
        let c: char = s.get_char(i);
        if c == '/' || c == '\\' {
            push_char(&mut out, '-');
        } else {
            push_char(&mut out, c);
        }
        proof {
            assert(out@ =~= file_escape_spec(s@.subrange(0, i + 1)));
        }
        i = i + 1;
    }
    proof {
        assert(s@.subrange(0, len as int) =~= s@);
    }
    out
}

} // verus!
