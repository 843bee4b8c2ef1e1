//! Text primitives over character sequences: whitespace trimming, prefix and
//! substring tests, splitting, line iteration, integer parsing and rendering.
//! Each executable function is proved against a specification over `Seq<char>`.
use vstd::prelude::*;

verus! {

// ---------------------------------------------------------------------------
// Character classes
// ---------------------------------------------------------------------------

/// The Unicode `White_Space` property, which is what `char::is_whitespace` tests.
pub open spec fn is_ws(c: char) -> bool {
    let u = c as u32;
    (0x09 <= u && u <= 0x0d) || u == 0x20 || u == 0x85 || u == 0xa0 || u == 0x1680 || (0x2000
        <= u && u <= 0x200a) || u == 0x2028 || u == 0x2029 || u == 0x202f || u == 0x205f || u
        == 0x3000
}

pub fn char_is_ws(c: char) -> (b: bool)
    ensures
        b == is_ws(c),
{
    let u = c as u32;
    (0x09 <= u && u <= 0x0d) || u == 0x20 || u == 0x85 || u == 0xa0 || u == 0x1680 || (0x2000
        <= u && u <= 0x200a) || u == 0x2028 || u == 0x2029 || u == 0x202f || u == 0x205f || u
        == 0x3000
}

pub open spec fn is_digit(c: char) -> bool {
    '0' <= c && c <= '9'
}

pub open spec fn is_ascii_char(c: char) -> bool {
    (c as u32) < 128
}

/// Whether `c` is alphabetic or numeric in the sense of Unicode, as
/// `char::is_alphanumeric` decides.
pub uninterp spec fn unicode_alphanumeric(c: char) -> bool;

/// `char::is_alphanumeric`: whether the character is alphabetic or numeric in
/// Unicode.  Claimed: the answer depends on the character alone
/// (`unicode_alphanumeric`).
#[verifier::external_body]
pub(crate) fn char_is_alphanumeric(c: char) -> (b: bool)
    ensures
        b == unicode_alphanumeric(c),
{
    c.is_alphanumeric()
}

/// `A`–`Z` become `a`–`z`; every other character stays as it is.
pub open spec fn ascii_lower_char(c: char) -> char {
    if 'A' <= c && c <= 'Z' {
        ((c as u32) + 32) as char
    } else {
        c
    }
}

/// `a`–`z` become `A`–`Z`; every other character stays as it is.
pub open spec fn ascii_upper_char(c: char) -> char {
    if 'a' <= c && c <= 'z' {
        ((c as u32) - 32) as char
    } else {
        c
    }
}

/// The ASCII lower-case of a string, character by character.
pub open spec fn ascii_lower(s: Seq<char>) -> Seq<char> {
    s.map_values(|c: char| ascii_lower_char(c))
}

/// The ASCII upper-case of a string, character by character.
pub open spec fn ascii_upper(s: Seq<char>) -> Seq<char> {
    s.map_values(|c: char| ascii_upper_char(c))
}

/// Every character of the string is ASCII.
pub open spec fn is_ascii_str(s: Seq<char>) -> bool {
    forall|i: int| 0 <= i < s.len() ==> is_ascii_char(#[trigger] s[i])
}

/// The full Unicode lower-case mapping of a string, as `str::to_lowercase` computes it.
pub uninterp spec fn lowercase(s: Seq<char>) -> Seq<char>;

/// The full Unicode upper-case mapping of a string, as `str::to_uppercase` computes it.
pub uninterp spec fn uppercase(s: Seq<char>) -> Seq<char>;

/// `str::to_lowercase`: the lower-case equivalent of the string.  Claimed:
/// the result depends on the string alone (`lowercase`), and on a string of
/// ASCII characters it is the ASCII lower-case (std documents that
/// `to_lowercase` lower-cases ASCII characters as `to_ascii_lowercase` does,
/// and the others besides).
#[verifier::external_body]
pub(crate) fn to_lowercase(s: &str) -> (r: String)
    ensures
        r@ == lowercase(s@),
        is_ascii_str(s@) ==> r@ == ascii_lower(s@),
{
    s.to_lowercase()
}

/// `str::to_uppercase`: the upper-case equivalent of the string.  Claimed:
/// the result depends on the string alone (`uppercase`), and on a string of
/// ASCII characters it is the ASCII upper-case (std documents that
/// `to_uppercase` upper-cases ASCII characters as `to_ascii_uppercase` does,
/// and the others besides).
#[verifier::external_body]
pub(crate) fn to_uppercase(s: &str) -> (r: String)
    ensures
        r@ == uppercase(s@),
        is_ascii_str(s@) ==> r@ == ascii_upper(s@),
{
    s.to_uppercase()
}

/// `String::push`: appends one character.  Claimed: the string is the old
/// one with `c` after it.
#[verifier::external_body]
pub(crate) fn push_char(s: &mut String, c: char)
    ensures
        final(s)@ == old(s)@.push(c),
{
    s.push(c);
}

/// The string of the characters of a slice, in order.
pub fn string_from_chars(cs: &[char]) -> (r: String)
    ensures
        r@ == cs@,
{
    let mut r = String::new();
    let mut i: usize = 0;
    while i < cs.len()
        invariant
            i <= cs@.len(),
            r@ == cs@.take(i as int),
        decreases cs@.len() - i,
    {
        push_char(&mut r, cs[i]);
        assert(cs@.take(i + 1) =~= cs@.take(i as int).push(cs@[i as int]));
        i = i + 1;
    }
    assert(cs@.take(cs@.len() as int) =~= cs@);
    r
}

/// The characters of `s`, in order.
pub fn chars_of(s: &str) -> (v: Vec<char>)
    ensures
        v@ == s@,
{
    let mut v: Vec<char> = Vec::new();
    for c in it: s.chars()
        invariant
            it.seq() == s@,
            v@ == it.seq().take(it.index()),
    {
        v.push(c);
    }
    v
}

/// A fresh copy of a string.
pub fn copy_str(s: &str) -> (r: String)
    ensures
        r@ == s@,
{
    s.to_owned()
}

pub fn append_seq(out: &mut String, cs: &Vec<char>)
    ensures
        final(out)@ == old(out)@ + cs@,
{
    let n = cs.len();
    for i in 0..n
        invariant
            n == cs@.len(),
            out@ == old(out)@ + cs@.take(i as int),
    {
        push_char(out, cs[i]);
        proof {
            assert(cs@.take(i + 1) =~= cs@.take(i as int).push(cs@[i as int]));
        }
    }
    proof {
        assert(cs@.take(n as int) =~= cs@);
    }
}

// ---------------------------------------------------------------------------
// Trimming
// ---------------------------------------------------------------------------

/// Number of leading whitespace characters.
pub open spec fn lead_ws(s: Seq<char>) -> nat
    decreases s.len(),
{
    if s.len() > 0 && is_ws(s[0]) {
        1 + lead_ws(s.drop_first())
    } else {
        0
    }
}

/// Number of trailing whitespace characters.
pub open spec fn trail_ws(s: Seq<char>) -> nat
    decreases s.len(),
{
    if s.len() > 0 && is_ws(s.last()) {
        1 + trail_ws(s.drop_last())
    } else {
        0
    }
}

/// `str::trim_start`.
pub open spec fn trim_start(s: Seq<char>) -> Seq<char> {
    s.skip(lead_ws(s) as int)
}

/// `str::trim_end`.
pub open spec fn trim_end(s: Seq<char>) -> Seq<char> {
    s.take(s.len() - trail_ws(s))
}

/// `str::trim`.
pub open spec fn trim(s: Seq<char>) -> Seq<char> {
    trim_end(trim_start(s))
}

/// Leading whitespace is no longer than the text.
pub proof fn lemma_lead_ws_bound(s: Seq<char>)
    ensures
        lead_ws(s) <= s.len(),
    decreases s.len(),
{
    if s.len() > 0 && is_ws(s[0]) {
        lemma_lead_ws_bound(s.drop_first());
    }
}

/// Trailing whitespace is no longer than the text.
pub proof fn lemma_trail_ws_bound(s: Seq<char>)
    ensures
        trail_ws(s) <= s.len(),
    decreases s.len(),
{
    if s.len() > 0 && is_ws(s.last()) {
        lemma_trail_ws_bound(s.drop_last());
    }
}

proof fn lemma_lead_ws_is(s: Seq<char>, k: int)
    requires
        0 <= k <= s.len(),
        forall|j: int| 0 <= j < k ==> is_ws(#[trigger] s[j]),
        k == s.len() || !is_ws(s[k]),
    ensures
        lead_ws(s) == k,
    decreases k,
{
    if k > 0 {
        assert(is_ws(s[0]));
        let t = s.drop_first();
        assert forall|j: int| 0 <= j < k - 1 implies is_ws(#[trigger] t[j]) by {
            assert(t[j] == s[j + 1]);
        }
        if k - 1 < t.len() {
            assert(t[k - 1] == s[k]);
        }
        lemma_lead_ws_is(t, k - 1);
    }
}

proof fn lemma_trail_ws_is(s: Seq<char>, k: int)
    requires
        0 <= k <= s.len(),
        forall|j: int| s.len() - k <= j < s.len() ==> is_ws(#[trigger] s[j]),
        k == s.len() || !is_ws(s[s.len() - k - 1]),
    ensures
        trail_ws(s) == k,
    decreases k,
{
    if k > 0 {
        assert(is_ws(s[s.len() - 1]));
        let t = s.drop_last();
        assert forall|j: int| t.len() - (k - 1) <= j < t.len() implies is_ws(#[trigger] t[j]) by {
            assert(t[j] == s[j]);
        }
        if k - 1 < t.len() {
            assert(t[t.len() - (k - 1) - 1] == s[s.len() - k - 1]);
        }
        lemma_trail_ws_is(t, k - 1);
    }
}

/// Index of the first non-whitespace character of `v` (its length if none).
pub fn lead_ws_len(v: &Vec<char>) -> (k: usize)
    ensures
        k == lead_ws(v@),
        k <= v@.len(),
{
    let mut i: usize = 0;
    while i < v.len() && char_is_ws(v[i])
        invariant
            i <= v@.len(),
            forall|j: int| 0 <= j < i ==> is_ws(#[trigger] v@[j]),
        decreases v@.len() - i,
    {
        i = i + 1;
    }
    proof {
        lemma_lead_ws_is(v@, i as int);
    }
    i
}

/// Number of trailing whitespace characters of `v`.
pub fn trail_ws_len(v: &Vec<char>) -> (k: usize)
    ensures
        k == trail_ws(v@),
        k <= v@.len(),
{
    let mut k: usize = 0;
    while k < v.len() && char_is_ws(v[v.len() - 1 - k])
        invariant
            k <= v@.len(),
            forall|j: int| v@.len() - k <= j < v@.len() ==> is_ws(#[trigger] v@[j]),
        decreases v@.len() - k,
    {
        k = k + 1;
    }
    proof {
        lemma_trail_ws_is(v@, k as int);
    }
    k
}

/// The characters of `v` from `lo` (inclusive) to `hi` (exclusive).
pub fn slice_vec(v: &Vec<char>, lo: usize, hi: usize) -> (r: Vec<char>)
    requires
        lo <= hi <= v@.len(),
    ensures
        r@ == v@.subrange(lo as int, hi as int),
{
    let mut r: Vec<char> = Vec::new();
    let mut i = lo;
    while i < hi
        invariant
            lo <= i <= hi <= v@.len(),
            r@ == v@.subrange(lo as int, i as int),
        decreases hi - i,
    {
        r.push(v[i]);
        i = i + 1;
        proof {
            assert(r@ =~= v@.subrange(lo as int, i as int));
        }
    }
    r
}

/// `str::trim` on a character vector.
pub fn trim_vec(v: &Vec<char>) -> (r: Vec<char>)
    ensures
        r@ == trim(v@),
{
    let a = lead_ws_len(v);
    let t = slice_vec(v, a, v.len());
    assert(t@ =~= trim_start(v@));
    let b = trail_ws_len(&t);
    let r = slice_vec(&t, 0, t.len() - b);
    assert(r@ =~= trim(v@));
    r
}

/// `str::trim_start` on a character vector.
pub fn trim_start_vec(v: &Vec<char>) -> (r: Vec<char>)
    ensures
        r@ == trim_start(v@),
{
    let a = lead_ws_len(v);
    let t = slice_vec(v, a, v.len());
    assert(t@ =~= trim_start(v@));
    t
}

/// `str::trim` on a string slice.
pub fn trim_str(s: &str) -> (r: String)
    ensures
        r@ == trim(s@),
{
    let v = chars_of(s);
    let t = trim_vec(&v);
    string_from_chars(t.as_slice())
}

// ---------------------------------------------------------------------------
// Prefixes, substrings, character search
// ---------------------------------------------------------------------------

pub open spec fn starts_with(s: Seq<char>, p: Seq<char>) -> bool {
    p.len() <= s.len() && s.take(p.len() as int) =~= p
}

pub open spec fn ends_with(s: Seq<char>, p: Seq<char>) -> bool {
    p.len() <= s.len() && s.skip(s.len() - p.len()) =~= p
}

pub open spec fn occurs_at(s: Seq<char>, p: Seq<char>, i: int) -> bool {
    0 <= i && i + p.len() <= s.len() && s.subrange(i, i + p.len()) =~= p
}

/// `str::contains` with a string pattern.
pub open spec fn contains(s: Seq<char>, p: Seq<char>) -> bool {
    exists|i: int| occurs_at(s, p, i)
}

pub fn vec_starts_with(s: &Vec<char>, p: &Vec<char>) -> (b: bool)
    ensures
        b == starts_with(s@, p@),
{
    if p.len() > s.len() {
        return false;
    }
    let mut i: usize = 0;
    while i < p.len()
        invariant
            p@.len() <= s@.len(),
            i <= p@.len(),
            forall|j: int| 0 <= j < i ==> s@[j] == p@[j],
        decreases p@.len() - i,
    {
        if s[i] != p[i] {
            assert(s@.take(p@.len() as int)[i as int] != p@[i as int]);
            return false;
        }
        i = i + 1;
    }
    assert(s@.take(p@.len() as int) =~= p@);
    true
}

pub fn vec_ends_with(s: &Vec<char>, p: &Vec<char>) -> (b: bool)
    ensures
        b == ends_with(s@, p@),
{
    if p.len() > s.len() {
        return false;
    }
    let off = s.len() - p.len();
    let sl = s.len();
    let mut i: usize = 0;
    while i < p.len()
        invariant
            sl == s@.len(),
            p@.len() <= s@.len(),
            off == s@.len() - p@.len(),
            off + p@.len() == s@.len(),
            i <= p@.len(),
            forall|j: int| 0 <= j < i ==> s@[off + j] == p@[j],
        decreases p@.len() - i,
    {
        if s[off + i] != p[i] {
            assert(s@.skip(off as int)[i as int] != p@[i as int]);
            return false;
        }
        i = i + 1;
    }
    assert(s@.skip(off as int) =~= p@);
    true
}

/// Whether `p` occurs in `s` starting at index `i`.
pub fn vec_occurs_at(s: &Vec<char>, p: &Vec<char>, i: usize) -> (b: bool)
    ensures
        b == occurs_at(s@, p@, i as int),
{
    if i > s.len() || p.len() > s.len() - i {
        return false;
    }
    let sl = s.len();
    let mut k: usize = 0;
    while k < p.len()
        invariant
            sl == s@.len(),
            i + p@.len() <= s@.len(),
            i <= s@.len(),
            k <= p@.len(),
            forall|j: int| 0 <= j < k ==> s@[i + j] == p@[j],
        decreases p@.len() - k,
    {
        if s[i + k] != p[k] {
            assert(s@.subrange(i as int, i + p@.len())[k as int] != p@[k as int]);
            return false;
        }
        k = k + 1;
    }
    assert(s@.subrange(i as int, i + p@.len()) =~= p@);
    true
}

pub fn vec_contains(s: &Vec<char>, p: &Vec<char>) -> (b: bool)
    ensures
        b == contains(s@, p@),
{
    if p.len() > s.len() {
        assert forall|i: int| !occurs_at(s@, p@, i) by {}
        return false;
    }
    let last = s.len() - p.len();
    let mut i: usize = 0;
    loop
        invariant_except_break
            last == s@.len() - p@.len(),
            i <= last,
            forall|j: int| 0 <= j < i ==> !occurs_at(s@, p@, j),
        ensures
            forall|j: int| 0 <= j <= last ==> !occurs_at(s@, p@, j),
        decreases last - i,
    {
        if vec_occurs_at(s, p, i) {
            return true;
        }
        if i == last {
            break;
        }
        i = i + 1;
    }
    assert forall|j: int| !occurs_at(s@, p@, j) by {
        if 0 <= j && j + p@.len() <= s@.len() {
            assert(j <= last);
        }
    }
    false
}

/// `i` is the first position of `c` in `s`.
pub open spec fn first_at(s: Seq<char>, c: char, i: int) -> bool {
    0 <= i < s.len() && s[i] == c && forall|j: int| 0 <= j < i ==> s[j] != c
}

/// Position of the first occurrence of `c` in `s`.
pub open spec fn find_char(s: Seq<char>, c: char) -> Option<int> {
    if exists|i: int| first_at(s, c, i) {
        Some(choose|i: int| first_at(s, c, i))
    } else {
        None
    }
}

/// The first position holding `c` is the one `find_char` gives.
pub proof fn lemma_find_char_is(s: Seq<char>, c: char, k: int)
    requires
        first_at(s, c, k),
    ensures
        find_char(s, c) == Some(k),
{
    let i = choose|i: int| first_at(s, c, i);
    assert(first_at(s, c, i));
    if i < k {
        assert(s[i] != c);
    }
    if k < i {
        assert(s[k] != c);
    }
}

/// A text without `c` has no position of it.
pub proof fn lemma_find_char_none(s: Seq<char>, c: char)
    requires
        forall|j: int| 0 <= j < s.len() ==> s[j] != c,
    ensures
        find_char(s, c) is None,
{
    if exists|i: int| first_at(s, c, i) {
        let i = choose|i: int| first_at(s, c, i);
        assert(s[i] == c);
    }
}

/// First position of `c` in `v`.
pub fn vec_find_char(v: &Vec<char>, c: char) -> (r: Option<usize>)
    ensures
        match r {
            Some(i) => find_char(v@, c) == Some(i as int) && i < v@.len(),
            None => find_char(v@, c) is None,
        },
{
    let mut i: usize = 0;
    while i < v.len()
        invariant
            i <= v@.len(),
            forall|j: int| 0 <= j < i ==> v@[j] != c,
        decreases v@.len() - i,
    {
        if v[i] == c {
            proof {
                lemma_find_char_is(v@, c, i as int);
            }
            return Some(i);
        }
        i = i + 1;
    }
    proof {
        lemma_find_char_none(v@, c);
    }
    None
}

/// `str::split_once` with a character pattern.
pub open spec fn split_once(s: Seq<char>, c: char) -> Option<(Seq<char>, Seq<char>)> {
    match find_char(s, c) {
        Some(i) => Some((s.take(i), s.skip(i + 1))),
        None => None,
    }
}

pub fn vec_split_once(v: &Vec<char>, c: char) -> (r: Option<(Vec<char>, Vec<char>)>)
    ensures
        match r {
            Some((a, b)) => split_once(v@, c) == Some((a@, b@)),
            None => split_once(v@, c) is None,
        },
{
    let n = v.len();
    match vec_find_char(v, c) {
        Some(i) => {
            let a = slice_vec(v, 0, i);
            let b = slice_vec(v, i + 1, v.len());
            assert(a@ =~= v@.take(i as int));
            assert(b@ =~= v@.skip(i + 1));
            Some((a, b))
        },
        None => None,
    }
}

/// `str::split` with a character pattern: the pieces between occurrences of `c`.
pub open spec fn split(s: Seq<char>, c: char) -> Seq<Seq<char>>
    decreases s.len(),
{
    match find_char(s, c) {
        Some(i) => if 0 <= i < s.len() {
            seq![s.take(i)] + split(s.skip(i + 1), c)
        } else {
            seq![s]
        },
        None => seq![s],
    }
}

/// Splitting gives at least one piece.
pub proof fn lemma_split_nonempty(s: Seq<char>, c: char)
    ensures
        split(s, c).len() >= 1,
    decreases s.len(),
{
    match find_char(s, c) {
        Some(i) => if 0 <= i < s.len() {
            lemma_split_nonempty(s.skip(i + 1), c);
        },
        None => {},
    }
}

pub fn vec_split(v: &Vec<char>, c: char) -> (r: Vec<Vec<char>>)
    ensures
        r@.len() == split(v@, c).len(),
        forall|i: int| 0 <= i < r@.len() ==> #[trigger] r@[i]@ == split(v@, c)[i],
{
    let mut acc: Vec<Vec<char>> = Vec::new();
    let ghost mut accs: Seq<Seq<char>> = Seq::empty();
    let mut start: usize = 0;
    let mut i: usize = 0;
    assert(v@.skip(0) =~= v@);
    assert(accs + split(v@.skip(0), c) =~= split(v@, c));
    while i < v.len()
        invariant
            start <= i <= v@.len(),
            acc@.len() == accs.len(),
            forall|k: int| 0 <= k < acc@.len() ==> #[trigger] acc@[k]@ == accs[k],
            accs + split(v@.skip(start as int), c) == split(v@, c),
            forall|j: int| start <= j < i ==> v@[j] != c,
        decreases v@.len() - i,
    {
        if v[i] == c {
            let piece = slice_vec(v, start, i);
            proof {
                let rest = v@.skip(start as int);
                assert(first_at(rest, c, i - start)) by {
                    assert forall|j: int| 0 <= j < i - start implies rest[j] != c by {
                        assert(rest[j] == v@[start + j]);
                    }
                }
                lemma_find_char_is(rest, c, i - start);
                assert(rest.take(i - start) =~= piece@);
                assert(rest.skip(i - start + 1) =~= v@.skip(i + 1));
                assert(split(rest, c) == seq![piece@] + split(v@.skip(i + 1), c));
                assert(accs.push(piece@) + split(v@.skip(i + 1), c) =~= accs + split(rest, c));
                accs = accs.push(piece@);
            }
            acc.push(piece);
            start = i + 1;
        }
        i = i + 1;
    }
    let last = slice_vec(v, start, v.len());
    proof {
        let rest = v@.skip(start as int);
        lemma_find_char_none(rest, c);
        assert(rest =~= last@);
        assert(accs.push(last@) =~= accs + split(rest, c));
        accs = accs.push(last@);
    }
    acc.push(last);
    acc
}

/// Removes one trailing carriage return.
pub open spec fn strip_cr(l: Seq<char>) -> Seq<char> {
    if l.len() > 0 && l.last() == '\r' {
        l.drop_last()
    } else {
        l
    }
}

/// `str::lines`: lines split at `\n` or `\r\n`; a final empty line is not yielded.
pub open spec fn lines(s: Seq<char>) -> Seq<Seq<char>> {
    let ps = split(s, '\n');
    let n = ps.len();
    ps.take(n - 1).map_values(|l: Seq<char>| strip_cr(l)) + if n > 0 && ps[n - 1].len() > 0 {
        seq![ps[n - 1]]
    } else {
        Seq::empty()
    }
}

pub fn vec_lines(v: &Vec<char>) -> (r: Vec<Vec<char>>)
    ensures
        r@.len() == lines(v@).len(),
        forall|i: int| 0 <= i < r@.len() ==> #[trigger] r@[i]@ == lines(v@)[i],
{
    let ps = vec_split(v, '\n');
    proof {
        lemma_split_nonempty(v@, '\n');
    }
    let ghost ls = lines(v@);
    let n = ps.len();
    let mut r: Vec<Vec<char>> = Vec::new();
    let mut i: usize = 0;
    while i + 1 < n
        invariant
            n == ps@.len(),
            n >= 1,
            n == split(v@, '\n').len(),
            forall|k: int| 0 <= k < n ==> #[trigger] ps@[k]@ == split(v@, '\n')[k],
            i + 1 <= n,
            r@.len() == i,
            forall|k: int| 0 <= k < i ==> #[trigger] r@[k]@ == strip_cr(split(v@, '\n')[k]),
        decreases n - i,
    {
        let p = &ps[i];
        let l = if p.len() > 0 && p[p.len() - 1] == '\r' {
            slice_vec(p, 0, p.len() - 1)
        } else {
            slice_vec(p, 0, p.len())
        };
        proof {
            assert(l@ =~= strip_cr(split(v@, '\n')[i as int]));
        }
        r.push(l);
        i = i + 1;
    }
    let lastp = &ps[n - 1];
    if lastp.len() > 0 {
        let l = slice_vec(lastp, 0, lastp.len());
        r.push(l);
    }
    proof {
        assert(r@.len() == ls.len());
        assert forall|k: int| 0 <= k < r@.len() implies #[trigger] r@[k]@ == ls[k] by {
            if k < n - 1 {
                assert(ls[k] == strip_cr(split(v@, '\n')[k]));
            } else {
                assert(lastp@ =~= split(v@, '\n')[n - 1]);
            }
        }
    }
    r
}

// ---------------------------------------------------------------------------
// Joining
// ---------------------------------------------------------------------------

/// `[..].join(sep)`.
pub open spec fn join(parts: Seq<Seq<char>>, sep: Seq<char>) -> Seq<char>
    decreases parts.len(),
{
    if parts.len() == 0 {
        Seq::empty()
    } else if parts.len() == 1 {
        parts[0]
    } else {
        join(parts.drop_last(), sep) + sep + parts.last()
    }
}

pub fn join_vecs(parts: &Vec<Vec<char>>, sep: &Vec<char>) -> (r: Vec<char>)
    ensures
        r@ == join(parts@.map_values(|p: Vec<char>| p@), sep@),
{
    let ghost ps = parts@.map_values(|p: Vec<char>| p@);
    let mut r: Vec<char> = Vec::new();
    let n = parts.len();
    let mut i: usize = 0;
    while i < n
        invariant
            n == parts@.len(),
            ps == parts@.map_values(|p: Vec<char>| p@),
            i <= n,
            r@ == join(ps.take(i as int), sep@),
        decreases n - i,
    {
        let ghost before = r@;
        if i > 0 {
            let mut k: usize = 0;
            while k < sep.len()
                invariant
                    k <= sep@.len(),
                    r@ == before + sep@.take(k as int),
                decreases sep@.len() - k,
            {
                r.push(sep[k]);
                k = k + 1;
                proof {
                    assert(r@ =~= before + sep@.take(k as int));
                }
            }
        }
        let ghost mid = r@;
        let p = &parts[i];
        let mut k: usize = 0;
        while k < p.len()
            invariant
                k <= p@.len(),
                r@ == mid + p@.take(k as int),
            decreases p@.len() - k,
        {
            r.push(p[k]);
            k = k + 1;
            proof {
                assert(r@ =~= mid + p@.take(k as int));
            }
        }
        proof {
            let t = ps.take(i + 1);
            assert(t.drop_last() =~= ps.take(i as int));
            assert(t.last() == p@);
            if i == 0 {
                assert(r@ =~= join(t, sep@));
            } else {
                assert(r@ =~= join(t, sep@));
            }
        }
        i = i + 1;
    }
    proof {
        assert(ps.take(n as int) =~= ps);
    }
    r
}

// ---------------------------------------------------------------------------
// Integers
// ---------------------------------------------------------------------------

pub open spec fn digit_char(d: int) -> char {
    if d == 0 {
        '0'
    } else if d == 1 {
        '1'
    } else if d == 2 {
        '2'
    } else if d == 3 {
        '3'
    } else if d == 4 {
        '4'
    } else if d == 5 {
        '5'
    } else if d == 6 {
        '6'
    } else if d == 7 {
        '7'
    } else if d == 8 {
        '8'
    } else {
        '9'
    }
}

/// Decimal digits of a natural number, as `Display` writes it.
pub open spec fn dec_nat(n: nat) -> Seq<char>
    decreases n,
{
    if n < 10 {
        seq![digit_char(n as int)]
    } else {
        dec_nat(n / 10) + seq![digit_char((n % 10) as int)]
    }
}

/// Decimal rendering of an integer, with a leading `-` when negative.
pub open spec fn dec_int(n: int) -> Seq<char> {
    if n < 0 {
        seq!['-'] + dec_nat((-n) as nat)
    } else {
        dec_nat(n as nat)
    }
}

fn digit_of(d: u64) -> (c: char)
    requires
        d < 10,
    ensures
        c == digit_char(d as int),
{
    if d == 0 {
        '0'
    } else if d == 1 {
        '1'
    } else if d == 2 {
        '2'
    } else if d == 3 {
        '3'
    } else if d == 4 {
        '4'
    } else if d == 5 {
        '5'
    } else if d == 6 {
        '6'
    } else if d == 7 {
        '7'
    } else if d == 8 {
        '8'
    } else {
        '9'
    }
}

/// Decimal digits of `n`.
pub fn u64_digits(n: u64) -> (r: Vec<char>)
    ensures
        r@ == dec_nat(n as nat),
    decreases n,
{
    if n < 10 {
        let mut v = Vec::new();
        v.push(digit_of(n));
        v
    } else {
        let mut v = u64_digits(n / 10);
        v.push(digit_of(n % 10));
        v
    }
}

/// `u64::to_string`.
pub fn u64_to_string(n: u64) -> (r: String)
    ensures
        r@ == dec_int(n as int),
{
    let v = u64_digits(n);
    string_from_chars(v.as_slice())
}

/// `i64::to_string`.
pub fn i64_to_string(n: i64) -> (r: String)
    ensures
        r@ == dec_int(n as int),
{
    if n < 0 {
        let m: u64 = if n == i64::MIN {
            9223372036854775808u64
        } else {
            (-n) as u64
        };
        let d = u64_digits(m);
        let mut v: Vec<char> = Vec::new();
        v.push('-');
        let ghost pre = v@;
        let mut k: usize = 0;
        while k < d.len()
            invariant
                k <= d@.len(),
                v@ == pre + d@.take(k as int),
            decreases d@.len() - k,
        {
            v.push(d[k]);
            k = k + 1;
            proof {
                assert(v@ =~= pre + d@.take(k as int));
            }
        }
        assert(d@.take(d@.len() as int) =~= d@);
        assert(v@ =~= dec_int(n as int));
        string_from_chars(v.as_slice())
    } else {
        u64_to_string(n as u64)
    }
}

/// Value of a string of ASCII digits.
pub open spec fn digits_val(s: Seq<char>) -> int
    decreases s.len(),
{
    if s.len() == 0 {
        0
    } else {
        digits_val(s.drop_last()) * 10 + (s.last() as int - '0' as int)
    }
}

pub open spec fn all_digits(s: Seq<char>) -> bool {
    forall|i: int| 0 <= i < s.len() ==> is_digit(#[trigger] s[i])
}

/// `i64::from_str`: an optional `+` or `-` followed by one or more ASCII digits,
/// in range.
pub open spec fn parse_i64(s: Seq<char>) -> Option<i64> {
    let neg = s.len() > 0 && s[0] == '-';
    let signed = s.len() > 0 && (s[0] == '-' || s[0] == '+');
    let body = if signed {
        s.drop_first()
    } else {
        s
    };
    if body.len() == 0 || !all_digits(body) {
        None
    } else {
        let v = if neg {
            -digits_val(body)
        } else {
            digits_val(body)
        };
        if i64::MIN <= v <= i64::MAX {
            Some(v as i64)
        } else {
            None
        }
    }
}

proof fn lemma_digits_val_nonneg(s: Seq<char>)
    requires
        all_digits(s),
    ensures
        digits_val(s) >= 0,
    decreases s.len(),
{
    if s.len() > 0 {
        assert(is_digit(s[s.len() - 1]));
        lemma_digits_val_nonneg(s.drop_last());
    }
}

proof fn lemma_digits_val_mono(s: Seq<char>, k: int)
    requires
        all_digits(s),
        0 <= k <= s.len(),
    ensures
        digits_val(s.take(k)) <= digits_val(s),
    decreases s.len() - k,
{
    if k < s.len() {
        let t = s.take(k + 1);
        assert(t.drop_last() =~= s.take(k));
        assert(is_digit(t.last()));
        lemma_digits_val_nonneg(s.take(k));
        lemma_digits_val_mono(s, k + 1);
    } else {
        assert(s.take(k) =~= s);
    }
}

/// `str::parse::<i64>` on a character vector.
pub fn parse_i64_vec(s: &Vec<char>) -> (r: Option<i64>)
    ensures
        r == parse_i64(s@),
{
    let n = s.len();
    let neg = n > 0 && s[0] == '-';
    let signed = n > 0 && (s[0] == '-' || s[0] == '+');
    let start: usize = if signed {
        1
    } else {
        0
    };
    let ghost body = if signed {
        s@.drop_first()
    } else {
        s@
    };
    assert(body =~= s@.skip(start as int));
    assert(signed == (s@.len() > 0 && (s@[0] == '-' || s@[0] == '+')));
    assert(neg == (s@.len() > 0 && s@[0] == '-'));
    if start == n {
        assert(body.len() == 0);
        return None;
    }
    let mut i: usize = start;
    while i < n
        invariant
            start <= i <= n,
            n == s@.len(),
            body =~= s@.skip(start as int),
            body == (if s@.len() > 0 && (s@[0] == '-' || s@[0] == '+') {
                s@.drop_first()
            } else {
                s@
            }),
            neg == (s@.len() > 0 && s@[0] == '-'),
            forall|j: int| 0 <= j < i - start ==> is_digit(#[trigger] body[j]),
        decreases n - i,
    {
        let c = s[i];
        if !('0' <= c && c <= '9') {
            assert(body.len() == n - start);
            assert(!is_digit(body[i - start]));
            assert(!all_digits(body));
            return None;
        }
        i = i + 1;
    }
    assert(all_digits(body));
    let mut acc: i128 = 0;
    let mut i: usize = start;
    while i < n
        invariant
            start <= i <= n,
            n == s@.len(),
            body =~= s@.skip(start as int),
            body == (if s@.len() > 0 && (s@[0] == '-' || s@[0] == '+') {
                s@.drop_first()
            } else {
                s@
            }),
            neg == (s@.len() > 0 && s@[0] == '-'),
            all_digits(body),
            acc == digits_val(body.take(i - start)),
            0 <= acc <= 9223372036854775808,
        decreases n - i,
    {
        let c = s[i];
        assert(is_digit(body[i - start]));
        let d = (c as u32 - '0' as u32) as i128;
        proof {
            let t = body.take(i - start + 1);
            assert(t.drop_last() =~= body.take(i - start));
            assert(t.last() == c);
        }
        acc = acc * 10 + d;
        i = i + 1;
        assert(acc == digits_val(body.take(i - start)));
        if acc > 9223372036854775808 {
            proof {
                lemma_digits_val_mono(body, i - start);
                assert(body.len() > 0);
                assert(digits_val(body) > 9223372036854775808);
            }
            return None;
        }
    }
    proof {
        assert(body.take(i - start) =~= body);
    }
    if neg {
        let v: i128 = -acc;
        Some(v as i64)
    } else {
        if acc > 9223372036854775807 {
            None
        } else {
            Some(acc as i64)
        }
    }
}


// ---------------------------------------------------------------------------
// Trimming by a given character or pattern
// ---------------------------------------------------------------------------

/// Number of leading copies of `c`.
pub open spec fn lead_char(s: Seq<char>, c: char) -> nat
    decreases s.len(),
{
    if s.len() > 0 && s[0] == c {
        1 + lead_char(s.drop_first(), c)
    } else {
        0
    }
}

/// `str::trim_start_matches` with a character.
pub open spec fn trim_start_char(s: Seq<char>, c: char) -> Seq<char> {
    s.skip(lead_char(s, c) as int)
}

proof fn lemma_lead_char_is(s: Seq<char>, c: char, k: int)
    requires
        0 <= k <= s.len(),
        forall|j: int| 0 <= j < k ==> #[trigger] s[j] == c,
        k == s.len() || s[k] != c,
    ensures
        lead_char(s, c) == k,
    decreases k,
{
    if k > 0 {
        let t = s.drop_first();
        assert forall|j: int| 0 <= j < k - 1 implies #[trigger] t[j] == c by {
            assert(t[j] == s[j + 1]);
        }
        if k - 1 < t.len() {
            assert(t[k - 1] == s[k]);
        }
        lemma_lead_char_is(t, c, k - 1);
    }
}

pub fn trim_start_char_vec(v: &Vec<char>, c: char) -> (r: Vec<char>)
    ensures
        r@ == trim_start_char(v@, c),
{
    let mut i: usize = 0;
    while i < v.len() && v[i] == c
        invariant
            i <= v@.len(),
            forall|j: int| 0 <= j < i ==> #[trigger] v@[j] == c,
        decreases v@.len() - i,
    {
        i = i + 1;
    }
    proof {
        lemma_lead_char_is(v@, c, i as int);
    }
    slice_vec(v, i, v.len())
}

/// `str::trim_end_matches` with a string pattern: strips repeated copies of `p`.
pub open spec fn strip_suffix_all(s: Seq<char>, p: Seq<char>) -> Seq<char>
    decreases s.len(),
{
    if p.len() > 0 && ends_with(s, p) {
        strip_suffix_all(s.take(s.len() - p.len()), p)
    } else {
        s
    }
}

pub fn strip_suffix_all_vec(v: &Vec<char>, p: &Vec<char>) -> (r: Vec<char>)
    ensures
        r@ == strip_suffix_all(v@, p@),
{
    let mut cur = slice_vec(v, 0, v.len());
    assert(cur@ =~= v@);
    while p.len() > 0 && vec_ends_with(&cur, p)
        invariant
            strip_suffix_all(cur@, p@) == strip_suffix_all(v@, p@),
        decreases cur@.len(),
    {
        let n = cur.len() - p.len();
        cur = slice_vec(&cur, 0, n);
    }
    cur
}

/// Whether the sequence holds the character `c`.
pub fn vec_has_char(v: &Vec<char>, c: char) -> (b: bool)
    ensures
        b == (find_char(v@, c) is Some),
{
    match vec_find_char(v, c) {
        Some(_) => true,
        None => false,
    }
}


/// Decimal digits of `n`.
pub fn u128_digits(n: u128) -> (r: Vec<char>)
    ensures
        r@ == dec_nat(n as nat),
    decreases n,
{
    if n < 10 {
        let mut v = Vec::new();
        v.push(digit_of((n % 10) as u64));
        v
    } else {
        let mut v = u128_digits(n / 10);
        v.push(digit_of((n % 10) as u64));
        v
    }
}

/// `i128::to_string`.
pub fn i128_to_string(n: i128) -> (r: String)
    ensures
        r@ == dec_int(n as int),
{
    if n < 0 {
        let m: u128 = if n == i128::MIN {
            170141183460469231731687303715884105728u128
        } else {
            (-n) as u128
        };
        let d = u128_digits(m);
        let mut v: Vec<char> = Vec::new();
        v.push('-');
        let ghost pre = v@;
        let mut k: usize = 0;
        while k < d.len()
            invariant
                k <= d@.len(),
                v@ == pre + d@.take(k as int),
            decreases d@.len() - k,
        {
            v.push(d[k]);
            k = k + 1;
            proof {
                assert(v@ =~= pre + d@.take(k as int));
            }
        }
        assert(d@.take(d@.len() as int) =~= d@);
        assert(v@ =~= dec_int(n as int));
        string_from_chars(v.as_slice())
    } else {
        let d = u128_digits(n as u128);
        string_from_chars(d.as_slice())
    }
}

/// The character views of a list of strings.
pub open spec fn views(v: Seq<String>) -> Seq<Seq<char>> {
    v.map_values(|s: String| s@)
}


// ---------------------------------------------------------------------------
// UTF-8 lengths and prefixes
// ---------------------------------------------------------------------------

/// The number of bytes UTF-8 takes for a character (`char::len_utf8`).
pub open spec fn char_utf8_len(c: char) -> nat {
    let u = c as u32;
    if u < 0x80 {
        1
    } else if u < 0x800 {
        2
    } else if u < 0x10000 {
        3
    } else {
        4
    }
}

/// The number of bytes of the UTF-8 encoding of a string (`str::len`).
pub open spec fn utf8_len(s: Seq<char>) -> nat
    decreases s.len(),
{
    if s.len() == 0 {
        0
    } else {
        utf8_len(s.drop_last()) + char_utf8_len(s.last())
    }
}

proof fn lemma_utf8_len_mono(s: Seq<char>, k: int)
    requires
        0 <= k <= s.len(),
    ensures
        utf8_len(s.take(k)) <= utf8_len(s),
    decreases s.len() - k,
{
    if k < s.len() {
        let t = s.take(k + 1);
        assert(t.drop_last() =~= s.take(k));
        lemma_utf8_len_mono(s, k + 1);
    } else {
        assert(s.take(k) =~= s);
    }
}

/// Whether the UTF-8 length of `v` exceeds `bound`.
pub fn utf8_len_exceeds(v: &Vec<char>, bound: usize) -> (b: bool)
    ensures
        b == (utf8_len(v@) > bound),
{
    let mut acc: usize = 0;
    let mut i: usize = 0;
    while i < v.len()
        invariant
            i <= v@.len(),
            acc == utf8_len(v@.take(i as int)),
            acc <= bound,
        decreases v@.len() - i,
    {
        let u = v[i] as u32;
        let w: usize = if u < 0x80 {
            1
        } else if u < 0x800 {
            2
        } else if u < 0x10000 {
            3
        } else {
            4
        };
        proof {
            let t = v@.take(i + 1);
            assert(t.drop_last() =~= v@.take(i as int));
        }
        if w > bound - acc {
            proof {
                lemma_utf8_len_mono(v@, i + 1);
            }
            return true;
        }
        acc = acc + w;
        i = i + 1;
    }
    assert(v@.take(v@.len() as int) =~= v@);
    false
}

/// At most the first `n` characters of `s` (`chars().take(n)`).
pub open spec fn take_up_to(s: Seq<char>, n: nat) -> Seq<char> {
    if s.len() <= n {
        s
    } else {
        s.take(n as int)
    }
}

pub fn take_up_to_vec(v: &Vec<char>, n: usize) -> (r: Vec<char>)
    ensures
        r@ == take_up_to(v@, n as nat),
{
    if v.len() <= n {
        slice_vec(v, 0, v.len())
    } else {
        slice_vec(v, 0, n)
    }
}


/// Equality of two character sequences.
pub fn vec_eq(a: &Vec<char>, b: &Vec<char>) -> (r: bool)
    ensures
        r == (a@ == b@),
{
    if a.len() != b.len() {
        return false;
    }
    let mut i: usize = 0;
    while i < a.len()
        invariant
            a@.len() == b@.len(),
            i <= a@.len(),
            forall|j: int| 0 <= j < i ==> a@[j] == b@[j],
        decreases a@.len() - i,
    {
        if a[i] != b[i] {
            assert(a@[i as int] != b@[i as int]);
            return false;
        }
        i = i + 1;
    }
    assert(a@ =~= b@);
    true
}

/// Appends the characters of a string slice.
pub fn push_lit(out: &mut Vec<char>, lit: &str)
    ensures
        final(out)@ == old(out)@ + lit@,
{
    let v = chars_of(lit);
    let ghost o = out@;
    let mut i: usize = 0;
    while i < v.len()
        invariant
            i <= v@.len(),
            out@ == o + v@.take(i as int),
        decreases v@.len() - i,
    {
        out.push(v[i]);
        i = i + 1;
        proof {
            assert(out@ =~= o + v@.take(i as int));
        }
    }
    assert(v@.take(v@.len() as int) =~= v@);
}

/// Appends the characters of another vector.
pub fn push_vec(out: &mut Vec<char>, w: &Vec<char>)
    ensures
        final(out)@ == old(out)@ + w@,
{
    let ghost o = out@;
    let mut i: usize = 0;
    while i < w.len()
        invariant
            i <= w@.len(),
            out@ == o + w@.take(i as int),
        decreases w@.len() - i,
    {
        out.push(w[i]);
        i = i + 1;
        proof {
            assert(out@ =~= o + w@.take(i as int));
        }
    }
    assert(w@.take(w@.len() as int) =~= w@);
}

/// Appends a string slice to a `String` (`String::push_str`).
pub fn push_str(out: &mut String, s: &str)
    ensures
        final(out)@ == old(out)@ + s@,
{
    let v = chars_of(s);
    append_seq(out, &v);
}


/// Joins strings with a separator (`[..].join(sep)`).
pub fn join_strings(parts: &Vec<String>, sep: &str) -> (r: String)
    ensures
        r@ == join(views(parts@), sep@),
{
    let mut vs: Vec<Vec<char>> = Vec::new();
    let mut i: usize = 0;
    while i < parts.len()
        invariant
            i <= parts@.len(),
            vs@.len() == i,
            forall|j: int| 0 <= j < i ==> #[trigger] vs@[j]@ == parts@[j]@,
        decreases parts@.len() - i,
    {
        vs.push(chars_of(parts[i].as_str()));
        i = i + 1;
    }
    assert(vs@.map_values(|p: Vec<char>| p@) =~= views(parts@));
    let sv = chars_of(sep);
    let j = join_vecs(&vs, &sv);
    string_from_chars(j.as_slice())
}

// ---------------------------------------------------------------------------
// Lexicographic order
// ---------------------------------------------------------------------------

/// Lexicographic order of character sequences by code point, which is the
/// order of `str` and `String` (UTF-8 keeps code-point order).
pub open spec fn seq_lt(a: Seq<char>, b: Seq<char>) -> bool
    decreases a.len(),
{
    if a.len() == 0 {
        b.len() > 0
    } else if b.len() == 0 {
        false
    } else if a[0] != b[0] {
        a[0] < b[0]
    } else {
        seq_lt(a.drop_first(), b.drop_first())
    }
}

/// No text sorts before itself.
pub proof fn lemma_seq_lt_irreflexive(a: Seq<char>)
    ensures
        !seq_lt(a, a),
    decreases a.len(),
{
    if a.len() > 0 {
        lemma_seq_lt_irreflexive(a.drop_first());
    }
}

/// Two texts do not each sort before the other.
pub proof fn lemma_seq_lt_asymmetric(a: Seq<char>, b: Seq<char>)
    requires
        seq_lt(a, b),
    ensures
        !seq_lt(b, a),
    decreases a.len(),
{
    if a.len() > 0 && b.len() > 0 && a[0] == b[0] {
        lemma_seq_lt_asymmetric(a.drop_first(), b.drop_first());
    }
}

/// Of two different texts, one sorts before the other.
pub proof fn lemma_seq_lt_total(a: Seq<char>, b: Seq<char>)
    ensures
        a == b || seq_lt(a, b) || seq_lt(b, a),
    decreases a.len(),
{
    if a.len() == 0 && b.len() == 0 {
        assert(a =~= b);
    } else if a.len() > 0 && b.len() > 0 {
        if a[0] == b[0] {
            lemma_seq_lt_total(a.drop_first(), b.drop_first());
            if a.drop_first() == b.drop_first() {
                assert forall|i: int| 0 <= i < a.len() implies a[i] == b[i] by {
                    if i > 0 {
                        assert(a[i] == a.drop_first()[i - 1]);
                        assert(b[i] == b.drop_first()[i - 1]);
                    }
                }
                assert(a =~= b);
            }
        }
    }
}

/// Sorting before is transitive.
pub proof fn lemma_seq_lt_transitive(a: Seq<char>, b: Seq<char>, c: Seq<char>)
    requires
        seq_lt(a, b),
        seq_lt(b, c),
    ensures
        seq_lt(a, c),
    decreases a.len(),
{
    if a.len() > 0 && b.len() > 0 && c.len() > 0 && a[0] == b[0] && b[0] == c[0] {
        lemma_seq_lt_transitive(a.drop_first(), b.drop_first(), c.drop_first());
    }
}

/// `a < b` for two character vectors, in the order of `seq_lt`.
pub fn vec_lt(a: &Vec<char>, b: &Vec<char>) -> (r: bool)
    ensures
        r == seq_lt(a@, b@),
{
    let mut i: usize = 0;
    assert(a@.skip(0) =~= a@);
    assert(b@.skip(0) =~= b@);
    while i < a.len() && i < b.len()
        invariant
            i <= a@.len(),
            i <= b@.len(),
            seq_lt(a@, b@) == seq_lt(a@.skip(i as int), b@.skip(i as int)),
        decreases a@.len() - i,
    {
        let x = a[i];
        let y = b[i];
        assert(a@.skip(i as int)[0] == x);
        assert(b@.skip(i as int)[0] == y);
        if x != y {
            return x < y;
        }
        assert(a@.skip(i as int).drop_first() =~= a@.skip(i + 1));
        assert(b@.skip(i as int).drop_first() =~= b@.skip(i + 1));
        i = i + 1;
    }
    i < b.len()
}

// ---------------------------------------------------------------------------
// Sorted sets of strings
// ---------------------------------------------------------------------------

/// Every element is smaller than every later one.
pub open spec fn strictly_sorted(s: Seq<Seq<char>>) -> bool {
    forall|i: int, j: int| 0 <= i < j < s.len() ==> seq_lt(#[trigger] s[i], #[trigger] s[j])
}

/// Inserts `x` into a sorted sequence in its place, unless it is there already.
pub open spec fn insert_sorted(r: Seq<Seq<char>>, x: Seq<char>) -> Seq<Seq<char>>
    decreases r.len(),
{
    if r.len() == 0 {
        seq![x]
    } else if r[0] == x {
        r
    } else if seq_lt(x, r[0]) {
        seq![x] + r
    } else {
        seq![r[0]] + insert_sorted(r.drop_first(), x)
    }
}

/// The distinct elements of `s` in increasing order (what `sort` followed by
/// `dedup` leaves).
pub open spec fn sort_dedup(s: Seq<Seq<char>>) -> Seq<Seq<char>>
    decreases s.len(),
{
    if s.len() == 0 {
        Seq::empty()
    } else {
        insert_sorted(sort_dedup(s.drop_last()), s.last())
    }
}

proof fn lemma_insert_sorted_at(r: Seq<Seq<char>>, x: Seq<char>, k: int)
    requires
        0 <= k <= r.len(),
        forall|i: int| 0 <= i < k ==> seq_lt(#[trigger] r[i], x),
        k < r.len() ==> !seq_lt(r[k], x),
    ensures
        insert_sorted(r, x) == (if k < r.len() && r[k] == x {
            r
        } else {
            r.insert(k, x)
        }),
    decreases r.len(),
{
    if r.len() == 0 {
        assert(r.insert(0, x) =~= seq![x]);
    } else if k == 0 {
        if r[0] != x {
            lemma_seq_lt_total(r[0], x);
            assert(r.insert(0, x) =~= seq![x] + r);
        }
    } else {
        assert(seq_lt(r[0], x));
        lemma_seq_lt_irreflexive(x);
        lemma_seq_lt_asymmetric(r[0], x);
        let t = r.drop_first();
        assert forall|i: int| 0 <= i < k - 1 implies seq_lt(#[trigger] t[i], x) by {
            assert(t[i] == r[i + 1]);
        }
        lemma_insert_sorted_at(t, x, k - 1);
        if k < r.len() && r[k] == x {
            assert(seq![r[0]] + t =~= r);
        } else {
            assert(seq![r[0]] + t.insert(k - 1, x) =~= r.insert(k, x));
        }
    }
}

/// What inserting holds: what was there, and `x`.
pub proof fn lemma_insert_sorted_contains(r: Seq<Seq<char>>, x: Seq<char>, y: Seq<char>)
    ensures
        insert_sorted(r, x).contains(y) <==> (r.contains(y) || y == x),
    decreases r.len(),
{
    let n = insert_sorted(r, x);
    if r.len() == 0 {
        assert(n[0] == x);
    } else if r[0] == x {
        if y == x {
            assert(r[0] == y);
        }
    } else if seq_lt(x, r[0]) {
        if r.contains(y) {
            let j = choose|j: int| 0 <= j < r.len() && r[j] == y;
            assert(n[j + 1] == y);
        }
        if y == x {
            assert(n[0] == y);
        }
        if n.contains(y) {
            let j = choose|j: int| 0 <= j < n.len() && n[j] == y;
            if j > 0 {
                assert(r[j - 1] == y);
            }
        }
    } else {
        let t = r.drop_first();
        let m = insert_sorted(t, x);
        lemma_insert_sorted_contains(t, x, y);
        assert(n =~= seq![r[0]] + m);
        if r.contains(y) {
            let j = choose|j: int| 0 <= j < r.len() && r[j] == y;
            if j == 0 {
                assert(n[0] == y);
            } else {
                assert(t[j - 1] == y);
                let jj = choose|jj: int| 0 <= jj < m.len() && m[jj] == y;
                assert(n[jj + 1] == y);
            }
        }
        if y == x {
            let jj = choose|jj: int| 0 <= jj < m.len() && m[jj] == y;
            assert(n[jj + 1] == y);
        }
        if n.contains(y) {
            let j = choose|j: int| 0 <= j < n.len() && n[j] == y;
            if j == 0 {
                assert(r[0] == y);
            } else {
                assert(m[j - 1] == y);
                if t.contains(y) {
                    let jt = choose|jt: int| 0 <= jt < t.len() && t[jt] == y;
                    assert(r[jt + 1] == y);
                }
            }
        }
    }
}

/// Inserting keeps a sequence strictly sorted.
pub proof fn lemma_insert_sorted_sorted(r: Seq<Seq<char>>, x: Seq<char>)
    requires
        strictly_sorted(r),
    ensures
        strictly_sorted(insert_sorted(r, x)),
    decreases r.len(),
{
    let n = insert_sorted(r, x);
    if r.len() == 0 {
    } else if r[0] == x {
    } else if seq_lt(x, r[0]) {
        assert forall|i: int, j: int| 0 <= i < j < n.len() implies seq_lt(#[trigger] n[i], #[trigger] n[j]) by {
            if i == 0 {
                if j > 1 {
                    assert(seq_lt(r[0], r[j - 1]));
                    lemma_seq_lt_transitive(x, r[0], r[j - 1]);
                }
            } else {
                assert(seq_lt(r[i - 1], r[j - 1]));
            }
        }
    } else {
        let t = r.drop_first();
        let m = insert_sorted(t, x);
        assert forall|i: int, j: int| 0 <= i < j < t.len() implies seq_lt(#[trigger] t[i], #[trigger] t[j]) by {
            assert(seq_lt(r[i + 1], r[j + 1]));
        }
        lemma_insert_sorted_sorted(t, x);
        lemma_seq_lt_total(x, r[0]);
        assert(n =~= seq![r[0]] + m);
        assert forall|i: int, j: int| 0 <= i < j < n.len() implies seq_lt(#[trigger] n[i], #[trigger] n[j]) by {
            if i == 0 {
                let e = m[j - 1];
                assert(m.contains(e));
                lemma_insert_sorted_contains(t, x, e);
                if t.contains(e) {
                    let k = choose|k: int| 0 <= k < t.len() && t[k] == e;
                    assert(seq_lt(r[0], r[k + 1]));
                }
            } else {
                assert(seq_lt(m[i - 1], m[j - 1]));
            }
        }
    }
}

/// `sort_dedup` gives a strictly increasing sequence with exactly the
/// elements of its input.
pub proof fn lemma_sort_dedup(s: Seq<Seq<char>>)
    ensures
        strictly_sorted(sort_dedup(s)),
        forall|y: Seq<char>| #[trigger] sort_dedup(s).contains(y) <==> s.contains(y),
    decreases s.len(),
{
    if s.len() > 0 {
        let p = s.drop_last();
        lemma_sort_dedup(p);
        lemma_insert_sorted_sorted(sort_dedup(p), s.last());
        assert forall|y: Seq<char>| #[trigger] sort_dedup(s).contains(y) <==> s.contains(y) by {
            lemma_insert_sorted_contains(sort_dedup(p), s.last(), y);
            if s.contains(y) {
                let j = choose|j: int| 0 <= j < s.len() && s[j] == y;
                if j < s.len() - 1 {
                    assert(p[j] == y);
                }
            }
            if p.contains(y) {
                let j = choose|j: int| 0 <= j < p.len() && p[j] == y;
                assert(s[j] == y);
            }
        }
    }
}

fn insert_sorted_vec(out: &mut Vec<Vec<char>>, x: Vec<char>)
    ensures
        final(out)@.map_values(|p: Vec<char>| p@) == insert_sorted(
            old(out)@.map_values(|p: Vec<char>| p@),
            x@,
        ),
{
    let ghost r = out@.map_values(|p: Vec<char>| p@);
    let mut k: usize = 0;
    while k < out.len() && vec_lt(&out[k], &x)
        invariant
            r == out@.map_values(|p: Vec<char>| p@),
            k <= out@.len(),
            forall|i: int| 0 <= i < k ==> seq_lt(#[trigger] r[i], x@),
        decreases out@.len() - k,
    {
        k = k + 1;
    }
    proof {
        lemma_insert_sorted_at(r, x@, k as int);
    }
    if k < out.len() && vec_eq(&out[k], &x) {
        return;
    }
    let ghost xv = x@;
    out.insert(k, x);
    assert(out@.map_values(|p: Vec<char>| p@) =~= r.insert(k as int, xv));
}

/// The distinct strings of `ids`, sorted (`sort` then `dedup`).
pub fn sort_dedup_strings(ids: &Vec<String>) -> (r: Vec<String>)
    ensures
        views(r@) == sort_dedup(views(ids@)),
{
    let ghost s = views(ids@);
    let mut out: Vec<Vec<char>> = Vec::new();
    let mut i: usize = 0;
    while i < ids.len()
        invariant
            s == views(ids@),
            i <= ids@.len(),
            out@.map_values(|p: Vec<char>| p@) == sort_dedup(s.take(i as int)),
        decreases ids@.len() - i,
    {
        proof {
            let t = s.take(i + 1);
            assert(t.drop_last() =~= s.take(i as int));
            assert(t.last() == ids@[i as int]@);
        }
        insert_sorted_vec(&mut out, chars_of(ids[i].as_str()));
        i = i + 1;
    }
    assert(s.take(ids@.len() as int) =~= s);
    let mut r: Vec<String> = Vec::new();
    let mut k: usize = 0;
    while k < out.len()
        invariant
            k <= out@.len(),
            r@.len() == k,
            forall|j: int| 0 <= j < k ==> #[trigger] r@[j]@ == out@[j]@,
        decreases out@.len() - k,
    {
        r.push(string_from_chars(out[k].as_slice()));
        k = k + 1;
    }
    assert(views(r@) =~= out@.map_values(|p: Vec<char>| p@));
    r
}


/// The UTF-8 length of `v`, or `cap` when it is longer.
pub fn utf8_len_capped(v: &Vec<char>, cap: usize) -> (r: usize)
    ensures
        utf8_len(v@) <= cap ==> r == utf8_len(v@),
        utf8_len(v@) > cap ==> r == cap,
{
    let mut acc: usize = 0;
    let mut i: usize = 0;
    while i < v.len()
        invariant
            i <= v@.len(),
            acc == utf8_len(v@.take(i as int)),
            acc <= cap,
        decreases v@.len() - i,
    {
        let u = v[i] as u32;
        let w: usize = if u < 0x80 {
            1
        } else if u < 0x800 {
            2
        } else if u < 0x10000 {
            3
        } else {
            4
        };
        proof {
            let t = v@.take(i + 1);
            assert(t.drop_last() =~= v@.take(i as int));
        }
        if w > cap - acc {
            proof {
                lemma_utf8_len_mono(v@, i + 1);
            }
            return cap;
        }
        acc = acc + w;
        i = i + 1;
    }
    assert(v@.take(v@.len() as int) =~= v@);
    acc
}

/// A string takes at least one byte per character.
pub proof fn lemma_utf8_len_at_least_len(s: Seq<char>)
    ensures
        utf8_len(s) >= s.len(),
    decreases s.len(),
{
    if s.len() > 0 {
        lemma_utf8_len_at_least_len(s.drop_last());
    }
}

/// The text of an optional string.
pub open spec fn opt_view(o: Option<String>) -> Option<Seq<char>> {
    match o {
        Some(s) => Some(s@),
        None => None,
    }
}

} // verus!
