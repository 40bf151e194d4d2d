//! Character-level string operations used throughout the gateway, each with
//! a specification over `Seq<char>`.
//!
//! The specifications are written in an index-scanning style: a scan starts at
//! a position and moves one character at a time, which is also how the
//! executable loops below proceed.

use vstd::prelude::*;

use crate::ext::string_from_chars;

verus! {

broadcast use vstd::string::group_string_axioms;

// ---------------------------------------------------------------------------
// Specifications
// ---------------------------------------------------------------------------

/// An ASCII upper-case letter.
pub open spec fn is_ascii_upper(c: char) -> bool {
    'A' <= c && c <= 'Z'
}

/// ASCII lower-casing of one character; every other character is unchanged.
pub open spec fn lower_char(c: char) -> char {
    if is_ascii_upper(c) {
        ((c as u32) + 32) as char
    } else {
        c
    }
}

/// ASCII lower-casing of a string.
pub open spec fn ascii_lower(s: Seq<char>) -> Seq<char> {
    Seq::new(s.len(), |i: int| lower_char(s[i]))
}

/// Two strings that are equal up to ASCII case.
pub open spec fn eq_ignore_ascii_case(a: Seq<char>, b: Seq<char>) -> bool {
    ascii_lower(a) == ascii_lower(b)
}

/// The Unicode `White_Space` property, as `char::is_whitespace` reports it.
pub open spec fn is_whitespace(c: char) -> bool {
    ||| ('\t' <= c && c <= '\r')
    ||| c == ' '
    ||| c == '\u{85}'
    ||| c == '\u{a0}'
    ||| c == '\u{1680}'
    ||| ('\u{2000}' <= c && c <= '\u{200a}')
    ||| c == '\u{2028}'
    ||| c == '\u{2029}'
    ||| c == '\u{202f}'
    ||| c == '\u{205f}'
    ||| c == '\u{3000}'
}

/// The first position at or after `i` that does not hold whitespace.
pub open spec fn skip_ws_from(s: Seq<char>, i: int) -> int
    decreases s.len() - i,
{
    if 0 <= i < s.len() && is_whitespace(s[i]) {
        skip_ws_from(s, i + 1)
    } else {
        i
    }
}

/// Moving back from `j`, the first end position (not below `lo`) whose
/// preceding character is not whitespace.
pub open spec fn back_ws_from(s: Seq<char>, lo: int, j: int) -> int
    decreases j - lo,
{
    if lo < j && j <= s.len() && is_whitespace(s[j - 1]) {
        back_ws_from(s, lo, j - 1)
    } else {
        j
    }
}

/// `s` with leading and trailing whitespace removed (`str::trim`).
pub open spec fn trim(s: Seq<char>) -> Seq<char> {
    let a = skip_ws_from(s, 0);
    s.subrange(a, back_ws_from(s, a, s.len() as int))
}

/// Moving back from `j`, the first end position whose preceding character is
/// not `c`.
pub open spec fn back_char_from(s: Seq<char>, c: char, j: int) -> int
    decreases j,
{
    if 0 < j && j <= s.len() && s[j - 1] == c {
        back_char_from(s, c, j - 1)
    } else {
        j
    }
}

/// `s` with every trailing `c` removed (`str::trim_end_matches`).
pub open spec fn strip_trailing(s: Seq<char>, c: char) -> Seq<char> {
    s.subrange(0, back_char_from(s, c, s.len() as int))
}

/// The first position at or after `i` holding `c`, or the length of `s`.
pub open spec fn index_from(s: Seq<char>, c: char, i: int) -> int
    decreases s.len() - i,
{
    if i < 0 || i >= s.len() {
        s.len() as int
    } else if s[i] == c {
        i
    } else {
        index_from(s, c, i + 1)
    }
}

/// A scan from a position within the string stops within the string.
pub proof fn lemma_index_from_bounds(s: Seq<char>, c: char, i: int)
    requires
        0 <= i <= s.len(),
    ensures
        i <= index_from(s, c, i) <= s.len(),
    decreases s.len() - i,
{
    if i < s.len() && s[i] != c {
        lemma_index_from_bounds(s, c, i + 1);
    }
}

/// The text before the first `c`, or all of `s` (`s.split(c).next()`).
pub open spec fn before_char(s: Seq<char>, c: char) -> Seq<char> {
    s.subrange(0, index_from(s, c, 0))
}

/// Moving back from `j`, the position of the last `c` before `j`, or -1.
pub open spec fn last_index_before(s: Seq<char>, c: char, j: int) -> int
    decreases j,
{
    if j <= 0 || j > s.len() {
        -1
    } else if s[j - 1] == c {
        j - 1
    } else {
        last_index_before(s, c, j - 1)
    }
}

/// The text after the last `c`, or all of `s` (`s.rsplit(c).next()`).
pub open spec fn after_last_char(s: Seq<char>, c: char) -> Seq<char> {
    s.subrange(last_index_before(s, c, s.len() as int) + 1, s.len() as int)
}

/// `p` occurs in `s` at position `i`.
pub open spec fn occurs_at(s: Seq<char>, p: Seq<char>, i: int) -> bool {
    0 <= i && i + p.len() <= s.len() && s.subrange(i, i + p.len()) == p
}

/// The first position at or after `i` where `p` occurs in `s`.
pub open spec fn find_from(s: Seq<char>, p: Seq<char>, i: int) -> Option<int>
    decreases s.len() + 1 - i,
{
    if i < 0 || i + p.len() > s.len() {
        None
    } else if s.subrange(i, i + p.len()) == p {
        Some(i)
    } else {
        find_from(s, p, i + 1)
    }
}

/// `s` begins with `p`.
pub open spec fn starts_with(s: Seq<char>, p: Seq<char>) -> bool {
    p.len() <= s.len() && s.subrange(0, p.len() as int) == p
}

/// The text of an optional string.
pub open spec fn opt_text(o: Option<String>) -> Option<Seq<char>> {
    match o {
        Some(s) => Some(s@),
        None => None,
    }
}

/// The decimal digit for `d < 10`.
pub open spec fn digit_char(d: nat) -> char {
    (('0' as u32) + d) as char
}

/// The decimal representation of `n`, without leading zeros.
pub open spec fn decimal(n: nat) -> Seq<char>
    decreases n,
{
    if n < 10 {
        seq![digit_char(n)]
    } else {
        decimal(n / 10).push(digit_char(n % 10))
    }
}

/// `"true"` or `"false"`, as `bool` is displayed.
pub open spec fn bool_text(b: bool) -> Seq<char> {
    if b {
        seq!['t', 'r', 'u', 'e']
    } else {
        seq!['f', 'a', 'l', 's', 'e']
    }
}

/// Lower-casing a character twice is lower-casing it once.
pub proof fn lemma_lower_char_idempotent(c: char)
    ensures
        lower_char(lower_char(c)) == lower_char(c),
{
    if is_ascii_upper(c) {
        let d = ((c as u32) + 32) as char;
        assert(d as u32 == (c as u32) + 32);
        assert(!is_ascii_upper(d));
    }
}

/// ASCII lower-casing is idempotent: a lower-cased string is its own
/// lower-case form.
pub proof fn lemma_ascii_lower_idempotent(s: Seq<char>)
    ensures
        ascii_lower(ascii_lower(s)) == ascii_lower(s),
{
    assert forall|i: int| 0 <= i < s.len() implies #[trigger] ascii_lower(ascii_lower(s))[i] == ascii_lower(s)[i] by {
        lemma_lower_char_idempotent(s[i]);
    }
    assert(ascii_lower(ascii_lower(s)) =~= ascii_lower(s));
}

/// Lower-casing maps a character to `:` or `/` only if it is that character.
pub proof fn lemma_lower_char_keeps_punctuation(c: char)
    ensures
        lower_char(c) == ':' <==> c == ':',
        lower_char(c) == '/' <==> c == '/',
{
}

/// The characters a scan for `c` passes over are not `c`.
pub proof fn lemma_index_from_skips(s: Seq<char>, c: char, i: int)
    requires
        0 <= i <= s.len(),
    ensures
        i <= index_from(s, c, i) <= s.len(),
        forall|k: int| i <= k < index_from(s, c, i) ==> s[k] != c,
        index_from(s, c, i) < s.len() ==> s[index_from(s, c, i)] == c,
    decreases s.len() - i,
{
    if i < s.len() && s[i] != c {
        lemma_index_from_skips(s, c, i + 1);
    }
}

/// The text before the first `c` holds no `c`, and is a prefix.
pub proof fn lemma_before_char(s: Seq<char>, c: char)
    ensures
        !before_char(s, c).contains(c),
        before_char(s, c).len() <= s.len(),
        before_char(s, c) == s.subrange(0, before_char(s, c).len() as int),
{
    lemma_index_from_skips(s, c, 0);
}

/// Trimming stays within the string.
pub proof fn lemma_trim_bounds(s: Seq<char>)
    ensures
        0 <= skip_ws_from(s, 0) <= back_ws_from(s, skip_ws_from(s, 0), s.len() as int) <= s.len(),
        trim(s) == s.subrange(
            skip_ws_from(s, 0),
            back_ws_from(s, skip_ws_from(s, 0), s.len() as int),
        ),
{
    lemma_skip_ws_bounds(s, 0);
    lemma_back_ws_bounds(s, skip_ws_from(s, 0), s.len() as int);
}

proof fn lemma_skip_ws_bounds(s: Seq<char>, i: int)
    requires
        0 <= i <= s.len(),
    ensures
        i <= skip_ws_from(s, i) <= s.len(),
        skip_ws_from(s, i) < s.len() ==> !is_whitespace(s[skip_ws_from(s, i)]),
    decreases s.len() - i,
{
    if i < s.len() && is_whitespace(s[i]) {
        lemma_skip_ws_bounds(s, i + 1);
    }
}

proof fn lemma_back_ws_bounds(s: Seq<char>, lo: int, j: int)
    requires
        0 <= lo <= j <= s.len(),
    ensures
        lo <= back_ws_from(s, lo, j) <= j,
        lo < back_ws_from(s, lo, j) ==> !is_whitespace(s[back_ws_from(s, lo, j) - 1]),
    decreases j - lo,
{
    if lo < j && is_whitespace(s[j - 1]) {
        lemma_back_ws_bounds(s, lo, j - 1);
    }
}

/// Trimming a trimmed string changes nothing.
pub proof fn lemma_trim_idempotent(s: Seq<char>)
    ensures
        trim(trim(s)) == trim(s),
{
    lemma_trim_bounds(s);
    let t = trim(s);
    let a = skip_ws_from(s, 0);
    let b = back_ws_from(s, a, s.len() as int);
    lemma_skip_ws_bounds(s, 0);
    lemma_back_ws_bounds(s, a, s.len() as int);
    lemma_trim_bounds(t);
    if t.len() > 0 {
        assert(t[0] == s[a]);
        assert(skip_ws_from(t, 0) == 0);
        assert(t[t.len() - 1] == s[b - 1]);
        assert(back_ws_from(t, 0, t.len() as int) == t.len());
        assert(trim(t) =~= t);
    } else {
        assert(trim(t) =~= t);
    }
}

/// ASCII lower-casing never turns a character into whitespace or out of it.
pub proof fn lemma_lower_char_whitespace(c: char)
    ensures
        is_whitespace(lower_char(c)) == is_whitespace(c),
{
}

/// Lower-casing a trimmed string leaves it trimmed.
pub proof fn lemma_lower_keeps_trimmed(s: Seq<char>)
    ensures
        trim(ascii_lower(trim(s))) == ascii_lower(trim(s)),
{
    lemma_trim_bounds(s);
    let a = skip_ws_from(s, 0);
    let b = back_ws_from(s, a, s.len() as int);
    lemma_skip_ws_bounds(s, 0);
    lemma_back_ws_bounds(s, a, s.len() as int);
    let t = trim(s);
    let h = ascii_lower(t);
    lemma_trim_bounds(h);
    if h.len() > 0 {
        assert(t[0] == s[a]);
        assert(t[t.len() - 1] == s[b - 1]);
        lemma_lower_char_whitespace(t[0]);
        lemma_lower_char_whitespace(t[t.len() - 1]);
        assert(!is_whitespace(h[0]));
        assert(skip_ws_from(h, 0) == 0);
        assert(!is_whitespace(h[h.len() - 1]));
        assert(back_ws_from(h, 0, h.len() as int) == h.len());
        assert(trim(h) =~= h);
    } else {
        assert(trim(h) =~= h);
    }
}

/// Cutting at a character the string does not hold keeps it whole.
pub proof fn lemma_before_absent_char(s: Seq<char>, c: char)
    requires
        !s.contains(c),
    ensures
        before_char(s, c) == s,
{
    lemma_index_from_skips(s, c, 0);
    if index_from(s, c, 0) < s.len() {
        assert(s[index_from(s, c, 0)] == c);
    }
    assert(before_char(s, c) =~= s);
}

/// A string without `:` holds no `://`.
pub proof fn lemma_no_scheme_separator(s: Seq<char>, i: int)
    requires
        !s.contains(':'),
    ensures
        find_from(s, "://"@, i) is None,
    decreases s.len() + 1 - i,
{
    reveal_strlit("://");
    if i < 0 || i + 3 > s.len() {
    } else {
        if s.subrange(i, i + 3) == "://"@ {
            assert(s.subrange(i, i + 3)[0] == ':');
            assert(s[i] == ':');
        }
        lemma_no_scheme_separator(s, i + 1);
    }
}

/// A character absent from a string is absent from its trimmed form.
pub proof fn lemma_trim_keeps_absence(s: Seq<char>, c: char)
    requires
        !s.contains(c),
    ensures
        !trim(s).contains(c),
{
    lemma_trim_bounds(s);
    let a = skip_ws_from(s, 0);
    let b = back_ws_from(s, a, s.len() as int);
    if trim(s).contains(c) {
        let k = choose|k: int| 0 <= k < trim(s).len() && trim(s)[k] == c;
        assert(s[a + k] == c);
        assert(s.contains(c));
    }
}

/// Lower-casing keeps `:` and `/` absent.
pub proof fn lemma_lower_keeps_absence(s: Seq<char>, c: char)
    requires
        !s.contains(c),
        c == ':' || c == '/',
    ensures
        !ascii_lower(s).contains(c),
{
    if ascii_lower(s).contains(c) {
        let k = choose|k: int| 0 <= k < ascii_lower(s).len() && ascii_lower(s)[k] == c;
        lemma_lower_char_keeps_punctuation(s[k]);
        assert(s.contains(c));
    }
}

/// Lower-casing commutes with cutting at `:`: `:` is not a letter.
pub proof fn lemma_lower_before_colon(s: Seq<char>)
    ensures
        before_char(ascii_lower(s), ':') == ascii_lower(before_char(s, ':')),
{
    let l = ascii_lower(s);
    lemma_index_from_lower(s, 0);
    lemma_index_from_skips(s, ':', 0);
    assert(before_char(l, ':') =~= ascii_lower(before_char(s, ':')));
}

proof fn lemma_index_from_lower(s: Seq<char>, i: int)
    requires
        0 <= i <= s.len(),
    ensures
        index_from(ascii_lower(s), ':', i) == index_from(s, ':', i),
    decreases s.len() - i,
{
    if i < s.len() {
        lemma_lower_char_keeps_punctuation(s[i]);
        if s[i] != ':' {
            lemma_index_from_lower(s, i + 1);
        }
    }
}

// ---------------------------------------------------------------------------
// Executable operations
// ---------------------------------------------------------------------------

/// Copies the characters of a string slice into a vector.
pub fn chars_of(s: &str) -> (v: Vec<char>)
    ensures
        v@ == s@,
{
    let mut v: Vec<char> = Vec::new();
    for c in it: s.chars()
        invariant
            v@ == it.seq().take(it.index() as int),
    {
        v.push(c);
    }
    v
}

/// Copies a range of a character slice.
pub fn copy_range(v: &[char], a: usize, b: usize) -> (r: Vec<char>)
    requires
        a <= b <= v@.len(),
    ensures
        r@ == v@.subrange(a as int, b as int),
{
    let mut r: Vec<char> = Vec::new();
    let mut i = a;
    while i < b
        invariant
            a <= i <= b <= v@.len(),
            r@ == v@.subrange(a as int, i as int),
        decreases b - i,
    {
        r.push(v[i]);
        i += 1;
        assert(r@ =~= v@.subrange(a as int, i as int));
    }
    r
}

/// Appends all characters of `src` to `dst`.
pub fn push_all(dst: &mut Vec<char>, src: &[char])
    ensures
        final(dst)@ == old(dst)@ + src@,
{
    let ghost start = dst@;
    let mut i: usize = 0;
    while i < src.len()
        invariant
            i <= src@.len(),
            dst@ == start + src@.subrange(0, i as int),
        decreases src.len() - i,
    {
        dst.push(src[i]);
        i += 1;
        assert(dst@ =~= start + src@.subrange(0, i as int));
    }
    assert(src@.subrange(0, src@.len() as int) =~= src@);
}

/// Appends the characters of a string slice to `dst`.
pub fn push_str(dst: &mut Vec<char>, s: &str)
    ensures
        final(dst)@ == old(dst)@ + s@,
{
    let cs = chars_of(s);
    push_all(dst, &cs);
}

/// Character-wise equality of two slices.
pub fn chars_eq(a: &[char], b: &[char]) -> (r: bool)
    ensures
        r == (a@ == b@),
{
    if a.len() != b.len() {
        return false;
    }
    let mut i: usize = 0;
    while i < a.len()
        invariant
            a@.len() == b@.len(),
            i <= a@.len(),
            forall|k: int| 0 <= k < i ==> a@[k] == b@[k],
        decreases a.len() - i,
    {
        if a[i] != b[i] {
            return false;
        }
        i += 1;
    }
    assert(a@ =~= b@);
    true
}

/// Equality of two string slices.
pub fn str_eq(a: &str, b: &str) -> (r: bool)
    ensures
        r == (a@ == b@),
{
    let x = chars_of(a);
    let y = chars_of(b);
    chars_eq(&x, &y)
}

/// Equality of a character slice and a string slice.
pub fn chars_eq_str(a: &[char], b: &str) -> (r: bool)
    ensures
        r == (a@ == b@),
{
    let y = chars_of(b);
    chars_eq(a, &y)
}

/// ASCII lower-casing of one character.
pub fn lower(c: char) -> (r: char)
    ensures
        r == lower_char(c),
{
    if 'A' <= c && c <= 'Z' {
        let u = c as u8;
        let r = (u + 32) as char;
        assert(r == ((c as u32) + 32) as char);
        r
    } else {
        c
    }
}

/// ASCII lower-casing of a character slice.
pub fn to_ascii_lower(v: &[char]) -> (r: Vec<char>)
    ensures
        r@ == ascii_lower(v@),
{
    let mut r: Vec<char> = Vec::new();
    let mut i: usize = 0;
    while i < v.len()
        invariant
            i <= v@.len(),
            r@ =~= ascii_lower(v@.subrange(0, i as int)),
        decreases v.len() - i,
    {
        let c = lower(v[i]);
        r.push(c);
        i += 1;
    }
    assert(v@.subrange(0, v@.len() as int) =~= v@);
    r
}

/// Equality up to ASCII case of two character slices.
pub fn chars_eq_ignore_ascii_case(a: &[char], b: &[char]) -> (r: bool)
    ensures
        r == eq_ignore_ascii_case(a@, b@),
{
    let x = to_ascii_lower(a);
    let y = to_ascii_lower(b);
    chars_eq(&x, &y)
}

/// The Unicode whitespace test.
pub fn whitespace(c: char) -> (r: bool)
    ensures
        r == is_whitespace(c),
{
    ('\t' <= c && c <= '\r') || c == ' ' || c == '\u{85}' || c == '\u{a0}' || c == '\u{1680}'
        || ('\u{2000}' <= c && c <= '\u{200a}') || c == '\u{2028}' || c == '\u{2029}'
        || c == '\u{202f}' || c == '\u{205f}' || c == '\u{3000}'
}

/// Removes leading and trailing whitespace.
pub fn trim_chars(v: &[char]) -> (r: Vec<char>)
    ensures
        r@ == trim(v@),
{
    let n = v.len();
    let mut a: usize = 0;
    while a < n && whitespace(v[a])
        invariant
            n == v@.len(),
            a <= n,
            skip_ws_from(v@, 0) == skip_ws_from(v@, a as int),
        decreases n - a,
    {
        a += 1;
    }
    let mut b: usize = n;
    while b > a && whitespace(v[b - 1])
        invariant
            n == v@.len(),
            a <= b <= n,
            skip_ws_from(v@, 0) == a,
            back_ws_from(v@, a as int, n as int) == back_ws_from(v@, a as int, b as int),
        decreases b - a,
    {
        b -= 1;
    }
    copy_range(v, a, b)
}

/// Removes every trailing occurrence of `c`.
pub fn strip_trailing_chars(v: &[char], c: char) -> (r: Vec<char>)
    ensures
        r@ == strip_trailing(v@, c),
{
    let n = v.len();
    let mut b: usize = n;
    while b > 0 && v[b - 1] == c
        invariant
            n == v@.len(),
            b <= n,
            back_char_from(v@, c, n as int) == back_char_from(v@, c, b as int),
        decreases b,
    {
        b -= 1;
    }
    copy_range(v, 0, b)
}

/// The position of the first `c`, or the length.
pub fn index_of(v: &[char], c: char) -> (r: usize)
    ensures
        r == index_from(v@, c, 0),
        r <= v@.len(),
{
    let mut i: usize = 0;
    while i < v.len() && v[i] != c
        invariant
            i <= v@.len(),
            index_from(v@, c, 0) == index_from(v@, c, i as int),
        decreases v.len() - i,
    {
        i += 1;
    }
    i
}

/// The position of the first `c` at or after `i`, or the length.
pub fn index_of_from(v: &[char], c: char, i: usize) -> (r: usize)
    requires
        i <= v@.len(),
    ensures
        r == index_from(v@, c, i as int),
        i <= r <= v@.len(),
{
    let mut k: usize = i;
    while k < v.len() && v[k] != c
        invariant
            i <= k <= v@.len(),
            index_from(v@, c, i as int) == index_from(v@, c, k as int),
        decreases v.len() - k,
    {
        k += 1;
    }
    k
}

/// The text before the first `c`.
pub fn before_first(v: &[char], c: char) -> (r: Vec<char>)
    ensures
        r@ == before_char(v@, c),
{
    let i = index_of(v, c);
    copy_range(v, 0, i)
}

/// The position of the last `c`, if any.
pub fn last_index_of(v: &[char], c: char) -> (r: Option<usize>)
    ensures
        match r {
            Some(i) => i == last_index_before(v@, c, v@.len() as int) && i < v@.len(),
            None => last_index_before(v@, c, v@.len() as int) == -1,
        },
{
    let mut j: usize = v.len();
    while j > 0 && v[j - 1] != c
        invariant
            j <= v@.len(),
            last_index_before(v@, c, v@.len() as int) == last_index_before(v@, c, j as int),
        decreases j,
    {
        j -= 1;
    }
    if j == 0 {
        None
    } else {
        Some(j - 1)
    }
}

/// The text after the last `c`.
pub fn after_last(v: &[char], c: char) -> (r: Vec<char>)
    ensures
        r@ == after_last_char(v@, c),
{
    let n = v.len();
    match last_index_of(v, c) {
        Some(i) => {
            assert(i < n);
            copy_range(v, i + 1, n)
        },
        None => copy_range(v, 0, n),
    }
}

/// Whether `p` occurs in `v` at position `i`.
pub fn occurs_at_exec(v: &[char], p: &[char], i: usize) -> (r: bool)
    requires
        i + p@.len() <= v@.len(),
    ensures
        r == (v@.subrange(i as int, i + p@.len()) == p@),
{
    let vl = v.len();
    let mut k: usize = 0;
    while k < p.len()
        invariant
            vl == v@.len(),
            i + p@.len() <= v@.len(),
            k <= p@.len(),
            forall|m: int| 0 <= m < k ==> v@[i + m] == p@[m],
        decreases p.len() - k,
    {
        if v[i + k] != p[k] {
            assert(v@.subrange(i as int, i + p@.len())[k as int] != p@[k as int]);
            return false;
        }
        k += 1;
    }
    assert(v@.subrange(i as int, i + p@.len()) =~= p@);
    true
}

/// The first position where `p` occurs.
pub fn find(v: &[char], p: &[char]) -> (r: Option<usize>)
    ensures
        match r {
            Some(i) => find_from(v@, p@, 0) == Some(i as int) && i + p@.len() <= v@.len(),
            None => find_from(v@, p@, 0) is None,
        },
{
    let vl = v.len();
    if p.len() > vl {
        return None;
    }
    if p.len() == 0 {
        assert(v@.subrange(0, 0) =~= p@);
        return Some(0);
    }
    let mut i: usize = 0;
    let pl = p.len();
    while i <= vl - pl
        invariant
            vl == v@.len(),
            pl == p@.len(),
            1 <= pl <= vl,
            i <= vl,
            find_from(v@, p@, 0) == find_from(v@, p@, i as int),
        decreases vl - i,
    {
        if occurs_at_exec(v, p, i) {
            return Some(i);
        }
        i += 1;
    }
    None
}

/// Whether `v` begins with `p`.
pub fn starts_with_chars(v: &[char], p: &[char]) -> (r: bool)
    ensures
        r == starts_with(v@, p@),
{
    if p.len() > v.len() {
        false
    } else {
        occurs_at_exec(v, p, 0)
    }
}

/// Whether `v` begins with the string `p`.
pub fn starts_with_str(v: &[char], p: &str) -> (r: bool)
    ensures
        r == starts_with(v@, p@),
{
    let pc = chars_of(p);
    starts_with_chars(v, &pc)
}

/// The decimal representation of a number.
pub fn decimal_chars(n: u64) -> (r: Vec<char>)
    ensures
        r@ == decimal(n as nat),
    decreases n,
{
    if n < 10 {
        let d = (('0' as u8) + (n as u8)) as char;
        assert(d == digit_char(n as nat));
        let mut r: Vec<char> = Vec::new();
        r.push(d);
        assert(r@ =~= seq![digit_char(n as nat)]);
        r
    } else {
        let mut r = decimal_chars(n / 10);
        let m = n % 10;
        let d = (('0' as u8) + (m as u8)) as char;
        assert(d == digit_char((n % 10) as nat));
        r.push(d);
        r
    }
}

/// `"true"` or `"false"`.
pub fn bool_chars(b: bool) -> (r: Vec<char>)
    ensures
        r@ == bool_text(b),
{
    let mut r: Vec<char> = Vec::new();
    if b {
        r.push('t');
        r.push('r');
        r.push('u');
        r.push('e');
    } else {
        r.push('f');
        r.push('a');
        r.push('l');
        r.push('s');
        r.push('e');
    }
    assert(r@ =~= bool_text(b));
    r
}

/// Converts characters to an owned string.
pub fn to_string(v: &[char]) -> (s: String)
    ensures
        s@ == v@,
{
    string_from_chars(v)
}

} // verus!
