//! Text as sequences of characters: the small vocabulary that the parsers and
//! the renderer are stated in, with an executable counterpart for each notion.

use vstd::prelude::*;
use vstd::utf8::{decode_utf8, encode_utf8, valid_utf8};

verus! {

/// Whether `c` is white space in the sense of Unicode's `White_Space` property.
pub open spec fn is_whitespace(c: char) -> bool {
    let u = c as u32;
    ||| 0x09 <= u <= 0x0d
    ||| u == 0x20
    ||| u == 0x85
    ||| u == 0xa0
    ||| u == 0x1680
    ||| 0x2000 <= u <= 0x200a
    ||| u == 0x2028
    ||| u == 0x2029
    ||| u == 0x202f
    ||| u == 0x205f
    ||| u == 0x3000
}

/// Decides [`is_whitespace`].
pub fn whitespace(c: char) -> (r: bool)
    ensures
        r == is_whitespace(c),
{
    let u: u32 = c as u32;
    (0x09 <= u && u <= 0x0d) || u == 0x20 || u == 0x85 || u == 0xa0 || u == 0x1680 || (0x2000 <= u
        && u <= 0x200a) || u == 0x2028 || u == 0x2029 || u == 0x202f || u == 0x205f || u == 0x3000
}

/// The length of what is left of the first `n` characters of `s` once the
/// white space at their end is gone.
pub open spec fn trimmed_len(s: Seq<char>, n: int) -> int
    decreases n,
{
    if n <= 0 {
        0
    } else if is_whitespace(s[n - 1]) {
        trimmed_len(s, n - 1)
    } else {
        n
    }
}

/// The index of the first character at or after `i` that is not white space,
/// or the length of `s` if only white space follows.
pub open spec fn trimmed_start(s: Seq<char>, i: int) -> int
    decreases s.len() - i,
{
    if i >= s.len() {
        s.len() as int
    } else if is_whitespace(s[i]) {
        trimmed_start(s, i + 1)
    } else {
        i
    }
}

/// `s` without the white space at its end.
pub open spec fn trim_end(s: Seq<char>) -> Seq<char> {
    s.take(trimmed_len(s, s.len() as int))
}

/// `s` without the white space at either end.
pub open spec fn trim(s: Seq<char>) -> Seq<char> {
    let t = trim_end(s);
    t.skip(trimmed_start(t, 0))
}

/// What is left after trimming the end of the first `n` characters ends
/// with a character that is no white space, if it is not empty, and all
/// that was cut off is white space.
pub proof fn lemma_trimmed_len_bounds(s: Seq<char>, n: int)
    requires
        0 <= n <= s.len(),
    ensures
        0 <= trimmed_len(s, n) <= n,
        trimmed_len(s, n) > 0 ==> !is_whitespace(s[trimmed_len(s, n) - 1]),
        forall|j: int| trimmed_len(s, n) <= j < n ==> is_whitespace(#[trigger] s[j]),
    decreases n,
{
    if n > 0 && is_whitespace(s[n - 1]) {
        lemma_trimmed_len_bounds(s, n - 1);
    }
}

/// What is left after trimming the start from index `i` on begins with a
/// character that is no white space, if it is not empty, and all that was
/// cut off is white space.
pub proof fn lemma_trimmed_start_bounds(s: Seq<char>, i: int)
    requires
        0 <= i <= s.len(),
    ensures
        i <= trimmed_start(s, i) <= s.len(),
        trimmed_start(s, i) < s.len() ==> !is_whitespace(s[trimmed_start(s, i)]),
        forall|j: int| i <= j < trimmed_start(s, i) ==> is_whitespace(#[trigger] s[j]),
    decreases s.len() - i,
{
    if i < s.len() && is_whitespace(s[i]) {
        lemma_trimmed_start_bounds(s, i + 1);
    }
}

/// The index of the first `c` in `s` at or after `from`, or the length of `s`
/// if there is none.
pub open spec fn find_from(s: Seq<char>, c: char, from: int) -> int
    decreases s.len() - from,
{
    if from >= s.len() {
        s.len() as int
    } else if s[from] == c {
        from
    } else {
        find_from(s, c, from + 1)
    }
}

/// The first `c` at or after `from` is a `c`, and none stands between
/// `from` and it; where there is none, none stands from `from` on.
pub proof fn lemma_find_from(s: Seq<char>, c: char, from: int)
    requires
        0 <= from <= s.len(),
    ensures
        from <= find_from(s, c, from) <= s.len(),
        find_from(s, c, from) < s.len() ==> s[find_from(s, c, from)] == c,
        forall|j: int| from <= j < find_from(s, c, from) ==> #[trigger] s[j] != c,
    decreases s.len() - from,
{
    if from < s.len() && s[from] != c {
        lemma_find_from(s, c, from + 1);
    }
}

/// The index of the last `c` among the first `n` characters of `s`, or `-1`
/// if there is none.
pub open spec fn rfind_before(s: Seq<char>, c: char, n: int) -> int
    decreases n,
{
    if n <= 0 {
        -1
    } else if s[n - 1] == c {
        n - 1
    } else {
        rfind_before(s, c, n - 1)
    }
}

/// The index of the last `c` in `s`, or `-1` if there is none.
pub open spec fn rfind(s: Seq<char>, c: char) -> int {
    rfind_before(s, c, s.len() as int)
}

/// The last `c` among the first `n` characters is a `c`, and none stands
/// between it and `n`; where there is none, none stands before `n`.
pub proof fn lemma_rfind_before(s: Seq<char>, c: char, n: int)
    requires
        0 <= n <= s.len(),
    ensures
        -1 <= rfind_before(s, c, n) < n,
        rfind_before(s, c, n) >= 0 ==> s[rfind_before(s, c, n)] == c,
        forall|j: int| rfind_before(s, c, n) < j < n ==> #[trigger] s[j] != c,
    decreases n,
{
    if n > 0 && s[n - 1] != c {
        lemma_rfind_before(s, c, n - 1);
    }
}

/// The last `c` among the first `n` characters is at `k` when `c` stands at
/// `k` and nowhere between `k` and `n`.
pub proof fn lemma_rfind_before_is(s: Seq<char>, c: char, n: int, k: int)
    requires
        0 <= k < n <= s.len(),
        s[k] == c,
        forall|j: int| k < j < n ==> #[trigger] s[j] != c,
    ensures
        rfind_before(s, c, n) == k,
    decreases n,
{
    if s[n - 1] != c {
        lemma_rfind_before_is(s, c, n - 1, k);
    }
}

/// Whether `needle` occurs in `hay` as a run of consecutive characters.
pub open spec fn contains(hay: Seq<char>, needle: Seq<char>) -> bool {
    exists|i: int| occurs_at(hay, needle, i)
}

/// Whether `needle` stands in `hay` at index `i`.
pub open spec fn occurs_at(hay: Seq<char>, needle: Seq<char>, i: int) -> bool {
    &&& 0 <= i
    &&& i + needle.len() <= hay.len()
    &&& hay.subrange(i, i + needle.len()) == needle
}

/// The lines of `s` from index `start` on. A line ends at a line feed, which
/// is not part of it, nor is a carriage return directly before that line
/// feed; the last line may lack the line feed.
pub open spec fn lines_from(s: Seq<char>, start: int) -> Seq<Seq<char>>
    decreases s.len() - start,
{
    if start < 0 || start >= s.len() {
        Seq::empty()
    } else {
        proof {
            lemma_find_from(s, '\n', start);
        }
        seq![line_at(s, start)] + lines_from(s, next_line(s, start))
    }
}

/// The index at which the line after the one beginning at `start` begins, or
/// the length of `s` if that line is the last one.
pub open spec fn next_line(s: Seq<char>, start: int) -> int {
    let end = find_from(s, '\n', start);
    if end < s.len() {
        end + 1
    } else {
        end
    }
}

/// The line of `s` that begins at index `start`.
pub open spec fn line_at(s: Seq<char>, start: int) -> Seq<char> {
    let end = find_from(s, '\n', start);
    if end < s.len() && start < end && s[end - 1] == '\r' {
        s.subrange(start, end - 1)
    } else {
        s.subrange(start, end)
    }
}

/// The lines of `s`.
pub open spec fn lines(s: Seq<char>) -> Seq<Seq<char>> {
    lines_from(s, 0)
}

/// The views of the lines held in `v`.
pub open spec fn line_views(v: Seq<Vec<char>>) -> Seq<Seq<char>> {
    v.map_values(|line: Vec<char>| line@)
}

/// The text that `bytes` encode in UTF-8, if they encode any.
pub open spec fn decoded(bytes: Seq<u8>) -> Option<Seq<char>> {
    if valid_utf8(bytes) {
        Some(decode_utf8(bytes))
    } else {
        None
    }
}

/// `String::from_utf8`: there is a string exactly where `bytes` are valid
/// UTF-8, and its bytes are then `bytes`.
#[verifier::external_body]
fn from_utf8(bytes: Vec<u8>) -> (r: Option<String>)
    ensures
        r is Some <==> valid_utf8(bytes@),
        r matches Some(s) ==> encode_utf8(s@) == bytes@,
{
    match String::from_utf8(bytes) {
        Ok(s) => Some(s),
        Err(_) => None,
    }
}

/// The text that `bytes` encode in UTF-8.
pub fn decode(bytes: Vec<u8>) -> (r: Option<String>)
    ensures
        match r {
            Some(s) => decoded(bytes@) == Some(s@),
            None => decoded(bytes@) is None,
        },
{
    let r = from_utf8(bytes);
    proof {
        if let Some(s) = &r {
            vstd::utf8::encode_utf8_decode_utf8(s@);
        }
    }
    r
}

/// The characters of `s`.
pub fn chars(s: &str) -> (r: Vec<char>)
    ensures
        r@ == s@,
{
    let mut out: Vec<char> = Vec::new();
    for c in it: s.chars()
        invariant
            out@ == it.seq().take(it.index() as int),
            it.seq() == s@,
    {
        out.push(c);
    }
    out
}

/// `String::push`: the string afterwards is the string before with `c` at its end.
#[verifier::external_body]
pub(crate) fn push_char(s: &mut String, c: char)
    ensures
        final(s)@ == old(s)@.push(c),
{
    s.push(c)
}

/// The string made of the characters of `v`.
pub fn string(v: &[char]) -> (r: String)
    ensures
        r@ == v@,
{
    let mut out = String::new();
    let mut i: usize = 0;
    while i < v.len()
        invariant
            i <= v.len(),
            out@ == v@.take(i as int),
        decreases v.len() - i,
    {
        push_char(&mut out, v[i]);
        i += 1;
    }
    out
}

/// A copy of the characters of `v` from `from` up to `to`.
pub(crate) fn slice(v: &[char], from: usize, to: usize) -> (r: Vec<char>)
    requires
        from <= to <= v.len(),
    ensures
        r@ == v@.subrange(from as int, to as int),
{
    let mut out: Vec<char> = Vec::new();
    let mut i: usize = from;
    while i < to
        invariant
            from <= i <= to <= v.len(),
            out@ == v@.subrange(from as int, i as int),
        decreases to - i,
    {
        out.push(v[i]);
        i += 1;
    }
    out
}

/// Whether `a` and `b` hold the same characters.
pub fn same(a: &[char], b: &[char]) -> (r: bool)
    ensures
        r == (a@ == b@),
{
    if a.len() != b.len() {
        return false;
    }
    let mut i: usize = 0;
    while i < a.len()
        invariant
            i <= a.len(),
            a.len() == b.len(),
            a@.take(i as int) == b@.take(i as int),
        decreases a.len() - i,
    {
        if a[i] != b[i] {
            return false;
        }
        i += 1;
    }
    assert(a@ == a@.take(a.len() as int));
    assert(b@ == b@.take(b.len() as int));
    true
}

/// Whether `needle` stands in `hay` at index `at`.
pub fn matches_at(hay: &[char], needle: &[char], at: usize) -> (r: bool)
    ensures
        r == occurs_at(hay@, needle@, at as int),
{
    if needle.len() > hay.len() || at > hay.len() - needle.len() {
        return false;
    }
    let ghost window = hay@.subrange(at as int, at + needle.len());
    let mut i: usize = 0;
    while i < needle.len()
        invariant
            i <= needle.len(),
            at + needle.len() <= hay.len(),
            window == hay@.subrange(at as int, at + needle.len()),
            window.take(i as int) == needle@.take(i as int),
        decreases needle.len() - i,
    {
        if hay[at + i] != needle[i] {
            return false;
        }
        i += 1;
    }
    assert(window == window.take(needle.len() as int));
    assert(needle@ == needle@.take(needle.len() as int));
    true
}

/// Whether `s` begins with `prefix`.
pub fn starts_with(s: &[char], prefix: &[char]) -> (r: bool)
    ensures
        r == prefix@.is_prefix_of(s@),
{
    matches_at(s, prefix, 0)
}

/// Decides [`contains`].
pub fn has(hay: &[char], needle: &[char]) -> (r: bool)
    ensures
        r == contains(hay@, needle@),
{
    if needle.len() > hay.len() {
        return false;
    }
    let last: usize = hay.len() - needle.len();
    let mut i: usize = 0;
    loop
        invariant
            i <= last,
            last == hay.len() - needle.len(),
            forall|j: int| 0 <= j < i ==> !occurs_at(hay@, needle@, j),
        decreases last - i,
    {
        if matches_at(hay, needle, i) {
            return true;
        }
        if i == last {
            return false;
        }
        i += 1;
    }
}

/// The index of the first `c` in `v` at or after `from`, or the length of `v`.
pub(crate) fn find(v: &[char], c: char, from: usize) -> (r: usize)
    requires
        from <= v.len(),
    ensures
        r == find_from(v@, c, from as int),
        from <= r <= v.len(),
{
    let mut i: usize = from;
    while i < v.len() && v[i] != c
        invariant
            from <= i <= v.len(),
            find_from(v@, c, from as int) == find_from(v@, c, i as int),
        decreases v.len() - i,
    {
        i += 1;
    }
    i
}

/// The index of the last `c` among the first `n` characters of `v`.
pub(crate) fn find_last(v: &[char], c: char, n: usize) -> (r: Option<usize>)
    requires
        n <= v.len(),
    ensures
        match r {
            Some(i) => i == rfind_before(v@, c, n as int) && i < n,
            None => rfind_before(v@, c, n as int) == -1,
        },
{
    let mut i: usize = n;
    while i > 0 && v[i - 1] != c
        invariant
            i <= n <= v.len(),
            rfind_before(v@, c, n as int) == rfind_before(v@, c, i as int),
        decreases i,
    {
        i -= 1;
    }
    if i == 0 {
        None
    } else {
        Some(i - 1)
    }
}

/// The first `n` characters of `v` without the white space at their end.
pub(crate) fn trimmed_end(v: &[char], n: usize) -> (r: usize)
    requires
        n <= v.len(),
    ensures
        r == trimmed_len(v@, n as int),
        r <= n,
{
    let mut i: usize = n;
    while i > 0 && whitespace(v[i - 1])
        invariant
            i <= n <= v.len(),
            trimmed_len(v@, n as int) == trimmed_len(v@, i as int),
        decreases i,
    {
        i -= 1;
    }
    i
}

/// A copy of `v` without the white space at its end.
pub fn trim_end_of(v: &[char]) -> (r: Vec<char>)
    ensures
        r@ == trim_end(v@),
{
    let n = trimmed_end(v, v.len());
    slice(v, 0, n)
}

/// A copy of `v` without the white space at either end.
pub fn trim_of(v: &[char]) -> (r: Vec<char>)
    ensures
        r@ == trim(v@),
{
    let n = trimmed_end(v, v.len());
    let mut i: usize = 0;
    while i < n && whitespace(v[i])
        invariant
            i <= n <= v.len(),
            trimmed_start(v@.take(n as int), 0) == trimmed_start(v@.take(n as int), i as int),
        decreases n - i,
    {
        i += 1;
    }
    slice(v, i, n)
}

/// The lines of `v`, each as a vector of its own.
pub fn split_lines(v: &[char]) -> (r: Vec<Vec<char>>)
    ensures
        line_views(r@) == lines(v@),
{
    let mut out: Vec<Vec<char>> = Vec::new();
    let mut start: usize = 0;
    while start < v.len()
        invariant
            start <= v.len(),
            lines(v@) == line_views(out@) + lines_from(v@, start as int),
        decreases v.len() - start,
    {
        let end = find(v, '\n', start);
        let stop = if end < v.len() && start < end && v[end - 1] == '\r' {
            end - 1
        } else {
            end
        };
        let line = slice(v, start, stop);
        out.push(line);
        start = if end < v.len() {
            end + 1
        } else {
            end
        };
    }
    out
}

} // verus!
