//! The commit that is checked out: its id, and the time and the offset from
//! UTC at which it was committed, read from git's raw record of it.

use crate::error::{GitError, GitErrorView};
use crate::number::{
    all_digits, decimal_value, digit_value, i32_value, i64_value, is_digit, parse_i32, parse_i64,
};
use crate::output::{answer, outcome_view, plain_result, read_outcome, text_result, trimmed};
use crate::text::{
    chars, is_whitespace, line_views, lines, slice, split_lines, starts_with, trim_end,
    trimmed_end, trimmed_len, whitespace,
};
use vstd::prelude::*;

verus! {

/// The index at which the run of characters that are not white space and
/// that ends before index `n` begins.
pub open spec fn token_start(s: Seq<char>, n: int) -> int
    decreases n,
{
    if n <= 0 {
        0
    } else if is_whitespace(s[n - 1]) {
        n
    } else {
        token_start(s, n - 1)
    }
}

/// The word that ends before index `n` holds no white space, and white
/// space stands before it unless it begins the text.
pub proof fn lemma_token_start(s: Seq<char>, n: int)
    requires
        0 <= n <= s.len(),
    ensures
        0 <= token_start(s, n) <= n,
        forall|j: int| token_start(s, n) <= j < n ==> !is_whitespace(#[trigger] s[j]),
        token_start(s, n) > 0 ==> is_whitespace(s[token_start(s, n) - 1]),
    decreases n,
{
    if n > 0 && !is_whitespace(s[n - 1]) {
        lemma_token_start(s, n - 1);
    }
}

/// The index at which the last word among the first `n` characters of `s`
/// begins, a word being a run of characters that are not white space.
pub open spec fn last_word_start(s: Seq<char>, n: int) -> int {
    token_start(s, trimmed_len(s, n))
}

/// The last word among the first `n` characters of `s`; empty if they hold
/// none.
pub open spec fn last_word(s: Seq<char>, n: int) -> Seq<char> {
    s.subrange(last_word_start(s, n), trimmed_len(s, n))
}

/// The offset from UTC in minutes that the five characters `±HHMM` denote:
/// sixty times the hours plus the minutes, negated where the first character
/// is `-`. Text of another length denotes none, nor does text whose hours or
/// minutes are no number.
pub open spec fn offset_minutes(offset: Seq<char>) -> Option<i32> {
    if offset.len() != 5 {
        None
    } else {
        match (i32_value(offset.subrange(1, 3)), i32_value(offset.subrange(3, 5))) {
            (Some(hours), Some(mins)) => {
                let absoffset = mins + hours * 60;
                if offset[0] == '-' {
                    Some((-absoffset) as i32)
                } else {
                    Some(absoffset as i32)
                }
            },
            _ => None,
        }
    }
}

/// The time in seconds since the epoch and the offset in minutes that a
/// committer line ends with: its last two words. A line with fewer than two
/// words names none, nor does one whose last words do not denote them.
pub open spec fn committer_of(line: Seq<char>) -> Option<(i64, i32)> {
    let n = line.len() as int;
    let offset = last_word(line, n);
    let time = last_word(line, last_word_start(line, n));
    if time.len() == 0 {
        None
    } else {
        match (i64_value(time), offset_minutes(offset)) {
            (Some(t), Some(o)) => Some((t, o)),
            _ => None,
        }
    }
}

/// The committer line among the header lines of a record: the first line
/// that begins with `committer `, if it comes before any empty line.
pub open spec fn committer_line(lines: Seq<Seq<char>>) -> Option<Seq<char>>
    decreases lines.len(),
{
    if lines.len() == 0 {
        None
    } else if "committer "@.is_prefix_of(lines[0]) {
        Some(lines[0])
    } else if lines[0].len() == 0 {
        None
    } else {
        committer_line(lines.skip(1))
    }
}

/// The time and the offset of the commit that a record is of, if nothing
/// stands in the way of reading them.
pub open spec fn record_of(record: Seq<char>) -> Option<(i64, i32)> {
    match committer_line(lines(record)) {
        Some(line) => committer_of(line),
        None => None,
    }
}

/// The id of the commit that is checked out, by the outcome of asking for
/// it: the output without the white space at its end. Where git reports
/// failure there is no commit.
pub open spec fn commit_id_result(outcome: Result<Seq<u8>, GitErrorView>) -> Result<
    Seq<char>,
    GitErrorView,
> {
    answer(outcome, |text: Seq<char>| Ok(trim_end(text)), Err(GitErrorView::NoCommit))
}

/// What reading a record comes to: its time and offset, or the complaint
/// that it is malformed.
pub open spec fn read_record(record: Seq<char>) -> Result<(i64, i32), GitErrorView> {
    match record_of(record) {
        Some(found) => Ok(found),
        None => Err(GitErrorView::MalformedCommitRecord),
    }
}

/// The time and the offset of a commit, by the outcome of asking for its
/// record. Where git reports failure there is no commit.
pub open spec fn revparse_result(outcome: Result<Seq<u8>, GitErrorView>) -> Result<
    (i64, i32),
    GitErrorView,
> {
    answer(outcome, |record: Seq<char>| read_record(record), Err(GitErrorView::NoCommit))
}

/// The minutes that two digits of hours and two digits of minutes come to.
pub open spec fn minutes_of(h1: char, h2: char, m1: char, m2: char) -> int {
    (60 * (10 * digit_value(h1) + digit_value(h2)) + (10 * digit_value(m1) + digit_value(m2)))
        as int
}

/// An offset of a sign and four digits denotes sixty times the hours that
/// the first two digits denote plus the minutes that the last two denote,
/// negated under `-`.
pub proof fn lemma_offset_of_digits(sign: char, h1: char, h2: char, m1: char, m2: char)
    requires
        sign == '+' || sign == '-',
        is_digit(h1),
        is_digit(h2),
        is_digit(m1),
        is_digit(m2),
    ensures
        sign == '+' ==> offset_minutes(seq![sign, h1, h2, m1, m2]) == Some(
            minutes_of(h1, h2, m1, m2) as i32,
        ),
        sign == '-' ==> offset_minutes(seq![sign, h1, h2, m1, m2]) == Some(
            (-minutes_of(h1, h2, m1, m2)) as i32,
        ),
        0 <= minutes_of(h1, h2, m1, m2) <= 60 * 99 + 99,
{
    let offset = seq![sign, h1, h2, m1, m2];
    lemma_two_digits(offset.subrange(1, 3));
    lemma_two_digits(offset.subrange(3, 5));
}

/// Text that is not five characters long denotes no offset.
pub proof fn lemma_offset_of_wrong_length(offset: Seq<char>)
    requires
        offset.len() != 5,
    ensures
        offset_minutes(offset) is None,
{
}

/// Two digits denote ten times the first plus the second.
pub proof fn lemma_two_digits(s: Seq<char>)
    requires
        s.len() == 2,
        is_digit(s[0]),
        is_digit(s[1]),
    ensures
        i32_value(s) == Some((10 * digit_value(s[0]) + digit_value(s[1])) as i32),
{
    let head = s.drop_last();
    assert(decimal_value(head.drop_last()) == 0);
    assert(decimal_value(head) == digit_value(s[0]));
}

/// Reads an offset from UTC in minutes.
pub fn parse_offset(offset: &[char]) -> (r: Option<i32>)
    ensures
        r == offset_minutes(offset@),
{
    if offset.len() != 5 {
        return None;
    }
    let hours: i32 = match parse_i32(slice(offset, 1, 3).as_slice()) {
        Some(h) => h,
        None => {
            return None;
        },
    };
    let mins: i32 = match parse_i32(slice(offset, 3, 5).as_slice()) {
        Some(m) => m,
        None => {
            return None;
        },
    };
    proof {
        lemma_two_chars_bound(offset@.subrange(1, 3));
        lemma_two_chars_bound(offset@.subrange(3, 5));
    }
    let absoffset: i32 = mins + (hours * 60);
    if offset[0] == '-' {
        Some(-absoffset)
    } else {
        Some(absoffset)
    }
}

/// What two characters denote lies between -9 and 99.
proof fn lemma_two_chars_bound(s: Seq<char>)
    requires
        s.len() == 2,
    ensures
        i32_value(s) matches Some(v) ==> -9 <= v <= 99,
{
    if i32_value(s) is Some {
        if s[0] == '-' || s[0] == '+' {
            let d = s.skip(1);
            assert(decimal_value(d.drop_last()) == 0);
        } else {
            lemma_two_digits(s);
        }
    }
}

/// The index at which the last word among the first `n` characters of `v`
/// begins, and the index at which it ends.
fn last_word_of(v: &[char], n: usize) -> (r: (usize, usize))
    requires
        n <= v.len(),
    ensures
        r.0 == last_word_start(v@, n as int),
        r.1 == trimmed_len(v@, n as int),
        r.0 <= r.1 <= n,
{
    let end = trimmed_end(v, n);
    let mut i: usize = end;
    while i > 0 && !whitespace(v[i - 1])
        invariant
            i <= end <= v.len(),
            token_start(v@, end as int) == token_start(v@, i as int),
        decreases i,
    {
        i -= 1;
    }
    (i, end)
}

/// Reads the time and the offset that a committer line ends with.
pub fn committer(line: &[char]) -> (r: Option<(i64, i32)>)
    ensures
        r == committer_of(line@),
{
    let (offset_start, offset_end) = last_word_of(line, line.len());
    let (time_start, time_end) = last_word_of(line, offset_start);
    if time_start == time_end {
        return None;
    }
    let time: i64 = match parse_i64(slice(line, time_start, time_end).as_slice()) {
        Some(t) => t,
        None => {
            return None;
        },
    };
    match parse_offset(slice(line, offset_start, offset_end).as_slice()) {
        Some(offset) => Some((time, offset)),
        None => None,
    }
}

/// Reads the time and the offset of a commit from its record.
pub fn parse_record(record: &str) -> (r: Option<(i64, i32)>)
    ensures
        r == record_of(record@),
{
    let text = chars(record);
    let all = split_lines(text.as_slice());
    let prefix = chars("committer ");
    let ghost views = line_views(all@);
    let mut i: usize = 0;
    assert(views.skip(0) == views);
    while i < all.len()
        invariant
            i <= all.len(),
            views == line_views(all@),
            views == lines(record@),
            prefix@ == "committer "@,
            committer_line(views) == committer_line(views.skip(i as int)),
        decreases all.len() - i,
    {
        let line = all[i].as_slice();
        assert(views.skip(i as int).skip(1) == views.skip(i + 1));
        if starts_with(line, prefix.as_slice()) {
            return committer(line);
        } else if line.len() == 0 {
            // the header ends here, without a committer
            return None;
        }
        i += 1;
    }
    None
}

/// The id of the commit that is checked out, from the outcome of
/// `git rev-parse HEAD`. Fails with `NoCommit` where git reported failure,
/// with the outcome's own error where that is fatal, and with `Utf8` where
/// the output is no text.
pub fn commit_id(outcome: Result<Vec<u8>, GitError>) -> (r: Result<String, GitError>)
    ensures
        text_result(r) == commit_id_result(outcome_view(outcome)),
{
    match read_outcome(outcome) {
        Ok(Some(sha)) => Ok(trimmed(sha.as_str())),
        Ok(None) => Err(GitError::NoCommit),
        Err(e) => Err(e),
    }
}

/// The time in seconds since the epoch and the offset from UTC in minutes at
/// which a commit was committed, from the outcome of `git cat-file -p`: the
/// last two words of the first header line that begins with `committer `.
/// Fails with `MalformedCommitRecord` where the header has no such line or
/// the line does not end with a time and an offset; with `NoCommit` where
/// git reported failure; with the outcome's own error where that is fatal,
/// and with `Utf8` where the output is no text.
pub fn revparse_single(outcome: Result<Vec<u8>, GitError>) -> (r: Result<(i64, i32), GitError>)
    ensures
        plain_result(r) == revparse_result(outcome_view(outcome)),
{
    match read_outcome(outcome) {
        Ok(Some(show)) => match parse_record(show.as_str()) {
            Some(found) => Ok(found),
            None => Err(GitError::MalformedCommitRecord),
        },
        Ok(None) => Err(GitError::NoCommit),
        Err(e) => Err(e),
    }
}

} // verus!
