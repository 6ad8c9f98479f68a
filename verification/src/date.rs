//! Calendar dates: the date of a commit, seen at the offset from UTC that
//! the commit was made at, and the date of the build.

use crate::info::{string_view, InvocationInformation, InvocationView};
use crate::number::{digit_of, i64_value, is_digit, parse_i64};
use crate::text::chars;
use time::format_description::parse_borrowed;
use time::{OffsetDateTime, UtcOffset};
use vstd::prelude::*;

verus! {

/// The calendar date, as year, month and day with hyphens between, of the
/// instant `timestamp` seconds after the epoch, seen `offset_seconds` east
/// of UTC; none where that instant, that offset or that date is beyond what
/// the crate `time` represents.
pub uninterp spec fn date_text(timestamp: i64, offset_seconds: i32) -> Option<Seq<char>>;

/// The date that `time` makes of a timestamp and an offset. The instant is
/// `OffsetDateTime::from_unix_timestamp(timestamp)`, the offset
/// `UtcOffset::from_whole_seconds(offset_seconds)`; the instant is moved to
/// the offset by `checked_to_offset` and written by `format` under the
/// description `[year]-[month]-[day]`. There is no date where one of these
/// has no result. The contract claims that the date depends on the two
/// numbers alone, and no more.
#[verifier::external_body]
fn format_date(timestamp: i64, offset_seconds: i32) -> (r: Option<String>)
    ensures
        string_view(r) == date_text(timestamp, offset_seconds),
{
    let format = parse_borrowed::<1>("[year]-[month]-[day]").ok()?;
    let utc = OffsetDateTime::from_unix_timestamp(timestamp).ok()?;
    let offset = UtcOffset::from_whole_seconds(offset_seconds).ok()?;
    utc.checked_to_offset(offset)?.format(&format).ok()
}

/// `OffsetDateTime::now_utc`: the seconds since the epoch on the clock of
/// the machine. Nothing is claimed of them.
#[verifier::external_body]
fn now_utc() -> i64 {
    OffsetDateTime::now_utc().unix_timestamp()
}

/// Whether `s` is a calendar date as it is recorded: four digits of the
/// year, two of the month and two of the day, with hyphens between.
pub open spec fn is_calendar_date(s: Seq<char>) -> bool {
    &&& s.len() == 10
    &&& s[4] == '-'
    &&& s[7] == '-'
    &&& forall|i: int| 0 <= i < 10 && i != 4 && i != 7 ==> is_digit(#[trigger] s[i])
}

/// The date `date` where it is a calendar date as it is recorded; a date
/// of another shape, as of a year before the year 0, counts as none.
pub open spec fn recorded_date(date: Option<Seq<char>>) -> Option<Seq<char>> {
    match date {
        Some(text) => if is_calendar_date(text) {
            Some(text)
        } else {
            None
        },
        None => None,
    }
}

/// The date in UTC of the instant `timestamp` seconds after the epoch.
pub open spec fn utc_date_text(timestamp: i64) -> Option<Seq<char>> {
    recorded_date(date_text(timestamp, 0))
}

/// The date of a commit made at `time` seconds after the epoch, at
/// `offset_minutes` east of UTC.
pub open spec fn commit_date_text(time: i64, offset_minutes: i32) -> Option<Seq<char>> {
    if i32::MIN <= offset_minutes * 60 <= i32::MAX {
        recorded_date(date_text(time, (offset_minutes * 60) as i32))
    } else {
        None
    }
}

/// Every date that is recorded is a calendar date.
pub proof fn lemma_dates_are_calendar_dates(time: i64, offset_minutes: i32)
    ensures
        commit_date_text(time, offset_minutes) matches Some(date) ==> is_calendar_date(date),
        utc_date_text(time) matches Some(date) ==> is_calendar_date(date),
{
}

/// Decides [`is_calendar_date`].
pub fn calendar_date(date: &str) -> (r: bool)
    ensures
        r == is_calendar_date(date@),
{
    let text = chars(date);
    if text.len() != 10 {
        return false;
    }
    let mut i: usize = 0;
    while i < 10
        invariant
            i <= 10,
            text@ == date@,
            text.len() == 10,
            forall|j: int|
                0 <= j < i ==> (if j == 4 || j == 7 {
                    text@[j] == '-'
                } else {
                    is_digit(#[trigger] text@[j])
                }),
        decreases 10 - i,
    {
        let ok = if i == 4 || i == 7 {
            text[i] == '-'
        } else {
            digit_of(text[i]).is_some()
        };
        if !ok {
            return false;
        }
        i += 1;
    }
    true
}

/// The date `date` where it is a calendar date as it is recorded.
pub fn recorded(date: Option<String>) -> (r: Option<String>)
    ensures
        string_view(r) == recorded_date(string_view(date)),
{
    match date {
        Some(text) => {
            if calendar_date(text.as_str()) {
                Some(text)
            } else {
                None
            }
        },
        None => None,
    }
}

/// The date of a commit made at `time` seconds after the epoch, at
/// `offset_minutes` east of UTC: the date on the committer's calendar, not
/// on that of the machine that builds.
pub fn commit_date(time: i64, offset_minutes: i32) -> (r: Option<String>)
    ensures
        string_view(r) == commit_date_text(time, offset_minutes),
{
    match offset_minutes.checked_mul(60) {
        Some(offset_seconds) => recorded(format_date(time, offset_seconds)),
        None => None,
    }
}

/// The date in UTC of the instant `timestamp` seconds after the epoch.
pub fn utc_date(timestamp: i64) -> (r: Option<String>)
    ensures
        string_view(r) == utc_date_text(timestamp),
{
    recorded(format_date(timestamp, 0))
}

/// The version that is recorded where the crate's version is not known.
pub open spec fn unknown_version() -> Seq<char> {
    "?.?.?"@
}

/// The crate's version, or [`unknown_version`] in its absence.
pub open spec fn version_or_unknown(pkgver: Option<Seq<char>>) -> Seq<char> {
    match pkgver {
        Some(version) => version,
        None => unknown_version(),
    }
}

/// What is known of a build, from the crate's version, the date of today
/// and the date of the epoch that the build was told to pretend. The
/// epoch's date wins over today's. `today` is absent where today has no
/// date; `epoch_date` is absent where no epoch was told, and holds nothing
/// where the epoch has no date. Nothing is known where a date that was
/// asked for is not to be had.
pub open spec fn invocation_dated(
    pkgver: Option<Seq<char>>,
    today: Option<Seq<char>>,
    epoch_date: Option<Option<Seq<char>>>,
) -> Option<InvocationView> {
    match (today, epoch_date) {
        (None, _) => None,
        (Some(_), Some(None)) => None,
        (Some(_), Some(Some(date))) => Some(
            InvocationView { pkgver: version_or_unknown(pkgver), now: date },
        ),
        (Some(date), None) => Some(InvocationView { pkgver: version_or_unknown(pkgver), now: date }),
    }
}

/// The epoch that the text of `SOURCE_DATE_EPOCH` names: a number of
/// seconds, if the text is an integer.
pub open spec fn epoch_of(source_date_epoch: Option<Seq<char>>) -> Option<i64> {
    match source_date_epoch {
        Some(text) => i64_value(text),
        None => None,
    }
}

/// What is known of a build at the instant `now`.
pub open spec fn invocation_at(
    pkgver: Option<Seq<char>>,
    now: i64,
    source_date_epoch: Option<Seq<char>>,
) -> Option<InvocationView> {
    invocation_dated(
        pkgver,
        utc_date_text(now),
        match epoch_of(source_date_epoch) {
            Some(epoch) => Some(utc_date_text(epoch)),
            None => None,
        },
    )
}

/// What is known of a build at an instant is well formed.
pub proof fn lemma_invocation_at_is_well_formed(
    pkgver: Option<Seq<char>>,
    now: i64,
    source_date_epoch: Option<Seq<char>>,
)
    ensures
        invocation_at(pkgver, now, source_date_epoch) matches Some(info) ==> info.well_formed(),
{
}

/// What optional information on a build stands for.
pub open spec fn invocation_view(r: Option<InvocationInformation>) -> Option<InvocationView> {
    match r {
        Some(info) => Some(info@),
        None => None,
    }
}

/// What an optional date that may be missing stands for.
pub open spec fn optional_date_view(d: Option<Option<String>>) -> Option<Option<Seq<char>>> {
    match d {
        Some(date) => Some(string_view(date)),
        None => None,
    }
}

impl InvocationInformation {
    /// What is known of a build, given the dates: see [`invocation_dated`].
    pub fn dated(
        pkgver: Option<String>,
        today: Option<String>,
        epoch_date: Option<Option<String>>,
    ) -> (r: Option<InvocationInformation>)
        ensures
            invocation_view(r) == invocation_dated(
                string_view(pkgver),
                string_view(today),
                optional_date_view(epoch_date),
            ),
    {
        let now = match today {
            Some(now) => now,
            None => {
                return None;
            },
        };
        let now = match epoch_date {
            Some(Some(sde)) => sde,
            Some(None) => {
                return None;
            },
            None => now,
        };
        let pkgver = match pkgver {
            Some(version) => version,
            None => "?.?.?".to_owned(),
        };
        Some(InvocationInformation { pkgver, now })
    }

    /// What is known of a build at the instant `now`, in seconds since the
    /// epoch. `pkgver` is the crate's version, `source_date_epoch` the text
    /// of the variable of that name; each may be absent.
    pub fn at(pkgver: Option<String>, now: i64, source_date_epoch: Option<&str>) -> (r: Option<
        InvocationInformation,
    >)
        ensures
            invocation_view(r) == invocation_at(
                string_view(pkgver),
                now,
                crate::testament::text_of(source_date_epoch),
            ),
    {
        let today = utc_date(now);
        let sde = match source_date_epoch {
            Some(text) => match parse_i64(chars(text).as_slice()) {
                Some(sde) => Some(utc_date(sde)),
                None => None,
            },
            None => None,
        };
        InvocationInformation::dated(pkgver, today, sde)
    }

    /// What is known of the build that runs now. Whatever the clock says,
    /// the result is that of [`InvocationInformation::at`] for some instant.
    pub fn acquire(pkgver: Option<String>, source_date_epoch: Option<&str>) -> (r: Option<
        InvocationInformation,
    >)
        ensures
            exists|now: i64|
                invocation_view(r) == #[trigger] invocation_at(
                    string_view(pkgver),
                    now,
                    crate::testament::text_of(source_date_epoch),
                ),
    {
        let now = now_utc();
        InvocationInformation::at(pkgver, now, source_date_epoch)
    }
}

} // verus!
