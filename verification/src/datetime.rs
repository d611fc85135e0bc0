//! Reading the portal's date and time notations.

use crate::models::{time_in_range, DateTime};
use crate::text::{lemma_trimmed_twice, remove, removed, trim, trimmed};
use chrono::{Datelike, NaiveDateTime, Timelike};
use vstd::prelude::*;

verus! {

/// What `chrono::NaiveDateTime::parse_from_str` reads from `text` under the
/// format `format`; `None` where it reports an error.
pub uninterp spec fn chrono_reading(text: Seq<char>, format: Seq<char>) -> Option<DateTime>;

/// Calls `chrono::NaiveDateTime::parse_from_str` and copies the fields of
/// what it returns. The result depends on the two texts alone, and a value
/// that chrono hands out has its fields in the documented ranges.
#[verifier::external_body]
fn read_with_format(text: &str, format: &str) -> (reading: Option<DateTime>)
    ensures
        reading == chrono_reading(text@, format@),
        reading matches Some(t) ==> t.in_range(),
{
    match NaiveDateTime::parse_from_str(text, format) {
        Ok(t) => Some(
            DateTime {
                year: t.year(),
                month: t.month(),
                day: t.day(),
                hour: t.hour(),
                minute: t.minute(),
                second: t.second(),
                nanosecond: t.nanosecond(),
            },
        ),
        Err(_) => None,
    }
}

/// Day, month, year with hyphens, then hour and minute.
pub const HYPHEN_MINUTES: &'static str = "%d-%m-%Y %H:%M";

/// Day, month, year with hyphens, then hour, minute and second.
pub const HYPHEN_SECONDS: &'static str = "%d-%m-%Y %H:%M:%S";

/// Day, month, year with slashes, then hour and minute.
pub const SLASH_MINUTES: &'static str = "%d/%m/%Y %H:%M";

/// Day, month, year with slashes, then hour, minute and second.
pub const SLASH_SECONDS: &'static str = "%d/%m/%Y %H:%M:%S";

/// The reading of `text` under the first of the four known formats that
/// accepts it, taken in the order hyphens before slashes and minutes before
/// seconds.
pub open spec fn first_reading(text: Seq<char>) -> Option<DateTime> {
    if chrono_reading(text, HYPHEN_MINUTES@) is Some {
        chrono_reading(text, HYPHEN_MINUTES@)
    } else if chrono_reading(text, HYPHEN_SECONDS@) is Some {
        chrono_reading(text, HYPHEN_SECONDS@)
    } else if chrono_reading(text, SLASH_MINUTES@) is Some {
        chrono_reading(text, SLASH_MINUTES@)
    } else {
        chrono_reading(text, SLASH_SECONDS@)
    }
}

/// The date and time that `s` shows: white space around it is dropped, and
/// the rest is read under the known formats in turn.
pub open spec fn date_time_of(s: Seq<char>) -> Option<DateTime> {
    first_reading(trimmed(s))
}

/// Reads a date and time in one of the portal's notations. Text in no known
/// notation gives `None`.
pub fn parse_dt(s: &str) -> (reading: Option<DateTime>)
    ensures
        reading == date_time_of(s@),
        time_in_range(reading),
{
    let t = trim(s);
    let text = t.as_str();
    let first = read_with_format(text, HYPHEN_MINUTES);
    if first.is_some() {
        return first;
    }
    let second = read_with_format(text, HYPHEN_SECONDS);
    if second.is_some() {
        return second;
    }
    let third = read_with_format(text, SLASH_MINUTES);
    if third.is_some() {
        return third;
    }
    read_with_format(text, SLASH_SECONDS)
}

/// Text that none of the known formats reads shows no date and time; text
/// that shows one is read by one of them.
pub proof fn lemma_unreadable_text_shows_no_time(s: Seq<char>)
    ensures
        date_time_of(s) is None <==> chrono_reading(trimmed(s), HYPHEN_MINUTES@) is None
            && chrono_reading(trimmed(s), HYPHEN_SECONDS@) is None && chrono_reading(
            trimmed(s),
            SLASH_MINUTES@,
        ) is None && chrono_reading(trimmed(s), SLASH_SECONDS@) is None,
{
}

/// White space around a date and time does not change what it shows.
pub proof fn lemma_date_time_ignores_surrounding_space(s: Seq<char>)
    ensures
        date_time_of(trimmed(s)) == date_time_of(s),
{
    lemma_trimmed_twice(s);
}

/// The label that the portal writes in front of an access time.
pub const ACCESS_LABEL: &'static str = "Waktu Akses:";

/// The access time that `label` shows: the label is taken out, and the rest
/// is read as a date and time.
pub open spec fn access_time_of(label: Option<Seq<char>>) -> Option<DateTime> {
    match label {
        Some(text) => date_time_of(removed(text, ACCESS_LABEL@)),
        None => None,
    }
}

/// Reads the access time out of the text that shows it.
pub fn parse_access_time(label: &Option<String>) -> (time: Option<DateTime>)
    ensures
        time == access_time_of(label.deep_view()),
        time_in_range(time),
{
    match label {
        Some(text) => {
            let rest = remove(text.as_str(), ACCESS_LABEL);
            parse_dt(rest.as_str())
        },
        None => None,
    }
}

} // verus!
