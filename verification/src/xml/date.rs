//! Turns the free-form date of a feed into one instant on the UTC time line.
//!
//! RSS dates are read as RFC 2822 first and then in a legacy form with a
//! two-digit year and a trailing time zone abbreviation. Atom dates are read as
//! RFC 3339.

use crate::text::same_text;
use crate::time::UtcInstant;
use crate::xml::error::{DateErrorView, ParserError, ParserErrorView};
use vstd::prelude::*;

verus! {

/// The format of the legacy form once its time zone abbreviation is cut off.
pub const LEGACY_FORMAT: &'static str = "%d %b %y %H:%M";

/// Finds the time zone abbreviation of the legacy form: one to three letters
/// at the end of the text that follow a digit and at most one blank. The
/// digit is the first group, the letters are the second.
pub const ZONE_PATTERN: &'static str = "(\\d)\\s?([a-zA-Z]{1,3})$";

/// The group of [`ZONE_PATTERN`] that holds the abbreviation.
pub const ZONE_GROUP: usize = 2;

/// What a match of [`ZONE_PATTERN`] is replaced with to cut the abbreviation
/// off: the digit before it.
pub const ZONE_CUT: &'static str = "${1}";

/// What `chrono::DateTime::parse_from_rfc2822` makes of `date`: the instant
/// it denotes, or the text of chrono's error.
pub uninterp spec fn rfc2822_instant(date: Seq<char>) -> Result<UtcInstant, Seq<char>>;

/// What `chrono::DateTime::parse_from_rfc3339` makes of `date`: the instant
/// it denotes, or the text of chrono's error.
pub uninterp spec fn rfc3339_instant(date: Seq<char>) -> Result<UtcInstant, Seq<char>>;

/// What `chrono::TimeZone::datetime_from_str` makes of `date` read by `format`
/// as local time `offset` seconds east of UTC: the instant it denotes, or the
/// text of chrono's error.
pub uninterp spec fn formatted_instant(date: Seq<char>, format: Seq<char>, offset: int) -> Result<
    UtcInstant,
    Seq<char>,
>;

/// The text of group `group` of the leftmost match of the regular expression
/// `pattern` in `text`, as `regex::Regex::captures` finds it; `None` when there
/// is no match, the group took no part in it, or `pattern` is not a regular
/// expression.
pub uninterp spec fn regex_group(pattern: Seq<char>, text: Seq<char>, group: nat) -> Option<
    Seq<char>,
>;

/// `text` with every match of the regular expression `pattern` replaced by
/// `with`, in which `${1}` stands for the first group of the match, as
/// `regex::Regex::replace_all` does it; `None` when `pattern` is not a regular
/// expression.
pub uninterp spec fn regex_replaced(pattern: Seq<char>, text: Seq<char>, with: Seq<char>) -> Option<
    Seq<char>,
>;

/// The outcome of reading a date, the error as characters.
pub open spec fn parsed_view(parsed: Result<UtcInstant, String>) -> Result<UtcInstant, Seq<char>> {
    match parsed {
        Ok(instant) => Ok(instant),
        Err(e) => Err(e@),
    }
}

/// The outcome of normalising a date, the error as mathematical values.
pub open spec fn date_view(date: Result<UtcInstant, ParserError>) -> Result<
    UtcInstant,
    ParserErrorView,
> {
    match date {
        Ok(instant) => Ok(instant),
        Err(e) => Err(e@),
    }
}

/// Reads `date` with `chrono::DateTime::parse_from_rfc2822`. The instant is
/// given by chrono's `timestamp` and `timestamp_subsec_nanos`, the error by its
/// `Display` text. Trusted: the result is what chrono returns for this text.
#[verifier::external_body]
fn parse_rfc2822(date: &str) -> (parsed: Result<UtcInstant, String>)
    ensures
        parsed_view(parsed) == rfc2822_instant(date@),
{
    match chrono::DateTime::parse_from_rfc2822(date) {
        Ok(found) => Ok(
            UtcInstant { secs: found.timestamp(), nanos: found.timestamp_subsec_nanos() },
        ),
        Err(e) => Err(e.to_string()),
    }
}

/// Reads `date` with `chrono::DateTime::parse_from_rfc3339`. The instant is
/// given by chrono's `timestamp` and `timestamp_subsec_nanos`, the error by its
/// `Display` text. Trusted: the result is what chrono returns for this text.
#[verifier::external_body]
fn parse_rfc3339(date: &str) -> (parsed: Result<UtcInstant, String>)
    ensures
        parsed_view(parsed) == rfc3339_instant(date@),
{
    match chrono::DateTime::parse_from_rfc3339(date) {
        Ok(found) => Ok(
            UtcInstant { secs: found.timestamp(), nanos: found.timestamp_subsec_nanos() },
        ),
        Err(e) => Err(e.to_string()),
    }
}

/// Reads `date` by `format` with `chrono::TimeZone::datetime_from_str`, in the
/// zone that `chrono::FixedOffset::east_opt` makes of `offset`; chrono has a
/// zone for every offset of less than a day. Trusted: the result is what
/// chrono returns for these values.
#[verifier::external_body]
#[allow(deprecated)]
fn parse_in_zone(date: &str, format: &str, offset: i32) -> (parsed: Result<UtcInstant, String>)
    requires
        -86_400 < offset < 86_400,
    ensures
        parsed_view(parsed) == formatted_instant(date@, format@, offset as int),
{
    let zone = chrono::FixedOffset::east_opt(offset).unwrap();
    match chrono::TimeZone::datetime_from_str(&zone, date, format) {
        Ok(found) => Ok(
            UtcInstant { secs: found.timestamp(), nanos: found.timestamp_subsec_nanos() },
        ),
        Err(e) => Err(e.to_string()),
    }
}

/// Compiles `pattern` with `regex::Regex::new`, searches `text` with
/// `Regex::captures` and copies what `Captures::get` holds for `group`.
/// Trusted: the result is what regex returns for these values.
#[verifier::external_body]
fn capture(pattern: &str, text: &str, group: usize) -> (found: Option<String>)
    ensures
        crate::blog::text_opt(found) == regex_group(pattern@, text@, group as nat),
{
    let regex = regex::Regex::new(pattern).ok()?;
    match regex.captures(text)?.get(group) {
        Some(found) => Some(found.as_str().to_owned()),
        None => None,
    }
}

/// Compiles `pattern` with `regex::Regex::new` and replaces its matches in
/// `text` with `Regex::replace_all`. Trusted: the result is what regex returns
/// for these values.
#[verifier::external_body]
fn replace_all(pattern: &str, text: &str, with: &str) -> (replaced: Option<String>)
    ensures
        crate::blog::text_opt(replaced) == regex_replaced(pattern@, text@, with@),
{
    let regex = regex::Regex::new(pattern).ok()?;
    Some(regex.replace_all(text, with).into_owned())
}

/// The outcome of normalising a date that an element may lack, the error as
/// mathematical values.
pub open spec fn dated_view(date: Option<Result<UtcInstant, ParserError>>) -> Option<
    Result<UtcInstant, ParserErrorView>,
> {
    match date {
        Some(outcome) => Some(date_view(outcome)),
        None => None,
    }
}

/// The text of the error for a date that no format could read.
pub open spec fn unreadable_date(date: Seq<char>, cause: Seq<char>) -> Seq<char> {
    "Error parsing date '"@ + date + "' ("@ + cause + ")"@
}

/// The offset of a time zone abbreviation in seconds east of UTC. Only `UTC`
/// is known.
pub open spec fn zone_offset(tz: Seq<char>) -> Result<int, ParserErrorView> {
    if tz == "UTC"@ {
        Ok(0)
    } else {
        Err(
            ParserErrorView::Date(
                DateErrorView::TimeZoneError(
                    "Unknown timezone "@ + tz + ", please open an issue!"@,
                ),
            ),
        )
    }
}

/// What a date is once a parser of chrono has been through with it: its
/// instant, or a generic date error that names `date` and chrono's reason.
pub open spec fn read_date(date: Seq<char>, parsed: Result<UtcInstant, Seq<char>>) -> Result<
    UtcInstant,
    ParserErrorView,
> {
    match parsed {
        Ok(instant) => Ok(instant),
        Err(cause) => Err(
            ParserErrorView::Date(DateErrorView::Generic(unreadable_date(date, cause))),
        ),
    }
}

/// The instant of a date in the legacy form, from the zone abbreviation found
/// in it and the text that is left without it.
pub open spec fn legacy_date_from(zone: Option<Seq<char>>, rest: Option<Seq<char>>) -> Result<
    UtcInstant,
    ParserErrorView,
> {
    match (zone, rest) {
        (Some(tz), Some(local)) => match zone_offset(tz) {
            Ok(offset) => read_date(local, formatted_instant(local, LEGACY_FORMAT@, offset)),
            Err(e) => Err(e),
        },
        _ => Err(ParserErrorView::Date(DateErrorView::TimeZoneError("Timezone not found"@))),
    }
}

/// The instant of a date in the legacy form `%d %b %y %H:%M` followed by a
/// time zone abbreviation.
pub open spec fn legacy_date(date: Seq<char>) -> Result<UtcInstant, ParserErrorView> {
    legacy_date_from(
        regex_group(ZONE_PATTERN@, date, ZONE_GROUP as nat),
        regex_replaced(ZONE_PATTERN@, date, ZONE_CUT@),
    )
}

/// The instant of the date of an RSS element: empty text is an error of its
/// own, RFC 2822 is tried first, the legacy form second.
pub open spec fn normalized_date(date: Seq<char>) -> Result<UtcInstant, ParserErrorView> {
    if date.len() == 0 {
        Err(ParserErrorView::Date(DateErrorView::Empty))
    } else {
        match rfc2822_instant(date) {
            Ok(instant) => Ok(instant),
            Err(_) => legacy_date(date),
        }
    }
}

/// The instant of the date of an Atom element: empty text is an error of its
/// own, anything else is read as RFC 3339.
pub open spec fn atom_date(date: Seq<char>) -> Result<UtcInstant, ParserErrorView> {
    if date.len() == 0 {
        Err(ParserErrorView::Date(DateErrorView::Empty))
    } else {
        read_date(date, rfc3339_instant(date))
    }
}

/// Maps time zone abbreviations to offsets in seconds east of UTC.
pub fn tz_to_offset(tz: &str) -> (offset: Result<i32, ParserError>)
    ensures
        match offset {
            Ok(secs) => zone_offset(tz@) == Ok::<int, ParserErrorView>(secs as int) && secs == 0,
            Err(e) => zone_offset(tz@) == Err::<int, ParserErrorView>(e@),
        },
{
    if same_text(tz, "UTC") {
        Ok(0)
    } else {
        let msg = String::from_str("Unknown timezone ").concat(tz).concat(
            ", please open an issue!",
        );
        Err(ParserError::timezone_date_error(msg))
    }
}

/// Turns what a parser of chrono made of `date` into the outcome of reading
/// the date: the error says which text could not be read and why.
pub fn date_outcome(date: &str, parsed: Result<UtcInstant, String>) -> (outcome: Result<
    UtcInstant,
    ParserError,
>)
    ensures
        date_view(outcome) == read_date(date@, parsed_view(parsed)),
{
    match parsed {
        Ok(instant) => Ok(instant),
        Err(cause) => {
            let msg = String::from_str("Error parsing date '").concat(date).concat("' (").concat(
                cause.as_str(),
            ).concat(")");
            Err(ParserError::generic_date_error(msg))
        },
    }
}

/// Reads a date in the legacy form from its two parts: the time zone
/// abbreviation that was found in it and the text that is left without it.
/// Without either there is no time zone to go by; the abbreviation must be
/// known, see [`tz_to_offset`]; the rest is read as [`LEGACY_FORMAT`].
pub fn legacy_date_of(zone: Option<String>, rest: Option<String>) -> (instant: Result<
    UtcInstant,
    ParserError,
>)
    ensures
        date_view(instant) == legacy_date_from(
            crate::blog::text_opt(zone),
            crate::blog::text_opt(rest),
        ),
{
    match (zone, rest) {
        (Some(tz), Some(local)) => match tz_to_offset(tz.as_str()) {
            Ok(offset) => date_outcome(
                local.as_str(),
                parse_in_zone(local.as_str(), LEGACY_FORMAT, offset),
            ),
            Err(e) => Err(e),
        },
        _ => Err(ParserError::timezone_date_error(String::from_str("Timezone not found"))),
    }
}

/// Reads a date in the legacy form of RFC 822 with a two-digit year, such as
/// `03 Jun 03 09:39 UTC`. Few time zones are known, see [`tz_to_offset`].
pub fn parse_from_rfc822(date: &str) -> (instant: Result<UtcInstant, ParserError>)
    ensures
        date_view(instant) == legacy_date(date@),
{
    let zone = capture(ZONE_PATTERN, date, ZONE_GROUP);
    let rest = replace_all(ZONE_PATTERN, date, ZONE_CUT);
    legacy_date_of(zone, rest)
}

/// Normalises the date of an RSS element: first as RFC 2822 and, if that
/// fails, in the legacy form of [`parse_from_rfc822`].
pub fn parse_date_helper(date: &str) -> (instant: Result<UtcInstant, ParserError>)
    ensures
        date_view(instant) == normalized_date(date@),
{
    if date.is_empty() {
        return Err(ParserError::empty_date_error());
    }
    match parse_rfc2822(date) {
        Ok(instant) => Ok(instant),
        Err(_) => parse_from_rfc822(date),
    }
}

/// Normalises the date of an Atom element, which is read as RFC 3339.
pub fn parse_atom_date(date: &str) -> (instant: Result<UtcInstant, ParserError>)
    ensures
        date_view(instant) == atom_date(date@),
{
    if date.is_empty() {
        return Err(ParserError::empty_date_error());
    }
    date_outcome(date, parse_rfc3339(date))
}

} // verus!
