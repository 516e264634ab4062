use rss2email::xml::date::{
  date_outcome, legacy_date_of, parse_atom_date, parse_date_helper, parse_from_rfc822,
  tz_to_offset, LEGACY_FORMAT, ZONE_CUT, ZONE_GROUP, ZONE_PATTERN,
};
use rss2email::xml::error::{DateError, ParserError};
use rss2email::UtcInstant;

#[test]
fn rfc2822_date_is_read() {
  assert_eq!(
    parse_date_helper("Tue, 10 Jun 2003 04:00:00 GMT"),
    Ok(UtcInstant::new(1_055_217_600, 0))
  );
}

#[test]
fn rfc2822_date_is_normalized_to_utc() {
  // 10:52:37 two hours east of UTC is 08:52:37 UTC.
  assert_eq!(
    parse_date_helper("Tue, 1 Jul 2003 10:52:37 +0200"),
    Ok(UtcInstant::new(1_057_049_557, 0))
  );
}

#[test]
fn empty_date_is_an_error_of_its_own() {
  assert_eq!(
    parse_date_helper(""),
    Err(ParserError::Date(DateError::Empty))
  );
  assert_eq!(parse_atom_date(""), Err(ParserError::Date(DateError::Empty)));
}

#[test]
fn legacy_date_with_utc_is_read() {
  assert_eq!(
    parse_from_rfc822("03 Jun 03 09:39 UTC"),
    Ok(UtcInstant::new(1_054_633_140, 0))
  );
}

#[test]
fn legacy_date_keeps_its_minutes() {
  // Only the abbreviation is cut off, not the digit before it.
  assert_eq!(
    parse_from_rfc822("03 Jun 03 09:39 UTC"),
    parse_from_rfc822("03 Jun 03 09:39UTC")
  );
  assert_ne!(
    parse_from_rfc822("03 Jun 03 09:39 UTC"),
    parse_from_rfc822("03 Jun 03 09:03 UTC")
  );
}

#[test]
fn legacy_date_is_the_fallback_of_rfc2822() {
  assert_eq!(
    parse_date_helper("03 Jun 03 09:39 UTC"),
    Ok(UtcInstant::new(1_054_633_140, 0))
  );
}

#[test]
fn legacy_date_with_unknown_zone_is_a_timezone_error() {
  assert_eq!(
    parse_from_rfc822("03 Jun 03 09:39 CET"),
    Err(ParserError::Date(DateError::TimeZoneError(
      "Unknown timezone CET, please open an issue!".to_owned()
    )))
  );
}

#[test]
fn legacy_date_with_one_letter_zone_is_a_timezone_error() {
  assert_eq!(
    parse_from_rfc822("03 Jun 03 09:39 Q"),
    Err(ParserError::Date(DateError::TimeZoneError(
      "Unknown timezone Q, please open an issue!".to_owned()
    )))
  );
}

#[test]
fn legacy_date_without_zone_is_a_timezone_error() {
  assert_eq!(
    parse_from_rfc822("03 Jun 03 09:39"),
    Err(ParserError::Date(DateError::TimeZoneError(
      "Timezone not found".to_owned()
    )))
  );
  // Letters that do not follow a digit are no abbreviation.
  assert_eq!(
    parse_from_rfc822("no date UTC"),
    Err(ParserError::Date(DateError::TimeZoneError(
      "Timezone not found".to_owned()
    )))
  );
}

#[test]
fn legacy_date_that_cannot_be_read_is_a_generic_error() {
  match parse_from_rfc822("99 Jun 03 09:39 UTC") {
    Err(ParserError::Date(DateError::Generic(message))) => {
      assert!(message.starts_with("Error parsing date '99 Jun 03 09:39' ("));
      assert!(message.ends_with(")"));
    }
    other => panic!("Unexpected outcome {other:?}"),
  }
}

#[test]
fn unreadable_rss_date_is_not_fatal_but_an_error() {
  assert!(matches!(
    parse_date_helper("yesterday"),
    Err(ParserError::Date(DateError::TimeZoneError(_)))
  ));
}

#[test]
fn only_utc_is_a_known_zone() {
  assert_eq!(tz_to_offset("UTC"), Ok(0));
  assert_eq!(
    tz_to_offset("utc"),
    Err(ParserError::Date(DateError::TimeZoneError(
      "Unknown timezone utc, please open an issue!".to_owned()
    )))
  );
  assert_eq!(
    tz_to_offset(""),
    Err(ParserError::Date(DateError::TimeZoneError(
      "Unknown timezone , please open an issue!".to_owned()
    )))
  );
}

#[test]
fn atom_date_is_normalized_to_utc() {
  assert_eq!(
    parse_atom_date("2003-12-13T18:30:02Z"),
    Ok(UtcInstant::new(1_071_340_202, 0))
  );
  // 18:30:02.25 one hour east of UTC is 17:30:02.25 UTC.
  assert_eq!(
    parse_atom_date("2003-12-13T18:30:02.25+01:00"),
    Ok(UtcInstant::new(1_071_336_602, 250_000_000))
  );
}

#[test]
fn atom_date_is_not_read_as_rfc2822() {
  match parse_atom_date("Tue, 10 Jun 2003 04:00:00 GMT") {
    Err(ParserError::Date(DateError::Generic(message))) => {
      assert!(message.starts_with("Error parsing date 'Tue, 10 Jun 2003 04:00:00 GMT' ("));
    }
    other => panic!("Unexpected outcome {other:?}"),
  }
}

#[test]
fn date_outcome_names_the_date_and_the_cause() {
  assert_eq!(
    date_outcome("tomorrow", Err("no such day".to_owned())),
    Err(ParserError::Date(DateError::Generic(
      "Error parsing date 'tomorrow' (no such day)".to_owned()
    )))
  );
  assert_eq!(
    date_outcome("tomorrow", Ok(UtcInstant::new(7, 9))),
    Ok(UtcInstant::new(7, 9))
  );
}

#[test]
fn errors_are_worded() {
  assert_eq!(
    ParserError::Parse("No link in post".to_owned()).to_string(),
    "Parse error: No link in post"
  );
  assert_eq!(
    ParserError::Date(DateError::Generic("bad".to_owned())).to_string(),
    "Date error: bad"
  );
  assert_eq!(
    DateError::TimeZoneError("Timezone not found".to_owned()).to_string(),
    "Timezone error: Timezone not found"
  );
  assert_eq!(DateError::Empty.to_string(), "Date was empty");
  assert_eq!(
    ParserError::Date(DateError::Empty).to_string(),
    "Date was empty"
  );
}

#[test]
fn date_errors_are_made_by_their_helpers() {
  assert_eq!(
    ParserError::generic_date_error("a".to_owned()),
    ParserError::Date(DateError::Generic("a".to_owned()))
  );
  assert_eq!(
    ParserError::timezone_date_error("b".to_owned()),
    ParserError::Date(DateError::TimeZoneError("b".to_owned()))
  );
  assert_eq!(
    ParserError::empty_date_error(),
    ParserError::Date(DateError::Empty)
  );
  assert_eq!(
    ParserError::parse_error("c"),
    ParserError::Parse("c".to_owned())
  );
}

#[test]
fn legacy_date_is_made_of_zone_and_rest() {
  assert_eq!(
    legacy_date_of(Some("UTC".to_owned()), Some("03 Jun 03 09:39".to_owned())),
    Ok(UtcInstant::new(1_054_633_140, 0))
  );
  assert_eq!(
    legacy_date_of(Some("PST".to_owned()), Some("03 Jun 03 09:39".to_owned())),
    Err(ParserError::Date(DateError::TimeZoneError(
      "Unknown timezone PST, please open an issue!".to_owned()
    )))
  );
  for (zone, rest) in [
    (None, Some("03 Jun 03 09:39".to_owned())),
    (Some("UTC".to_owned()), None),
    (None, None),
  ] {
    assert_eq!(
      legacy_date_of(zone, rest),
      Err(ParserError::Date(DateError::TimeZoneError(
        "Timezone not found".to_owned()
      )))
    );
  }
}

#[test]
fn legacy_form_is_fixed() {
  assert_eq!(LEGACY_FORMAT, "%d %b %y %H:%M");
  assert_eq!(ZONE_PATTERN, r"(\d)\s?([a-zA-Z]{1,3})$");
  assert_eq!(ZONE_GROUP, 2);
  assert_eq!(ZONE_CUT, "${1}");
}
