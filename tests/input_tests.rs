use groovehq_cli::input::{
    body_source, parse_duration, parse_snooze, piped_body, validate_conversation_number,
    validate_conversation_numbers, BodySource, InputError, SnoozeTarget,
};

#[test]
fn test_parse_duration_minutes() {
    let result = parse_duration("30m").unwrap();
    assert!(result.contains("T"));
    assert!(chrono::DateTime::parse_from_rfc3339(&result).is_ok());
}

#[test]
fn test_parse_duration_hours() {
    let result = parse_duration("2h").unwrap();
    assert!(result.contains("T"));
    assert!(chrono::DateTime::parse_from_rfc3339(&result).is_ok());
}

#[test]
fn test_parse_duration_days() {
    let result = parse_duration("5d").unwrap();
    assert!(result.contains("T"));
    assert!(chrono::DateTime::parse_from_rfc3339(&result).is_ok());
}

#[test]
fn test_parse_duration_weeks() {
    let result = parse_duration("1w").unwrap();
    assert!(result.contains("T"));
    assert!(chrono::DateTime::parse_from_rfc3339(&result).is_ok());
}

#[test]
fn parse_duration_lands_that_far_ahead() {
    let before = chrono::Utc::now();
    let result = parse_duration("30m").unwrap();
    let after = chrono::Utc::now();
    let t = chrono::DateTime::parse_from_rfc3339(&result).unwrap();
    assert!(t >= before + chrono::Duration::minutes(30) - chrono::Duration::seconds(1));
    assert!(t <= after + chrono::Duration::minutes(30) + chrono::Duration::seconds(1));
}

#[test]
fn test_parse_duration_iso_passthrough() {
    let iso = "2024-12-25T10:00:00Z";
    let result = parse_duration(iso).unwrap();
    assert_eq!(result, iso);
}

#[test]
fn test_parse_duration_date_passthrough() {
    let date = "2024-12-25";
    let result = parse_duration(date).unwrap();
    assert_eq!(result, date);
}

#[test]
fn test_parse_duration_invalid_too_short() {
    let result = parse_duration("h");
    assert!(result.is_err());
    assert!(result.unwrap_err().message().contains("Invalid duration"));
}

#[test]
fn test_parse_duration_invalid_unit() {
    let result = parse_duration("5x");
    assert!(result.is_err());
    assert!(result.unwrap_err().message().contains("Invalid duration unit"));
}

#[test]
fn test_parse_duration_invalid_number() {
    let result = parse_duration("abch");
    assert!(result.is_err());
    assert!(result.unwrap_err().message().contains("Invalid duration number"));
}

#[test]
fn test_parse_duration_negative() {
    let result = parse_duration("-5d");
    assert!(result.is_err());
    assert!(result.unwrap_err().message().contains("must be positive"));
}

#[test]
fn test_parse_duration_zero() {
    let result = parse_duration("0h");
    assert!(result.is_err());
    assert!(result.unwrap_err().message().contains("must be positive"));
}

#[test]
fn parse_snooze_exact_values() {
    assert_eq!(parse_snooze("30m"), Ok(SnoozeTarget::After(1800)));
    assert_eq!(parse_snooze("2h"), Ok(SnoozeTarget::After(7200)));
    assert_eq!(parse_snooze("5d"), Ok(SnoozeTarget::After(432000)));
    assert_eq!(parse_snooze("1w"), Ok(SnoozeTarget::After(604800)));
    assert_eq!(parse_snooze("+2h"), Ok(SnoozeTarget::After(7200)));
    assert_eq!(parse_snooze("h"), Err(InputError::InvalidDuration("h".to_string())));
    assert_eq!(parse_snooze("5x"), Err(InputError::InvalidDurationUnit("x".to_string())));
    assert_eq!(parse_snooze("abch"), Err(InputError::InvalidDurationNumber("abc".to_string())));
    assert_eq!(parse_snooze("-5d"), Err(InputError::NonPositiveDuration(-5)));
    assert_eq!(parse_snooze("0h"), Err(InputError::NonPositiveDuration(0)));
    assert_eq!(
        parse_snooze("99999999999999999w"),
        Err(InputError::DurationOutOfRange("99999999999999999w".to_string()))
    );
    assert_eq!(
        parse_snooze("2024-12-25"),
        Ok(SnoozeTarget::At("2024-12-25".to_string()))
    );
}

#[test]
fn input_error_messages() {
    assert_eq!(
        InputError::NonPositiveNumber(-5).message(),
        "Conversation number must be positive, got: -5"
    );
    assert_eq!(
        InputError::InvalidDurationUnit("x".to_string()).message(),
        "Invalid duration unit: x. Use m, h, d, or w"
    );
    assert_eq!(InputError::EmptyBody.message(), "Empty body provided");
}

#[test]
fn test_validate_conversation_number_valid() {
    assert!(validate_conversation_number(1).is_ok());
    assert!(validate_conversation_number(100).is_ok());
    assert!(validate_conversation_number(999999).is_ok());
}

#[test]
fn test_validate_conversation_number_zero() {
    let result = validate_conversation_number(0);
    assert!(result.is_err());
    assert!(result.unwrap_err().message().contains("must be positive"));
}

#[test]
fn test_validate_conversation_number_negative() {
    let result = validate_conversation_number(-5);
    assert!(result.is_err());
    assert!(result.unwrap_err().message().contains("must be positive"));
}

#[test]
fn test_validate_conversation_numbers_valid() {
    assert!(validate_conversation_numbers(&[1, 2, 3]).is_ok());
    assert!(validate_conversation_numbers(&[100]).is_ok());
    assert!(validate_conversation_numbers(&[]).is_ok());
}

#[test]
fn test_validate_conversation_numbers_invalid() {
    let result = validate_conversation_numbers(&[1, 0, 3]);
    assert!(result.is_err());

    let result = validate_conversation_numbers(&[-1, 2, 3]);
    assert!(result.is_err());
}

#[test]
fn validate_numbers_names_the_first_bad_one() {
    assert_eq!(
        validate_conversation_numbers(&[3, 0, -2]),
        Err(InputError::NonPositiveNumber(0))
    );
}

#[test]
fn body_sources() {
    assert_eq!(
        body_source(Some("hi".to_string()), true),
        Ok(BodySource::Given("hi".to_string()))
    );
    assert_eq!(body_source(None, true), Err(InputError::NoBody));
    assert_eq!(body_source(None, false), Ok(BodySource::ReadInput));
    assert_eq!(piped_body("  \n\t".to_string()), Err(InputError::EmptyBody));
    assert_eq!(piped_body(" text\n".to_string()), Ok(" text\n".to_string()));
}

#[test]
fn parse_duration_past_the_clock_range() {
    assert_eq!(
        parse_duration("9999999999999999m"),
        Err(InputError::DurationOutOfRange("9999999999999999m".to_string()))
    );
}
