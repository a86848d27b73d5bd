use nmea_rmc::calendar::{parse_date, CalendarDate};
use nmea_rmc::clock::{parse_time_of_day, TimeOfDay};
use nmea_rmc::codes::{FaaMode, NavStatus, Status};
use nmea_rmc::decimal::{parse_decimal, Decimal};
use nmea_rmc::error::{ErrorKind, FieldError};
use nmea_rmc::fields::Fields;

fn decimal(negative: bool, whole: &[u8], fraction: &[u8], exponent_negative: bool, exponent: &[u8]) -> Decimal {
    Decimal {
        negative,
        whole: whole.to_vec(),
        fraction: fraction.to_vec(),
        exponent_negative,
        exponent: exponent.to_vec(),
    }
}

fn texts(fields: &Fields) -> Vec<String> {
    (0..fields.len()).map(|i| String::from_utf8(fields.text(i).to_vec()).unwrap()).collect()
}

#[test]
fn split_cuts_at_every_comma() {
    assert_eq!(texts(&Fields::split(b"a,,bc")), vec!["a", "", "bc"]);
    assert_eq!(texts(&Fields::split(b"")), vec![""]);
    assert_eq!(texts(&Fields::split(b",")), vec!["", ""]);
    assert_eq!(texts(&Fields::split(b"abc")), vec!["abc"]);
    assert_eq!(texts(&Fields::split(b"abc,")), vec!["abc", ""]);
    assert_eq!(texts(&Fields::split(b",abc")), vec!["", "abc"]);
}

#[test]
fn split_then_join_gives_the_body_back() {
    for body in ["001031.00,A,4404.13993,N", ",,,", "", "x", ",x,"] {
        let fields = Fields::split(body.as_bytes());
        assert_eq!(texts(&fields).join(","), body);
        assert_eq!(fields.len(), body.matches(',').count() + 1);
        for text in texts(&fields) {
            assert!(!text.contains(','));
        }
    }
}

#[test]
fn from_texts_keeps_the_texts() {
    let fields = Fields::from_texts(vec![b"one".to_vec(), vec![], b"3".to_vec()]);
    assert_eq!(fields.len(), 3);
    assert_eq!(fields.text(0), b"one");
    assert_eq!(fields.text(1), b"");
    assert_eq!(fields.text(2), b"3");
    assert_eq!(fields, Fields::split(b"one,,3"));
}

#[test]
fn decimals_keep_their_digits() {
    assert_eq!(parse_decimal(b"3.00"), Some(decimal(false, &[3], &[0, 0], false, &[])));
    assert_eq!(parse_decimal(b"0.146"), Some(decimal(false, &[0], &[1, 4, 6], false, &[])));
    assert_eq!(parse_decimal(b"-12"), Some(decimal(true, &[1, 2], &[], false, &[])));
    assert_eq!(parse_decimal(b"+7."), Some(decimal(false, &[7], &[], false, &[])));
    assert_eq!(parse_decimal(b".5"), Some(decimal(false, &[], &[5], false, &[])));
    assert_eq!(parse_decimal(b"1.5e3"), Some(decimal(false, &[1], &[5], false, &[3])));
    assert_eq!(parse_decimal(b"1.5E-03"), Some(decimal(false, &[1], &[5], true, &[0, 3])));
    assert_eq!(parse_decimal(b"-0e+1"), Some(decimal(true, &[0], &[], false, &[1])));
    assert_eq!(
        parse_decimal(b"123456789012345678901234567890.5"),
        Some(decimal(
            false,
            &[1, 2, 3, 4, 5, 6, 7, 8, 9, 0, 1, 2, 3, 4, 5, 6, 7, 8, 9, 0, 1, 2, 3, 4, 5, 6, 7, 8, 9, 0],
            &[5],
            false,
            &[],
        )),
    );
}

#[test]
fn what_is_no_decimal_is_refused() {
    for text in ["", "+", "-", ".", "e5", "1e", "1e+", "1.2.3", "1,5", "abc", "1 ", " 1", "--1", "1e5x", "0x10", "nan", "inf"] {
        assert_eq!(parse_decimal(text.as_bytes()), None, "{text:?}");
    }
}

#[test]
fn negation_flips_the_sign_only() {
    let number = parse_decimal(b"3.00e-2").unwrap();
    let opposite = number.clone().negated();
    assert_eq!(opposite, decimal(true, &[3], &[0, 0], true, &[2]));
    assert_eq!(opposite.negated(), number);
}

#[test]
fn times_of_day_are_read_to_the_nanosecond() {
    assert_eq!(
        parse_time_of_day(b"001031.00"),
        Some(TimeOfDay { hour: 0, minute: 10, second: 31, nanosecond: 0 }),
    );
    assert_eq!(
        parse_time_of_day(b"235959"),
        Some(TimeOfDay { hour: 23, minute: 59, second: 59, nanosecond: 0 }),
    );
    assert_eq!(
        parse_time_of_day(b"120000.5"),
        Some(TimeOfDay { hour: 12, minute: 0, second: 0, nanosecond: 500_000_000 }),
    );
    assert_eq!(
        parse_time_of_day(b"120000.123456789"),
        Some(TimeOfDay { hour: 12, minute: 0, second: 0, nanosecond: 123_456_789 }),
    );
    assert_eq!(
        parse_time_of_day(b"120000.1234567899"),
        Some(TimeOfDay { hour: 12, minute: 0, second: 0, nanosecond: 123_456_789 }),
    );
    assert_eq!(
        parse_time_of_day(b"120000."),
        Some(TimeOfDay { hour: 12, minute: 0, second: 0, nanosecond: 0 }),
    );
    assert_eq!(
        parse_time_of_day(b"000000.999999999999"),
        Some(TimeOfDay { hour: 0, minute: 0, second: 0, nanosecond: 999_999_999 }),
    );
    assert_eq!(
        parse_time_of_day(b"000000.25"),
        Some(TimeOfDay { hour: 0, minute: 0, second: 0, nanosecond: 250_000_000 }),
    );
    assert_eq!(
        parse_time_of_day(b"000000.000000001"),
        Some(TimeOfDay { hour: 0, minute: 0, second: 0, nanosecond: 1 }),
    );
}

#[test]
fn times_outside_the_clock_are_refused() {
    for text in ["240000", "236000", "235960", "250000.00", "996199"] {
        assert_eq!(parse_time_of_day(text.as_bytes()), None, "{text:?}");
    }
    for text in ["", "12", "12000", "1200000", "12:00:00", "120000,5", "120000.5x", "12000x", "-20000"] {
        assert_eq!(parse_time_of_day(text.as_bytes()), None, "{text:?}");
    }
}

#[test]
fn dates_count_from_the_year_2000() {
    assert_eq!(parse_date(b"100117"), Some(CalendarDate { year: 2017, month: 1, day: 10 }));
    assert_eq!(parse_date(b"010100"), Some(CalendarDate { year: 2000, month: 1, day: 1 }));
    assert_eq!(parse_date(b"311299"), Some(CalendarDate { year: 2099, month: 12, day: 31 }));
    assert_eq!(parse_date(b"290216"), Some(CalendarDate { year: 2016, month: 2, day: 29 }));
    assert_eq!(parse_date(b"290200"), Some(CalendarDate { year: 2000, month: 2, day: 29 }));
    assert_eq!(parse_date(b"300483"), Some(CalendarDate { year: 2083, month: 4, day: 30 }));
}

#[test]
fn days_that_the_calendar_lacks_are_refused() {
    for text in ["290217", "300216", "310417", "310617", "310917", "311117", "320117", "000117", "100017", "101317"] {
        assert_eq!(parse_date(text.as_bytes()), None, "{text:?}");
    }
    for text in ["", "10011", "1001170", "10-117", "1001 7", "10.01.17"] {
        assert_eq!(parse_date(text.as_bytes()), None, "{text:?}");
    }
}

#[test]
fn every_month_has_its_length() {
    let lengths = [31, 28, 31, 30, 31, 30, 31, 31, 30, 31, 30, 31];
    for (index, length) in lengths.iter().enumerate() {
        let month = index + 1;
        let last = format!("{length:02}{month:02}17");
        let beyond = format!("{:02}{month:02}17", length + 1);
        assert!(parse_date(last.as_bytes()).is_some(), "{last}");
        assert!(parse_date(beyond.as_bytes()).is_none(), "{beyond}");
    }
}

#[test]
fn codes_read_back() {
    for status in [Status::Valid, Status::Invalid] {
        assert_eq!(Status::from_code(status.code()), Some(status));
    }
    for mode in [
        FaaMode::Autonomous,
        FaaMode::Caution,
        FaaMode::Differential,
        FaaMode::Estimated,
        FaaMode::FloatRtk,
        FaaMode::Manual,
        FaaMode::DataNotValid,
        FaaMode::Precise,
        FaaMode::FixedRtk,
        FaaMode::Simulator,
        FaaMode::Unsafe,
    ] {
        assert_eq!(FaaMode::from_code(mode.code()), Some(mode));
    }
    for status in [NavStatus::Safe, NavStatus::Caution, NavStatus::Unsafe, NavStatus::Invalid] {
        assert_eq!(NavStatus::from_code(status.code()), Some(status));
    }
}

#[test]
fn codes_have_their_letters() {
    assert_eq!(Status::from_code(b'A'), Some(Status::Valid));
    assert_eq!(Status::from_code(b'V'), Some(Status::Invalid));
    assert_eq!(Status::from_code(b'a'), None);
    assert_eq!(Status::default(), Status::Invalid);
    let modes = "ACDEFMNPRSU";
    for byte in 0..=255u8 {
        assert_eq!(FaaMode::from_code(byte).is_some(), modes.as_bytes().contains(&byte));
        assert_eq!(NavStatus::from_code(byte).is_some(), b"SCUV".contains(&byte));
        assert_eq!(Status::from_code(byte).is_some(), b"AV".contains(&byte));
    }
    assert_eq!(FaaMode::from_code(b'D'), Some(FaaMode::Differential));
    assert_eq!(FaaMode::Precise.code(), b'P');
    assert_eq!(NavStatus::from_code(b'S'), Some(NavStatus::Safe));
    assert_eq!(NavStatus::Caution.code(), b'C');
}

#[test]
fn causes_are_words() {
    assert_eq!(ErrorKind::MalformedScalar.cause(), "malformed scalar");
    assert_eq!(ErrorKind::InvalidDirection.cause(), "invalid direction letter");
    assert_eq!(ErrorKind::Truncated.cause(), "truncated sentence");
    assert_eq!(ErrorKind::UnrecognizedCode.cause(), "unrecognized code");
}

#[test]
fn an_error_points_at_its_text() {
    let fields = Fields::split(b"001031.00,X,4404.13993");
    let error = FieldError { position: 1, kind: ErrorKind::UnrecognizedCode };
    assert_eq!(error.failing_text(&fields), Some(&b"X"[..]));
    let error = FieldError { position: 3, kind: ErrorKind::Truncated };
    assert_eq!(error.failing_text(&fields), None);
}

#[test]
fn decimals_are_the_numbers_that_nom_recognizes() {
    let texts = [
        "3.00", "0.146", "-12", "+7.", ".5", "1.5e3", "1.5E-03", "-0e+1", "", "+", "-", ".", "e5",
        "1.2.3", "abc", "1 ", " 1", "--1", "0x10", "12,5", "007", "1e5x", "9" , "-.5e-7", "+.e1",
    ];
    for text in texts {
        let whole = matches!(
            nom::number::complete::recognize_float::<&str, nom::error::Error<&str>>(text),
            Ok(("", _))
        );
        assert_eq!(parse_decimal(text.as_bytes()).is_some(), whole, "{text:?}");
    }
}

#[test]
fn decimals_stand_for_the_floats_that_nom_computes() {
    for text in ["3.00", "0.146", "-12", "+7.", ".5", "1.5e3", "1.5E-03", "-0e+1", "007", "-.5e-7"] {
        let number = parse_decimal(text.as_bytes()).unwrap();
        let mut written = String::new();
        if number.negative {
            written.push('-');
        }
        for digit in &number.whole {
            written.push((b'0' + digit) as char);
        }
        written.push('.');
        for digit in &number.fraction {
            written.push((b'0' + digit) as char);
        }
        if !number.exponent.is_empty() {
            written.push('e');
            if number.exponent_negative {
                written.push('-');
            }
            for digit in &number.exponent {
                written.push((b'0' + digit) as char);
            }
        }
        let expected = nom::number::complete::float::<&str, nom::error::Error<&str>>(text).unwrap().1;
        let found: f32 = written.parse().unwrap();
        assert_eq!(found.to_bits(), expected.to_bits(), "{text:?}");
    }
}
