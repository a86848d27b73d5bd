use nmea_rmc::calendar::CalendarDate;
use nmea_rmc::clock::TimeOfDay;
use nmea_rmc::codes::{FaaMode, NavStatus, Status};
use nmea_rmc::decimal::Decimal;
use nmea_rmc::error::{ErrorKind, FieldError};
use nmea_rmc::fields::Fields;
use nmea_rmc::position::{Angle, Location};
use nmea_rmc::rmc::RMC;

const SENTENCE: &str = "001031.00,A,4404.13993,N,12118.86023,W,0.146,,100117,,,A,V";

fn degrees(angle: &Angle) -> f64 {
    let mut minutes = angle.minutes as f64;
    let mut weight = 0.1;
    for digit in &angle.minute_fraction {
        minutes += *digit as f64 * weight;
        weight /= 10.0;
    }
    let size = angle.degrees as f64 + minutes / 60.0;
    if angle.negative {
        -size
    } else {
        size
    }
}

fn number(decimal: &Decimal) -> f64 {
    let mut text = String::new();
    if decimal.negative {
        text.push('-');
    }
    for digit in &decimal.whole {
        text.push((b'0' + digit) as char);
    }
    text.push('.');
    for digit in &decimal.fraction {
        text.push((b'0' + digit) as char);
    }
    if !decimal.exponent.is_empty() {
        text.push('e');
        if decimal.exponent_negative {
            text.push('-');
        }
        for digit in &decimal.exponent {
            text.push((b'0' + digit) as char);
        }
    }
    text.parse().unwrap()
}

#[test]
fn test_rmc_parsing() {
    let cases = ["001031.00,A,4404.13993,N,12118.86023,W,0.146,,100117,,,A,V"];

    for &input in &cases {
        let result = RMC::<true, true>::parse(input);
        assert!(result.is_ok(), "Failed: {input:?}\n\t{result:?}");
    }
}

#[test]
fn literal_sentence_decodes_to_its_record() {
    let record = RMC::<true, true>::parse(SENTENCE).unwrap();
    let expected = RMC::<true, true> {
        fix_time: Some(TimeOfDay { hour: 0, minute: 10, second: 31, nanosecond: 0 }),
        status: Status::Valid,
        location: Some(Location {
            latitude: Angle {
                negative: false,
                degrees: 44,
                minutes: 4,
                minute_fraction: vec![1, 3, 9, 9, 3],
            },
            longitude: Angle {
                negative: true,
                degrees: 121,
                minutes: 18,
                minute_fraction: vec![8, 6, 0, 2, 3],
            },
        }),
        speed_over_ground: Some(Decimal {
            negative: false,
            whole: vec![0],
            fraction: vec![1, 4, 6],
            exponent_negative: false,
            exponent: vec![],
        }),
        course_over_ground: None,
        fix_date: Some(CalendarDate { year: 2017, month: 1, day: 10 }),
        magnetic_variation: None,
        faa_mode: Some(FaaMode::Autonomous),
        nav_status: Some(NavStatus::Invalid),
    };
    assert_eq!(record, expected);
}

#[test]
fn literal_sentence_in_floating_point() {
    let record = RMC::<true, true>::parse(SENTENCE).unwrap();
    let location = record.location.unwrap();
    assert!((degrees(&location.latitude) - 44.0689988).abs() < 1e-7);
    assert!((degrees(&location.longitude) - -121.3143372).abs() < 1e-7);
    assert!((number(&record.speed_over_ground.unwrap()) - 0.146).abs() < 1e-12);
    assert_eq!(record.course_over_ground, None);
    assert_eq!(record.magnetic_variation, None);
}

#[test]
fn older_revisions_leave_their_trailing_fields_alone() {
    let base = RMC::<false, false>::parse(SENTENCE).unwrap();
    assert_eq!(base.faa_mode, None);
    assert_eq!(base.nav_status, None);
    assert_eq!(base.status, Status::Valid);

    let with_mode = RMC::<true, false>::parse(SENTENCE).unwrap();
    assert_eq!(with_mode.faa_mode, Some(FaaMode::Autonomous));
    assert_eq!(with_mode.nav_status, None);

    let with_status = RMC::<false, true>::parse("001031.00,A,,,,,,,,,,S").unwrap();
    assert_eq!(with_status.faa_mode, None);
    assert_eq!(with_status.nav_status, Some(NavStatus::Safe));
}

#[test]
fn decode_yields_the_index_behind_the_record() {
    let fields = Fields::split(SENTENCE.as_bytes());
    assert_eq!(RMC::<false, false>::decode(&fields, 0).unwrap().1, 11);
    assert_eq!(RMC::<true, false>::decode(&fields, 0).unwrap().1, 12);
    assert_eq!(
        RMC::<false, true>::decode(&fields, 0),
        Err(FieldError { position: 11, kind: ErrorKind::UnrecognizedCode }),
    );
    assert_eq!(RMC::<true, true>::decode(&fields, 0).unwrap().1, 13);
    let fields = Fields::split(b"001031.00,A,4404.13993,N,12118.86023,W,0.146,,100117,,,V");
    assert_eq!(RMC::<false, true>::decode(&fields, 0).unwrap().1, 12);
}

#[test]
fn decode_starts_where_it_is_told() {
    let fields = Fields::split(b"GPRMC,001031.00,A,4404.13993,N,12118.86023,W,0.146,,100117,,,A,V");
    let (record, next) = RMC::<true, true>::decode(&fields, 1).unwrap();
    assert_eq!(next, 14);
    assert_eq!(record, RMC::<true, true>::parse(SENTENCE).unwrap());
}

#[test]
fn fields_behind_the_record_are_tolerated() {
    let record = RMC::<true, true>::parse(
        "001031.00,A,4404.13993,N,12118.86023,W,0.146,,100117,,,A,V,extra,!!",
    );
    assert_eq!(record, RMC::<true, true>::parse(SENTENCE));
    assert!(record.is_ok());
}

#[test]
fn blank_sentence_decodes_to_blank_record() {
    for status in ["", "A", "V"] {
        let body = format!(",{status},,,,,,,,,,,");
        let record = RMC::<true, true>::parse(&body).unwrap();
        let expected = RMC::<true, true> {
            fix_time: None,
            status: if status == "A" { Status::Valid } else { Status::Invalid },
            location: None,
            speed_over_ground: None,
            course_over_ground: None,
            fix_date: None,
            magnetic_variation: None,
            faa_mode: None,
            nav_status: None,
        };
        assert_eq!(record, expected);
    }
    let record = RMC::<false, false>::parse(",,,,,,,,,,").unwrap();
    assert_eq!(record, RMC::<false, false>::default());
}

#[test]
fn default_record_is_blank() {
    let record = RMC::<true, true>::default();
    assert_eq!(record.status, Status::Invalid);
    assert_eq!(record.fix_time, None);
    assert_eq!(record.location, None);
    assert_eq!(record.speed_over_ground, None);
    assert_eq!(record.course_over_ground, None);
    assert_eq!(record.fix_date, None);
    assert_eq!(record.magnetic_variation, None);
    assert_eq!(record.faa_mode, None);
    assert_eq!(record.nav_status, None);
}

#[test]
fn every_truncation_is_reported_at_the_cut() {
    let texts: Vec<Vec<u8>> = SENTENCE.split(',').map(|t| t.as_bytes().to_vec()).collect();
    assert_eq!(texts.len(), 13);
    for kept in 0..13 {
        let fields = Fields::from_texts(texts[..kept].to_vec());
        assert_eq!(
            RMC::<true, true>::decode(&fields, 0),
            Err(FieldError { position: kept, kind: ErrorKind::Truncated }),
        );
    }
    for kept in 0..11 {
        let fields = Fields::from_texts(texts[..kept].to_vec());
        assert_eq!(
            RMC::<false, false>::decode(&fields, 0),
            Err(FieldError { position: kept, kind: ErrorKind::Truncated }),
        );
    }
    let fields = Fields::from_texts(texts[..11].to_vec());
    assert!(RMC::<false, false>::decode(&fields, 0).is_ok());
    let fields = Fields::from_texts(texts[..12].to_vec());
    assert!(RMC::<true, false>::decode(&fields, 0).is_ok());
}

#[test]
fn a_fault_is_reported_at_its_field() {
    let cases: [(&str, usize, ErrorKind); 15] = [
        ("0010x1.00,A,4404.13993,N,12118.86023,W,0.146,,100117,,,A,V", 0, ErrorKind::MalformedScalar),
        ("001031.00,X,4404.13993,N,12118.86023,W,0.146,,100117,,,A,V", 1, ErrorKind::UnrecognizedCode),
        ("001031.00,AV,4404.13993,N,12118.86023,W,0.146,,100117,,,A,V", 1, ErrorKind::UnrecognizedCode),
        ("001031.00,A,44o4.13993,N,12118.86023,W,0.146,,100117,,,A,V", 2, ErrorKind::MalformedScalar),
        ("001031.00,A,4404.13993,E,12118.86023,W,0.146,,100117,,,A,V", 3, ErrorKind::InvalidDirection),
        ("001031.00,A,4404.13993,,12118.86023,W,0.146,,100117,,,A,V", 3, ErrorKind::InvalidDirection),
        ("001031.00,A,4404.13993,N,1218.86023,W,0.146,,100117,,,A,V", 4, ErrorKind::MalformedScalar),
        ("001031.00,A,4404.13993,N,12118.86023,N,0.146,,100117,,,A,V", 5, ErrorKind::InvalidDirection),
        ("001031.00,A,4404.13993,N,12118.86023,W,0.1.46,,100117,,,A,V", 6, ErrorKind::MalformedScalar),
        ("001031.00,A,4404.13993,N,12118.86023,W,0.146,north,100117,,,A,V", 7, ErrorKind::MalformedScalar),
        ("001031.00,A,4404.13993,N,12118.86023,W,0.146,,320117,,,A,V", 8, ErrorKind::MalformedScalar),
        ("001031.00,A,4404.13993,N,12118.86023,W,0.146,,100117,3.x,W,A,V", 9, ErrorKind::MalformedScalar),
        ("001031.00,A,4404.13993,N,12118.86023,W,0.146,,100117,3.0,N,A,V", 10, ErrorKind::InvalidDirection),
        ("001031.00,A,4404.13993,N,12118.86023,W,0.146,,100117,,,B,V", 11, ErrorKind::UnrecognizedCode),
        ("001031.00,A,4404.13993,N,12118.86023,W,0.146,,100117,,,A,A", 12, ErrorKind::UnrecognizedCode),
    ];
    for (body, position, kind) in cases {
        assert_eq!(
            RMC::<true, true>::parse(body),
            Err(FieldError { position, kind }),
            "{body}",
        );
    }
}

#[test]
fn the_first_of_two_faults_is_reported() {
    let body = "001031.00,?,4404.13993,N,12118.86023,Q,0.146,,100117,,,A,V";
    assert_eq!(
        RMC::<true, true>::parse(body),
        Err(FieldError { position: 1, kind: ErrorKind::UnrecognizedCode }),
    );
    let body = "001031.00,A,4404.13993,N,12118.86023,W,zero";
    assert_eq!(
        RMC::<true, true>::parse(body),
        Err(FieldError { position: 6, kind: ErrorKind::MalformedScalar }),
    );
}

#[test]
fn empty_magnitudes_excuse_their_letters() {
    let record = RMC::<true, true>::parse("001031.00,A,,x,,y,0.146,,100117,,z,A,V").unwrap();
    assert_eq!(record.location, None);
    assert_eq!(record.magnetic_variation, None);
    assert_eq!(record.faa_mode, Some(FaaMode::Autonomous));
}

#[test]
fn half_a_location_is_no_location() {
    let record = RMC::<true, true>::parse("001031.00,A,4404.13993,N,,,0.146,,100117,,,A,V").unwrap();
    assert_eq!(record.location, None);
    let record = RMC::<true, true>::parse("001031.00,A,,,12118.86023,W,0.146,,100117,,,A,V").unwrap();
    assert_eq!(record.location, None);
    assert_eq!(
        RMC::<true, true>::parse("001031.00,A,4404.13993,X,,,0.146,,100117,,,A,V"),
        Err(FieldError { position: 3, kind: ErrorKind::InvalidDirection }),
    );
}
