use drf::{
    parse, parse_drf, parse_event, parse_range, AnalogField, ClockType, Device, ErrorKind, Event,
    Property, Range, ReadingField, Request, StateOp, StatusField,
};

#[test]
fn test_drf_parsing() {
    assert!(parse_drf("M:OUTTMP.ON[0]").is_err());
    assert!(parse_drf("M|OUTTMP.ON[0]").is_err());
}

#[test]
fn test_event_canonical_forms() {
    let data = &[
        ("@N", "@N"),
        ("@n", "@N"),
        ("@I", "@I"),
        ("@i", "@I"),
        ("@P,1s", "@P,1S,TRUE"),
        ("@P,1s,f", "@P,1S,FALSE"),
        ("@P,2h,false", "@P,500,FALSE"),
        ("@P,10u,false", "@P,10U,FALSE"),
        ("@P,20m", "@P,20,TRUE"),
        ("@P,30", "@P,30,TRUE"),
        ("@P,10k", "@P,100U,TRUE"),
        ("@E,008f,h,10h", "@E,8F,H,100"),
        ("@E,0", "@E,0,E,0"),
        ("@S,1234,0,1s,=", "@S,1234,0,1S,="),
    ];

    for &(event, result) in data {
        assert_eq!(parse_event(event).unwrap().0.canonical(), result)
    }
}

#[test]
fn test_range_canonical_forms() {
    let data = &[
        ("[]", "[]"),
        ("{}", "[]"),
        ("[:]", "[0:]"),
        ("{:}", "{0:}"),
        ("[0:]", "[0:]"),
        ("{0:}", "{0:}"),
        ("[1:2]", "[1:2]"),
        ("[0:0]", ""),
        ("[1:1]", "[1]"),
        ("{1:1}", "{1}"),
        ("{1:2}", "{1:2}"),
    ];

    for &(range, result) in data {
        assert_eq!(parse_range(range).unwrap().0.canonical(), result)
    }
}

#[test]
fn test_request_canonical_forms() {
    let data = &[
        ("M:OUTTMP", "M:OUTTMP.READING.SCALED"),
        ("M:OUTTMP[0:3]", "M:OUTTMP.READING[0:3].SCALED"),
        ("M|OUTTMP[]", "M:OUTTMP.STATUS[].ALL"),
        ("M|OUTTMP[]@e,02", "M:OUTTMP.STATUS[].ALL@E,2,E,0"),
        ("M|OUTTMP.STATUS[]@e,02", "M:OUTTMP.STATUS[].ALL@E,2,E,0"),
        ("M|OUTTMP.On@e,02", "M:OUTTMP.STATUS.ON@E,2,E,0"),
    ];

    for &(drf, result) in data {
        assert_eq!(parse_drf(drf).unwrap().canonical(), result, "\n input: {}", drf)
    }
}

#[test]
fn separator_picks_default_category() {
    assert_eq!(parse_drf("M:OUTTMP").unwrap().property, Property::Reading(ReadingField::Scaled));
    assert_eq!(parse_drf("M|OUTTMP").unwrap().property, Property::Status(StatusField::All));
}

#[test]
fn implicit_and_explicit_empty_range() {
    assert_eq!(parse_drf("M:OUTTMP[0:0]").unwrap().canonical(), "M:OUTTMP.READING.SCALED");
    assert_eq!(parse_drf("M:OUTTMP[]").unwrap().canonical(), "M:OUTTMP.READING[].SCALED");
    assert_eq!(parse_drf("M:OUTTMP").unwrap().range, Range::Array { start_index: 0, end_index: Some(0) });
    assert_eq!(parse_drf("M:OUTTMP{}").unwrap().range, Range::Full);
}

#[test]
fn range_collapsing() {
    assert_eq!(parse_range("[1:1]").unwrap().0.canonical(), "[1]");
    assert_eq!(parse_range("{1:1}").unwrap().0.canonical(), "{1}");
    assert_eq!(parse_range("[1:2]").unwrap().0.canonical(), "[1:2]");
    assert_eq!(parse_range("[7:]").unwrap().0.canonical(), "[7:]");
    assert_eq!(parse_range("{300:}").unwrap().0.canonical(), "{300:}");
    assert_eq!(parse_range("[:4]").unwrap().0, Range::Array { start_index: 0, end_index: Some(4) });
    assert_eq!(parse_range("[0:]").unwrap().0, Range::Array { start_index: 0, end_index: None });
    assert_eq!(parse_range("{:}").unwrap().0, Range::Raw { offset: 0, length: None });
    assert_eq!(parse_range("[]").unwrap().0, Range::Full);
}

#[test]
fn event_unit_conversions() {
    assert_eq!(parse_event("@P,2h,false").unwrap().0.canonical(), "@P,500,FALSE");
    assert_eq!(parse_event("@P,10k").unwrap().0.canonical(), "@P,100U,TRUE");
    assert_eq!(parse_event("@E,008f,h,10h").unwrap().0.canonical(), "@E,8F,H,100");
    assert_eq!(parse_event("@E,0").unwrap().0.canonical(), "@E,0,E,0");
    assert_eq!(
        parse_event("@q,3m,T").unwrap().0,
        Event::Periodic { period: 3000, immediate: true, skip_dups: true }
    );
    assert_eq!(
        parse_event("@e,ff,s").unwrap().0,
        Event::Clock { event: 0xff, clk_type: ClockType::Software, delay: 0 }
    );
}

#[test]
fn illegal_field_is_rejected() {
    let e = parse_drf("M:OUTTMP.ON[0]").unwrap_err();
    assert_eq!(e.kind, ErrorKind::TrailingInput);
    assert_eq!(e.position, 8);
    let e = parse_drf("M|OUTTMP.ON[0]").unwrap_err();
    assert_eq!(e.kind, ErrorKind::TrailingInput);
    assert_eq!(e.position, 11);
}

#[test]
fn separator_must_be_colon_or_bar() {
    for text in ["M OUTTMP", "M;OUTTMP", "M/OUTTMP", "MOUTTMP"] {
        assert_eq!(parse_drf(text).unwrap_err().kind, ErrorKind::ExpectedSeparator, "{}", text);
    }
    assert_eq!(parse_drf("M OUTTMP").unwrap_err().position, 1);
    let e = parse_drf(" OUTTMP").unwrap_err();
    assert_eq!((e.kind, e.position), (ErrorKind::ExpectedSeparator, 0));
}

#[test]
fn canonical_strings_parse_back() {
    let inputs = [
        "M:OUTTMP",
        "M|OUTTMP[3:]@Q,2500U,F",
        "Z:ACLTST.ANALOG.RAW_MIN@S,12,3,1S,>=",
        "Z:ACLTST.digital{12:4}.mask@e,1A,s,5",
        "G:AMANDA.DESCRIPTION",
        "G:AMANDA.long_name[2]@I",
        "B:X_1.SETTING[4:9].PRIMARY@N",
        "M:OUTTMP[0:]",
        "M|OUTTMP{:}@P,1S",
    ];
    for text in inputs {
        let first = parse_drf(text).unwrap().canonical();
        let second = parse_drf(&first).unwrap().canonical();
        assert_eq!(first, second, "{}", text);
    }
}

#[test]
fn canonical_of_built_requests() {
    let r = Request {
        device: Device::new(String::from("M:OUTTMP")),
        property: Property::Analog(AnalogField::FTD),
        range: Range::Raw { offset: 4, length: Some(1) },
        event: Event::State { device: 7, value: 65535, delay: 1500, expr: StateOp::NEq },
    };
    assert_eq!(r.canonical(), "M:OUTTMP.ANALOG{4}.ALARM_FTD@S,7,65535,1500U,!=");
    assert_eq!(Event::canonical_delay(0), "0");
    assert_eq!(Event::canonical_delay(3_000_000), "3S");
    assert_eq!(Event::canonical_delay(45_000), "45");
    assert_eq!(Event::canonical_delay(45_001), "45001U");
    assert_eq!(ReadingField::default(), ReadingField::Scaled);
    assert_eq!(ClockType::default(), ClockType::Either);
    assert_eq!(Property::LongName.canonical(), (".LONG_NAME", ""));
}

#[test]
fn malformed_numbers_and_brackets() {
    assert_eq!(parse_range("[65536]").unwrap_err().kind, ErrorKind::MalformedNumber);
    assert_eq!(parse_range("[65535]").unwrap().0.canonical(), "[65535]");
    assert_eq!(parse_range("{4294967296}").unwrap_err().kind, ErrorKind::MalformedNumber);
    assert_eq!(parse_range("[1:2").unwrap_err().kind, ErrorKind::UnterminatedBracket);
    assert_eq!(parse_event("@P,0h").unwrap_err().kind, ErrorKind::MalformedNumber);
    assert_eq!(parse_event("@P,5000S").unwrap_err().kind, ErrorKind::MalformedNumber);
    assert_eq!(parse_event("@P,5x").unwrap_err().kind, ErrorKind::UnknownToken);
    assert_eq!(parse_event("@X").unwrap_err().kind, ErrorKind::UnknownToken);
    assert_eq!(parse_event("@S,1,2,3,?").unwrap_err().kind, ErrorKind::UnknownToken);
    assert_eq!(parse_drf(":OUTTMP").unwrap_err().kind, ErrorKind::UnknownToken);
    assert_eq!(parse(&"M:OUTTMP.ON rest").unwrap().1, 8);
}
