use displayz::{
    BitDepth, ConnectorType, FixedOutput, Frequency, IntErrorKind, Orientation,
    ParseFixedOutputError, ParseFrequencyError, ParseOrientationError, ParsePositionError,
    ParseResolutionError, Position, Resolution, ScanlineOrdering, Scaling,
};
use displayz::decimal::{format_i32, format_u32, parse_i32, parse_u32};
use displayz::text::{find_char, is_plain_str, same_text, to_keyword_form};

#[test]
fn decimal_text_of_numbers() {
    assert_eq!(format_u32(0), "0");
    assert_eq!(format_u32(7), "7");
    assert_eq!(format_u32(1920), "1920");
    assert_eq!(format_u32(u32::MAX), "4294967295");
    assert_eq!(format_i32(0), "0");
    assert_eq!(format_i32(-1920), "-1920");
    assert_eq!(format_i32(i32::MAX), "2147483647");
    assert_eq!(format_i32(i32::MIN), "-2147483648");
}

#[test]
fn unsigned_numbers_are_read() {
    assert_eq!(parse_u32("0"), Ok(0));
    assert_eq!(parse_u32("007"), Ok(7));
    assert_eq!(parse_u32("+60"), Ok(60));
    assert_eq!(parse_u32("4294967295"), Ok(u32::MAX));
    assert_eq!(parse_u32(""), Err(IntErrorKind::Empty));
    assert_eq!(parse_u32("+"), Err(IntErrorKind::InvalidDigit));
    assert_eq!(parse_u32("-"), Err(IntErrorKind::InvalidDigit));
    assert_eq!(parse_u32("-1"), Err(IntErrorKind::InvalidDigit));
    assert_eq!(parse_u32("12a"), Err(IntErrorKind::InvalidDigit));
    assert_eq!(parse_u32(" 12"), Err(IntErrorKind::InvalidDigit));
    assert_eq!(parse_u32("4294967296"), Err(IntErrorKind::PosOverflow));
    assert_eq!(parse_u32("99999999999x"), Err(IntErrorKind::PosOverflow));
    assert_eq!(parse_u32("9x9999999999"), Err(IntErrorKind::InvalidDigit));
}

#[test]
fn unsigned_numbers_are_read_as_std_reads_them() {
    for text in [
        "0", "42", "+42", "-42", "", "+", "-", "4294967295", "4294967296", "00000000000001",
        "1 ", "١٢", "12e3", "99999999999x", "++1",
    ] {
        let ours = parse_u32(text).ok();
        let theirs = text.parse::<u32>().ok();
        assert_eq!(ours, theirs);
    }
}

#[test]
fn signed_numbers_are_read() {
    assert_eq!(parse_i32("0"), Ok(0));
    assert_eq!(parse_i32("-0"), Ok(0));
    assert_eq!(parse_i32("+1920"), Ok(1920));
    assert_eq!(parse_i32("-1920"), Ok(-1920));
    assert_eq!(parse_i32("2147483647"), Ok(i32::MAX));
    assert_eq!(parse_i32("-2147483648"), Ok(i32::MIN));
    assert_eq!(parse_i32(""), Err(IntErrorKind::Empty));
    assert_eq!(parse_i32("-"), Err(IntErrorKind::InvalidDigit));
    assert_eq!(parse_i32("+"), Err(IntErrorKind::InvalidDigit));
    assert_eq!(parse_i32("--1"), Err(IntErrorKind::InvalidDigit));
    assert_eq!(parse_i32("1.5"), Err(IntErrorKind::InvalidDigit));
    assert_eq!(parse_i32("2147483648"), Err(IntErrorKind::PosOverflow));
    assert_eq!(parse_i32("-2147483649"), Err(IntErrorKind::NegOverflow));
}

#[test]
fn signed_numbers_are_read_as_std_reads_them() {
    for text in [
        "0", "-0", "+0", "17", "-17", "2147483647", "2147483648", "-2147483648", "-2147483649",
        "", "-", "+", "1-", "é", "-99999999999999999999",
    ] {
        let ours = parse_i32(text).ok();
        let theirs = text.parse::<i32>().ok();
        assert_eq!(ours, theirs);
    }
}

#[test]
fn separators_are_found() {
    assert_eq!(find_char("12,34", ',', 0), 2);
    assert_eq!(find_char("12,34", ',', 3), 5);
    assert_eq!(find_char("1234", ',', 0), 4);
    assert_eq!(find_char("", ',', 0), 0);
    assert_eq!(find_char(",", ',', 0), 0);
    assert_eq!(find_char("é,1", ',', 0), 1);
}

#[test]
fn texts_are_compared() {
    assert!(same_text("", ""));
    assert!(same_text("portrait", "portrait"));
    assert!(!same_text("portrait", "portrai"));
    assert!(!same_text("portrait", "portrais"));
    assert!(!same_text("a", ""));
}

#[test]
fn position_is_written_and_read() {
    assert_eq!(Position::new(1920, 0).to_string(), "1920,0");
    assert_eq!(Position::new(-1920, -1080).to_string(), "-1920,-1080");
    assert_eq!(Position::from_str("1920,0"), Ok(Position::new(1920, 0)));
    assert_eq!(Position::from_str("-1920,-1080"), Ok(Position::new(-1920, -1080)));
    assert_eq!(Position::from_str("+5,-3"), Ok(Position::new(5, -3)));
    assert_eq!(Position::from_str("1,2,3"), Ok(Position::new(1, 2)));
}

#[test]
fn position_errors() {
    assert_eq!(Position::from_str("12"), Err(ParsePositionError::SecondPart));
    assert_eq!(
        Position::from_str(""),
        Err(ParsePositionError::IntError(IntErrorKind::Empty))
    );
    assert_eq!(
        Position::from_str(",5"),
        Err(ParsePositionError::IntError(IntErrorKind::Empty))
    );
    assert_eq!(
        Position::from_str("5,"),
        Err(ParsePositionError::IntError(IntErrorKind::Empty))
    );
    assert_eq!(
        Position::from_str("a,5"),
        Err(ParsePositionError::IntError(IntErrorKind::InvalidDigit))
    );
    assert_eq!(
        Position::from_str("a"),
        Err(ParsePositionError::IntError(IntErrorKind::InvalidDigit))
    );
    assert_eq!(
        Position::from_str("1, 2"),
        Err(ParsePositionError::IntError(IntErrorKind::InvalidDigit))
    );
    assert_eq!(
        Position::from_str("2147483648,0"),
        Err(ParsePositionError::IntError(IntErrorKind::PosOverflow))
    );
    assert_eq!(
        Position::from_str("0,-2147483649"),
        Err(ParsePositionError::IntError(IntErrorKind::NegOverflow))
    );
}

#[test]
fn position_round_trip() {
    for (x, y) in [
        (0, 0),
        (1920, 0),
        (-1920, 1080),
        (i32::MAX, i32::MIN),
        (i32::MIN, i32::MAX),
        (-1, 1),
        (10, -10),
    ] {
        let p = Position::new(x, y);
        assert_eq!(Position::from_str(&p.to_string()), Ok(p));
    }
}

#[test]
fn resolution_is_written_and_read() {
    assert_eq!(Resolution::new(1920, 1080).to_string(), "1920x1080");
    assert_eq!(Resolution::from_str("1920x1080"), Ok(Resolution::new(1920, 1080)));
    assert_eq!(Resolution::from_str("0x0"), Ok(Resolution::new(0, 0)));
    assert_eq!(Resolution::from_str("1x2x3"), Ok(Resolution::new(1, 2)));
    assert_eq!(
        Resolution::from_str("4294967295x4294967295"),
        Ok(Resolution::new(u32::MAX, u32::MAX))
    );
}

#[test]
fn resolution_errors() {
    assert_eq!(Resolution::from_str("1920"), Err(ParseResolutionError::SecondPart));
    assert_eq!(
        Resolution::from_str(""),
        Err(ParseResolutionError::IntError(IntErrorKind::Empty))
    );
    assert_eq!(
        Resolution::from_str("x1080"),
        Err(ParseResolutionError::IntError(IntErrorKind::Empty))
    );
    assert_eq!(
        Resolution::from_str("1920x"),
        Err(ParseResolutionError::IntError(IntErrorKind::Empty))
    );
    assert_eq!(
        Resolution::from_str("1920X1080"),
        Err(ParseResolutionError::IntError(IntErrorKind::InvalidDigit))
    );
    assert_eq!(
        Resolution::from_str("-1x1"),
        Err(ParseResolutionError::IntError(IntErrorKind::InvalidDigit))
    );
    assert_eq!(
        Resolution::from_str("4294967296x1"),
        Err(ParseResolutionError::IntError(IntErrorKind::PosOverflow))
    );
}

#[test]
fn resolution_round_trip() {
    for (w, h) in [(0, 0), (640, 480), (1920, 1080), (3840, 2160), (u32::MAX, 1), (10, 100)] {
        let r = Resolution::new(w, h);
        assert_eq!(Resolution::from_str(&r.to_string()), Ok(r));
    }
}

#[test]
fn frequency_is_written_and_read() {
    assert_eq!(Frequency::new(60).to_string(), "60");
    assert_eq!(Frequency::from_str("144"), Ok(Frequency::new(144)));
    assert_eq!(
        Frequency::from_str("sixty"),
        Err(ParseFrequencyError::IntError(IntErrorKind::InvalidDigit))
    );
    assert_eq!(
        Frequency::from_str(""),
        Err(ParseFrequencyError::IntError(IntErrorKind::Empty))
    );
    assert_eq!(
        Frequency::from_str("-60"),
        Err(ParseFrequencyError::IntError(IntErrorKind::InvalidDigit))
    );
    for hz in [0, 1, 59, 60, 75, 144, 240, u32::MAX] {
        let f = Frequency::new(hz);
        assert_eq!(Frequency::from_str(&f.to_string()), Ok(f));
    }
}

#[test]
fn orientation_is_written_and_read() {
    assert_eq!(Orientation::Landscape.to_string(), "landscape");
    assert_eq!(Orientation::Portrait.to_string(), "portrait");
    assert_eq!(Orientation::LandscapeFlipped.to_string(), "landscape_flipped");
    assert_eq!(Orientation::PortraitFlipped.to_string(), "portrait_flipped");
    for o in [
        Orientation::Landscape,
        Orientation::Portrait,
        Orientation::LandscapeFlipped,
        Orientation::PortraitFlipped,
    ] {
        assert_eq!(Orientation::from_str(&o.to_string()).unwrap(), o);
    }
}

#[test]
fn orientation_keywords() {
    assert_eq!(Orientation::from_str("0").unwrap(), Orientation::Landscape);
    assert_eq!(Orientation::from_str("1").unwrap(), Orientation::Landscape);
    assert_eq!(Orientation::from_str("90").unwrap(), Orientation::Portrait);
    assert_eq!(Orientation::from_str("2").unwrap(), Orientation::Portrait);
    assert_eq!(Orientation::from_str("180").unwrap(), Orientation::LandscapeFlipped);
    assert_eq!(Orientation::from_str("3").unwrap(), Orientation::LandscapeFlipped);
    assert_eq!(Orientation::from_str("270").unwrap(), Orientation::PortraitFlipped);
    assert_eq!(Orientation::from_str("4").unwrap(), Orientation::PortraitFlipped);
}

#[test]
fn orientation_is_read_in_any_case() {
    assert_eq!(Orientation::from_str("Landscape").unwrap(), Orientation::Landscape);
    assert_eq!(Orientation::from_str("PORTRAIT").unwrap(), Orientation::Portrait);
    assert_eq!(
        Orientation::from_str("Landscape_Flipped").unwrap(),
        Orientation::LandscapeFlipped
    );
    assert_eq!(
        Orientation::from_str("pOrTrAiT_fLiPpEd").unwrap(),
        Orientation::PortraitFlipped
    );
}

#[test]
fn unknown_orientation_keeps_the_text() {
    match Orientation::from_str("Sideways") {
        Err(ParseOrientationError::UnknownOrientation(text)) => assert_eq!(text, "Sideways"),
        other => panic!("unexpected {:?}", other),
    }
    assert!(Orientation::from_str("").is_err());
    assert!(Orientation::from_str("5").is_err());
    assert!(Orientation::from_str("landscape ").is_err());
    assert!(Orientation::from_str("landscapeflipped").is_err());
}

#[test]
fn orientation_from_lowercase_takes_the_text_as_it_is() {
    assert_eq!(
        Orientation::from_lowercase("portrait", "Portrait").unwrap(),
        Orientation::Portrait
    );
    match Orientation::from_lowercase("Portrait", "Portrait") {
        Err(ParseOrientationError::UnknownOrientation(text)) => assert_eq!(text, "Portrait"),
        other => panic!("unexpected {:?}", other),
    }
}

#[test]
fn fixed_output_is_written_and_read() {
    assert_eq!(FixedOutput::Default.to_string(), "Default");
    assert_eq!(FixedOutput::Stretch.to_string(), "Stretch");
    assert_eq!(FixedOutput::Center.to_string(), "Center");
    assert_eq!(FixedOutput::from_str("default"), Ok(FixedOutput::Default));
    assert_eq!(FixedOutput::from_str("Stretch"), Ok(FixedOutput::Stretch));
    assert_eq!(FixedOutput::from_str("CENTER"), Ok(FixedOutput::Center));
    assert_eq!(
        FixedOutput::from_str("centre"),
        Err(ParseFixedOutputError::InvalidFixedOutput)
    );
    assert_eq!(
        FixedOutput::from_lowercase("Center"),
        Err(ParseFixedOutputError::InvalidFixedOutput)
    );
    for f in [FixedOutput::Default, FixedOutput::Stretch, FixedOutput::Center] {
        assert_eq!(FixedOutput::from_str(&f.to_string()), Ok(f));
    }
}

#[test]
fn names_of_the_other_settings() {
    assert_eq!(Scaling::Identity.to_string(), "identity");
    assert_eq!(Scaling::Centered.to_string(), "centered");
    assert_eq!(Scaling::Stretched.to_string(), "stretched");
    assert_eq!(Scaling::AspectRatioCenteredMax.to_string(), "aspect_ratio_centered_max");
    assert_eq!(Scaling::Custom.to_string(), "custom");
    assert_eq!(Scaling::Preferred.to_string(), "preferred");
    assert_eq!(BitDepth::Bpp8.to_string(), "8 bpp");
    assert_eq!(BitDepth::Bpp16.to_string(), "16 bpp");
    assert_eq!(BitDepth::Bpp32.to_string(), "32 bpp");
    assert_eq!(ScanlineOrdering::Unspecified.to_string(), "unspecified");
    assert_eq!(ScanlineOrdering::Progressive.to_string(), "progressive");
    assert_eq!(
        ScanlineOrdering::InterlacedUpperFieldFirst.to_string(),
        "interlaced_upper_first"
    );
    assert_eq!(
        ScanlineOrdering::InterlacedLowerFieldFirst.to_string(),
        "interlaced_lower_first"
    );
    assert_eq!(ConnectorType::HD15.to_string(), "VGA (HD15)");
    assert_eq!(ConnectorType::HDMI.to_string(), "HDMI");
    assert_eq!(ConnectorType::DisplayPortExternal.to_string(), "DisplayPort (External)");
    assert_eq!(ConnectorType::Internal.to_string(), "Internal");
    assert_eq!(ConnectorType::Other.to_string(), "Other");
}

#[test]
fn plain_texts_are_told_apart() {
    assert!(is_plain_str(""));
    assert!(is_plain_str("landscape_flipped"));
    assert!(is_plain_str("270"));
    assert!(is_plain_str("a_0z9"));
    assert!(!is_plain_str("Landscape"));
    assert!(!is_plain_str("landscape flipped"));
    assert!(!is_plain_str("landscape-flipped"));
    assert!(!is_plain_str("é"));
    assert!(!is_plain_str("`"));
    assert!(!is_plain_str("{"));
    assert!(!is_plain_str("/"));
    assert!(!is_plain_str(":"));
}

#[test]
fn keyword_form_is_lowercase() {
    assert_eq!(to_keyword_form("portrait"), "portrait");
    assert_eq!(to_keyword_form("Portrait"), "portrait");
    assert_eq!(to_keyword_form("PORTRAIT_FLIPPED"), "portrait_flipped");
    assert_eq!(to_keyword_form("ÄB"), "äb");
    assert_eq!(to_keyword_form("90"), "90");
    assert_eq!(to_keyword_form(""), "");
}
