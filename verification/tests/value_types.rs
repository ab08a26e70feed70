use displayz::{
    BitDepth, ConnectorType, DisplayPropertiesError, FixedOutput, Frequency, Orientation,
    Position, Resolution, ScanlineOrdering, Scaling,
};

#[test]
fn position_arithmetic() {
    let a = Position::new(1920, 0);
    let b = Position::new(-100, 50);
    assert_eq!(a.add(b), Position::new(1820, 50));
    assert_eq!(a.sub(b), Position::new(2020, -50));
    assert_eq!(b.neg(), Position::new(100, -50));
    assert_eq!(b.neg().add(a), a.sub(b));
    assert_eq!(Position::default(), Position::new(0, 0));
    assert!(Position::new(0, 0).is_origin());
    assert!(!Position::new(0, 1).is_origin());
}

#[test]
fn position_arithmetic_wraps() {
    let far = Position::new(i32::MAX, i32::MIN);
    assert_eq!(far.add(Position::new(1, -1)), Position::new(i32::MIN, i32::MAX));
    assert_eq!(far.sub(Position::new(-1, 1)), Position::new(i32::MIN, i32::MAX));
    assert_eq!(Position::new(i32::MIN, 0).neg(), Position::new(i32::MIN, 0));
    assert_eq!(far.sub(far), Position::new(0, 0));
}

#[test]
fn resolution_and_frequency() {
    let r = Resolution::new(1920, 1080);
    assert_eq!(r.width, 1920);
    assert_eq!(r.height, 1080);
    assert!(Resolution::new(1280, 720) < r);
    assert_eq!(Frequency::new(60).0, 60);
    assert_eq!(Frequency::default(), Frequency::new(0));
}

#[test]
fn orientation_rotation_numbers() {
    assert_eq!(Orientation::from_rotation(1), Orientation::Landscape);
    assert_eq!(Orientation::from_rotation(2), Orientation::Portrait);
    assert_eq!(Orientation::from_rotation(3), Orientation::LandscapeFlipped);
    assert_eq!(Orientation::from_rotation(4), Orientation::PortraitFlipped);
    assert_eq!(Orientation::from_rotation(0), Orientation::Landscape);
    assert_eq!(Orientation::from_rotation(5), Orientation::Landscape);
    assert_eq!(Orientation::from_rotation(u32::MAX), Orientation::Landscape);
    assert_eq!(Orientation::Landscape.to_rotation(), 1);
    assert_eq!(Orientation::Portrait.to_rotation(), 2);
    assert_eq!(Orientation::LandscapeFlipped.to_rotation(), 3);
    assert_eq!(Orientation::PortraitFlipped.to_rotation(), 4);
    assert_eq!(Orientation::default(), Orientation::Landscape);
}

#[test]
fn orientation_device_numbers() {
    assert_eq!(Orientation::from_windows(0).unwrap(), Orientation::Landscape);
    assert_eq!(Orientation::from_windows(1).unwrap(), Orientation::PortraitFlipped);
    assert_eq!(Orientation::from_windows(2).unwrap(), Orientation::LandscapeFlipped);
    assert_eq!(Orientation::from_windows(3).unwrap(), Orientation::Portrait);
    match Orientation::from_windows(4) {
        Err(DisplayPropertiesError::InvalidOrientation(text)) => assert_eq!(text, "4"),
        other => panic!("unexpected {:?}", other),
    }
    match Orientation::from_windows(4000000000) {
        Err(DisplayPropertiesError::InvalidOrientation(text)) => assert_eq!(text, "4000000000"),
        other => panic!("unexpected {:?}", other),
    }
    for o in [
        Orientation::Landscape,
        Orientation::Portrait,
        Orientation::LandscapeFlipped,
        Orientation::PortraitFlipped,
    ] {
        assert_eq!(Orientation::from_windows(o.to_windows()).unwrap(), o);
        assert_eq!(Orientation::from_rotation(o.to_rotation()), o);
    }
}

#[test]
fn fixed_output_device_numbers() {
    assert_eq!(FixedOutput::from_windows(0).unwrap(), FixedOutput::Default);
    assert_eq!(FixedOutput::from_windows(1).unwrap(), FixedOutput::Stretch);
    assert_eq!(FixedOutput::from_windows(2).unwrap(), FixedOutput::Center);
    match FixedOutput::from_windows(3) {
        Err(DisplayPropertiesError::InvalidFixedOutput(text)) => assert_eq!(text, "3"),
        other => panic!("unexpected {:?}", other),
    }
    assert_eq!(FixedOutput::Default.to_windows(), 0);
    assert_eq!(FixedOutput::Stretch.to_windows(), 1);
    assert_eq!(FixedOutput::Center.to_windows(), 2);
}

#[test]
fn scaling_numbers() {
    assert_eq!(Scaling::from_value(0), Scaling::Identity);
    assert_eq!(Scaling::from_value(1), Scaling::Centered);
    assert_eq!(Scaling::from_value(2), Scaling::Stretched);
    assert_eq!(Scaling::from_value(3), Scaling::AspectRatioCenteredMax);
    assert_eq!(Scaling::from_value(4), Scaling::Custom);
    assert_eq!(Scaling::from_value(128), Scaling::Preferred);
    assert_eq!(Scaling::from_value(5), Scaling::Identity);
    assert_eq!(Scaling::from_value(-1), Scaling::Identity);
    assert_eq!(Scaling::Preferred.to_value(), 128);
    assert_eq!(Scaling::Custom.to_value(), 4);
    assert_eq!(Scaling::Identity.to_value(), 0);
    assert_eq!(Scaling::default(), Scaling::Identity);
    for s in [
        Scaling::Identity,
        Scaling::Centered,
        Scaling::Stretched,
        Scaling::AspectRatioCenteredMax,
        Scaling::Custom,
        Scaling::Preferred,
    ] {
        assert_eq!(Scaling::from_value(s.to_value()), s);
    }
}

#[test]
fn bit_depth_numbers() {
    assert_eq!(BitDepth::from_pixel_format(1), BitDepth::Bpp8);
    assert_eq!(BitDepth::from_pixel_format(2), BitDepth::Bpp16);
    assert_eq!(BitDepth::from_pixel_format(3), BitDepth::Bpp32);
    assert_eq!(BitDepth::from_pixel_format(0), BitDepth::Bpp32);
    assert_eq!(BitDepth::from_pixel_format(4), BitDepth::Bpp32);
    assert_eq!(BitDepth::Bpp8.to_pixel_format(), 1);
    assert_eq!(BitDepth::Bpp16.to_pixel_format(), 2);
    assert_eq!(BitDepth::Bpp32.to_pixel_format(), 3);
    assert_eq!(BitDepth::Bpp8.to_bits(), 8);
    assert_eq!(BitDepth::Bpp16.to_bits(), 16);
    assert_eq!(BitDepth::Bpp32.to_bits(), 32);
    assert_eq!(BitDepth::default(), BitDepth::Bpp8);
}

#[test]
fn scanline_ordering_numbers() {
    assert_eq!(ScanlineOrdering::from_value(0), ScanlineOrdering::Unspecified);
    assert_eq!(ScanlineOrdering::from_value(1), ScanlineOrdering::Progressive);
    assert_eq!(ScanlineOrdering::from_value(2), ScanlineOrdering::InterlacedUpperFieldFirst);
    assert_eq!(ScanlineOrdering::from_value(3), ScanlineOrdering::InterlacedLowerFieldFirst);
    assert_eq!(ScanlineOrdering::from_value(4), ScanlineOrdering::Unspecified);
    assert_eq!(ScanlineOrdering::from_value(-7), ScanlineOrdering::Unspecified);
    assert_eq!(ScanlineOrdering::InterlacedLowerFieldFirst.to_value(), 3);
    assert_eq!(ScanlineOrdering::Progressive.to_value(), 1);
    assert_eq!(ScanlineOrdering::default(), ScanlineOrdering::Progressive);
}

#[test]
fn connector_numbers() {
    assert_eq!(ConnectorType::from_value(0), ConnectorType::HD15);
    assert_eq!(ConnectorType::from_value(1), ConnectorType::SVIDEO);
    assert_eq!(ConnectorType::from_value(2), ConnectorType::CompositeVideo);
    assert_eq!(ConnectorType::from_value(3), ConnectorType::ComponentVideo);
    assert_eq!(ConnectorType::from_value(4), ConnectorType::DVI);
    assert_eq!(ConnectorType::from_value(5), ConnectorType::HDMI);
    assert_eq!(ConnectorType::from_value(6), ConnectorType::LVDS);
    assert_eq!(ConnectorType::from_value(7), ConnectorType::Other);
    assert_eq!(ConnectorType::from_value(8), ConnectorType::DJpn);
    assert_eq!(ConnectorType::from_value(9), ConnectorType::SDI);
    assert_eq!(ConnectorType::from_value(10), ConnectorType::DisplayPortExternal);
    assert_eq!(ConnectorType::from_value(11), ConnectorType::DisplayPortEmbedded);
    assert_eq!(ConnectorType::from_value(12), ConnectorType::UDIExternal);
    assert_eq!(ConnectorType::from_value(13), ConnectorType::UDIEmbedded);
    assert_eq!(ConnectorType::from_value(14), ConnectorType::SDTVDONGLE);
    assert_eq!(ConnectorType::from_value(15), ConnectorType::Miracast);
    assert_eq!(ConnectorType::from_value(16), ConnectorType::IndirectWired);
    assert_eq!(ConnectorType::from_value(17), ConnectorType::IndirectVirtual);
    assert_eq!(ConnectorType::from_value(-2147483648), ConnectorType::Internal);
    assert_eq!(ConnectorType::from_value(-1), ConnectorType::Other);
    assert_eq!(ConnectorType::from_value(18), ConnectorType::Other);
}
