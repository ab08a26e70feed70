use displayz::{
    platform_error, query_displays, BitDepth, ConnectorType, DeviceEnumeration, DeviceMode,
    DeviceRecord, DisplayError, DisplayProperties, DisplayPropertiesError, DisplaySettings,
    EnumerateOutcome, FixedOutput, Frequency, ModeInfo, Orientation, PathInfo, Position,
    Resolution, ScanlineOrdering, Scaling, SourceMode, TargetMode,
};
use displayz::properties::wide_text;

fn wide(text: &str, capacity: usize) -> Vec<u16> {
    let mut units: Vec<u16> = text.encode_utf16().collect();
    while units.len() < capacity {
        units.push(0);
    }
    units
}

fn record(name: &str, string: &str, key: &str, state_flags: u32) -> DeviceRecord {
    DeviceRecord {
        device_name: wide(name, 32),
        device_string: wide(string, 128),
        device_key: wide(key, 128),
        state_flags,
    }
}

fn mode(x: i32, y: i32) -> DeviceMode {
    DeviceMode {
        fields: 0,
        position: Position::new(x, y),
        orientation: 0,
        fixed_output: 0,
        width: 1920,
        height: 1080,
        frequency: 60,
    }
}

fn path(flags: u32, name: Option<&str>, source_mode: u32, target_mode: u32) -> PathInfo {
    PathInfo {
        flags,
        source_name: name.map(|n| n.to_string()),
        target_name: Some(format!("Panel of {}", name.unwrap_or("nobody"))),
        target_key: Some(format!("key of {}", name.unwrap_or("nobody"))),
        source_mode,
        target_mode,
        rotation: 2,
        scaling: 3,
        connector: 10,
        target_available: true,
    }
}

fn source(x: i32, y: i32) -> ModeInfo {
    ModeInfo::Source(SourceMode { position: Position::new(x, y), width: 2560, height: 1440, pixel_format: 2 })
}

fn target(numerator: u32, denominator: u32) -> ModeInfo {
    ModeInfo::Target(TargetMode {
        vsync_numerator: numerator,
        vsync_denominator: denominator,
        scanline_ordering: 2,
    })
}

#[test]
fn wide_texts_end_at_the_first_nul() {
    assert_eq!(wide_text(&wide("\\\\.\\DISPLAY1", 32)), "\\\\.\\DISPLAY1");
    assert_eq!(wide_text(&vec![0x48, 0x69, 0, 0x21, 0]), "Hi");
    assert_eq!(wide_text(&vec![0x48, 0x69]), "Hi");
    assert_eq!(wide_text(&vec![0, 0x48]), "");
    assert_eq!(wide_text(&Vec::new()), "");
    assert_eq!(wide_text(&vec![0x4D, 0xF6, 0x6E]), "Mön");
    assert_eq!(wide_text(&vec![0xD83D, 0xDDA5, 0]), "\u{1F5A5}");
    assert_eq!(wide_text(&vec![0x41, 0xD800, 0x42, 0]), "A\u{FFFD}B");
}

#[test]
fn display_of_an_active_device() {
    let d = DisplayProperties::from_windows(
        &record("\\\\.\\DISPLAY1", "Generic Monitor", "\\Registry\\Machine\\0001", 0x5),
        Some(mode(0, 0)),
    )
    .unwrap();
    assert_eq!(d.name, "\\\\.\\DISPLAY1");
    assert_eq!(d.string, "Generic Monitor");
    assert_eq!(d.key, "\\Registry\\Machine\\0001");
    assert!(d.active);
    assert!(d.primary);
    assert!(d.target_available);
    assert_eq!(d.connector_type, None);
    assert_eq!(
        d.settings,
        Some(DisplaySettings {
            position: Position::new(0, 0),
            resolution: Resolution::new(1920, 1080),
            orientation: Orientation::Landscape,
            scaling: Scaling::Identity,
            fixed_output: FixedOutput::Default,
            frequency: Frequency::new(60),
            bit_depth: BitDepth::Bpp8,
            scanline_ordering: ScanlineOrdering::Progressive,
        })
    );
    assert_eq!(
        d.to_string(),
        "Display { key: \\Registry\\Machine\\0001, name: \\\\.\\DISPLAY1, string: Generic Monitor, active: true, primary: true }"
    );
}

#[test]
fn display_of_an_inactive_device() {
    let d = DisplayProperties::from_windows(&record("D2", "Spare", "K2", 0x4), Some(mode(9, 9)))
        .unwrap();
    assert!(!d.active);
    assert!(d.primary);
    assert_eq!(d.settings, None);
    let d = DisplayProperties::from_windows(&record("D3", "Spare", "K3", 0x2), None).unwrap();
    assert!(!d.active);
    assert!(!d.primary);
    assert_eq!(d.settings, None);
}

#[test]
fn device_without_its_mode_is_no_display() {
    match DisplayProperties::from_windows(&record("D1", "M", "K", 0x1), None) {
        Err(DisplayPropertiesError::WinAPI(text)) => {
            assert_eq!(text, "EnumDisplaySettingsW failed for display D1")
        }
        other => panic!("unexpected {:?}", other),
    }
}

#[test]
fn device_with_an_unknown_mode_is_no_display() {
    let mut turned = mode(0, 0);
    turned.orientation = 7;
    turned.fixed_output = 9;
    match DisplayProperties::from_windows(&record("D1", "M", "K", 0x1), Some(turned)) {
        Err(DisplayPropertiesError::InvalidOrientation(text)) => assert_eq!(text, "7"),
        other => panic!("unexpected {:?}", other),
    }
    turned.orientation = 3;
    match DisplayProperties::from_device(
        "D1".to_string(),
        "M".to_string(),
        "K".to_string(),
        0x1,
        Some(turned),
    ) {
        Err(DisplayPropertiesError::InvalidFixedOutput(text)) => assert_eq!(text, "9"),
        other => panic!("unexpected {:?}", other),
    }
    turned.fixed_output = 2;
    let s = DisplaySettings::from_device_mode(&turned).unwrap();
    assert_eq!(s.orientation, Orientation::Portrait);
    assert_eq!(s.fixed_output, FixedOutput::Center);
    assert_eq!(s.to_device_mode().orientation, 3);
    assert_eq!(s.to_device_mode().fixed_output, 2);
}

#[test]
fn record_tells_name_and_state() {
    let r = record("\\\\.\\DISPLAY7", "M", "K", 0x8000_0001);
    assert!(r.is_active());
    assert_eq!(r.name(), "\\\\.\\DISPLAY7");
    assert!(!record("X", "M", "K", 0x4).is_active());
}

#[test]
fn devices_are_collected_until_the_end() {
    let mut e = DeviceEnumeration::new();
    assert_eq!(e.next_index(), Some(0));
    assert!(e
        .advance(EnumerateOutcome::Device(record("D1", "First", "K1", 0x1), Some(mode(-1920, 0))))
        .is_ok());
    assert_eq!(e.next_index(), Some(1));
    assert!(e
        .advance(EnumerateOutcome::Device(record("D2", "Second", "K2", 0x5), Some(mode(0, 0))))
        .is_ok());
    assert!(e.advance(EnumerateOutcome::Device(record("D3", "Third", "K3", 0x0), None)).is_ok());
    assert_eq!(e.next_index(), Some(3));
    assert!(e.advance(EnumerateOutcome::NoMoreDevices).is_ok());
    assert_eq!(e.next_index(), None);
    let set = e.finish();
    assert_eq!(set.len(), 3);
    assert_eq!(set.primary().unwrap().name(), "D2");
    assert!(set.get(1).unwrap().is_primary());
    assert!(!set.get(0).unwrap().is_primary());
    assert_eq!(set.get(0).unwrap().settings().unwrap().position, Position::new(-1920, 0));
    assert_eq!(set.get(2).unwrap().settings(), None);
    assert!(set.paths().is_empty());
    assert!(set.modes().is_empty());
}

#[test]
fn invalid_handle_ends_the_enumeration() {
    let mut e = DeviceEnumeration::new();
    assert!(e
        .advance(EnumerateOutcome::Device(record("D1", "First", "K1", 0x5), Some(mode(0, 0))))
        .is_ok());
    assert!(e.advance(EnumerateOutcome::Failed(6)).is_ok());
    assert_eq!(e.next_index(), None);
    let set = e.finish();
    assert_eq!(set.len(), 1);
    assert_eq!(set.primary().unwrap().name(), "D1");
    let mut empty = DeviceEnumeration::new();
    assert!(empty.advance(EnumerateOutcome::Failed(6)).is_ok());
    assert_eq!(empty.next_index(), None);
    assert_eq!(empty.finish().len(), 0);
}

#[test]
fn other_error_codes_fail_the_enumeration() {
    let mut e = DeviceEnumeration::new();
    assert!(e
        .advance(EnumerateOutcome::Device(record("D1", "First", "K1", 0x5), Some(mode(0, 0))))
        .is_ok());
    match e.advance(EnumerateOutcome::Failed(5)) {
        Err(DisplayError::WinAPI(text)) => {
            assert_eq!(text, "EnumDisplayDevices failed with error code 5")
        }
        other => panic!("unexpected {:?}", other),
    }
    assert_eq!(e.next_index(), Some(1));
    match e.advance(EnumerateOutcome::Device(record("D2", "Second", "K2", 0x1), None)) {
        Err(DisplayError::Properties(DisplayPropertiesError::WinAPI(text))) => {
            assert_eq!(text, "EnumDisplaySettingsW failed for display D2")
        }
        other => panic!("unexpected {:?}", other),
    }
    assert_eq!(e.next_index(), Some(1));
}

#[test]
fn answers_after_the_end_are_passed_over() {
    let mut e = DeviceEnumeration::new();
    assert!(e.advance(EnumerateOutcome::NoMoreDevices).is_ok());
    assert!(e
        .advance(EnumerateOutcome::Device(record("D1", "First", "K1", 0x5), Some(mode(0, 0))))
        .is_ok());
    assert!(e.advance(EnumerateOutcome::Failed(5)).is_ok());
    assert_eq!(e.finish().len(), 0);
}

#[test]
fn platform_error_names_call_and_code() {
    match platform_error("QueryDisplayConfig", 87) {
        DisplayError::WinAPI(text) => {
            assert_eq!(text, "QueryDisplayConfig failed with error code 87")
        }
        other => panic!("unexpected {:?}", other),
    }
}

#[test]
fn set_of_a_topology() {
    let set = query_displays(
        vec![path(1, Some("D1"), 0, 1), path(1, Some("D2"), 2, 3)],
        vec![source(1920, 0), target(59940, 1000), source(0, 0), target(144, 1)],
        2,
        4,
    )
    .unwrap();
    assert_eq!(set.len(), 2);
    let first = set.get(0).unwrap();
    assert_eq!(first.name(), "D1");
    assert_eq!(first.string(), "Panel of D1");
    assert_eq!(first.key(), "key of D1");
    assert!(first.is_active());
    assert!(first.target_available());
    assert!(!first.is_primary());
    assert_eq!(first.connector_type(), Some(ConnectorType::DisplayPortExternal));
    assert_eq!(
        first.settings(),
        Some(DisplaySettings {
            position: Position::new(1920, 0),
            resolution: Resolution::new(2560, 1440),
            orientation: Orientation::Portrait,
            scaling: Scaling::AspectRatioCenteredMax,
            fixed_output: FixedOutput::Default,
            frequency: Frequency::new(59),
            bit_depth: BitDepth::Bpp16,
            scanline_ordering: ScanlineOrdering::InterlacedUpperFieldFirst,
        })
    );
    let second = set.get(1).unwrap();
    assert!(second.is_primary());
    assert_eq!(second.settings().unwrap().frequency, Frequency::new(144));
    assert_eq!(set.primary().unwrap().name(), "D2");
    assert_eq!(set.paths().len(), 2);
    assert_eq!(set.modes().len(), 4);
}

#[test]
fn zero_denominator_gives_the_default_frequency() {
    let set = query_displays(
        vec![path(1, Some("D1"), 0, 1)],
        vec![source(0, 0), target(60000, 0)],
        1,
        2,
    )
    .unwrap();
    assert_eq!(set.get(0).unwrap().settings().unwrap().frequency, Frequency::new(60));
}

#[test]
fn arrays_are_cut_to_the_counts() {
    let set = query_displays(
        vec![path(1, Some("D1"), 0, 1), path(1, Some("D2"), 2, 3), path(1, None, 9, 9)],
        vec![source(0, 0), target(60, 1), source(5, 5), target(75, 1), ModeInfo::Other],
        2,
        4,
    )
    .unwrap();
    assert_eq!(set.len(), 2);
    assert_eq!(set.paths().len(), 2);
    assert_eq!(set.modes().len(), 4);
    let whole = query_displays(
        vec![path(1, Some("D1"), 0, 1)],
        vec![source(0, 0), target(60, 1)],
        10,
        10,
    )
    .unwrap();
    assert_eq!(whole.len(), 1);
    assert_eq!(whole.modes().len(), 2);
    let nothing = query_displays(
        vec![path(1, Some("D1"), 0, 1)],
        vec![source(0, 0), target(60, 1)],
        0,
        0,
    )
    .unwrap();
    assert_eq!(nothing.len(), 0);
    assert!(nothing.primary().is_none());
}

#[test]
fn paths_out_of_use_are_passed_over() {
    let set = query_displays(
        vec![path(0, None, 9, 9), path(3, Some("D2"), 0, 1), path(2, Some("D3"), 0, 1)],
        vec![source(0, 0), target(60, 1)],
        3,
        2,
    )
    .unwrap();
    assert_eq!(set.len(), 1);
    assert_eq!(set.get(0).unwrap().name(), "D2");
    assert_eq!(set.paths().len(), 3);
}

#[test]
fn inconsistent_answers_give_no_set() {
    match query_displays(vec![path(1, None, 0, 1)], vec![source(0, 0), target(60, 1)], 1, 2) {
        Err(DisplayError::WinAPI(text)) => {
            assert_eq!(text, "The source device name of an active path could not be resolved")
        }
        other => panic!("unexpected {:?}", other.map(|s| s.len())),
    }
    match query_displays(vec![path(1, Some("D"), 1, 1)], vec![source(0, 0), target(60, 1)], 1, 2) {
        Err(DisplayError::WinAPI(text)) => {
            assert_eq!(text, "An active path refers to no source mode")
        }
        other => panic!("unexpected {:?}", other.map(|s| s.len())),
    }
    match query_displays(vec![path(1, Some("D"), 0, 2)], vec![source(0, 0), target(60, 1)], 1, 2) {
        Err(DisplayError::WinAPI(text)) => {
            assert_eq!(text, "An active path refers to no target mode")
        }
        other => panic!("unexpected {:?}", other.map(|s| s.len())),
    }
    match query_displays(
        vec![path(1, Some("D"), 0, 1), path(1, Some("E"), 0, 1)],
        vec![source(0, 0), target(60, 1)],
        2,
        1,
    ) {
        Err(DisplayError::WinAPI(text)) => {
            assert_eq!(text, "An active path refers to no target mode")
        }
        other => panic!("unexpected {:?}", other.map(|s| s.len())),
    }
    assert!(DisplayProperties::from_display_config(
        &path(0, Some("D"), 0, 1),
        &vec![source(0, 0), target(60, 1)]
    )
    .is_ok());
}

#[test]
fn the_same_answer_gives_the_same_set() {
    let paths = vec![path(1, Some("D1"), 0, 1), path(0, None, 0, 0), path(1, Some("D2"), 2, 3)];
    let modes = vec![source(0, 0), target(60, 1), source(-2560, 0), target(50, 1)];
    let one = query_displays(paths.clone(), modes.clone(), 3, 4).unwrap();
    let two = query_displays(paths, modes, 3, 4).unwrap();
    assert_eq!(one.len(), two.len());
    for (a, b) in one.displays().iter().zip(two.displays().iter()) {
        assert_eq!(a.name(), b.name());
        assert_eq!(a.string(), b.string());
        assert_eq!(a.key(), b.key());
        assert_eq!(a.is_active(), b.is_active());
        assert_eq!(a.is_primary(), b.is_primary());
        assert_eq!(a.settings(), b.settings());
    }
    assert_eq!(one.to_string(), two.to_string());
}

#[test]
fn unresolved_target_names_are_empty() {
    let mut nameless = path(1, Some("D1"), 0, 1);
    nameless.target_name = None;
    nameless.target_key = None;
    let set = query_displays(vec![nameless], vec![source(0, 0), target(60, 1)], 1, 2).unwrap();
    let d = set.get(0).unwrap();
    assert_eq!(d.name(), "D1");
    assert_eq!(d.string(), "");
    assert_eq!(d.key(), "");
}

#[test]
fn a_set_with_an_active_display_has_a_primary() {
    let set = query_displays(
        vec![path(1, Some("D1"), 0, 1), path(1, Some("D2"), 2, 1)],
        vec![source(5, 5), target(60, 1), source(1925, 5)],
        2,
        3,
    )
    .unwrap();
    let primary = set.primary().unwrap();
    assert_eq!(primary.index(), 0);
    assert_eq!(primary.name(), "D1");
    assert!(primary.is_primary());
    assert!(primary.is_active());
    assert!(!set.get(1).unwrap().is_primary());
    assert_eq!(primary.settings().unwrap().position, Position::new(5, 5));

    let mut e = DeviceEnumeration::new();
    assert!(e.advance(EnumerateOutcome::Device(record("D1", "First", "K1", 0x0), None)).is_ok());
    assert!(e
        .advance(EnumerateOutcome::Device(record("D2", "Second", "K2", 0x1), Some(mode(7, 7))))
        .is_ok());
    assert!(e
        .advance(EnumerateOutcome::Device(record("D3", "Third", "K3", 0x1), Some(mode(9, 9))))
        .is_ok());
    assert!(e.advance(EnumerateOutcome::NoMoreDevices).is_ok());
    let set = e.finish();
    let primary = set.primary().unwrap();
    assert_eq!(primary.index(), 1);
    assert_eq!(primary.name(), "D2");
    assert!(primary.is_primary());
    assert!(!set.get(0).unwrap().is_primary());
    assert!(!set.get(2).unwrap().is_primary());
}

#[test]
fn a_set_without_active_displays_has_no_primary() {
    let mut e = DeviceEnumeration::new();
    assert!(e.advance(EnumerateOutcome::Device(record("D1", "First", "K1", 0x4), None)).is_ok());
    assert!(e.advance(EnumerateOutcome::NoMoreDevices).is_ok());
    let set = e.finish();
    assert_eq!(set.len(), 1);
    assert!(set.primary().is_none());
    assert!(!set.get(0).unwrap().is_primary());
}
