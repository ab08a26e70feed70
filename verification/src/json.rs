//! A display as a record of plain numbers and texts, in the shape in which
//! it is written out for other programs.

use vstd::prelude::*;
use crate::display::Display;
use crate::properties::{DisplayPropertiesView, DisplaySettings};

verus! {

/// The settings of a display, every choice written as its name.
#[derive(Debug, Clone)]
pub struct DisplaySettingsJson {
    pub position: PositionJson,
    pub resolution: ResolutionJson,
    pub frequency: u32,
    pub orientation: String,
    pub scaling: String,
    pub bit_depth: String,
    pub scanline_ordering: String,
}

/// A position as a record.
#[derive(Debug, Copy, Clone, PartialEq, Eq, Structural)]
pub struct PositionJson {
    pub x: i32,
    pub y: i32,
}

/// A resolution as a record.
#[derive(Debug, Copy, Clone, PartialEq, Eq, Structural)]
pub struct ResolutionJson {
    pub width: u32,
    pub height: u32,
}

/// A display as a record.
#[derive(Debug, Clone)]
pub struct DisplayInfoJson {
    /// The index of the display in its set.
    pub id: usize,
    /// The number under which the platform's own settings show the display:
    /// one more than the index.
    pub windows_display_number: usize,
    pub name: String,
    pub string: String,
    pub key: String,
    pub primary: bool,
    /// The name of the connector, where it is known.
    pub connector: Option<String>,
    pub available: bool,
    /// The settings, for an active display.
    pub settings: Option<DisplaySettingsJson>,
}

/// Whether a record tells these settings.
pub open spec fn tells_settings(json: DisplaySettingsJson, s: DisplaySettings) -> bool {
    &&& json.position == (PositionJson { x: s.position.x, y: s.position.y })
    &&& json.resolution == (ResolutionJson {
        width: s.resolution.width,
        height: s.resolution.height,
    })
    &&& json.frequency == s.frequency.0
    &&& json.orientation@ == s.orientation.label()
    &&& json.scaling@ == s.scaling.label()
    &&& json.bit_depth@ == s.bit_depth.label()
    &&& json.scanline_ordering@ == s.scanline_ordering.label()
}

/// Whether a record tells what a set holds of the display of index `index`,
/// which is primary if `primary` says so.
pub open spec fn tells_display(
    json: DisplayInfoJson,
    d: DisplayPropertiesView,
    index: int,
    primary: bool,
) -> bool {
    &&& json.id == index
    &&& json.windows_display_number == index + 1
    &&& json.name@ == d.name
    &&& json.string@ == d.string
    &&& json.key@ == d.key
    &&& json.primary == primary
    &&& match json.connector {
        Some(label) => d.connector_type matches Some(c) && label@ == c.label(),
        None => d.connector_type is None,
    }
    &&& json.available == d.target_available
    &&& match json.settings {
        Some(record) => d.settings matches Some(s) && tells_settings(record, s),
        None => d.settings is None,
    }
}

/// Writes staged settings as a record.
pub fn settings_to_json(settings: &DisplaySettings) -> (res: DisplaySettingsJson)
    ensures
        tells_settings(res, *settings),
{
    DisplaySettingsJson {
        position: PositionJson { x: settings.position.x, y: settings.position.y },
        resolution: ResolutionJson {
            width: settings.resolution.width,
            height: settings.resolution.height,
        },
        frequency: settings.frequency.0,
        orientation: settings.orientation.to_string(),
        scaling: settings.scaling.to_string(),
        bit_depth: settings.bit_depth.to_string(),
        scanline_ordering: settings.scanline_ordering.to_string(),
    }
}

/// Writes a display as a record. The display counts as primary if the
/// primary pointer of its set names it.
pub fn display_to_json(display: &Display) -> (res: DisplayInfoJson)
    ensures
        tells_display(
            res,
            display.properties(),
            display.position_in_set(),
            display.owner().primary == display.position_in_set(),
        ),
{
    let settings = match display.settings() {
        Some(s) => Some(settings_to_json(&s)),
        None => None,
    };
    let connector = match display.connector_type() {
        Some(c) => Some(c.to_string()),
        None => None,
    };
    let id = display.index();
    DisplayInfoJson {
        id,
        windows_display_number: id + 1,
        name: String::from_str(display.name()),
        string: String::from_str(display.string()),
        key: String::from_str(display.key()),
        primary: display.is_primary(),
        connector,
        available: display.target_available(),
        settings,
    }
}

} // verus!
