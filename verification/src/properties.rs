//! One display: its identity, its state and its staged settings, and the
//! records through which the per-device interface of the platform reports
//! and takes them.

use vstd::prelude::*;
use vstd::slice::slice_subrange;
use crate::decimal::{decimal, format_u32};
use crate::types::{
    BitDepth, ConnectorType, FixedOutput, Frequency, Orientation, Position, Resolution,
    ScanlineOrdering, Scaling,
};

verus! {

/// The state bit of a device record that marks a display as attached to the
/// desktop.
pub const DEVICE_ATTACHED_TO_DESKTOP: u32 = 0x0000_0001;

/// The state bit of a device record that marks the primary display.
pub const DEVICE_PRIMARY: u32 = 0x0000_0004;

/// Commit flag: write the settings to the persistent store.
pub const CDS_UPDATEREGISTRY: u32 = 0x0000_0001;

/// Commit flag: make the display the primary one.
pub const CDS_SET_PRIMARY: u32 = 0x0000_0010;

/// Commit flag: store the settings without switching the mode yet.
pub const CDS_NORESET: u32 = 0x1000_0000;

/// Commit flag: the settings hold for all users.
pub const CDS_GLOBAL: u32 = 0x0000_0008;

/// Field mask of a mode record: the position is set.
pub const DM_POSITION: u32 = 0x0000_0020;

/// Field mask of a mode record: the orientation is set.
pub const DM_DISPLAYORIENTATION: u32 = 0x0000_0080;

/// Field mask of a mode record: the fixed-output mode is set.
pub const DM_DISPLAYFIXEDOUTPUT: u32 = 0x2000_0000;

/// Field mask of a mode record: the width is set.
pub const DM_PELSWIDTH: u32 = 0x0008_0000;

/// Field mask of a mode record: the height is set.
pub const DM_PELSHEIGHT: u32 = 0x0010_0000;

/// Field mask of a mode record: the frequency is set.
pub const DM_DISPLAYFREQUENCY: u32 = 0x0040_0000;

/// What goes wrong with a single display.
#[derive(Debug, Clone)]
pub enum DisplayPropertiesError {
    /// The display of this name has no settings.
    NoSettings(String),
    /// A call to the platform failed; the text says which.
    WinAPI(String),
    /// The platform refused a commit with this status.
    ApplyFailed(i32),
    /// A mode record holds this number, which names no orientation.
    InvalidOrientation(String),
    /// A mode record holds this number, which names no fixed-output mode.
    InvalidFixedOutput(String),
}

/// A `DisplayPropertiesError` with its texts as sequences of characters.
pub enum PropertiesErrorView {
    NoSettings(Seq<char>),
    WinAPI(Seq<char>),
    ApplyFailed(i32),
    InvalidOrientation(Seq<char>),
    InvalidFixedOutput(Seq<char>),
}

impl View for DisplayPropertiesError {
    type V = PropertiesErrorView;

    open spec fn view(&self) -> PropertiesErrorView {
        match self {
            DisplayPropertiesError::NoSettings(s) => PropertiesErrorView::NoSettings(s@),
            DisplayPropertiesError::WinAPI(s) => PropertiesErrorView::WinAPI(s@),
            DisplayPropertiesError::ApplyFailed(c) => PropertiesErrorView::ApplyFailed(*c),
            DisplayPropertiesError::InvalidOrientation(s) => PropertiesErrorView::InvalidOrientation(
                s@,
            ),
            DisplayPropertiesError::InvalidFixedOutput(s) => PropertiesErrorView::InvalidFixedOutput(
                s@,
            ),
        }
    }
}

/// The staged settings of an active display.
#[derive(Debug, Copy, Clone, PartialEq, Eq, Structural, Hash)]
pub struct DisplaySettings {
    pub position: Position,
    pub resolution: Resolution,
    pub orientation: Orientation,
    pub scaling: Scaling,
    pub fixed_output: FixedOutput,
    pub frequency: Frequency,
    pub bit_depth: BitDepth,
    pub scanline_ordering: ScanlineOrdering,
}

/// The identity, state and settings of one display.
#[derive(Debug, Clone)]
pub struct DisplayProperties {
    /// The stable name by which the platform addresses the display.
    pub name: String,
    /// A description for people.
    pub string: String,
    /// The key under which the platform keeps the display's identity.
    pub key: String,
    /// Whether the display is attached to the desktop.
    pub active: bool,
    /// Whether the display is the origin of the desktop.
    pub primary: bool,
    /// The connector, where the platform tells it.
    pub connector_type: Option<ConnectorType>,
    /// Whether the display can be driven at the moment.
    pub target_available: bool,
    /// The staged settings; an inactive display has none.
    pub settings: Option<DisplaySettings>,
}

/// A `DisplayProperties` with its texts as sequences of characters.
pub struct DisplayPropertiesView {
    pub name: Seq<char>,
    pub string: Seq<char>,
    pub key: Seq<char>,
    pub active: bool,
    pub primary: bool,
    pub connector_type: Option<ConnectorType>,
    pub target_available: bool,
    pub settings: Option<DisplaySettings>,
}

impl View for DisplayProperties {
    type V = DisplayPropertiesView;

    open spec fn view(&self) -> DisplayPropertiesView {
        DisplayPropertiesView {
            name: self.name@,
            string: self.string@,
            key: self.key@,
            active: self.active,
            primary: self.primary,
            connector_type: self.connector_type,
            target_available: self.target_available,
            settings: self.settings,
        }
    }
}

/// A mode record of the per-device interface: the settings of one display
/// and a mask that says which of them are set.
#[derive(Debug, Copy, Clone, PartialEq, Eq, Structural)]
pub struct DeviceMode {
    /// The mask of the fields that are set.
    pub fields: u32,
    pub position: Position,
    /// The orientation, counted in quarter turns.
    pub orientation: u32,
    /// The number of the fixed-output mode.
    pub fixed_output: u32,
    pub width: u32,
    pub height: u32,
    pub frequency: u32,
}

/// A device record of the per-device interface: three NUL-terminated texts
/// in UTF-16 and the state bits.
#[derive(Debug, Clone)]
pub struct DeviceRecord {
    pub device_name: Vec<u16>,
    pub device_string: Vec<u16>,
    pub device_key: Vec<u16>,
    pub state_flags: u32,
}

/// One commit call of the per-device interface, ready to be issued.
#[derive(Debug, Clone)]
pub struct CommitRequest {
    /// The name of the display to change.
    pub name: String,
    /// The settings to store.
    pub mode: DeviceMode,
    /// The flags of the call.
    pub flags: u32,
}

/// The text that a run of UTF-16 code units stands for, each unpaired
/// surrogate read as the replacement character.
pub uninterp spec fn utf16_text(units: Seq<u16>) -> Seq<char>;

/// Calls `String::from_utf16_lossy`. The result is the text that the code
/// units stand for; nothing more is stated of it.
#[verifier::external_body]
fn from_utf16_lossy(units: &[u16]) -> (res: String)
    ensures
        res@ == utf16_text(units@),
{
    String::from_utf16_lossy(units)
}

/// The number of code units before the first NUL, or the length of the
/// buffer if it holds no NUL.
pub open spec fn nul_index(units: Seq<u16>) -> int
    decreases units.len(),
{
    if units.len() == 0 {
        0
    } else if units[0] == 0 {
        0
    } else {
        1 + nul_index(units.subrange(1, units.len() as int))
    }
}

/// The code units of a buffer up to its first NUL.
pub open spec fn nul_terminated(units: Seq<u16>) -> Seq<u16> {
    units.subrange(0, nul_index(units))
}

/// A place before which no unit is NUL, and which is the end of the buffer
/// or holds a NUL, is the `nul_index`.
pub proof fn lemma_nul_index_is(units: Seq<u16>, at: int)
    requires
        0 <= at <= units.len(),
        forall|k: int| 0 <= k < at ==> units[k] != 0,
        at < units.len() ==> units[at] == 0,
    ensures
        nul_index(units) == at,
    decreases units.len(),
{
    if at > 0 {
        let rest = units.subrange(1, units.len() as int);
        assert forall|k: int| 0 <= k < at - 1 implies rest[k] != 0 by {
            assert(rest[k] == units[k + 1]);
        }
        lemma_nul_index_is(rest, at - 1);
    }
}

/// Reads a NUL-terminated text in UTF-16 from a buffer: the units before the
/// first NUL, or the whole buffer if it holds none.
pub fn wide_text(units: &Vec<u16>) -> (res: String)
    ensures
        res@ == utf16_text(nul_terminated(units@)),
{
    let n = units.len();
    let mut i: usize = 0;
    while i < n && units[i] != 0
        invariant
            i <= n,
            n == units@.len(),
            forall|k: int| 0 <= k < i ==> units@[k] != 0,
        decreases n - i,
    {
        i = i + 1;
    }
    proof {
        lemma_nul_index_is(units@, i as int);
    }
    from_utf16_lossy(slice_subrange(units.as_slice(), 0, i))
}

impl Orientation {
    /// The orientation that a quarter-turn count of a mode record names, if
    /// any.
    pub open spec fn of_device_code(dmdo: u32) -> Option<Orientation> {
        if dmdo == 0 {
            Some(Orientation::Landscape)
        } else if dmdo == 1 {
            Some(Orientation::PortraitFlipped)
        } else if dmdo == 2 {
            Some(Orientation::LandscapeFlipped)
        } else if dmdo == 3 {
            Some(Orientation::Portrait)
        } else {
            None
        }
    }

    /// Reads the orientation of a mode record. A number above three is
    /// rejected, and the error carries it in decimal.
    pub fn from_windows(dmdo: u32) -> (res: Result<Orientation, DisplayPropertiesError>)
        ensures
            match res {
                Ok(o) => Orientation::of_device_code(dmdo) == Some(o),
                Err(e) => Orientation::of_device_code(dmdo) is None && e@
                    == PropertiesErrorView::InvalidOrientation(decimal(dmdo as nat)),
            },
    {
        match dmdo {
            0 => Ok(Orientation::Landscape),
            1 => Ok(Orientation::PortraitFlipped),
            2 => Ok(Orientation::LandscapeFlipped),
            3 => Ok(Orientation::Portrait),
            _ => Err(DisplayPropertiesError::InvalidOrientation(format_u32(dmdo))),
        }
    }

    /// The quarter-turn count of this orientation in a mode record.
    pub fn to_windows(self) -> (res: u32)
        ensures
            res == self.device_code(),
            Orientation::of_device_code(res) == Some(self),
    {
        match self {
            Orientation::Landscape => 0,
            Orientation::PortraitFlipped => 1,
            Orientation::LandscapeFlipped => 2,
            Orientation::Portrait => 3,
        }
    }
}

impl FixedOutput {
    /// The fixed-output mode that a number of a mode record names, if any.
    pub open spec fn of_device_code(dmdfo: u32) -> Option<FixedOutput> {
        if dmdfo == 0 {
            Some(FixedOutput::Default)
        } else if dmdfo == 1 {
            Some(FixedOutput::Stretch)
        } else if dmdfo == 2 {
            Some(FixedOutput::Center)
        } else {
            None
        }
    }

    /// Reads the fixed-output mode of a mode record. A number above two is
    /// rejected, and the error carries it in decimal.
    pub fn from_windows(dmdfo: u32) -> (res: Result<FixedOutput, DisplayPropertiesError>)
        ensures
            match res {
                Ok(f) => FixedOutput::of_device_code(dmdfo) == Some(f),
                Err(e) => FixedOutput::of_device_code(dmdfo) is None && e@
                    == PropertiesErrorView::InvalidFixedOutput(decimal(dmdfo as nat)),
            },
    {
        match dmdfo {
            0 => Ok(FixedOutput::Default),
            1 => Ok(FixedOutput::Stretch),
            2 => Ok(FixedOutput::Center),
            _ => Err(DisplayPropertiesError::InvalidFixedOutput(format_u32(dmdfo))),
        }
    }

    /// The number of this mode in a mode record.
    pub fn to_windows(self) -> (res: u32)
        ensures
            res == self.device_code(),
            FixedOutput::of_device_code(res) == Some(self),
    {
        match self {
            FixedOutput::Default => 0,
            FixedOutput::Stretch => 1,
            FixedOutput::Center => 2,
        }
    }
}

impl DeviceMode {
    /// The mask of a mode record in which all five settings are set.
    pub open spec fn all_fields() -> u32 {
        0x2058_00A0
    }

    /// A mode record with nothing set.
    pub fn new() -> (res: DeviceMode)
        ensures
            res == (DeviceMode {
                fields: 0,
                position: Position::origin(),
                orientation: 0,
                fixed_output: 0,
                width: 0,
                height: 0,
                frequency: 0,
            }),
    {
        DeviceMode {
            fields: 0,
            position: Position { x: 0, y: 0 },
            orientation: 0,
            fixed_output: 0,
            width: 0,
            height: 0,
            frequency: 0,
        }
    }

    /// Stores a position and marks it as set.
    pub fn set_position(&mut self, position: Position)
        ensures
            *final(self) == (DeviceMode {
                position,
                fields: old(self).fields | DM_POSITION,
                ..*old(self)
            }),
    {
        self.position = position;
        self.fields = self.fields | DM_POSITION;
    }

    /// Stores an orientation and marks it as set.
    pub fn set_orientation(&mut self, orientation: Orientation)
        ensures
            *final(self) == (DeviceMode {
                orientation: orientation.device_code(),
                fields: old(self).fields | DM_DISPLAYORIENTATION,
                ..*old(self)
            }),
    {
        self.orientation = orientation.to_windows();
        self.fields = self.fields | DM_DISPLAYORIENTATION;
    }

    /// Stores a fixed-output mode and marks it as set.
    pub fn set_fixed_output(&mut self, fixed_output: FixedOutput)
        ensures
            *final(self) == (DeviceMode {
                fixed_output: fixed_output.device_code(),
                fields: old(self).fields | DM_DISPLAYFIXEDOUTPUT,
                ..*old(self)
            }),
    {
        self.fixed_output = fixed_output.to_windows();
        self.fields = self.fields | DM_DISPLAYFIXEDOUTPUT;
    }

    /// Stores a resolution and marks width and height as set.
    pub fn set_resolution(&mut self, resolution: Resolution)
        ensures
            *final(self) == (DeviceMode {
                width: resolution.width,
                height: resolution.height,
                fields: old(self).fields | (DM_PELSWIDTH | DM_PELSHEIGHT),
                ..*old(self)
            }),
    {
        self.width = resolution.width;
        self.height = resolution.height;
        self.fields = self.fields | (DM_PELSWIDTH | DM_PELSHEIGHT);
    }

    /// Stores a frequency and marks it as set.
    pub fn set_frequency(&mut self, frequency: Frequency)
        ensures
            *final(self) == (DeviceMode {
                frequency: frequency.0,
                fields: old(self).fields | DM_DISPLAYFREQUENCY,
                ..*old(self)
            }),
    {
        self.frequency = frequency.0;
        self.fields = self.fields | DM_DISPLAYFREQUENCY;
    }

    /// The mode record that asks for exactly these settings.
    pub open spec fn of_settings(
        position: Position,
        orientation: Orientation,
        fixed_output: FixedOutput,
        resolution: Resolution,
        frequency: Frequency,
    ) -> DeviceMode {
        DeviceMode {
            fields: DeviceMode::all_fields(),
            position,
            orientation: orientation.device_code(),
            fixed_output: fixed_output.device_code(),
            width: resolution.width,
            height: resolution.height,
            frequency: frequency.0,
        }
    }

    /// Builds the mode record that asks for these settings, all five marked
    /// as set.
    pub fn from_display_settings(
        position: Position,
        orientation: Orientation,
        fixed_output: FixedOutput,
        resolution: Resolution,
        frequency: Frequency,
    ) -> (res: DeviceMode)
        ensures
            res == DeviceMode::of_settings(
                position,
                orientation,
                fixed_output,
                resolution,
                frequency,
            ),
    {
        let mut mode = DeviceMode::new();
        mode.set_position(position);
        mode.set_orientation(orientation);
        mode.set_fixed_output(fixed_output);
        mode.set_resolution(resolution);
        mode.set_frequency(frequency);
        assert(((((0u32 | 0x20u32) | 0x80u32) | 0x2000_0000u32) | (0x8_0000u32 | 0x10_0000u32))
            | 0x40_0000u32 == 0x2058_00A0u32) by (bit_vector);
        mode
    }
}

impl DisplaySettings {
    /// The settings that a mode record reports, if its orientation and
    /// fixed-output numbers are known. What a mode record does not tell is
    /// filled in: identity scaling, progressive scanlines and the least bit
    /// depth.
    pub open spec fn of_device_mode(mode: DeviceMode) -> Option<DisplaySettings> {
        if Orientation::of_device_code(mode.orientation) is Some && FixedOutput::of_device_code(
            mode.fixed_output,
        ) is Some {
            Some(
                DisplaySettings {
                    position: mode.position,
                    resolution: Resolution { width: mode.width, height: mode.height },
                    orientation: Orientation::of_device_code(mode.orientation).unwrap(),
                    scaling: Scaling::Identity,
                    fixed_output: FixedOutput::of_device_code(mode.fixed_output).unwrap(),
                    frequency: Frequency(mode.frequency),
                    bit_depth: BitDepth::Bpp8,
                    scanline_ordering: ScanlineOrdering::Progressive,
                },
            )
        } else {
            None
        }
    }

    /// The error with which a mode record is rejected: an unknown orientation
    /// is reported before an unknown fixed-output mode.
    pub open spec fn device_mode_error(mode: DeviceMode) -> PropertiesErrorView {
        if Orientation::of_device_code(mode.orientation) is None {
            PropertiesErrorView::InvalidOrientation(decimal(mode.orientation as nat))
        } else {
            PropertiesErrorView::InvalidFixedOutput(decimal(mode.fixed_output as nat))
        }
    }

    /// Reads the settings that a mode record reports.
    pub fn from_device_mode(mode: &DeviceMode) -> (res: Result<
        DisplaySettings,
        DisplayPropertiesError,
    >)
        ensures
            match res {
                Ok(s) => DisplaySettings::of_device_mode(*mode) == Some(s),
                Err(e) => DisplaySettings::of_device_mode(*mode) is None && e@
                    == DisplaySettings::device_mode_error(*mode),
            },
    {
        let orientation = match Orientation::from_windows(mode.orientation) {
            Ok(o) => o,
            Err(e) => {
                return Err(e);
            },
        };
        let fixed_output = match FixedOutput::from_windows(mode.fixed_output) {
            Ok(f) => f,
            Err(e) => {
                return Err(e);
            },
        };
        Ok(
            DisplaySettings {
                position: mode.position,
                resolution: Resolution { width: mode.width, height: mode.height },
                orientation,
                scaling: Scaling::Identity,
                fixed_output,
                frequency: Frequency(mode.frequency),
                bit_depth: BitDepth::Bpp8,
                scanline_ordering: ScanlineOrdering::Progressive,
            },
        )
    }

    /// The mode record that asks for these settings.
    pub fn to_device_mode(&self) -> (res: DeviceMode)
        ensures
            res == DeviceMode::of_settings(
                self.position,
                self.orientation,
                self.fixed_output,
                self.resolution,
                self.frequency,
            ),
    {
        DeviceMode::from_display_settings(
            self.position,
            self.orientation,
            self.fixed_output,
            self.resolution,
            self.frequency,
        )
    }

    /// Stages a new position.
    pub fn set_position(&mut self, position: Position)
        ensures
            *final(self) == (DisplaySettings { position, ..*old(self) }),
    {
        self.position = position;
    }

    /// Stages a new resolution.
    pub fn set_resolution(&mut self, resolution: Resolution)
        ensures
            *final(self) == (DisplaySettings { resolution, ..*old(self) }),
    {
        self.resolution = resolution;
    }

    /// Stages a new orientation.
    pub fn set_orientation(&mut self, orientation: Orientation)
        ensures
            *final(self) == (DisplaySettings { orientation, ..*old(self) }),
    {
        self.orientation = orientation;
    }

    /// Stages a new refresh frequency.
    pub fn set_frequency(&mut self, frequency: Frequency)
        ensures
            *final(self) == (DisplaySettings { frequency, ..*old(self) }),
    {
        self.frequency = frequency;
    }

    /// Stages a new scaling mode.
    pub fn set_scaling(&mut self, scaling: Scaling)
        ensures
            *final(self) == (DisplaySettings { scaling, ..*old(self) }),
    {
        self.scaling = scaling;
    }

    /// These settings with each given value in place of the old one.
    pub open spec fn with_properties(
        self,
        position: Option<Position>,
        resolution: Option<Resolution>,
        frequency: Option<Frequency>,
        orientation: Option<Orientation>,
    ) -> DisplaySettings {
        DisplaySettings {
            position: if position is Some {
                position.unwrap()
            } else {
                self.position
            },
            resolution: if resolution is Some {
                resolution.unwrap()
            } else {
                self.resolution
            },
            frequency: if frequency is Some {
                frequency.unwrap()
            } else {
                self.frequency
            },
            orientation: if orientation is Some {
                orientation.unwrap()
            } else {
                self.orientation
            },
            ..self
        }
    }

    /// Stages each property that is given, and leaves the others as they
    /// are.
    pub fn set_properties(
        &mut self,
        position: Option<Position>,
        resolution: Option<Resolution>,
        frequency: Option<Frequency>,
        orientation: Option<Orientation>,
    )
        ensures
            *final(self) == old(self).with_properties(
                position,
                resolution,
                frequency,
                orientation,
            ),
    {
        if let Some(value) = position {
            self.position = value;
        }
        if let Some(value) = resolution {
            self.resolution = value;
        }
        if let Some(value) = frequency {
            self.frequency = value;
        }
        if let Some(value) = orientation {
            self.orientation = value;
        }
    }
}

/// Whether the state bits of a device record say that the display is
/// attached to the desktop.
pub open spec fn is_attached(state_flags: u32) -> bool {
    state_flags & DEVICE_ATTACHED_TO_DESKTOP != 0
}

/// Whether the state bits of a device record say that the display is the
/// primary one.
pub open spec fn is_primary_device(state_flags: u32) -> bool {
    state_flags & DEVICE_PRIMARY != 0
}

/// The flags of the commit call for one display: store persistently, for all
/// users, without switching the mode yet, and for the primary display the
/// request to make it primary.
pub open spec fn commit_flags(primary: bool) -> u32 {
    if primary {
        0x1000_0019
    } else {
        0x1000_0009
    }
}

/// Whether `res` is what the preparation of a display's commit call gives:
/// for a display with settings the call with the display's name, the mode
/// record of its settings and the flags for its rank; for one without, the
/// error that names it.
pub open spec fn commit_prepared(
    d: DisplayPropertiesView,
    res: Result<CommitRequest, DisplayPropertiesError>,
) -> bool {
    match res {
        Ok(request) => d.settings matches Some(s) && request.name@ == d.name && request.mode
            == DeviceMode::of_settings(
            s.position,
            s.orientation,
            s.fixed_output,
            s.resolution,
            s.frequency,
        ) && request.flags == commit_flags(d.primary),
        Err(e) => d.settings is None && e@ == PropertiesErrorView::NoSettings(d.name),
    }
}

/// The text of the error for a display whose current mode could not be
/// fetched.
pub open spec fn fetch_failed_text(name: Seq<char>) -> Seq<char> {
    "EnumDisplaySettingsW failed for display "@ + name
}

/// The display that a device record describes. `fetched` is the current mode
/// of the device, or `None` if it was not fetched or could not be.
///
/// An inactive device has no settings, whatever was fetched. An active one
/// needs its mode: without it, or with a mode that holds an unknown
/// orientation or fixed-output number, there is no display.
pub open spec fn device_properties(
    name: Seq<char>,
    string: Seq<char>,
    key: Seq<char>,
    state_flags: u32,
    fetched: Option<DeviceMode>,
) -> Result<DisplayPropertiesView, PropertiesErrorView> {
    let active = is_attached(state_flags);
    let settings = if active && fetched is Some {
        DisplaySettings::of_device_mode(fetched.unwrap())
    } else {
        None
    };
    if active && fetched is None {
        Err(PropertiesErrorView::WinAPI(fetch_failed_text(name)))
    } else if active && settings is None {
        Err(DisplaySettings::device_mode_error(fetched.unwrap()))
    } else {
        Ok(
            DisplayPropertiesView {
                name,
                string,
                key,
                active,
                primary: is_primary_device(state_flags),
                connector_type: None,
                target_available: active,
                settings,
            },
        )
    }
}

/// The text that describes a display in one line.
pub open spec fn properties_text(d: DisplayPropertiesView) -> Seq<char> {
    "Display { key: "@ + d.key + ", name: "@ + d.name + ", string: "@ + d.string + ", active: "@
        + bool_text(d.active) + ", primary: "@ + bool_text(d.primary) + " }"@
}

/// `true` or `false` in words.
pub open spec fn bool_text(b: bool) -> Seq<char> {
    if b {
        "true"@
    } else {
        "false"@
    }
}

impl DeviceRecord {
    /// Whether the device is attached to the desktop.
    pub fn is_active(&self) -> (res: bool)
        ensures
            res == is_attached(self.state_flags),
    {
        self.state_flags & DEVICE_ATTACHED_TO_DESKTOP != 0
    }

    /// The name of the device, by which its current mode is fetched.
    pub fn name(&self) -> (res: String)
        ensures
            res@ == utf16_text(nul_terminated(self.device_name@)),
    {
        wide_text(&self.device_name)
    }
}

impl DisplayProperties {
    /// Builds the display that a device with these texts and state bits
    /// stands for. `fetched` is the current mode of the device.
    pub fn from_device(
        name: String,
        string: String,
        key: String,
        state_flags: u32,
        fetched: Option<DeviceMode>,
    ) -> (res: Result<DisplayProperties, DisplayPropertiesError>)
        ensures
            match res {
                Ok(d) => device_properties(name@, string@, key@, state_flags, fetched) == Ok::<
                    DisplayPropertiesView,
                    PropertiesErrorView,
                >(d@),
                Err(e) => device_properties(name@, string@, key@, state_flags, fetched) == Err::<
                    DisplayPropertiesView,
                    PropertiesErrorView,
                >(e@),
            },
    {
        let active = state_flags & DEVICE_ATTACHED_TO_DESKTOP != 0;
        let primary = state_flags & DEVICE_PRIMARY != 0;
        let settings = if active {
            match fetched {
                None => {
                    let mut text = String::from_str("EnumDisplaySettingsW failed for display ");
                    text.append(name.as_str());
                    return Err(DisplayPropertiesError::WinAPI(text));
                },
                Some(mode) => match DisplaySettings::from_device_mode(&mode) {
                    Ok(s) => Some(s),
                    Err(e) => {
                        return Err(e);
                    },
                },
            }
        } else {
            None
        };
        Ok(
            DisplayProperties {
                name,
                string,
                key,
                active,
                primary,
                connector_type: None,
                target_available: active,
                settings,
            },
        )
    }

    /// Builds the display that a device record describes: its three texts
    /// are read up to their first NUL, and the rest is as in `from_device`.
    pub fn from_windows(device: &DeviceRecord, fetched: Option<DeviceMode>) -> (res: Result<
        DisplayProperties,
        DisplayPropertiesError,
    >)
        ensures
            match res {
                Ok(d) => device_properties(
                    utf16_text(nul_terminated(device.device_name@)),
                    utf16_text(nul_terminated(device.device_string@)),
                    utf16_text(nul_terminated(device.device_key@)),
                    device.state_flags,
                    fetched,
                ) == Ok::<DisplayPropertiesView, PropertiesErrorView>(d@),
                Err(e) => device_properties(
                    utf16_text(nul_terminated(device.device_name@)),
                    utf16_text(nul_terminated(device.device_string@)),
                    utf16_text(nul_terminated(device.device_key@)),
                    device.state_flags,
                    fetched,
                ) == Err::<DisplayPropertiesView, PropertiesErrorView>(e@),
            },
    {
        let name = wide_text(&device.device_name);
        let string = wide_text(&device.device_string);
        let key = wide_text(&device.device_key);
        DisplayProperties::from_device(name, string, key, device.state_flags, fetched)
    }

    /// Prepares the commit call that stores this display's staged settings.
    /// A display without settings cannot be committed.
    pub fn apply(&self) -> (res: Result<CommitRequest, DisplayPropertiesError>)
        ensures
            commit_prepared(self@, res),
    {
        match &self.settings {
            None => Err(DisplayPropertiesError::NoSettings(self.name.clone())),
            Some(settings) => {
                let mut flags: u32 = CDS_UPDATEREGISTRY | CDS_NORESET | CDS_GLOBAL;
                assert(0x1u32 | 0x1000_0000u32 | 0x8u32 == 0x1000_0009u32) by (bit_vector);
                if self.primary {
                    flags = flags | CDS_SET_PRIMARY;
                    assert(0x1000_0009u32 | 0x10u32 == 0x1000_0019u32) by (bit_vector);
                }
                Ok(CommitRequest { name: self.name.clone(), mode: settings.to_device_mode(), flags })
            },
        }
    }

    /// Reads the status with which the platform answered a commit call:
    /// zero is success, everything else a failure that carries the status.
    pub fn commit_result(status: i32) -> (res: Result<(), DisplayPropertiesError>)
        ensures
            match res {
                Ok(_) => status == 0,
                Err(e) => status != 0 && e@ == PropertiesErrorView::ApplyFailed(status),
            },
    {
        if status == 0 {
            Ok(())
        } else {
            Err(DisplayPropertiesError::ApplyFailed(status))
        }
    }

    /// Describes the display in one line.
    pub fn to_string(&self) -> (res: String)
        ensures
            res@ == properties_text(self@),
    {
        let mut out = String::from_str("Display { key: ");
        out.append(self.key.as_str());
        out.append(", name: ");
        out.append(self.name.as_str());
        out.append(", string: ");
        out.append(self.string.as_str());
        out.append(", active: ");
        out.append(
            if self.active {
                "true"
            } else {
                "false"
            },
        );
        out.append(", primary: ");
        out.append(
            if self.primary {
                "true"
            } else {
                "false"
            },
        );
        out.append(" }");
        assert(out@ =~= properties_text(self@));
        out
    }
}

} // verus!
