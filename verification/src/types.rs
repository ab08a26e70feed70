//! Plain value types of a display's settings: position, resolution, refresh
//! frequency, orientation, scaling, bit depth, scanline ordering and connector.
//!
//! Every conversion from a platform number is total: a number that names no
//! variant maps to a documented fallback, or is rejected with a typed error.

use vstd::prelude::*;

verus! {

/// The position of a display's top-left corner in desktop coordinates.
#[derive(Debug, Copy, Clone, PartialEq, Eq, Structural, Hash)]
pub struct Position {
    pub x: i32,
    pub y: i32,
}

impl Position {
    /// Creates the position `(x, y)`.
    pub fn new(x: i32, y: i32) -> (res: Self)
        ensures
            res.x == x,
            res.y == y,
    {
        Self { x, y }
    }

    /// The origin of the desktop, where the primary display sits.
    pub open spec fn origin() -> Position {
        Position { x: 0, y: 0 }
    }

    /// Whether this position is the origin.
    pub fn is_origin(&self) -> (res: bool)
        ensures
            res == (*self == Position::origin()),
    {
        self.x == 0 && self.y == 0
    }

    /// Component-wise sum, wrapping around at the bounds of `i32`.
    pub open spec fn plus(self, other: Position) -> Position {
        Position { x: self.x.wrapping_add(other.x), y: self.y.wrapping_add(other.y) }
    }

    /// Component-wise difference, wrapping around at the bounds of `i32`.
    pub open spec fn minus(self, other: Position) -> Position {
        Position { x: self.x.wrapping_sub(other.x), y: self.y.wrapping_sub(other.y) }
    }

    /// The position mirrored through the origin, wrapping around at the bounds
    /// of `i32`.
    pub open spec fn negated(self) -> Position {
        Position::origin().minus(self)
    }

    /// Adds `other` to this position, component by component. Each component
    /// wraps around, so the positions form a group under this operation.
    pub fn add(self, other: Self) -> (res: Self)
        ensures
            res == self.plus(other),
    {
        Self { x: self.x.wrapping_add(other.x), y: self.y.wrapping_add(other.y) }
    }

    /// Subtracts `other` from this position, component by component, wrapping
    /// around as `add` does.
    pub fn sub(self, other: Self) -> (res: Self)
        ensures
            res == self.minus(other),
    {
        Self { x: self.x.wrapping_sub(other.x), y: self.y.wrapping_sub(other.y) }
    }

    /// Mirrors this position through the origin.
    pub fn neg(self) -> (res: Self)
        ensures
            res == self.negated(),
    {
        let zero: i32 = 0;
        Self { x: zero.wrapping_sub(self.x), y: zero.wrapping_sub(self.y) }
    }
}

impl Default for Position {
    fn default() -> (res: Self)
        ensures
            res == Position::origin(),
    {
        Position { x: 0, y: 0 }
    }
}

/// The resolution of a display, in pixels.
#[derive(Debug, Copy, Clone, PartialEq, Eq, Structural, PartialOrd, Ord, Hash)]
pub struct Resolution {
    pub width: u32,
    pub height: u32,
}

impl Resolution {
    /// Creates a resolution of `width` by `height` pixels.
    pub fn new(width: u32, height: u32) -> (res: Self)
        ensures
            res.width == width,
            res.height == height,
    {
        Self { width, height }
    }
}

/// A list of resolutions, such as those that a display supports.
#[derive(Debug, Clone)]
pub struct Resolutions(pub Vec<Resolution>);

/// The refresh frequency of a display, in Hz.
#[derive(Debug, Copy, Clone, PartialEq, Eq, Structural, Hash)]
pub struct Frequency(pub u32);

impl Frequency {
    /// Creates a frequency of `v` Hz.
    pub fn new(v: u32) -> (res: Self)
        ensures
            res.0 == v,
    {
        Self(v)
    }
}

impl Default for Frequency {
    fn default() -> (res: Self)
        ensures
            res.0 == 0,
    {
        Frequency(0)
    }
}

/// The rotation of a display.
#[derive(Debug, Copy, Clone, PartialEq, Eq, Structural, Hash)]
pub enum Orientation {
    Landscape,
    Portrait,
    LandscapeFlipped,
    PortraitFlipped,
}

impl Orientation {
    /// The orientation that a rotation number of the topology description
    /// names: 1 to 4 name the four orientations, anything else is landscape.
    pub open spec fn of_rotation(rotation: u32) -> Orientation {
        if rotation == 2 {
            Orientation::Portrait
        } else if rotation == 3 {
            Orientation::LandscapeFlipped
        } else if rotation == 4 {
            Orientation::PortraitFlipped
        } else {
            Orientation::Landscape
        }
    }

    /// The rotation number of this orientation in the topology description.
    pub open spec fn rotation(self) -> u32 {
        match self {
            Orientation::Landscape => 1,
            Orientation::Portrait => 2,
            Orientation::LandscapeFlipped => 3,
            Orientation::PortraitFlipped => 4,
        }
    }

    /// The number of this orientation in a per-device mode record, counting
    /// quarter turns.
    pub open spec fn device_code(self) -> u32 {
        match self {
            Orientation::Landscape => 0,
            Orientation::PortraitFlipped => 1,
            Orientation::LandscapeFlipped => 2,
            Orientation::Portrait => 3,
        }
    }

    /// Reads a rotation number of the topology description. An unknown number
    /// falls back to landscape.
    pub fn from_rotation(rotation: u32) -> (res: Self)
        ensures
            res == Orientation::of_rotation(rotation),
    {
        match rotation {
            1 => Orientation::Landscape,
            2 => Orientation::Portrait,
            3 => Orientation::LandscapeFlipped,
            4 => Orientation::PortraitFlipped,
            _ => Orientation::Landscape,
        }
    }

    /// The rotation number of the topology description.
    pub fn to_rotation(&self) -> (res: u32)
        ensures
            res == self.rotation(),
            1 <= res <= 4,
            Orientation::of_rotation(res) == *self,
    {
        match self {
            Orientation::Landscape => 1,
            Orientation::Portrait => 2,
            Orientation::LandscapeFlipped => 3,
            Orientation::PortraitFlipped => 4,
        }
    }
}

impl Default for Orientation {
    fn default() -> (res: Self)
        ensures
            res == Orientation::Landscape,
    {
        Orientation::Landscape
    }
}

/// How the image is fitted to a display whose native resolution differs.
#[derive(Debug, Copy, Clone, PartialEq, Eq, Structural, Hash)]
pub enum Scaling {
    Identity,
    Centered,
    Stretched,
    AspectRatioCenteredMax,
    Custom,
    Preferred,
}

impl Scaling {
    /// The scaling mode that a platform number names; an unknown number is
    /// the identity.
    pub open spec fn of_value(value: i32) -> Scaling {
        if value == 1 {
            Scaling::Centered
        } else if value == 2 {
            Scaling::Stretched
        } else if value == 3 {
            Scaling::AspectRatioCenteredMax
        } else if value == 4 {
            Scaling::Custom
        } else if value == 128 {
            Scaling::Preferred
        } else {
            Scaling::Identity
        }
    }

    /// The platform number of this scaling mode.
    pub open spec fn value(self) -> i32 {
        match self {
            Scaling::Identity => 0,
            Scaling::Centered => 1,
            Scaling::Stretched => 2,
            Scaling::AspectRatioCenteredMax => 3,
            Scaling::Custom => 4,
            Scaling::Preferred => 128,
        }
    }

    /// Reads a platform scaling number. An unknown number falls back to the
    /// identity.
    pub fn from_value(value: i32) -> (res: Self)
        ensures
            res == Scaling::of_value(value),
    {
        match value {
            0 => Scaling::Identity,
            1 => Scaling::Centered,
            2 => Scaling::Stretched,
            3 => Scaling::AspectRatioCenteredMax,
            4 => Scaling::Custom,
            128 => Scaling::Preferred,
            _ => Scaling::Identity,
        }
    }

    /// The platform number of this scaling mode.
    pub fn to_value(&self) -> (res: i32)
        ensures
            res == self.value(),
            Scaling::of_value(res) == *self,
    {
        match self {
            Scaling::Identity => 0,
            Scaling::Centered => 1,
            Scaling::Stretched => 2,
            Scaling::AspectRatioCenteredMax => 3,
            Scaling::Custom => 4,
            Scaling::Preferred => 128,
        }
    }
}

impl Default for Scaling {
    fn default() -> (res: Self)
        ensures
            res == Scaling::Identity,
    {
        Scaling::Identity
    }
}

/// The colour depth of a display, in bits per pixel.
#[derive(Debug, Copy, Clone, PartialEq, Eq, Structural, Hash)]
pub enum BitDepth {
    Bpp8,
    Bpp16,
    Bpp32,
}

impl BitDepth {
    /// The bit depth that a pixel-format number names; an unknown number is
    /// 32 bits per pixel.
    pub open spec fn of_pixel_format(format: i32) -> BitDepth {
        if format == 1 {
            BitDepth::Bpp8
        } else if format == 2 {
            BitDepth::Bpp16
        } else {
            BitDepth::Bpp32
        }
    }

    /// The pixel-format number of this bit depth.
    pub open spec fn pixel_format(self) -> i32 {
        match self {
            BitDepth::Bpp8 => 1,
            BitDepth::Bpp16 => 2,
            BitDepth::Bpp32 => 3,
        }
    }

    /// The number of bits per pixel.
    pub open spec fn bits(self) -> u32 {
        match self {
            BitDepth::Bpp8 => 8,
            BitDepth::Bpp16 => 16,
            BitDepth::Bpp32 => 32,
        }
    }

    /// Reads a pixel-format number. An unknown number falls back to 32 bits
    /// per pixel.
    pub fn from_pixel_format(format: i32) -> (res: Self)
        ensures
            res == BitDepth::of_pixel_format(format),
    {
        match format {
            1 => BitDepth::Bpp8,
            2 => BitDepth::Bpp16,
            3 => BitDepth::Bpp32,
            _ => BitDepth::Bpp32,
        }
    }

    /// The pixel-format number of this bit depth.
    pub fn to_pixel_format(&self) -> (res: i32)
        ensures
            res == self.pixel_format(),
            BitDepth::of_pixel_format(res) == *self,
    {
        match self {
            BitDepth::Bpp8 => 1,
            BitDepth::Bpp16 => 2,
            BitDepth::Bpp32 => 3,
        }
    }

    /// The number of bits per pixel.
    pub fn to_bits(&self) -> (res: u32)
        ensures
            res == self.bits(),
    {
        match self {
            BitDepth::Bpp8 => 8,
            BitDepth::Bpp16 => 16,
            BitDepth::Bpp32 => 32,
        }
    }
}

impl Default for BitDepth {
    fn default() -> (res: Self)
        ensures
            res == BitDepth::Bpp8,
    {
        BitDepth::Bpp8
    }
}

/// The order in which a display's scanlines are drawn.
#[derive(Debug, Copy, Clone, PartialEq, Eq, Structural, Hash)]
pub enum ScanlineOrdering {
    Unspecified,
    Progressive,
    InterlacedUpperFieldFirst,
    InterlacedLowerFieldFirst,
}

impl ScanlineOrdering {
    /// The ordering that a platform number names; an unknown number is
    /// unspecified.
    pub open spec fn of_value(value: i32) -> ScanlineOrdering {
        if value == 1 {
            ScanlineOrdering::Progressive
        } else if value == 2 {
            ScanlineOrdering::InterlacedUpperFieldFirst
        } else if value == 3 {
            ScanlineOrdering::InterlacedLowerFieldFirst
        } else {
            ScanlineOrdering::Unspecified
        }
    }

    /// The platform number of this ordering.
    pub open spec fn value(self) -> i32 {
        match self {
            ScanlineOrdering::Unspecified => 0,
            ScanlineOrdering::Progressive => 1,
            ScanlineOrdering::InterlacedUpperFieldFirst => 2,
            ScanlineOrdering::InterlacedLowerFieldFirst => 3,
        }
    }

    /// Reads a platform scanline-ordering number. An unknown number falls
    /// back to unspecified.
    pub fn from_value(value: i32) -> (res: Self)
        ensures
            res == ScanlineOrdering::of_value(value),
    {
        match value {
            0 => ScanlineOrdering::Unspecified,
            1 => ScanlineOrdering::Progressive,
            2 => ScanlineOrdering::InterlacedUpperFieldFirst,
            3 => ScanlineOrdering::InterlacedLowerFieldFirst,
            _ => ScanlineOrdering::Unspecified,
        }
    }

    /// The platform number of this ordering.
    pub fn to_value(&self) -> (res: i32)
        ensures
            res == self.value(),
            ScanlineOrdering::of_value(res) == *self,
    {
        match self {
            ScanlineOrdering::Unspecified => 0,
            ScanlineOrdering::Progressive => 1,
            ScanlineOrdering::InterlacedUpperFieldFirst => 2,
            ScanlineOrdering::InterlacedLowerFieldFirst => 3,
        }
    }
}

impl Default for ScanlineOrdering {
    fn default() -> (res: Self)
        ensures
            res == ScanlineOrdering::Progressive,
    {
        ScanlineOrdering::Progressive
    }
}

/// The kind of connector through which a display is attached.
#[derive(Debug, Copy, Clone, PartialEq, Eq, Structural, Hash)]
pub enum ConnectorType {
    HD15,
    SVIDEO,
    CompositeVideo,
    ComponentVideo,
    DVI,
    HDMI,
    LVDS,
    DJpn,
    SDI,
    DisplayPortExternal,
    DisplayPortEmbedded,
    UDIExternal,
    UDIEmbedded,
    SDTVDONGLE,
    Miracast,
    IndirectWired,
    IndirectVirtual,
    Internal,
    Other,
}

impl ConnectorType {
    /// The connector that a platform number names. Seven is unassigned, the
    /// lowest `i32` marks an internal panel, and every number without a
    /// meaning is `Other`.
    pub open spec fn of_value(value: i32) -> ConnectorType {
        if value == 0 {
            ConnectorType::HD15
        } else if value == 1 {
            ConnectorType::SVIDEO
        } else if value == 2 {
            ConnectorType::CompositeVideo
        } else if value == 3 {
            ConnectorType::ComponentVideo
        } else if value == 4 {
            ConnectorType::DVI
        } else if value == 5 {
            ConnectorType::HDMI
        } else if value == 6 {
            ConnectorType::LVDS
        } else if value == 8 {
            ConnectorType::DJpn
        } else if value == 9 {
            ConnectorType::SDI
        } else if value == 10 {
            ConnectorType::DisplayPortExternal
        } else if value == 11 {
            ConnectorType::DisplayPortEmbedded
        } else if value == 12 {
            ConnectorType::UDIExternal
        } else if value == 13 {
            ConnectorType::UDIEmbedded
        } else if value == 14 {
            ConnectorType::SDTVDONGLE
        } else if value == 15 {
            ConnectorType::Miracast
        } else if value == 16 {
            ConnectorType::IndirectWired
        } else if value == 17 {
            ConnectorType::IndirectVirtual
        } else if value == i32::MIN {
            ConnectorType::Internal
        } else {
            ConnectorType::Other
        }
    }

    /// Reads a platform connector number.
    pub fn from_value(value: i32) -> (res: Self)
        ensures
            res == ConnectorType::of_value(value),
    {
        if value == i32::MIN {
            return ConnectorType::Internal;
        }
        match value {
            0 => ConnectorType::HD15,
            1 => ConnectorType::SVIDEO,
            2 => ConnectorType::CompositeVideo,
            3 => ConnectorType::ComponentVideo,
            4 => ConnectorType::DVI,
            5 => ConnectorType::HDMI,
            6 => ConnectorType::LVDS,
            8 => ConnectorType::DJpn,
            9 => ConnectorType::SDI,
            10 => ConnectorType::DisplayPortExternal,
            11 => ConnectorType::DisplayPortEmbedded,
            12 => ConnectorType::UDIExternal,
            13 => ConnectorType::UDIEmbedded,
            14 => ConnectorType::SDTVDONGLE,
            15 => ConnectorType::Miracast,
            16 => ConnectorType::IndirectWired,
            17 => ConnectorType::IndirectVirtual,
            _ => ConnectorType::Other,
        }
    }
}

/// How a per-device mode record asks for a low resolution to be shown on a
/// display with a higher fixed resolution.
#[derive(Debug, Copy, Clone, PartialEq, Eq, Structural, PartialOrd, Ord, Hash)]
pub enum FixedOutput {
    Default,
    Stretch,
    Center,
}

impl FixedOutput {
    /// The number of this mode in a per-device mode record.
    pub open spec fn device_code(self) -> u32 {
        match self {
            FixedOutput::Default => 0,
            FixedOutput::Stretch => 1,
            FixedOutput::Center => 2,
        }
    }
}

} // verus!
