//! A model of a machine's display topology: the displays, their geometric
//! arrangement and per-display settings, with the rules for reassigning the
//! primary display and for committing staged settings.
//!
//! The platform itself is not called from here. What it reports comes in as
//! plain data, and what is to be sent to it goes out as plain data: the
//! caller makes the calls.

pub mod decimal;
pub mod display;
pub mod json;
pub mod laws;
pub mod properties;
pub mod query;
pub mod text;
pub mod types;

pub use decimal::IntErrorKind;
pub use display::{
    Display, DisplayError, DisplaySet, ModeInfo, PathInfo, SourceMode, TargetMode,
};
pub use properties::{
    CommitRequest, DeviceMode, DeviceRecord, DisplayProperties, DisplayPropertiesError,
    DisplaySettings,
};
pub use query::{
    commit_flags, commit_result, platform_error, query_displays, refresh, refresh_flags,
    DeviceEnumeration, EnumerateOutcome,
};
pub use text::{
    ParseFixedOutputError, ParseFrequencyError, ParseOrientationError, ParsePositionError,
    ParseResolutionError,
};
pub use types::{
    BitDepth, ConnectorType, FixedOutput, Frequency, Orientation, Position, Resolution,
    Resolutions, ScanlineOrdering, Scaling,
};
