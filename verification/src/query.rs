//! From the platform's answer to a set of displays, and from the platform's
//! status to the outcome of a commit.
//!
//! The platform is asked elsewhere. What it answered comes here as plain
//! data: the path and mode arrays of the topology description, or the device
//! records of the per-device interface, one by one.

use vstd::prelude::*;
use crate::decimal::{decimal, push_decimal};
use crate::display::{
    display_views, path_views, DisplayError, DisplayErrorView, DisplaySet, DisplaySetView, ModeInfo, PathInfo,
    PathInfoView, PATH_ACTIVE,
};
use crate::properties::{
    device_properties, nul_terminated, utf16_text, DeviceMode, DeviceRecord, DisplayProperties,
    DisplayPropertiesView, DisplaySettings, PropertiesErrorView,
};
use crate::types::{
    BitDepth, ConnectorType, FixedOutput, Frequency, Orientation, Position, Resolution,
    ScanlineOrdering, Scaling,
};

verus! {

/// The frequency, in Hz, of a target mode whose refresh rate has the
/// denominator zero.
pub const DEFAULT_FREQUENCY: u32 = 60;

/// The error code with which the platform ends an enumeration of devices:
/// it stands for "no more devices", not for a failure.
pub const ERROR_INVALID_HANDLE: u32 = 6;

/// Flag of the commit of a topology: apply the configuration now.
pub const SDC_APPLY: u32 = 0x0000_0080;

/// Flag of the commit of a topology: use the path and mode arrays as they
/// are given.
pub const SDC_USE_SUPPLIED_DISPLAY_CONFIG: u32 = 0x0000_0020;

/// Flag of the commit of a topology: let the platform adjust what it would
/// otherwise reject.
pub const SDC_ALLOW_CHANGES: u32 = 0x0000_0400;

/// Flag of the commit of a topology: keep the configuration in the
/// platform's database.
pub const SDC_SAVE_TO_DATABASE: u32 = 0x0000_0200;

/// Whether the flags of a path say that it is in use.
pub open spec fn path_is_active(flags: u32) -> bool {
    flags & PATH_ACTIVE != 0
}

/// The refresh frequency in whole Hz of a rate given as a fraction; the
/// default where the denominator is zero.
pub open spec fn refresh_rate(numerator: u32, denominator: u32) -> u32 {
    if denominator == 0 {
        DEFAULT_FREQUENCY
    } else {
        numerator / denominator
    }
}

/// The text of the error for a platform call that failed with a code.
pub open spec fn platform_error_text(call: Seq<char>, code: u32) -> Seq<char> {
    call + " failed with error code "@ + decimal(code as nat)
}

/// The text of the error for a path whose source has no name.
pub open spec fn unnamed_source_text() -> Seq<char> {
    "The source device name of an active path could not be resolved"@
}

/// The text of the error for a path without a source mode.
pub open spec fn no_source_mode_text() -> Seq<char> {
    "An active path refers to no source mode"@
}

/// The text of the error for a path without a target mode.
pub open spec fn no_target_mode_text() -> Seq<char> {
    "An active path refers to no target mode"@
}

/// A text that the platform resolved, or the empty text where it could
/// not.
pub open spec fn text_or_empty(text: Option<Seq<char>>) -> Seq<char> {
    match text {
        Some(t) => t,
        None => Seq::empty(),
    }
}

/// The display that a path of the topology description stands for. Its
/// name is that of the path's source, description and key are those of the
/// target, each empty where the platform could not resolve it. Position, resolution and bit depth come from the source mode,
/// frequency and scanline ordering from the target mode, orientation and
/// scaling from the path. The display is active, and it is primary if it
/// lies at the origin.
///
/// A path whose source has no name, or whose mode indices do not lead to a
/// source mode and a target mode, stands for no display.
pub open spec fn path_display(p: PathInfoView, modes: Seq<ModeInfo>) -> Result<
    DisplayPropertiesView,
    DisplayErrorView,
> {
    if p.source_name is None {
        Err(DisplayErrorView::WinAPI(unnamed_source_text()))
    } else if !(p.source_mode < modes.len() && modes[p.source_mode as int] is Source) {
        Err(DisplayErrorView::WinAPI(no_source_mode_text()))
    } else if !(p.target_mode < modes.len() && modes[p.target_mode as int] is Target) {
        Err(DisplayErrorView::WinAPI(no_target_mode_text()))
    } else {
        let source = modes[p.source_mode as int]->Source_0;
        let target = modes[p.target_mode as int]->Target_0;
        Ok(
            DisplayPropertiesView {
                name: p.source_name.unwrap(),
                string: text_or_empty(p.target_name),
                key: text_or_empty(p.target_key),
                active: true,
                primary: source.position == Position::origin(),
                connector_type: Some(ConnectorType::of_value(p.connector)),
                target_available: p.target_available,
                settings: Some(
                    DisplaySettings {
                        position: source.position,
                        resolution: Resolution { width: source.width, height: source.height },
                        orientation: Orientation::of_rotation(p.rotation),
                        scaling: Scaling::of_value(p.scaling),
                        fixed_output: FixedOutput::Default,
                        frequency: Frequency(
                            refresh_rate(target.vsync_numerator, target.vsync_denominator),
                        ),
                        bit_depth: BitDepth::of_pixel_format(source.pixel_format),
                        scanline_ordering: ScanlineOrdering::of_value(target.scanline_ordering),
                    },
                ),
            },
        )
    }
}

/// The displays of the first `upto` paths: one for each path in use, in the
/// order of the paths. The first path in use that stands for no display
/// fails the whole collection.
pub open spec fn collected(paths: Seq<PathInfoView>, modes: Seq<ModeInfo>, upto: int) -> Result<
    Seq<DisplayPropertiesView>,
    DisplayErrorView,
>
    decreases upto,
{
    if upto <= 0 || upto > paths.len() {
        Ok(Seq::empty())
    } else {
        match collected(paths, modes, upto - 1) {
            Err(e) => Err(e),
            Ok(displays) => if !path_is_active(paths[upto - 1].flags) {
                Ok(displays)
            } else {
                match path_display(paths[upto - 1], modes) {
                    Err(e) => Err(e),
                    Ok(d) => Ok(displays.push(d)),
                }
            },
        }
    }
}

/// The first `count` entries of an array, or all of it if it has fewer.
pub open spec fn truncated<T>(s: Seq<T>, count: int) -> Seq<T> {
    if 0 <= count <= s.len() {
        s.subrange(0, count)
    } else {
        s
    }
}

/// The set of displays that the platform's answer to a topology query
/// describes: the arrays cut to the counts that the platform filled, one
/// display for each path in use, and as primary display the one at the
/// origin (the last of them, should there be several; the first display,
/// should there be none).
pub open spec fn queried(
    paths: Seq<PathInfoView>,
    modes: Seq<ModeInfo>,
    num_paths: u32,
    num_modes: u32,
) -> Result<DisplaySetView, DisplayErrorView> {
    let p = truncated(paths, num_paths as int);
    let m = truncated(modes, num_modes as int);
    match collected(p, m, p.len() as int) {
        Err(e) => Err(e),
        Ok(displays) => Ok(DisplaySetView::assembled(displays, p, m)),
    }
}

/// An error of a collection does not go away as more paths are read.
pub proof fn lemma_collected_error_persists(
    paths: Seq<PathInfoView>,
    modes: Seq<ModeInfo>,
    i: int,
    j: int,
)
    requires
        0 <= i <= j <= paths.len(),
        collected(paths, modes, i) is Err,
    ensures
        collected(paths, modes, j) == collected(paths, modes, i),
    decreases j - i,
{
    if i < j {
        lemma_collected_error_persists(paths, modes, i, j - 1);
    }
}

/// The error for a platform call that failed with a code.
pub fn platform_error(call: &str, code: u32) -> (res: DisplayError)
    ensures
        res@ == DisplayErrorView::WinAPI(platform_error_text(call@, code)),
{
    let mut text = String::from_str(call);
    text.append(" failed with error code ");
    push_decimal(&mut text, code);
    DisplayError::WinAPI(text)
}

impl PathInfo {
    /// Whether the path is in use.
    pub fn is_active(&self) -> (res: bool)
        ensures
            res == path_is_active(self.flags),
    {
        self.flags & PATH_ACTIVE != 0
    }
}

impl DisplayProperties {
    /// Builds the display that a path of the topology description stands
    /// for, from the path and the mode array that its indices point into.
    pub fn from_display_config(path: &PathInfo, modes: &Vec<ModeInfo>) -> (res: Result<
        DisplayProperties,
        DisplayError,
    >)
        ensures
            match res {
                Ok(d) => path_display(path@, modes@) == Ok::<
                    DisplayPropertiesView,
                    DisplayErrorView,
                >(d@),
                Err(e) => path_display(path@, modes@) == Err::<
                    DisplayPropertiesView,
                    DisplayErrorView,
                >(e@),
            },
    {
        let name = match &path.source_name {
            Some(name) => name.clone(),
            None => {
                return Err(
                    DisplayError::WinAPI(
                        String::from_str(
                            "The source device name of an active path could not be resolved",
                        ),
                    ),
                );
            },
        };
        let source_idx = path.source_mode as usize;
        let source = if source_idx < modes.len() {
            match modes[source_idx] {
                ModeInfo::Source(m) => Some(m),
                _ => None,
            }
        } else {
            None
        };
        let source = match source {
            Some(m) => m,
            None => {
                return Err(
                    DisplayError::WinAPI(String::from_str("An active path refers to no source mode")),
                );
            },
        };
        let target_idx = path.target_mode as usize;
        let target = if target_idx < modes.len() {
            match modes[target_idx] {
                ModeInfo::Target(m) => Some(m),
                _ => None,
            }
        } else {
            None
        };
        let target = match target {
            Some(m) => m,
            None => {
                return Err(
                    DisplayError::WinAPI(String::from_str("An active path refers to no target mode")),
                );
            },
        };
        let frequency = if target.vsync_denominator == 0 {
            DEFAULT_FREQUENCY
        } else {
            target.vsync_numerator / target.vsync_denominator
        };
        Ok(
            DisplayProperties {
                name,
                string: match &path.target_name {
                    Some(text) => text.clone(),
                    None => String::new(),
                },
                key: match &path.target_key {
                    Some(text) => text.clone(),
                    None => String::new(),
                },
                active: true,
                primary: source.position.is_origin(),
                connector_type: Some(ConnectorType::from_value(path.connector)),
                target_available: path.target_available,
                settings: Some(
                    DisplaySettings {
                        position: source.position,
                        resolution: Resolution { width: source.width, height: source.height },
                        orientation: Orientation::from_rotation(path.rotation),
                        scaling: Scaling::from_value(path.scaling),
                        fixed_output: FixedOutput::Default,
                        frequency: Frequency(frequency),
                        bit_depth: BitDepth::from_pixel_format(source.pixel_format),
                        scanline_ordering: ScanlineOrdering::from_value(target.scanline_ordering),
                    },
                ),
            },
        )
    }
}

/// Builds the set of displays from the platform's answer to a topology
/// query: the path and mode arrays as they were handed to the platform, and
/// the counts of the entries that it filled. The arrays are cut to those
/// counts, paths that are not in use are passed over, and each other path
/// gives one display. The set keeps the cut arrays for the commit.
///
/// No set is built from an answer in which a path in use has no source name
/// or no modes.
pub fn query_displays(
    paths: Vec<PathInfo>,
    modes: Vec<ModeInfo>,
    num_paths: u32,
    num_modes: u32,
) -> (res: Result<DisplaySet, DisplayError>)
    ensures
        match res {
            Ok(set) => queried(path_views(paths@), modes@, num_paths, num_modes) == Ok::<
                DisplaySetView,
                DisplayErrorView,
            >(set@) && set.wf(),
            Err(e) => queried(path_views(paths@), modes@, num_paths, num_modes) == Err::<
                DisplaySetView,
                DisplayErrorView,
            >(e@),
        },
{
    let mut path_array = paths;
    let mut mode_array = modes;
    path_array.truncate(num_paths as usize);
    mode_array.truncate(num_modes as usize);
    let ghost p = path_views(path_array@);
    let ghost m = mode_array@;
    assert(p =~= truncated(path_views(paths@), num_paths as int));
    assert(m =~= truncated(modes@, num_modes as int));
    let n = path_array.len();
    let mut displays: Vec<DisplayProperties> = Vec::new();
    let mut i: usize = 0;
    assert(display_views(displays@) =~= Seq::<DisplayPropertiesView>::empty());
    while i < n
        invariant
            i <= n,
            n == path_array@.len(),
            p == path_views(path_array@),
            m == mode_array@,
            p == truncated(path_views(paths@), num_paths as int),
            m == truncated(modes@, num_modes as int),
            collected(p, m, i as int) == Ok::<Seq<DisplayPropertiesView>, DisplayErrorView>(
                display_views(displays@),
            ),
        decreases n - i,
    {
        assert(p[i as int] == path_array@[i as int]@);
        if path_array[i].is_active() {
            let ghost before = display_views(displays@);
            match DisplayProperties::from_display_config(&path_array[i], &mode_array) {
                Ok(d) => {
                    displays.push(d);
                    assert(display_views(displays@) =~= before.push(d@));
                },
                Err(e) => {
                    proof {
                        assert(collected(p, m, i as int + 1) is Err);
                        lemma_collected_error_persists(p, m, i as int + 1, n as int);
                    }
                    return Err(e);
                },
            }
        }
        i = i + 1;
    }
    Ok(DisplaySet::new(displays, path_array, mode_array))
}

/// The flags of the one commit call that applies a whole topology: apply
/// now, use the given arrays as they are, allow adjustments, and keep the
/// result in the platform's database.
pub fn commit_flags() -> (res: u32)
    ensures
        res == 0x0000_06A0,
        res == SDC_APPLY | SDC_USE_SUPPLIED_DISPLAY_CONFIG | SDC_ALLOW_CHANGES
            | SDC_SAVE_TO_DATABASE,
{
    assert(0x80u32 | 0x20u32 | 0x400u32 | 0x200u32 == 0x6A0u32) by (bit_vector);
    SDC_APPLY | SDC_USE_SUPPLIED_DISPLAY_CONFIG | SDC_ALLOW_CHANGES | SDC_SAVE_TO_DATABASE
}

/// The flags of the refresh call that follows the commits of a topology:
/// those of the commit, without keeping anything in the database.
pub fn refresh_flags() -> (res: u32)
    ensures
        res == 0x0000_04A0,
        res == SDC_APPLY | SDC_USE_SUPPLIED_DISPLAY_CONFIG | SDC_ALLOW_CHANGES,
{
    assert(0x80u32 | 0x20u32 | 0x400u32 == 0x4A0u32) by (bit_vector);
    SDC_APPLY | SDC_USE_SUPPLIED_DISPLAY_CONFIG | SDC_ALLOW_CHANGES
}

/// What a status of the platform means for a commit: zero is success, every
/// other status an error that carries it.
pub open spec fn commit_outcome(status: i32) -> Result<(), DisplayErrorView> {
    if status == 0 {
        Ok(())
    } else {
        Err(DisplayErrorView::FailedToCommit(status))
    }
}

/// Reads the status with which the platform answered the commit of a
/// topology.
pub fn commit_result(status: i32) -> (res: Result<(), DisplayError>)
    ensures
        match res {
            Ok(_) => commit_outcome(status) is Ok,
            Err(e) => commit_outcome(status) == Err::<(), DisplayErrorView>(e@),
        },
{
    if status == 0 {
        Ok(())
    } else {
        Err(DisplayError::FailedToCommit(status))
    }
}

/// Reads the status with which the platform answered the refresh call that
/// ends a batch of commits. A refresh that the platform refused is a failed
/// commit.
pub fn refresh(status: i32) -> (res: Result<(), DisplayError>)
    ensures
        match res {
            Ok(_) => commit_outcome(status) is Ok,
            Err(e) => commit_outcome(status) == Err::<(), DisplayErrorView>(e@),
        },
{
    commit_result(status)
}

/// What the platform answered when asked for the device of one index.
#[derive(Debug, Clone)]
pub enum EnumerateOutcome {
    /// There is a device of that index. With its record comes its current
    /// mode, if the device is active and the mode could be fetched.
    Device(DeviceRecord, Option<DeviceMode>),
    /// There is no device of that index.
    NoMoreDevices,
    /// The call failed with this error code.
    Failed(u32),
}

/// The enumeration of devices through the per-device interface, as far as
/// it has come: the displays of the devices seen, and the index to ask for
/// next.
#[derive(Debug, Clone)]
pub struct DeviceEnumeration {
    displays: Vec<DisplayProperties>,
    next_index: u32,
    finished: bool,
}

/// A `DeviceEnumeration` as plain data.
pub struct DeviceEnumerationView {
    /// The displays of the devices seen so far, in the order of their
    /// indices.
    pub displays: Seq<DisplayPropertiesView>,
    /// The index of the device to ask for next.
    pub next_index: int,
    /// Whether the enumeration has come to its end.
    pub finished: bool,
}

impl View for DeviceEnumeration {
    type V = DeviceEnumerationView;

    closed spec fn view(&self) -> DeviceEnumerationView {
        DeviceEnumerationView {
            displays: display_views(self.displays@),
            next_index: self.next_index as int,
            finished: self.finished,
        }
    }
}

/// The display that a device record stands for, with the current mode that
/// was fetched for it.
pub open spec fn record_display(record: DeviceRecord, fetched: Option<DeviceMode>) -> Result<
    DisplayPropertiesView,
    PropertiesErrorView,
> {
    device_properties(
        utf16_text(nul_terminated(record.device_name@)),
        utf16_text(nul_terminated(record.device_string@)),
        utf16_text(nul_terminated(record.device_key@)),
        record.state_flags,
        fetched,
    )
}

impl DeviceEnumerationView {
    /// The enumeration before the first device has been asked for.
    pub open spec fn start() -> DeviceEnumerationView {
        DeviceEnumerationView { displays: Seq::empty(), next_index: 0, finished: false }
    }

    /// The enumeration after the platform's answer for the device of index
    /// `next_index` has come in.
    ///
    /// A device adds its display, and the next index is asked for. "No more
    /// devices" ends the enumeration, and so does the error code that the
    /// platform uses to say the same. Any other error code fails the
    /// enumeration, and so does a device that is no display. An answer that
    /// comes after the end changes nothing.
    pub open spec fn advanced(self, outcome: EnumerateOutcome) -> Result<
        DeviceEnumerationView,
        DisplayErrorView,
    > {
        if self.finished {
            Ok(self)
        } else {
            match outcome {
                EnumerateOutcome::Device(record, fetched) => match record_display(record, fetched) {
                    Err(e) => Err(DisplayErrorView::Properties(e)),
                    Ok(d) => Ok(
                        DeviceEnumerationView {
                            displays: self.displays.push(d),
                            next_index: if self.next_index < u32::MAX {
                                self.next_index + 1
                            } else {
                                self.next_index
                            },
                            finished: self.next_index >= u32::MAX,
                        },
                    ),
                },
                EnumerateOutcome::NoMoreDevices => Ok(
                    DeviceEnumerationView { finished: true, ..self },
                ),
                EnumerateOutcome::Failed(code) => if code == ERROR_INVALID_HANDLE {
                    Ok(DeviceEnumerationView { finished: true, ..self })
                } else {
                    Err(
                        DisplayErrorView::WinAPI(
                            platform_error_text("EnumDisplayDevices"@, code),
                        ),
                    )
                },
            }
        }
    }
}

impl DeviceEnumeration {
    /// Starts an enumeration: no device seen, index zero to be asked for.
    pub fn new() -> (res: DeviceEnumeration)
        ensures
            res@ == DeviceEnumerationView::start(),
    {
        let res = DeviceEnumeration { displays: Vec::new(), next_index: 0, finished: false };
        assert(res@.displays =~= Seq::<DisplayPropertiesView>::empty());
        res
    }

    /// The index of the device to ask the platform for, or `None` when the
    /// enumeration has come to its end.
    pub fn next_index(&self) -> (res: Option<u32>)
        ensures
            res == (if self@.finished {
                None
            } else {
                Some(self@.next_index as u32)
            }),
    {
        if self.finished {
            None
        } else {
            Some(self.next_index)
        }
    }

    /// Takes in the platform's answer for the device of index `next_index`.
    /// On an error the enumeration has failed, and stays as it was.
    pub fn advance(&mut self, outcome: EnumerateOutcome) -> (res: Result<(), DisplayError>)
        ensures
            match res {
                Ok(_) => old(self)@.advanced(outcome) == Ok::<
                    DeviceEnumerationView,
                    DisplayErrorView,
                >(final(self)@),
                Err(e) => old(self)@.advanced(outcome) == Err::<
                    DeviceEnumerationView,
                    DisplayErrorView,
                >(e@) && final(self)@ == old(self)@,
            },
    {
        if self.finished {
            return Ok(());
        }
        match outcome {
            EnumerateOutcome::Device(record, fetched) => {
                match DisplayProperties::from_windows(&record, fetched) {
                    Err(e) => Err(DisplayError::Properties(e)),
                    Ok(d) => {
                        let ghost before = display_views(self.displays@);
                        self.displays.push(d);
                        assert(display_views(self.displays@) =~= before.push(d@));
                        if self.next_index < u32::MAX {
                            self.next_index = self.next_index + 1;
                        } else {
                            self.finished = true;
                        }
                        Ok(())
                    },
                }
            },
            EnumerateOutcome::NoMoreDevices => {
                self.finished = true;
                Ok(())
            },
            EnumerateOutcome::Failed(code) => {
                if code == ERROR_INVALID_HANDLE {
                    self.finished = true;
                    Ok(())
                } else {
                    Err(platform_error("EnumDisplayDevices", code))
                }
            },
        }
    }

    /// Makes the set of the displays seen. It has no path and mode arrays;
    /// its primary display is the last active one that the platform flagged
    /// as primary, or the first active one if the platform flagged none.
    pub fn finish(self) -> (res: DisplaySet)
        ensures
            res@ == DisplaySetView::assembled(
                self@.displays,
                Seq::<PathInfoView>::empty(),
                Seq::<ModeInfo>::empty(),
            ),
            res.wf(),
    {
        let paths: Vec<PathInfo> = Vec::new();
        let modes: Vec<ModeInfo> = Vec::new();
        assert(path_views(paths@) =~= Seq::<PathInfoView>::empty());
        DisplaySet::new(self.displays, paths, modes)
    }
}

} // verus!
