//! The set of displays: a snapshot of all displays that the platform knows,
//! the pointer to the primary one, and the path and mode arrays of the
//! topology description from which the snapshot was made.
//!
//! Settings are staged in the set and nowhere else. `set_primary` moves the
//! origin of the desktop, `apply` folds the staged settings into the path and
//! mode arrays, `commit_order` and `commit_plan` lay out the commit calls of
//! the per-device interface, and `commit_step` decides them one by one.

use vstd::prelude::*;
use crate::properties::{
    commit_prepared, properties_text, CommitRequest, DisplayProperties, DisplayPropertiesError,
    DisplayPropertiesView, DisplaySettings, PropertiesErrorView,
};
use crate::text::same_text;
use crate::types::{ConnectorType, Frequency, Orientation, Position, Resolution};

verus! {

/// Flag of a path: the path is in use.
pub const PATH_ACTIVE: u32 = 0x0000_0001;

/// What goes wrong with a set of displays.
#[derive(Debug, Clone)]
pub enum DisplayError {
    /// A single display reported an error.
    Properties(DisplayPropertiesError),
    /// A query to the platform failed, or its answer is not consistent; the
    /// text says how.
    WinAPI(String),
    /// The display that was to become primary is not active.
    PrimaryDisplay,
    /// The active display of this name has no settings.
    NoSettings(String),
    /// The platform refused the commit with this status.
    FailedToCommit(i32),
}

/// A `DisplayError` with its texts as sequences of characters.
pub enum DisplayErrorView {
    Properties(PropertiesErrorView),
    WinAPI(Seq<char>),
    PrimaryDisplay,
    NoSettings(Seq<char>),
    FailedToCommit(i32),
}

impl View for DisplayError {
    type V = DisplayErrorView;

    open spec fn view(&self) -> DisplayErrorView {
        match self {
            DisplayError::Properties(e) => DisplayErrorView::Properties(e@),
            DisplayError::WinAPI(s) => DisplayErrorView::WinAPI(s@),
            DisplayError::PrimaryDisplay => DisplayErrorView::PrimaryDisplay,
            DisplayError::NoSettings(s) => DisplayErrorView::NoSettings(s@),
            DisplayError::FailedToCommit(c) => DisplayErrorView::FailedToCommit(*c),
        }
    }
}

impl From<DisplayPropertiesError> for DisplayError {
    /// The error of a single display as an error of its set.
    fn from(e: DisplayPropertiesError) -> (res: DisplayError) {
        DisplayError::Properties(e)
    }
}

impl vstd::std_specs::convert::FromSpecImpl<DisplayPropertiesError> for DisplayError {
    open spec fn obeys_from_spec() -> bool {
        true
    }

    open spec fn from_spec(e: DisplayPropertiesError) -> DisplayError {
        DisplayError::Properties(e)
    }
}

/// The mode of the source end of a path: where the display's image lies on
/// the desktop, and its size and pixel format.
#[derive(Debug, Copy, Clone, PartialEq, Eq, Structural)]
pub struct SourceMode {
    pub position: Position,
    pub width: u32,
    pub height: u32,
    pub pixel_format: i32,
}

/// The mode of the target end of a path: the timing of the signal.
#[derive(Debug, Copy, Clone, PartialEq, Eq, Structural)]
pub struct TargetMode {
    /// The vertical refresh rate as a fraction, in Hz.
    pub vsync_numerator: u32,
    pub vsync_denominator: u32,
    pub scanline_ordering: i32,
}

/// One entry of the mode array.
#[derive(Debug, Copy, Clone, PartialEq, Eq, Structural)]
pub enum ModeInfo {
    Source(SourceMode),
    Target(TargetMode),
    /// An entry of a kind that this library does not read.
    Other,
}

/// One entry of the path array: a link from a source to a target, with the
/// names that the platform resolved for both ends.
#[derive(Debug, Clone)]
pub struct PathInfo {
    pub flags: u32,
    /// The device name of the source, or `None` if it could not be resolved.
    pub source_name: Option<String>,
    /// The friendly name of the target, or `None` if it could not be
    /// resolved.
    pub target_name: Option<String>,
    /// The identity key of the target, or `None` if it could not be
    /// resolved.
    pub target_key: Option<String>,
    /// The index of the source mode in the mode array.
    pub source_mode: u32,
    /// The index of the target mode in the mode array.
    pub target_mode: u32,
    /// The rotation number of the target.
    pub rotation: u32,
    /// The scaling number of the target.
    pub scaling: i32,
    /// The connector number of the target.
    pub connector: i32,
    pub target_available: bool,
}

/// A `PathInfo` with its texts as sequences of characters.
pub struct PathInfoView {
    pub flags: u32,
    pub source_name: Option<Seq<char>>,
    pub target_name: Option<Seq<char>>,
    pub target_key: Option<Seq<char>>,
    pub source_mode: u32,
    pub target_mode: u32,
    pub rotation: u32,
    pub scaling: i32,
    pub connector: i32,
    pub target_available: bool,
}

impl View for PathInfo {
    type V = PathInfoView;

    open spec fn view(&self) -> PathInfoView {
        PathInfoView {
            flags: self.flags,
            source_name: match self.source_name {
                Some(s) => Some(s@),
                None => None,
            },
            target_name: match self.target_name {
                Some(s) => Some(s@),
                None => None,
            },
            target_key: match self.target_key {
                Some(s) => Some(s@),
                None => None,
            },
            source_mode: self.source_mode,
            target_mode: self.target_mode,
            rotation: self.rotation,
            scaling: self.scaling,
            connector: self.connector,
            target_available: self.target_available,
        }
    }
}

/// The views of a list of displays.
pub open spec fn display_views(displays: Seq<DisplayProperties>) -> Seq<DisplayPropertiesView> {
    Seq::new(displays.len(), |i: int| displays[i]@)
}

/// The views of a list of paths.
pub open spec fn path_views(paths: Seq<PathInfo>) -> Seq<PathInfoView> {
    Seq::new(paths.len(), |i: int| paths[i]@)
}

/// A set of displays as plain data.
pub struct DisplaySetView {
    /// The displays, in the order of their indices.
    pub displays: Seq<DisplayPropertiesView>,
    /// The index of the primary display; the number of displays if there is
    /// none.
    pub primary: int,
    pub paths: Seq<PathInfoView>,
    pub modes: Seq<ModeInfo>,
}

/// A snapshot of all displays, with the settings staged for them.
#[derive(Debug, Clone)]
pub struct DisplaySet {
    displays: Vec<DisplayProperties>,
    primary_display: usize,
    paths: Vec<PathInfo>,
    modes: Vec<ModeInfo>,
}

impl View for DisplaySet {
    type V = DisplaySetView;

    closed spec fn view(&self) -> DisplaySetView {
        DisplaySetView {
            displays: display_views(self.displays@),
            primary: self.primary_display as int,
            paths: path_views(self.paths@),
            modes: self.modes@,
        }
    }
}

/// Whether a display may be the primary one: it is flagged so, and active.
pub open spec fn primary_candidate(d: DisplayPropertiesView) -> bool {
    d.primary && d.active
}

/// The greatest index below `upto` of a display that may be primary, or the
/// number of displays if there is none.
pub open spec fn last_candidate(displays: Seq<DisplayPropertiesView>, upto: int) -> int
    decreases upto,
{
    if upto <= 0 || upto > displays.len() {
        displays.len() as int
    } else if primary_candidate(displays[upto - 1]) {
        upto - 1
    } else {
        last_candidate(displays, upto - 1)
    }
}

/// The index at or after `from` of the first active display, or the number
/// of displays if none from there on is active.
pub open spec fn first_active(displays: Seq<DisplayPropertiesView>, from: int) -> int
    decreases displays.len() - from,
{
    if from < 0 || from >= displays.len() {
        displays.len() as int
    } else if displays[from].active {
        from
    } else {
        first_active(displays, from + 1)
    }
}

/// The display that is primary in a set made of these displays: the last
/// one that is flagged primary and active; where none is, the first active
/// one; and none (the number of displays) only where no display is active.
pub open spec fn chosen_primary(displays: Seq<DisplayPropertiesView>) -> int {
    if last_candidate(displays, displays.len() as int) < displays.len() {
        last_candidate(displays, displays.len() as int)
    } else {
        first_active(displays, 0)
    }
}

/// A display as it stands in a set: it is flagged primary if and only if
/// it is the primary display of the set, and it holds settings only if it is
/// active.
pub open spec fn settled(d: DisplayPropertiesView, is_primary: bool) -> DisplayPropertiesView {
    DisplayPropertiesView {
        primary: is_primary,
        settings: if d.active {
            d.settings
        } else {
            None
        },
        ..d
    }
}

impl DisplaySetView {
    /// The invariant of a set: the primary pointer names an active display,
    /// or none where no display is active; a display is flagged primary if
    /// and only if the pointer names it; and an inactive display has no
    /// settings.
    pub open spec fn wf(self) -> bool {
        &&& 0 <= self.primary <= self.displays.len()
        &&& self.primary < self.displays.len() ==> self.displays[self.primary].active
        &&& forall|i: int|
            0 <= i < self.displays.len() ==> ((#[trigger] self.displays[i]).primary <==> i
                == self.primary)
        &&& forall|i: int|
            0 <= i < self.displays.len() && !(#[trigger] self.displays[i]).active
                ==> self.displays[i].settings is None
        &&& forall|i: int|
            0 <= i < self.displays.len() && (#[trigger] self.displays[i]).active ==> self.primary
                < self.displays.len()
    }

    /// The set that is made of these displays, paths and modes. The primary
    /// display is the last one that is flagged primary and active, or else
    /// the first active one.
    pub open spec fn assembled(
        displays: Seq<DisplayPropertiesView>,
        paths: Seq<PathInfoView>,
        modes: Seq<ModeInfo>,
    ) -> DisplaySetView {
        let primary = chosen_primary(displays);
        DisplaySetView {
            displays: Seq::new(displays.len(), |i: int| settled(displays[i], i == primary)),
            primary,
            paths,
            modes,
        }
    }
}

/// `last_candidate` names a display that may be primary, or none.
pub proof fn lemma_last_candidate(displays: Seq<DisplayPropertiesView>, upto: int)
    requires
        0 <= upto <= displays.len(),
    ensures
        0 <= last_candidate(displays, upto) <= displays.len(),
        last_candidate(displays, upto) < displays.len() ==> last_candidate(displays, upto) < upto
            && primary_candidate(displays[last_candidate(displays, upto)]),
    decreases upto,
{
    if upto > 0 && !primary_candidate(displays[upto - 1]) {
        lemma_last_candidate(displays, upto - 1);
    }
}

/// `first_active` names an active display, or none, and no display before
/// it is active.
pub proof fn lemma_first_active(displays: Seq<DisplayPropertiesView>, from: int)
    requires
        0 <= from <= displays.len(),
    ensures
        from <= first_active(displays, from) <= displays.len(),
        first_active(displays, from) < displays.len() ==> displays[first_active(
            displays,
            from,
        )].active,
        forall|i: int| from <= i < first_active(displays, from) ==> !(#[trigger] displays[i]).active,
    decreases displays.len() - from,
{
    if from < displays.len() && !displays[from].active {
        lemma_first_active(displays, from + 1);
    }
}

/// A set that is assembled from any displays meets the invariant.
pub proof fn lemma_assembled_wf(
    displays: Seq<DisplayPropertiesView>,
    paths: Seq<PathInfoView>,
    modes: Seq<ModeInfo>,
)
    ensures
        DisplaySetView::assembled(displays, paths, modes).wf(),
{
    lemma_last_candidate(displays, displays.len() as int);
    lemma_first_active(displays, 0);
}

impl DisplaySet {
    /// Whether the set meets its invariant.
    pub open spec fn wf(&self) -> bool {
        self@.wf()
    }

    /// Makes a set of these displays, with the path and mode arrays that
    /// they were read from (both empty where the displays come from the
    /// per-device interface).
    ///
    /// The last display that is flagged primary and active becomes the
    /// primary one; where none is flagged, the first active display does.
    /// All other flags are cleared, and settings of inactive displays are
    /// dropped.
    pub fn new(displays: Vec<DisplayProperties>, paths: Vec<PathInfo>, modes: Vec<ModeInfo>) -> (res:
        DisplaySet)
        ensures
            res@ == DisplaySetView::assembled(display_views(displays@), path_views(paths@), modes@),
            res.wf(),
    {
        let ghost given = display_views(displays@);
        let mut displays = displays;
        let n = displays.len();
        let mut primary: usize = n;
        let mut i: usize = 0;
        while i < n
            invariant
                i <= n,
                n == displays@.len(),
                given == display_views(displays@),
                primary as int == last_candidate(given, i as int),
                primary == n || primary < i,
            decreases n - i,
        {
            if displays[i].primary && displays[i].active {
                primary = i;
            } else {
                if primary == n {
                    assert(last_candidate(given, i as int + 1) == n);
                }
            }
            i = i + 1;
        }
        if primary == n {
            let mut a: usize = 0;
            while a < n && !displays[a].active
                invariant
                    a <= n,
                    n == displays@.len(),
                    given == display_views(displays@),
                    first_active(given, 0) == first_active(given, a as int),
                decreases n - a,
            {
                a = a + 1;
            }
            primary = a;
        }
        assert(primary as int == chosen_primary(given));
        let mut k: usize = 0;
        while k < n
            invariant
                k <= n,
                n == displays@.len(),
                given.len() == n,
                forall|j: int| 0 <= j < k ==> (#[trigger] displays@[j])@ == settled(given[j], j == primary),
                forall|j: int| k <= j < n ==> (#[trigger] displays@[j])@ == given[j],
            decreases n - k,
        {
            let active = displays[k].active;
            displays[k].primary = k == primary;
            if !active {
                displays[k].settings = None;
            }
            k = k + 1;
        }
        let res = DisplaySet { displays, primary_display: primary, paths, modes };
        proof {
            assert(res@.displays =~= DisplaySetView::assembled(
                given,
                path_views(paths@),
                modes@,
            ).displays);
            lemma_assembled_wf(given, path_views(paths@), modes@);
        }
        res
    }

    /// The number of displays in the set.
    pub fn len(&self) -> (res: usize)
        ensures
            res == self@.displays.len(),
    {
        self.displays.len()
    }
}

/// The index at or after `from` of the first active display that has no
/// settings, or the number of displays if every active display from there on
/// has them.
pub open spec fn first_unsettled(displays: Seq<DisplayPropertiesView>, from: int) -> int
    decreases displays.len() - from,
{
    if from < 0 || from >= displays.len() {
        displays.len() as int
    } else if displays[from].active && displays[from].settings is None {
        from
    } else {
        first_unsettled(displays, from + 1)
    }
}

/// `first_unsettled` names an active display without settings, or none, and
/// every active display before it has settings.
pub proof fn lemma_first_unsettled(displays: Seq<DisplayPropertiesView>, from: int)
    requires
        0 <= from <= displays.len(),
    ensures
        from <= first_unsettled(displays, from) <= displays.len(),
        first_unsettled(displays, from) < displays.len() ==> displays[first_unsettled(
            displays,
            from,
        )].active && displays[first_unsettled(displays, from)].settings is None,
        forall|i: int|
            from <= i < first_unsettled(displays, from) && (#[trigger] displays[i]).active
                ==> displays[i].settings is Some,
    decreases displays.len() - from,
{
    if from < displays.len() && !(displays[from].active && displays[from].settings is None) {
        lemma_first_unsettled(displays, from + 1);
    }
}

/// A display after the origin of the desktop has moved to `origin`, the old
/// position of the new primary display. The new primary display comes to lie
/// at the origin. Every other display loses the primary flag, and if it is
/// active its position is taken relative to the new origin.
pub open spec fn reassigned_display(
    d: DisplayPropertiesView,
    is_target: bool,
    origin: Position,
) -> DisplayPropertiesView {
    DisplayPropertiesView {
        primary: is_target,
        settings: match d.settings {
            Some(s) => if is_target {
                Some(DisplaySettings { position: Position::origin(), ..s })
            } else if d.active {
                Some(DisplaySettings { position: s.position.minus(origin), ..s })
            } else {
                Some(s)
            },
            None => None,
        },
        ..d
    }
}

impl DisplaySetView {
    /// Why the display of index `index` cannot become primary, if it cannot:
    /// it does not exist or is not active; or it has no settings; or another
    /// active display has none, of which the first is named.
    pub open spec fn reassignment_error(self, index: int) -> Option<DisplayErrorView> {
        if index < 0 || index >= self.displays.len() || !self.displays[index].active {
            Some(DisplayErrorView::PrimaryDisplay)
        } else if self.displays[index].settings is None {
            Some(DisplayErrorView::NoSettings(self.displays[index].name))
        } else if first_unsettled(self.displays, 0) < self.displays.len() {
            Some(DisplayErrorView::NoSettings(self.displays[first_unsettled(self.displays, 0)].name))
        } else {
            None
        }
    }

    /// The set after the display of index `index` has become primary.
    pub open spec fn reassigned(self, index: int) -> DisplaySetView {
        let origin = self.displays[index].settings.unwrap().position;
        DisplaySetView {
            displays: Seq::new(
                self.displays.len(),
                |i: int| reassigned_display(self.displays[i], i == index, origin),
            ),
            primary: index,
            ..self
        }
    }

    /// The positions of all displays, `None` for a display without settings.
    pub open spec fn positions(self) -> Seq<Option<Position>> {
        Seq::new(
            self.displays.len(),
            |i: int|
                match self.displays[i].settings {
                    Some(s) => Some(s.position),
                    None => None,
                },
        )
    }

    /// The number of displays among the first `upto` that are flagged
    /// primary.
    pub open spec fn primary_count(self, upto: int) -> nat
        decreases upto,
    {
        if upto <= 0 || upto > self.displays.len() {
            0
        } else {
            self.primary_count(upto - 1) + if self.displays[upto - 1].primary {
                1nat
            } else {
                0nat
            }
        }
    }
}

impl DisplaySet {
    /// Makes the display of index `index` the primary one: the origin of the
    /// desktop moves to its position, and every other active display keeps
    /// its place relative to it. Coordinates wrap around at the bounds of
    /// `i32`.
    ///
    /// Nothing is changed unless everything can be: the display must exist
    /// and be active, and every active display must have settings. The change
    /// is staged only; it reaches the platform with the next commit.
    pub fn set_primary(&mut self, index: usize) -> (res: Result<(), DisplayError>)
        ensures
            match res {
                Ok(_) => old(self)@.reassignment_error(index as int) is None && final(self)@ == old(
                    self,
                )@.reassigned(index as int),
                Err(e) => old(self)@.reassignment_error(index as int) == Some(e@) && final(self)@
                    == old(self)@,
            },
            old(self).wf() ==> final(self).wf(),
    {
        let n = self.displays.len();
        if index >= n || !self.displays[index].active {
            return Err(DisplayError::PrimaryDisplay);
        }
        let settings = match self.displays[index].settings {
            Some(s) => s,
            None => {
                return Err(DisplayError::NoSettings(self.displays[index].name.clone()));
            },
        };
        let mut i: usize = 0;
        while i < n
            invariant
                i <= n,
                n == self.displays@.len(),
                *self == *old(self),
                index < n,
                self@.displays[index as int].active,
                self@.displays[index as int].settings == Some(settings),
                first_unsettled(self@.displays, 0) == first_unsettled(self@.displays, i as int),
            decreases n - i,
        {
            if self.displays[i].active && self.displays[i].settings.is_none() {
                return Err(DisplayError::NoSettings(self.displays[i].name.clone()));
            }
            i = i + 1;
        }
        let origin = settings.position;
        let mut k: usize = 0;
        while k < n
            invariant
                k <= n,
                index < n,
                n == self.displays@.len(),
                n == old(self).displays@.len(),
                self.paths == old(self).paths,
                self.modes == old(self).modes,
                self.primary_display == old(self).primary_display,
                old(self)@.displays[index as int].settings == Some(settings),
                origin == settings.position,
                forall|j: int|
                    0 <= j < k ==> (#[trigger] self.displays@[j])@ == reassigned_display(
                        old(self).displays@[j]@,
                        j == index,
                        origin,
                    ),
                forall|j: int| k <= j < n ==> (#[trigger] self.displays@[j]) == old(self).displays@[j],
            decreases n - k,
        {
            if k == index {
                self.displays[k].primary = true;
                match self.displays[k].settings {
                    Some(s) => {
                        self.displays[k].settings = Some(
                            DisplaySettings { position: Position { x: 0, y: 0 }, ..s },
                        );
                    },
                    None => {},
                }
            } else {
                self.displays[k].primary = false;
                if self.displays[k].active {
                    match self.displays[k].settings {
                        Some(s) => {
                            self.displays[k].settings = Some(
                                DisplaySettings { position: s.position.sub(origin), ..s },
                            );
                        },
                        None => {},
                    }
                }
            }
            k = k + 1;
        }
        self.primary_display = index;
        proof {
            assert(self@.displays =~= old(self)@.reassigned(index as int).displays);
            if old(self).wf() {
                lemma_reassigned_wf(old(self)@, index as int);
            }
        }
        Ok(())
    }
}

/// Reassigning the primary display keeps the invariant of the set.
pub proof fn lemma_reassigned_wf(v: DisplaySetView, index: int)
    requires
        v.wf(),
        v.reassignment_error(index) is None,
    ensures
        v.reassigned(index).wf(),
{
}

/// The index at or after `from` of the first path whose source has the
/// name `name`, or the number of paths if there is none.
pub open spec fn find_path(paths: Seq<PathInfoView>, name: Seq<char>, from: int) -> int
    decreases paths.len() - from,
{
    if from < 0 || from >= paths.len() {
        paths.len() as int
    } else if paths[from].source_name == Some(name) {
        from
    } else {
        find_path(paths, name, from + 1)
    }
}

/// The mode array with position and resolution of `s` written into the
/// entry of index `idx`. An index outside the array, or an entry that is
/// not a source mode, leaves the array as it is.
pub open spec fn with_source_mode(modes: Seq<ModeInfo>, idx: int, s: DisplaySettings) -> Seq<
    ModeInfo,
> {
    if 0 <= idx < modes.len() && modes[idx] is Source {
        modes.update(
            idx,
            ModeInfo::Source(
                SourceMode {
                    position: s.position,
                    width: s.resolution.width,
                    height: s.resolution.height,
                    ..modes[idx]->Source_0
                },
            ),
        )
    } else {
        modes
    }
}

/// The mode array with the frequency of `s` written into the entry of index
/// `idx` as a fraction over one. An index outside the array, or an entry
/// that is not a target mode, leaves the array as it is.
pub open spec fn with_target_mode(modes: Seq<ModeInfo>, idx: int, s: DisplaySettings) -> Seq<
    ModeInfo,
> {
    if 0 <= idx < modes.len() && modes[idx] is Target {
        modes.update(
            idx,
            ModeInfo::Target(
                TargetMode {
                    vsync_numerator: s.frequency.0,
                    vsync_denominator: 1,
                    ..modes[idx]->Target_0
                },
            ),
        )
    } else {
        modes
    }
}

/// The path with orientation and scaling of `s` written into it.
pub open spec fn with_path_info(p: PathInfoView, s: DisplaySettings) -> PathInfoView {
    PathInfoView { rotation: s.orientation.rotation(), scaling: s.scaling.value(), ..p }
}

/// The path and mode arrays after the staged settings of one display have
/// been written into them. An inactive display, one without settings and
/// one whose name no path carries change nothing.
pub open spec fn folded_one(
    paths: Seq<PathInfoView>,
    modes: Seq<ModeInfo>,
    d: DisplayPropertiesView,
) -> (Seq<PathInfoView>, Seq<ModeInfo>) {
    let k = find_path(paths, d.name, 0);
    if d.active && d.settings is Some && 0 <= k < paths.len() {
        let s = d.settings.unwrap();
        (
            paths.update(k, with_path_info(paths[k], s)),
            with_target_mode(
                with_source_mode(modes, paths[k].source_mode as int, s),
                paths[k].target_mode as int,
                s,
            ),
        )
    } else {
        (paths, modes)
    }
}

/// The path and mode arrays after the staged settings of the first `upto`
/// displays have been written into them, in the order of the displays.
pub open spec fn folded(
    paths: Seq<PathInfoView>,
    modes: Seq<ModeInfo>,
    displays: Seq<DisplayPropertiesView>,
    upto: int,
) -> (Seq<PathInfoView>, Seq<ModeInfo>)
    decreases upto,
{
    if upto <= 0 || upto > displays.len() {
        (paths, modes)
    } else {
        let before = folded(paths, modes, displays, upto - 1);
        folded_one(before.0, before.1, displays[upto - 1])
    }
}

impl DisplaySetView {
    /// The error that keeps the staged settings from being committed, if
    /// there is one: an active display has no settings. Of several such
    /// displays the first is named.
    pub open spec fn missing_settings(self) -> Option<DisplayErrorView> {
        if first_unsettled(self.displays, 0) < self.displays.len() {
            Some(DisplayErrorView::NoSettings(self.displays[first_unsettled(self.displays, 0)].name))
        } else {
            None
        }
    }

    /// The set after the staged settings of all displays have been written
    /// into its path and mode arrays.
    pub open spec fn applied(self) -> DisplaySetView {
        let arrays = folded(self.paths, self.modes, self.displays, self.displays.len() as int);
        DisplaySetView { paths: arrays.0, modes: arrays.1, ..self }
    }
}

impl DisplaySet {
    /// Finds the first path whose source has the name `display_name`.
    pub fn find_path_for_display(paths: &Vec<PathInfo>, display_name: &str) -> (res: Option<usize>)
        ensures
            match res {
                Some(k) => k == find_path(path_views(paths@), display_name@, 0) && k < paths@.len(),
                None => find_path(path_views(paths@), display_name@, 0) == paths@.len(),
            },
    {
        let n = paths.len();
        let mut i: usize = 0;
        while i < n
            invariant
                i <= n,
                n == paths@.len(),
                find_path(path_views(paths@), display_name@, 0) == find_path(
                    path_views(paths@),
                    display_name@,
                    i as int,
                ),
            decreases n - i,
        {
            let found = match &paths[i].source_name {
                Some(name) => same_text(name.as_str(), display_name),
                None => false,
            };
            assert(found == (path_views(paths@)[i as int].source_name == Some(display_name@)));
            if found {
                return Some(i);
            }
            i = i + 1;
        }
        None
    }

    /// Writes position and resolution into the source mode of index `idx`.
    pub fn update_source_mode(modes: &mut Vec<ModeInfo>, idx: usize, settings: &DisplaySettings)
        ensures
            final(modes)@ == with_source_mode(old(modes)@, idx as int, *settings),
    {
        if idx >= modes.len() {
            return ;
        }
        match modes[idx] {
            ModeInfo::Source(m) => {
                modes.set(
                    idx,
                    ModeInfo::Source(
                        SourceMode {
                            position: settings.position,
                            width: settings.resolution.width,
                            height: settings.resolution.height,
                            ..m
                        },
                    ),
                );
            },
            _ => {},
        }
    }

    /// Writes the frequency into the target mode of index `idx`, as a
    /// fraction over one.
    pub fn update_target_mode(modes: &mut Vec<ModeInfo>, idx: usize, settings: &DisplaySettings)
        ensures
            final(modes)@ == with_target_mode(old(modes)@, idx as int, *settings),
    {
        if idx >= modes.len() {
            return ;
        }
        match modes[idx] {
            ModeInfo::Target(m) => {
                modes.set(
                    idx,
                    ModeInfo::Target(
                        TargetMode {
                            vsync_numerator: settings.frequency.0,
                            vsync_denominator: 1,
                            ..m
                        },
                    ),
                );
            },
            _ => {},
        }
    }

    /// Writes orientation and scaling into a path.
    pub fn update_path_info(path: &mut PathInfo, settings: &DisplaySettings)
        ensures
            final(path)@ == with_path_info(old(path)@, *settings),
    {
        path.rotation = settings.orientation.to_rotation();
        path.scaling = settings.scaling.to_value();
    }

    /// Finds the first active display that has no settings.
    fn first_without_settings(&self) -> (res: Option<usize>)
        ensures
            match res {
                Some(k) => k == first_unsettled(self@.displays, 0) && k < self@.displays.len(),
                None => first_unsettled(self@.displays, 0) == self@.displays.len(),
            },
    {
        let n = self.displays.len();
        let mut i: usize = 0;
        while i < n
            invariant
                i <= n,
                n == self.displays@.len(),
                first_unsettled(self@.displays, 0) == first_unsettled(self@.displays, i as int),
            decreases n - i,
        {
            if self.displays[i].active && self.displays[i].settings.is_none() {
                return Some(i);
            }
            i = i + 1;
        }
        None
    }

    /// Writes the staged settings of every active display into the path and
    /// mode arrays, ready for one commit of the whole topology. A display is
    /// matched to its path by name; position and resolution go to the path's
    /// source mode, the frequency to its target mode, orientation and scaling
    /// to the path itself. The displays themselves are not changed.
    ///
    /// Nothing is written unless every active display has settings: where
    /// one has none, the arrays stay as they are, the error names that
    /// display, and there is nothing to commit.
    pub fn apply(&mut self) -> (res: Result<(), DisplayError>)
        ensures
            match res {
                Ok(_) => old(self)@.missing_settings() is None && final(self)@ == old(
                    self,
                )@.applied(),
                Err(e) => old(self)@.missing_settings() == Some(e@) && final(self)@ == old(self)@,
            },
            old(self).wf() ==> final(self).wf(),
    {
        match self.first_without_settings() {
            Some(k) => {
                return Err(DisplayError::NoSettings(self.displays[k].name.clone()));
            },
            None => {},
        }
        let n = self.displays.len();
        let mut i: usize = 0;
        while i < n
            invariant
                i <= n,
                n == self.displays@.len(),
                self.displays == old(self).displays,
                self.primary_display == old(self).primary_display,
                (path_views(self.paths@), self.modes@) == folded(
                    old(self)@.paths,
                    old(self)@.modes,
                    old(self)@.displays,
                    i as int,
                ),
            decreases n - i,
        {
            let ghost before_paths = path_views(self.paths@);
            let ghost before_modes = self.modes@;
            let ghost d = self.displays@[i as int]@;
            assert(old(self)@.displays[i as int] == d);
            if self.displays[i].active {
                match DisplaySet::find_path_for_display(&self.paths, self.displays[i].name.as_str()) {
                    Some(k) => {
                        match self.displays[i].settings {
                            Some(settings) => {
                                let source_idx = self.paths[k].source_mode as usize;
                                let target_idx = self.paths[k].target_mode as usize;
                                DisplaySet::update_source_mode(
                                    &mut self.modes,
                                    source_idx,
                                    &settings,
                                );
                                DisplaySet::update_target_mode(
                                    &mut self.modes,
                                    target_idx,
                                    &settings,
                                );
                                DisplaySet::update_path_info(&mut self.paths[k], &settings);
                                assert(path_views(self.paths@) =~= before_paths.update(
                                    k as int,
                                    with_path_info(before_paths[k as int], settings),
                                ));
                            },
                            None => {},
                        }
                    },
                    None => {},
                }
            }
            assert((path_views(self.paths@), self.modes@) == folded_one(
                before_paths,
                before_modes,
                d,
            ));
            i = i + 1;
        }
        Ok(())
    }
}

impl DisplaySetView {
    /// The set with other settings staged for the display of index `index`,
    /// if that display exists and has settings; the set itself otherwise.
    pub open spec fn with_settings(self, index: int, settings: DisplaySettings) -> DisplaySetView {
        if 0 <= index < self.displays.len() && self.displays[index].settings is Some {
            DisplaySetView {
                displays: self.displays.update(
                    index,
                    DisplayPropertiesView { settings: Some(settings), ..self.displays[index] },
                ),
                ..self
            }
        } else {
            self
        }
    }
}

/// One display of a set: a view that names the display by its index and
/// reads everything else from the set.
#[derive(Debug, Clone, Copy)]
pub struct Display<'a> {
    index: usize,
    display_set: &'a DisplaySet,
}

impl<'a> Display<'a> {
    #[verifier::type_invariant]
    spec fn in_range(self) -> bool {
        self.index < self.display_set.displays@.len()
    }

    /// The index of the display in its set.
    pub closed spec fn position_in_set(&self) -> int {
        self.index as int
    }

    /// The set that the display belongs to.
    pub closed spec fn owner(&self) -> DisplaySetView {
        self.display_set@
    }

    /// What the set holds of the display.
    pub open spec fn properties(&self) -> DisplayPropertiesView {
        self.owner().displays[self.position_in_set()]
    }

    /// The index of the display in its set.
    pub fn index(&self) -> (res: usize)
        ensures
            res == self.position_in_set(),
            res < self.owner().displays.len(),
            res < usize::MAX,
    {
        proof {
            use_type_invariant(self);
        }
        let count = self.display_set.displays.len();
        assert(self.index < count);
        self.index
    }

    /// The name by which the platform addresses the display.
    pub fn name(&self) -> (res: &str)
        ensures
            res@ == self.properties().name,
    {
        proof {
            use_type_invariant(self);
        }
        self.display_set.displays[self.index].name.as_str()
    }

    /// The description of the display for people.
    pub fn string(&self) -> (res: &str)
        ensures
            res@ == self.properties().string,
    {
        proof {
            use_type_invariant(self);
        }
        self.display_set.displays[self.index].string.as_str()
    }

    /// The key under which the platform keeps the display's identity.
    pub fn key(&self) -> (res: &str)
        ensures
            res@ == self.properties().key,
    {
        proof {
            use_type_invariant(self);
        }
        self.display_set.displays[self.index].key.as_str()
    }

    /// The settings staged for the display; an inactive display has none.
    pub fn settings(&self) -> (res: Option<DisplaySettings>)
        ensures
            res == self.properties().settings,
    {
        proof {
            use_type_invariant(self);
        }
        self.display_set.displays[self.index].settings
    }

    /// The connector of the display, where the platform tells it.
    pub fn connector_type(&self) -> (res: Option<ConnectorType>)
        ensures
            res == self.properties().connector_type,
    {
        proof {
            use_type_invariant(self);
        }
        self.display_set.displays[self.index].connector_type
    }

    /// Whether the display can be driven at the moment.
    pub fn target_available(&self) -> (res: bool)
        ensures
            res == self.properties().target_available,
    {
        proof {
            use_type_invariant(self);
        }
        self.display_set.displays[self.index].target_available
    }

    /// Whether the display is attached to the desktop.
    pub fn is_active(&self) -> (res: bool)
        ensures
            res == self.properties().active,
    {
        proof {
            use_type_invariant(self);
        }
        self.display_set.displays[self.index].active
    }

    /// Prepares the commit call of the per-device interface that stores the
    /// settings staged for this display. A display without settings cannot
    /// be committed.
    pub fn apply(&self) -> (res: Result<CommitRequest, DisplayError>)
        ensures
            match res {
                Ok(request) => commit_prepared(
                    self.properties(),
                    Ok::<CommitRequest, DisplayPropertiesError>(request),
                ),
                Err(e) => self.properties().settings is None && e@ == DisplayErrorView::Properties(
                    PropertiesErrorView::NoSettings(self.properties().name),
                ),
            },
    {
        proof {
            use_type_invariant(self);
        }
        match self.display_set.displays[self.index].apply() {
            Ok(request) => Ok(request),
            Err(e) => Err(DisplayError::from(e)),
        }
    }

    /// Whether the primary pointer of the set names this display.
    pub fn is_primary(&self) -> (res: bool)
        ensures
            res == (self.owner().primary == self.position_in_set()),
            self.owner().wf() ==> res == self.properties().primary,
    {
        proof {
            use_type_invariant(self);
        }
        self.display_set.primary_display == self.index
    }
}

impl DisplaySet {
    /// All displays of the set, in the order of their indices.
    pub fn displays(&self) -> (res: Vec<Display<'_>>)
        ensures
            res@.len() == self@.displays.len(),
            forall|i: int|
                0 <= i < res@.len() ==> (#[trigger] res@[i]).position_in_set() == i
                    && res@[i].owner() == self@,
    {
        let n = self.displays.len();
        let mut out: Vec<Display<'_>> = Vec::new();
        let mut i: usize = 0;
        while i < n
            invariant
                i <= n,
                n == self.displays@.len(),
                out@.len() == i,
                forall|j: int|
                    0 <= j < i ==> (#[trigger] out@[j]).position_in_set() == j && out@[j].owner()
                        == self@,
            decreases n - i,
        {
            out.push(Display { index: i, display_set: self });
            i = i + 1;
        }
        out
    }

    /// The display of index `index`, if there is one.
    pub fn get(&self, index: usize) -> (res: Option<Display<'_>>)
        ensures
            match res {
                Some(d) => index < self@.displays.len() && d.position_in_set() == index
                    && d.owner() == self@,
                None => index >= self@.displays.len(),
            },
    {
        if index >= self.displays.len() {
            return None;
        }
        Some(Display { index, display_set: self })
    }

    /// The primary display, if the set has one.
    pub fn primary(&self) -> (res: Option<Display<'_>>)
        ensures
            match res {
                Some(d) => self@.primary < self@.displays.len() && d.position_in_set()
                    == self@.primary && d.owner() == self@,
                None => self@.primary >= self@.displays.len(),
            },
    {
        self.get(self.primary_display)
    }

    /// Stages other settings for the display of index `index`. Tells whether
    /// they were taken: a display that does not exist or has no settings is
    /// left alone.
    pub fn update_settings(&mut self, index: usize, settings: DisplaySettings) -> (res: bool)
        ensures
            res == (index < old(self)@.displays.len() && old(
                self,
            )@.displays[index as int].settings is Some),
            final(self)@ == old(self)@.with_settings(index as int, settings),
            old(self).wf() ==> final(self).wf(),
    {
        if index >= self.displays.len() || self.displays[index].settings.is_none() {
            return false;
        }
        self.displays[index].settings = Some(settings);
        proof {
            assert(self@.displays =~= old(self)@.with_settings(index as int, settings).displays);
        }
        true
    }

    /// Stages each given property for the display of index `index`, and
    /// leaves its other settings as they are. Tells whether the display
    /// exists and has settings; if not, nothing is changed.
    pub fn set_properties(
        &mut self,
        index: usize,
        position: Option<Position>,
        resolution: Option<Resolution>,
        frequency: Option<Frequency>,
        orientation: Option<Orientation>,
    ) -> (res: bool)
        ensures
            res == (index < old(self)@.displays.len() && old(
                self,
            )@.displays[index as int].settings is Some),
            res ==> final(self)@ == old(self)@.with_settings(
                index as int,
                old(self)@.displays[index as int].settings.unwrap().with_properties(
                    position,
                    resolution,
                    frequency,
                    orientation,
                ),
            ),
            !res ==> final(self)@ == old(self)@,
            old(self).wf() ==> final(self).wf(),
    {
        if index >= self.displays.len() {
            return false;
        }
        match self.displays[index].settings {
            None => false,
            Some(staged) => {
                let mut settings = staged;
                settings.set_properties(position, resolution, frequency, orientation);
                self.update_settings(index, settings)
            },
        }
    }

    /// The path array, as the last `apply` left it.
    pub fn paths(&self) -> (res: &Vec<PathInfo>)
        ensures
            path_views(res@) == self@.paths,
    {
        &self.paths
    }

    /// The mode array, as the last `apply` left it.
    pub fn modes(&self) -> (res: &Vec<ModeInfo>)
        ensures
            res@ == self@.modes,
    {
        &self.modes
    }
}

/// The indices below `upto` of the active displays whose primary flag is
/// `primary`, in rising order.
pub open spec fn commit_part(displays: Seq<DisplayPropertiesView>, upto: int, primary: bool) -> Seq<
    int,
>
    decreases upto,
{
    if upto <= 0 || upto > displays.len() {
        Seq::empty()
    } else if displays[upto - 1].active && displays[upto - 1].primary == primary {
        commit_part(displays, upto - 1, primary).push(upto - 1)
    } else {
        commit_part(displays, upto - 1, primary)
    }
}

/// The order in which the displays are committed one by one: every active
/// display once, the primary display before all others, and within each of
/// the two groups by rising index.
pub open spec fn commit_order(displays: Seq<DisplayPropertiesView>) -> Seq<int> {
    commit_part(displays, displays.len() as int, true) + commit_part(
        displays,
        displays.len() as int,
        false,
    )
}

/// A list of indices as mathematical integers.
pub open spec fn indices(v: Seq<usize>) -> Seq<int> {
    Seq::new(v.len(), |k: int| v[k] as int)
}

/// What `commit_part` holds: indices below `upto`, in strictly rising order,
/// of active displays with the wanted primary flag, and all of those.
pub proof fn lemma_commit_part(displays: Seq<DisplayPropertiesView>, upto: int, primary: bool)
    requires
        0 <= upto <= displays.len(),
    ensures
        commit_part(displays, upto, primary).len() <= upto,
        forall|k: int|
            0 <= k < commit_part(displays, upto, primary).len() ==> {
                let i = #[trigger] commit_part(displays, upto, primary)[k];
                0 <= i < upto && displays[i].active && displays[i].primary == primary
            },
        forall|k: int, l: int|
            0 <= k < l < commit_part(displays, upto, primary).len() ==> commit_part(
                displays,
                upto,
                primary,
            )[k] < commit_part(displays, upto, primary)[l],
        forall|i: int|
            0 <= i < upto && (#[trigger] displays[i]).active && displays[i].primary == primary
                ==> commit_part(displays, upto, primary).contains(i),
    decreases upto,
{
    if upto > 0 {
        lemma_commit_part(displays, upto - 1, primary);
        let before = commit_part(displays, upto - 1, primary);
        let now = commit_part(displays, upto, primary);
        if displays[upto - 1].active && displays[upto - 1].primary == primary {
            assert(now[now.len() - 1] == upto - 1);
            assert forall|i: int|
                0 <= i < upto && (#[trigger] displays[i]).active && displays[i].primary
                    == primary implies now.contains(i) by {
                if i < upto - 1 {
                    let k = choose|k: int| 0 <= k < before.len() && before[k] == i;
                    assert(now[k] == i);
                } else {
                    assert(now[now.len() - 1] == i);
                }
            }
        }
    }
}

impl DisplaySet {
    /// The order in which the per-device interface commits the displays:
    /// each active display once, the primary display first.
    pub fn commit_order(&self) -> (res: Vec<usize>)
        ensures
            indices(res@) == commit_order(self@.displays),
            forall|k: int| 0 <= k < res@.len() ==> (#[trigger] res@[k]) < self@.displays.len(),
    {
        let n = self.displays.len();
        let ghost ds = self@.displays;
        let mut out: Vec<usize> = Vec::new();
        let mut i: usize = 0;
        assert(indices(out@) =~= commit_part(ds, 0, true));
        while i < n
            invariant
                i <= n,
                n == self.displays@.len(),
                ds == self@.displays,
                indices(out@) == commit_part(ds, i as int, true),
                forall|k: int| 0 <= k < out@.len() ==> (#[trigger] out@[k]) < n,
            decreases n - i,
        {
            let ghost before = out@;
            if self.displays[i].active && self.displays[i].primary {
                out.push(i);
                assert(indices(out@) =~= indices(before).push(i as int));
            }
            i = i + 1;
        }
        let ghost first = out@;
        let mut j: usize = 0;
        assert(indices(out@) =~= commit_part(ds, n as int, true) + commit_part(ds, 0, false));
        while j < n
            invariant
                j <= n,
                n == self.displays@.len(),
                ds == self@.displays,
                indices(out@) == commit_part(ds, n as int, true) + commit_part(
                    ds,
                    j as int,
                    false,
                ),
                forall|k: int| 0 <= k < out@.len() ==> (#[trigger] out@[k]) < n,
            decreases n - j,
        {
            let ghost before = out@;
            if self.displays[j].active && !self.displays[j].primary {
                out.push(j);
                assert(indices(out@) =~= indices(before).push(j as int));
                assert(indices(out@) =~= commit_part(ds, n as int, true) + commit_part(
                    ds,
                    j as int + 1,
                    false,
                ));
            }
            j = j + 1;
        }
        out
    }

    /// The commit calls of the per-device interface, in the order in which
    /// they are to be issued: one entry for each active display, the primary
    /// display first. An entry is the prepared call, or the error for a
    /// display without settings; whoever issues the calls stops at the first
    /// error, or at the first call that the platform refuses.
    pub fn commit_plan(&self) -> (res: Vec<Result<CommitRequest, DisplayPropertiesError>>)
        ensures
            res@.len() == commit_order(self@.displays).len(),
            forall|k: int|
                0 <= k < res@.len() ==> {
                    let i = commit_order(self@.displays)[k];
                    0 <= i < self@.displays.len() && commit_prepared(
                        self@.displays[i],
                        #[trigger] res@[k],
                    )
                },
    {
        let order = self.commit_order();
        let m = order.len();
        let mut plan: Vec<Result<CommitRequest, DisplayPropertiesError>> = Vec::new();
        let mut k: usize = 0;
        while k < m
            invariant
                k <= m,
                m == order@.len(),
                indices(order@) == commit_order(self@.displays),
                forall|l: int| 0 <= l < order@.len() ==> (#[trigger] order@[l]) < self@.displays.len(),
                plan@.len() == k,
                forall|l: int|
                    0 <= l < k ==> {
                        let i = commit_order(self@.displays)[l];
                        0 <= i < self@.displays.len() && commit_prepared(
                            self@.displays[i],
                            #[trigger] plan@[l],
                        )
                    },
            decreases m - k,
        {
            let i = order[k];
            assert(indices(order@)[k as int] == i);
            let entry = self.displays[i].apply();
            plan.push(entry);
            k = k + 1;
        }
        plan
    }
}

impl DisplaySetView {
    /// What comes next in a batch of one-by-one commits, after `position`
    /// commit calls have been issued and the last of them was answered with
    /// `last_status` (`None` before the first call).
    ///
    /// A status other than zero ends the batch with the error that carries
    /// it: no call follows a failed one. Otherwise the display at `position`
    /// of the commit order is next, named by its index; if it has no
    /// settings the batch ends with the error that names it. After the last
    /// display the batch is done.
    pub open spec fn batch_step(self, position: int, last_status: Option<i32>) -> Result<
        Option<int>,
        DisplayErrorView,
    > {
        let order = commit_order(self.displays);
        if last_status is Some && last_status.unwrap() != 0 {
            Err(
                DisplayErrorView::Properties(PropertiesErrorView::ApplyFailed(last_status.unwrap())),
            )
        } else if position < 0 || position >= order.len() {
            Ok(None)
        } else if self.displays[order[position]].settings is None {
            Err(
                DisplayErrorView::Properties(
                    PropertiesErrorView::NoSettings(self.displays[order[position]].name),
                ),
            )
        } else {
            Ok(Some(order[position]))
        }
    }
}

impl DisplaySet {
    /// Decides the next step of a batch of one-by-one commits. `position` is
    /// the number of commit calls issued so far, `last_status` the status
    /// with which the platform answered the last of them, or `None` before
    /// the first.
    ///
    /// `Ok(Some(request))` is the call to issue next, `Ok(None)` says that
    /// every active display has been committed. An error ends the batch:
    /// after a status other than zero no further call is prepared, and the
    /// displays committed before stay committed.
    pub fn commit_step(&self, position: usize, last_status: Option<i32>) -> (res: Result<
        Option<CommitRequest>,
        DisplayError,
    >)
        ensures
            match res {
                Ok(Some(request)) => self@.batch_step(position as int, last_status) matches Ok(
                    Some(i),
                ) && 0 <= i < self@.displays.len() && commit_prepared(
                    self@.displays[i],
                    Ok::<CommitRequest, DisplayPropertiesError>(request),
                ),
                Ok(None) => self@.batch_step(position as int, last_status) == Ok::<
                    Option<int>,
                    DisplayErrorView,
                >(None),
                Err(e) => self@.batch_step(position as int, last_status) == Err::<
                    Option<int>,
                    DisplayErrorView,
                >(e@),
            },
    {
        match last_status {
            Some(status) => {
                if status != 0 {
                    return Err(DisplayError::Properties(DisplayPropertiesError::ApplyFailed(status)));
                }
            },
            None => {},
        }
        let order = self.commit_order();
        if position >= order.len() {
            return Ok(None);
        }
        let i = order[position];
        assert(indices(order@)[position as int] == i);
        match self.displays[i].apply() {
            Ok(request) => Ok(Some(request)),
            Err(e) => Err(DisplayError::Properties(e)),
        }
    }
}

/// The lines that describe the first `upto` displays: each display on a
/// line of its own, indented, with a comma after every line but the last.
pub open spec fn displays_text(displays: Seq<DisplayPropertiesView>, upto: int) -> Seq<char>
    decreases upto,
{
    if upto <= 0 || upto > displays.len() {
        Seq::empty()
    } else if upto == 1 {
        "    "@ + properties_text(displays[0])
    } else {
        displays_text(displays, upto - 1) + ", \n"@ + "    "@ + properties_text(
            displays[upto - 1],
        )
    }
}

impl DisplaySetView {
    /// The text that describes the set: its displays, line by line.
    pub open spec fn text(self) -> Seq<char> {
        "DisplaySet { displays: [\n"@ + displays_text(self.displays, self.displays.len() as int)
            + "\n] }"@
    }
}

impl DisplaySet {
    /// Describes the set in words, one line for each display.
    pub fn to_string(&self) -> (res: String)
        ensures
            res@ == self@.text(),
    {
        let mut out = String::from_str("DisplaySet { displays: [\n");
        let ghost head = out@;
        let n = self.displays.len();
        let mut i: usize = 0;
        assert(out@ =~= head + displays_text(self@.displays, 0));
        while i < n
            invariant
                i <= n,
                n == self.displays@.len(),
                head == "DisplaySet { displays: [\n"@,
                out@ == head + displays_text(self@.displays, i as int),
            decreases n - i,
        {
            let ghost before = out@;
            if i > 0 {
                out.append(", \n");
            }
            out.append("    ");
            let line = self.displays[i].to_string();
            out.append(line.as_str());
            assert(self@.displays[i as int] == self.displays@[i as int]@);
            assert(out@ =~= head + displays_text(self@.displays, i as int + 1));
            i = i + 1;
        }
        out.append("\n] }");
        out
    }
}

} // verus!
