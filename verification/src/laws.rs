//! What holds of every set of displays: of a change of its primary display,
//! of the order of its commits, and of the way it is read from the platform.

use vstd::prelude::*;
use crate::display::{
    commit_order, commit_part, first_unsettled, lemma_commit_part, lemma_first_unsettled,
    DisplayErrorView, DisplaySetView,
};
use crate::display::{ModeInfo, PathInfoView};
use crate::properties::{DisplayPropertiesView, PropertiesErrorView};
use crate::query::{
    queried, truncated, DeviceEnumerationView, EnumerateOutcome, ERROR_INVALID_HANDLE,
};
use crate::types::Position;

verus! {

/// Taking a position relative to an origin, and the result relative to the
/// mirrored origin, gives the position back: coordinates wrap around, so
/// nothing is lost on the way.
pub proof fn lemma_translation_cancels(p: Position, origin: Position)
    ensures
        p.minus(origin).minus(origin.negated()) == p,
        p.minus(Position::origin()) == p,
        origin.negated().negated() == origin,
        p.minus(origin).minus(p.minus(origin)) == Position::origin(),
{
}

/// Moving the origin twice is moving it once: a position taken relative to
/// `a` and then relative to where `b` lies from `a` is the position relative
/// to `b`.
pub proof fn lemma_translation_composes(p: Position, a: Position, b: Position)
    ensures
        p.minus(a).minus(b.minus(a)) == p.minus(b),
{
}

/// Among the first `upto` displays of a reassigned set, the new primary
/// display is the only one that is flagged primary.
pub proof fn lemma_primary_count(v: DisplaySetView, index: int, upto: int)
    requires
        v.reassignment_error(index) is None,
        0 <= upto <= v.displays.len(),
    ensures
        v.reassigned(index).primary_count(upto) == (if index < upto {
            1nat
        } else {
            0nat
        }),
    decreases upto,
{
    if upto > 0 {
        lemma_primary_count(v, index, upto - 1);
    }
}

/// After a display has become primary, it lies at the origin and is flagged
/// primary, the primary pointer names it, and no other display of the set is
/// flagged primary: exactly one is.
pub proof fn lemma_one_primary_at_origin(v: DisplaySetView, index: int)
    requires
        v.reassignment_error(index) is None,
    ensures
        v.reassigned(index).primary == index,
        v.reassigned(index).displays.len() == v.displays.len(),
        v.reassigned(index).displays[index].primary,
        v.reassigned(index).displays[index].active,
        v.reassigned(index).positions()[index] == Some(Position::origin()),
        forall|i: int|
            0 <= i < v.displays.len() && i != index ==> !(#[trigger] v.reassigned(
                index,
            ).displays[i]).primary,
        v.reassigned(index).primary_count(v.displays.len() as int) == 1,
{
    lemma_primary_count(v, index, v.displays.len() as int);
}

/// After a display has become primary, every other active display lies where
/// it lay before, seen from the new origin; nothing else of it has changed,
/// and inactive displays keep what they had.
pub proof fn lemma_others_translated(v: DisplaySetView, index: int, i: int)
    requires
        v.reassignment_error(index) is None,
        0 <= i < v.displays.len(),
        i != index,
    ensures
        v.displays[i].active ==> v.displays[i].settings is Some && v.reassigned(
            index,
        ).positions()[i] == Some(
            v.displays[i].settings.unwrap().position.minus(
                v.displays[index].settings.unwrap().position,
            ),
        ),
        !v.displays[i].active ==> v.reassigned(index).displays[i].settings
            == v.displays[i].settings,
        v.reassigned(index).displays[i].name == v.displays[i].name,
        v.reassigned(index).displays[i].active == v.displays[i].active,
{
    lemma_first_unsettled(v.displays, 0);
}

/// A display that could become primary before another did can still become
/// primary afterwards: a reassignment takes no settings away and deactivates
/// nothing.
pub proof fn lemma_reassignment_stays_possible(v: DisplaySetView, first: int, then: int)
    requires
        v.reassignment_error(first) is None,
        v.reassignment_error(then) is None,
    ensures
        v.reassigned(first).reassignment_error(then) is None,
{
    let r = v.reassigned(first);
    lemma_first_unsettled(v.displays, 0);
    lemma_first_unsettled(r.displays, 0);
    let k = first_unsettled(r.displays, 0);
    if k < r.displays.len() {
        assert(r.displays[k].active && r.displays[k].settings is None);
        assert(v.displays[k].active && v.displays[k].settings is None);
    }
}

/// Making `a` primary, then `b`, then `a` again gives the set as it was
/// after `a` first became primary: every position, flag and setting is
/// restored exactly. If `a` lay at the origin to begin with, the positions
/// are those of the set before the first step.
pub proof fn lemma_there_and_back(v: DisplaySetView, a: int, b: int)
    requires
        v.reassignment_error(a) is None,
        v.reassignment_error(b) is None,
    ensures
        v.reassigned(a).reassignment_error(b) is None,
        v.reassigned(a).reassigned(b).reassignment_error(a) is None,
        v.reassigned(a).reassigned(b).reassigned(a) == v.reassigned(a),
        v.positions()[a] == Some(Position::origin()) ==> v.reassigned(a).reassigned(b).reassigned(
            a,
        ).positions() == v.positions(),
{
    let v1 = v.reassigned(a);
    lemma_reassignment_stays_possible(v, a, b);
    lemma_reassignment_stays_possible(v, a, a);
    let v2 = v1.reassigned(b);
    lemma_reassignment_stays_possible(v1, b, a);
    let v3 = v2.reassigned(a);
    lemma_first_unsettled(v.displays, 0);
    let pa = v.displays[a].settings.unwrap().position;
    let pb = v.displays[b].settings.unwrap().position;
    assert forall|i: int| 0 <= i < v.displays.len() implies v3.displays[i] == v1.displays[i] by {
        if v.displays[i].settings is Some {
            let p = v.displays[i].settings.unwrap().position;
            lemma_translation_cancels(p.minus(pa), pb.minus(pa));
            lemma_translation_composes(p, pa, pb);
            lemma_translation_cancels(pb, pa);
        }
    }
    assert(v3.displays =~= v1.displays);
    if v.positions()[a] == Some(Position::origin()) {
        assert forall|i: int| 0 <= i < v.displays.len() implies v1.positions()[i]
            == v.positions()[i] by {
            if v.displays[i].settings is Some {
                lemma_translation_cancels(v.displays[i].settings.unwrap().position, pa);
            }
        }
        assert(v3.positions() =~= v.positions());
    }
}

/// Where the display that is to become primary exists and is active, and
/// some active display has no settings, the reassignment is refused for
/// missing settings.
pub proof fn lemma_missing_settings_refused(v: DisplaySetView, index: int, without: int)
    requires
        0 <= index < v.displays.len(),
        v.displays[index].active,
        0 <= without < v.displays.len(),
        v.displays[without].active,
        v.displays[without].settings is None,
    ensures
        v.reassignment_error(index) matches Some(DisplayErrorView::NoSettings(_)),
{
    lemma_first_unsettled(v.displays, 0);
}

/// In the order of the one-by-one commits, no display that is not primary
/// comes before the primary display.
pub proof fn lemma_primary_committed_first(displays: Seq<DisplayPropertiesView>, i: int, j: int)
    requires
        0 <= i < j < commit_order(displays).len(),
    ensures
        0 <= commit_order(displays)[i] < displays.len(),
        0 <= commit_order(displays)[j] < displays.len(),
        displays[commit_order(displays)[j]].primary ==> displays[commit_order(displays)[i]].primary,
{
    lemma_commit_part(displays, displays.len() as int, true);
    lemma_commit_part(displays, displays.len() as int, false);
}

/// The order of the one-by-one commits holds every active display exactly
/// once, and no other.
pub proof fn lemma_commit_order_complete(displays: Seq<DisplayPropertiesView>)
    ensures
        forall|k: int|
            0 <= k < commit_order(displays).len() ==> 0 <= (#[trigger] commit_order(displays)[k])
                < displays.len() && displays[commit_order(displays)[k]].active,
        forall|k: int, l: int|
            0 <= k < l < commit_order(displays).len() ==> commit_order(displays)[k]
                != commit_order(displays)[l],
        forall|i: int|
            0 <= i < displays.len() && (#[trigger] displays[i]).active ==> commit_order(
                displays,
            ).contains(i),
{
    let n = displays.len() as int;
    let first = commit_part(displays, n, true);
    let second = commit_part(displays, n, false);
    let order = commit_order(displays);
    lemma_commit_part(displays, n, true);
    lemma_commit_part(displays, n, false);
    assert forall|k: int, l: int| 0 <= k < l < order.len() implies order[k] != order[l] by {
        if l < first.len() {
            assert(first[k] < first[l]);
        } else if k >= first.len() {
            assert(second[k - first.len()] < second[l - first.len()]);
        } else {
            assert(displays[first[k]].primary);
            assert(!displays[second[l - first.len()]].primary);
        }
    }
    assert forall|i: int| 0 <= i < displays.len() && (#[trigger] displays[i]).active implies order.contains(
        i,
    ) by {
        if displays[i].primary {
            let k = choose|k: int| 0 <= k < first.len() && first[k] == i;
            assert(order[k] == i);
        } else {
            let k = choose|k: int| 0 <= k < second.len() && second[k] == i;
            assert(order[first.len() + k] == i);
        }
    }
}

/// The error code by which the platform says that there are no more devices
/// ends an enumeration as "no more devices" does: the displays seen so far
/// stand, and no error comes of it.
pub proof fn lemma_invalid_handle_ends_enumeration(state: DeviceEnumerationView)
    ensures
        state.advanced(EnumerateOutcome::Failed(ERROR_INVALID_HANDLE)) is Ok,
        state.advanced(EnumerateOutcome::Failed(ERROR_INVALID_HANDLE)) == state.advanced(
            EnumerateOutcome::NoMoreDevices,
        ),
        state.advanced(EnumerateOutcome::NoMoreDevices) matches Ok(after) && after.finished
            && after.displays == state.displays,
{
}

/// Two answers of the platform that say the same give the same set of
/// displays: a query adds nothing of its own to what the platform told.
pub proof fn lemma_query_repeats(
    paths: Seq<PathInfoView>,
    modes: Seq<ModeInfo>,
    num_paths: u32,
    num_modes: u32,
    again_paths: Seq<PathInfoView>,
    again_modes: Seq<ModeInfo>,
)
    requires
        truncated(paths, num_paths as int) == truncated(again_paths, num_paths as int),
        truncated(modes, num_modes as int) == truncated(again_modes, num_modes as int),
    ensures
        queried(paths, modes, num_paths, num_modes) == queried(
            again_paths,
            again_modes,
            num_paths,
            num_modes,
        ),
{
}

/// A set with an active display has a primary display: the pointer names
/// a display of the set, which is active and is the one flagged primary.
pub proof fn lemma_active_set_has_primary(v: DisplaySetView, active: int)
    requires
        v.wf(),
        0 <= active < v.displays.len(),
        v.displays[active].active,
    ensures
        0 <= v.primary < v.displays.len(),
        v.displays[v.primary].active,
        v.displays[v.primary].primary,
        forall|i: int|
            0 <= i < v.displays.len() && i != v.primary ==> !(#[trigger] v.displays[i]).primary,
{
}

/// In a batch of one-by-one commits no call follows a failed one: whatever
/// the position, a status other than zero ends the batch with the error
/// that carries it.
pub proof fn lemma_batch_stops_at_failure(v: DisplaySetView, position: int, status: i32)
    requires
        status != 0,
    ensures
        v.batch_step(position, Some(status)) == Err::<Option<int>, DisplayErrorView>(
            DisplayErrorView::Properties(PropertiesErrorView::ApplyFailed(status)),
        ),
{
}

/// While every call succeeds, a batch of one-by-one commits walks the commit
/// order from its start: the call at each position is for the display at
/// that position of the order, and after the last one the batch is done.
pub proof fn lemma_batch_follows_order(v: DisplaySetView, position: int, last_status: Option<i32>)
    requires
        0 <= position,
        last_status is None || last_status == Some(0i32),
        forall|i: int|
            0 <= i < v.displays.len() && (#[trigger] v.displays[i]).active
                ==> v.displays[i].settings is Some,
    ensures
        position < commit_order(v.displays).len() ==> v.batch_step(position, last_status) == Ok::<
            Option<int>,
            DisplayErrorView,
        >(Some(commit_order(v.displays)[position])),
        position >= commit_order(v.displays).len() ==> v.batch_step(position, last_status) == Ok::<
            Option<int>,
            DisplayErrorView,
        >(None),
{
    lemma_commit_order_complete(v.displays);
}

} // verus!
