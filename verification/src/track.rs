//! The delayed-up tracker, and the composition of one whole tick.
//!
//! The tracker keeps each entity's delayed-up record exactly one tick behind
//! its current up direction. The engine itself writes the current value into
//! the record as part of its pass; the tracker's own role is removal, which
//! an overwrite cannot express, when the up direction disappears.

use vstd::prelude::*;
use bevy_math::FloatOrd;
use bevy_math::Quat;
use crate::align::align_spec;
use crate::align::align_up;
use crate::align::mode_finite;
use crate::math::quat_unit;
use crate::AlignMode;
use crate::LocalUp;
use crate::OldUp;

verus! {

/// What the tracker decides for one entity: write this delayed-up value, or
/// remove the record. The host applies the action after the decision.
pub enum SyncAction {
    /// Remove the entity's delayed-up record.
    Remove,
    /// Store this value as the entity's delayed-up record.
    Write(OldUp),
}

/// The tracker's decision for one entity, taken once per tick after the
/// engine has run. A present up direction is copied into the delayed-up
/// record unconditionally; an absent one removes the record. An entity with
/// neither value is never handed to the tracker: at this point of the tick
/// the engine has already written the record for every entity that has an up
/// direction, so both being absent means the host broke the scheduling
/// contract, and the host must treat it as a fatal fault.
pub fn sync_old_up(local_up: Option<LocalUp>, old_up: Option<OldUp>) -> (r: SyncAction)
    requires
        local_up is Some || old_up is Some,
    ensures
        (match local_up {
            Option::Some(l) => r == SyncAction::Write(OldUp(l.0)),
            Option::None => r == SyncAction::Remove,
        }),
{
    match local_up {
        Option::Some(l) => SyncAction::Write(OldUp(l.0)),
        Option::None => SyncAction::Remove,
    }
}

/// The state one whole tick leaves an entity in: its orientation and its
/// delayed-up record. An entity with no current up direction keeps its
/// orientation; its record, if any, is removed. An entity with one is
/// aligned by the engine and its record holds the current up direction.
pub open spec fn tick_spec(
    rotation: Quat,
    local_up: Option<LocalUp>,
    old_up: Option<OldUp>,
    mode: Option<AlignMode>,
    dt: FloatOrd,
) -> (Quat, Option<OldUp>) {
    match local_up {
        Option::None => (rotation, Option::None),
        Option::Some(l) => (
            align_spec(rotation, l.0, old_up, mode, dt),
            Option::Some(OldUp(l.0)),
        ),
    }
}

/// One whole tick for one entity: the engine pass (for an entity with a
/// current up direction), then the tracker's reconciliation of the
/// delayed-up record. Returns the orientation and the record the tick
/// leaves.
pub fn tick_entity(
    rotation: Quat,
    local_up: Option<LocalUp>,
    old_up: Option<OldUp>,
    mode: Option<AlignMode>,
    dt: FloatOrd,
) -> (r: (Quat, Option<OldUp>))
    requires
        local_up is Some ==> quat_unit(rotation) && mode_finite(mode, dt),
    ensures
        r == tick_spec(rotation, local_up, old_up, mode, dt),
{
    let (new_rotation, written) = match local_up {
        Option::None => (rotation, old_up),
        Option::Some(l) => {
            let outcome = align_up(rotation, &l, old_up, mode, dt);
            (outcome.rotation, Option::Some(outcome.old_up))
        },
    };
    let new_old_up = match (local_up, written) {
        (Option::None, Option::None) => Option::None,
        (lu, w) => match sync_old_up(lu, w) {
            SyncAction::Remove => Option::None,
            SyncAction::Write(o) => Option::Some(o),
        },
    };
    (new_rotation, new_old_up)
}

/// Presence invariant of the delayed-up record: after a whole tick the
/// record is present exactly when the entity had an up direction this tick —
/// so on the next tick it is a one-tick-delayed witness of that presence.
pub proof fn lemma_delayed_up_presence(
    rotation: Quat,
    local_up: Option<LocalUp>,
    old_up: Option<OldUp>,
    mode: Option<AlignMode>,
    dt: FloatOrd,
)
    ensures
        tick_spec(rotation, local_up, old_up, mode, dt).1 is Some <==> local_up is Some,
{
}

/// Tracker lifecycle law, gaining an up direction: on the first tick an
/// entity has one (its delayed-up record absent before), the tick leaves the
/// record present and holding that tick's up direction.
pub proof fn lemma_tracker_gains(rotation: Quat, l: LocalUp, mode: Option<AlignMode>, dt: FloatOrd)
    ensures
        tick_spec(rotation, Option::Some(l), Option::None, mode, dt).1 == Option::Some(OldUp(l.0)),
{
}

/// Tracker lifecycle law, keeping pace: on every tick an entity has an up
/// direction, the tick leaves the delayed-up record holding exactly that
/// tick's value — so on the next tick the record is one tick behind.
pub proof fn lemma_tracker_tracks(
    rotation: Quat,
    l: LocalUp,
    old_up: Option<OldUp>,
    mode: Option<AlignMode>,
    dt: FloatOrd,
)
    ensures
        tick_spec(rotation, Option::Some(l), old_up, mode, dt).1 == Option::Some(OldUp(l.0)),
{
}

/// Tracker lifecycle law, losing the up direction: the tick on which an
/// entity's up direction is withdrawn removes the delayed-up record and
/// leaves the orientation exactly where the previous tick left it.
pub proof fn lemma_tracker_loses(rotation: Quat, old_up: Option<OldUp>, mode: Option<AlignMode>, dt: FloatOrd)
    ensures
        tick_spec(rotation, Option::None, old_up, mode, dt) == (rotation, Option::None::<OldUp>),
{
}

} // verus!
