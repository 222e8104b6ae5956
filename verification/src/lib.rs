//! Per-entity "local up" alignment.
//!
//! Entities that walk on curved ground (the surface of a small planet, say)
//! have a locally varying notion of up. Each simulation tick this library
//! re-derives such an entity's orientation from its current up direction:
//! it keeps the look direction fixed, rolls the entity so its right vector
//! points at the horizon, smooths that roll under a configurable policy, and
//! compensates for a moving up vector so the apparent attitude relative to
//! the horizon does not jump between ticks.
//!
//! The library computes per-entity values; a host scheduler feeds it each
//! entity's components once per tick and writes the results back.

use vstd::prelude::*;
use bevy_math::Dir3;
use bevy_math::FloatOrd;

pub mod align;
pub mod math;
pub mod track;

verus! {

/// The direction this entity currently treats as up. When present, the
/// entity rolls itself each tick so that its local right vector is
/// perpendicular to this direction (pointing at the horizon), leaving its
/// look direction unchanged.
#[derive(Clone, Copy, Debug)]
pub struct LocalUp(pub Dir3);

/// One-tick-delayed view of [`LocalUp`]. Comparing it with the current up
/// direction lets the engine rotate the entity so that its attitude relative
/// to the (moving) horizon does not change between ticks. Removing it in
/// tandem with a sharp change of [`LocalUp`] avoids a sudden attitude jump:
/// the entity keeps its look and only rolls to the new horizon.
#[derive(Clone, Copy, Debug)]
pub struct OldUp(pub Dir3);

/// Label for the alignment pass. The host must run alignment after movement
/// and input for the tick and before anything that consumes the final
/// orientation, such as transform propagation.
#[derive(Clone, Copy, Debug)]
pub struct AlignUp;

/// Interpolation policy for local up alignment. An entity with a [`LocalUp`]
/// but no policy snaps instantly to the target orientation.
#[derive(Clone, Copy, Debug)]
pub enum AlignMode {
    /// Align to local up linearly with a maximum rotation rate. Much less
    /// jarring than snapping.
    Linear {
        /// Rotate toward the target at this angular velocity, in radians
        /// per second.
        rate: FloatOrd,
    },
    /// Align to local up at a rate proportional to the remaining angle.
    /// Smoother than [`AlignMode::Linear`], but approaches the target only
    /// asymptotically.
    Exponential {
        /// Rotate toward the target at `angle * factor` radians per second,
        /// fast at first and slowing as the orientation nears its target.
        factor: FloatOrd,
    },
}

} // verus!
