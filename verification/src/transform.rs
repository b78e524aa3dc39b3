//! Positions and per-entity transforms.
//!
//! The model keeps fractional quantities as integers: lengths are stored in
//! hundredths of a world unit (so `250` stands for `2.5` units), elapsed time
//! in microseconds, and accumulated rotation about the vertical axis in
//! microradians. At the demo's rate of one radian per second, a frame of
//! `dt` microseconds advances the spin by exactly `dt` microradians.

use vstd::prelude::*;

verus! {

/// A point in world space, each coordinate in hundredths of a unit.
#[derive(Clone, Copy, PartialEq, Eq, Debug)]
pub struct Vec3 {
    pub x: i32,
    pub y: i32,
    pub z: i32,
}

impl Vec3 {
    /// The world origin.
    pub fn origin() -> (v: Vec3)
        ensures
            v == (Vec3 { x: 0, y: 0, z: 0 }),
    {
        Vec3 { x: 0, y: 0, z: 0 }
    }
}

/// Where an entity stands and how it has been spun so far.
///
/// `aim` records the point the entity was made to look at, if any; the up
/// direction is always the world's +Y axis. `spin_urad` is the rotation about
/// the vertical axis accumulated by the rotator, in microradians.
#[derive(Clone, Copy, PartialEq, Eq, Debug)]
pub struct Transform {
    pub pos: Vec3,
    pub aim: Option<Vec3>,
    pub spin_urad: u64,
}

impl Transform {
    /// A transform standing at `pos`, looking nowhere in particular, unspun.
    pub fn at(pos: Vec3) -> (t: Transform)
        ensures
            t == (Transform { pos, aim: None::<Vec3>, spin_urad: 0u64 }),
    {
        Transform { pos, aim: None, spin_urad: 0 }
    }

    /// The same transform aimed at `target` (up stays +Y).
    pub fn looking_at(self, target: Vec3) -> (t: Transform)
        ensures
            t == (Transform { aim: Some(target), ..self }),
    {
        Transform { aim: Some(target), ..self }
    }

    /// The transform after a further `dt` microseconds of spinning at one
    /// radian per second about the vertical axis: the position and the aim are
    /// untouched, only the accumulated angle grows.
    pub fn rotated_y(self, dt_micros: u64) -> (t: Transform)
        requires
            self.spin_urad + dt_micros <= u64::MAX,
        ensures
            t == spec_rotated_y(self, dt_micros),
    {
        Transform { spin_urad: self.spin_urad + dt_micros, ..self }
    }
}

/// What one step of the rotator does to a transform: the spin grows by the
/// elapsed time (one microradian per microsecond), nothing else moves.
pub open spec fn spec_rotated_y(t: Transform, dt_micros: u64) -> Transform {
    Transform { spin_urad: (t.spin_urad + dt_micros) as u64, ..t }
}

/// Rotating preserves the position and the aim, and advances the angle by
/// exactly the elapsed time.
pub proof fn lemma_rotation_preserves_position(t: Transform, dt_micros: u64)
    requires
        t.spin_urad + dt_micros <= u64::MAX,
    ensures
        spec_rotated_y(t, dt_micros).pos == t.pos,
        spec_rotated_y(t, dt_micros).aim == t.aim,
        spec_rotated_y(t, dt_micros).spin_urad == t.spin_urad + dt_micros,
{
}

} // verus!
