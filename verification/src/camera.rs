//! The orbit camera rig's discrete state: distance and pitch accumulate
//! per-frame deltas and are clamped to configured ranges; yaw accumulates
//! and wraps around a full turn. Angles are kept in thousandths of a
//! radian, distances in thousandths of a unit.

use vstd::prelude::*;
use vstd::arithmetic::div_mod::lemma_mod_add_multiples_vanish;
use vstd::arithmetic::div_mod::lemma_mod_bound;
use vstd::arithmetic::div_mod::lemma_mod_sub_multiples_vanish;
use vstd::arithmetic::div_mod::lemma_small_mod;

verus! {

/// One full turn, in thousandths of a radian.
pub const TAU_MILLI: i64 = 6283;

/// Default zoom range: two to twenty units from the target.
pub const DEFAULT_MIN_DISTANCE_MILLI: i64 = 2000;

pub const DEFAULT_MAX_DISTANCE_MILLI: i64 = 20000;

/// Default pitch range: from just above straight down to level.
pub const DEFAULT_MIN_PITCH_MILLI: i64 = -1561;

pub const DEFAULT_MAX_PITCH_MILLI: i64 = 0;

/// Default pointer sensitivity: three thousandths of a radian per count.
pub const DEFAULT_SENSITIVITY_MILLI: i64 = 3;

pub const DEFAULT_DISTANCE_MILLI: i64 = 15000;

pub const DEFAULT_PITCH_MILLI: i64 = -500;

/// Largest pointer delta accepted in one frame, in device counts.
pub const MAX_POINTER_DELTA: i64 = 1000000;

/// Largest zoom delta accepted in one frame, in thousandths of a unit.
pub const MAX_ZOOM_DELTA_MILLI: i64 = 1000000000;

/// `v` forced into `[lo, hi]`.
pub open spec fn clamped(v: int, lo: int, hi: int) -> int {
    if v < lo {
        lo
    } else if v > hi {
        hi
    } else {
        v
    }
}

/// `z / 2` rounded toward zero, as the zoom rate halves a scroll delta.
pub open spec fn halved(z: int) -> int {
    if z >= 0 {
        z / 2
    } else {
        -((-z) / 2)
    }
}

/// The orbit camera rig: its configured ranges and sensitivity, and its
/// accumulated distance, pitch and yaw. The position and orientation the
/// presentation derives from these by trigonometry live outside this
/// model.
#[derive(Clone, Copy, Debug, PartialEq, Eq, Structural)]
pub struct OrbitCamera {
    pub distance_milli: i64,
    pub pitch_milli: i64,
    pub yaw_milli: i64,
    pub min_distance_milli: i64,
    pub max_distance_milli: i64,
    pub min_pitch_milli: i64,
    pub max_pitch_milli: i64,
    pub sensitivity_milli: i64,
}

impl OrbitCamera {
    /// The rig's invariant: sane configured ranges, distance and pitch
    /// inside them, yaw inside one turn.
    pub open spec fn well_formed(self) -> bool {
        &&& 0 < self.min_distance_milli <= self.max_distance_milli <= 1000000000
        &&& -1000000000 <= self.min_pitch_milli <= self.max_pitch_milli <= 1000000000
        &&& 0 <= self.sensitivity_milli <= 1000
        &&& self.min_distance_milli <= self.distance_milli <= self.max_distance_milli
        &&& self.min_pitch_milli <= self.pitch_milli <= self.max_pitch_milli
        &&& 0 <= self.yaw_milli < TAU_MILLI
    }

    /// Whether two rigs share their configured ranges and sensitivity.
    pub open spec fn same_config(self, other: OrbitCamera) -> bool {
        &&& self.min_distance_milli == other.min_distance_milli
        &&& self.max_distance_milli == other.max_distance_milli
        &&& self.min_pitch_milli == other.min_pitch_milli
        &&& self.max_pitch_milli == other.max_pitch_milli
        &&& self.sensitivity_milli == other.sensitivity_milli
    }
}

/// One frame's update: pointer deltas scaled by the sensitivity turn the
/// rig (yaw wrapping around a full turn, pitch clamped), and half the
/// scroll delta zooms it (distance clamped). The configuration never
/// changes.
pub open spec fn spec_update(
    cam: OrbitCamera,
    rot_dx: int,
    rot_dy: int,
    zoom_milli: int,
) -> OrbitCamera {
    OrbitCamera {
        distance_milli: clamped(
            cam.distance_milli + halved(zoom_milli),
            cam.min_distance_milli as int,
            cam.max_distance_milli as int,
        ) as i64,
        pitch_milli: clamped(
            cam.pitch_milli - rot_dy * cam.sensitivity_milli,
            cam.min_pitch_milli as int,
            cam.max_pitch_milli as int,
        ) as i64,
        yaw_milli: ((cam.yaw_milli - rot_dx * cam.sensitivity_milli) % (TAU_MILLI as int)) as i64,
        min_distance_milli: cam.min_distance_milli,
        max_distance_milli: cam.max_distance_milli,
        min_pitch_milli: cam.min_pitch_milli,
        max_pitch_milli: cam.max_pitch_milli,
        sensitivity_milli: cam.sensitivity_milli,
    }
}

impl Default for OrbitCamera {
    /// The rig as configured at startup: fifteen units out, looking
    /// slightly down, default ranges and sensitivity.
    fn default() -> (cam: OrbitCamera)
        ensures
            cam.distance_milli == DEFAULT_DISTANCE_MILLI,
            cam.pitch_milli == DEFAULT_PITCH_MILLI,
            cam.yaw_milli == 0,
            cam.min_distance_milli == DEFAULT_MIN_DISTANCE_MILLI,
            cam.max_distance_milli == DEFAULT_MAX_DISTANCE_MILLI,
            cam.min_pitch_milli == DEFAULT_MIN_PITCH_MILLI,
            cam.max_pitch_milli == DEFAULT_MAX_PITCH_MILLI,
            cam.sensitivity_milli == DEFAULT_SENSITIVITY_MILLI,
            cam.well_formed(),
    {
        OrbitCamera {
            distance_milli: DEFAULT_DISTANCE_MILLI,
            pitch_milli: DEFAULT_PITCH_MILLI,
            yaw_milli: 0,
            min_distance_milli: DEFAULT_MIN_DISTANCE_MILLI,
            max_distance_milli: DEFAULT_MAX_DISTANCE_MILLI,
            min_pitch_milli: DEFAULT_MIN_PITCH_MILLI,
            max_pitch_milli: DEFAULT_MAX_PITCH_MILLI,
            sensitivity_milli: DEFAULT_SENSITIVITY_MILLI,
        }
    }
}

impl OrbitCamera {
    /// Apply one frame's accumulated pointer and scroll deltas; see
    /// [`spec_update`]. Preserves well-formedness, so the distance can
    /// never leave its configured range and the pitch can never exceed
    /// its upper bound, however many frames accumulate deltas.
    pub fn update(&mut self, rot_dx: i64, rot_dy: i64, zoom_milli: i64)
        requires
            old(self).well_formed(),
            -MAX_POINTER_DELTA <= rot_dx <= MAX_POINTER_DELTA,
            -MAX_POINTER_DELTA <= rot_dy <= MAX_POINTER_DELTA,
            -MAX_ZOOM_DELTA_MILLI <= zoom_milli <= MAX_ZOOM_DELTA_MILLI,
        ensures
            *final(self) == spec_update(*old(self), rot_dx as int, rot_dy as int, zoom_milli as int),
            final(self).well_formed(),
    {
        let half_zoom: i64 = if zoom_milli >= 0 {
            ((zoom_milli as u64) / 2) as i64
        } else {
            -((((-zoom_milli) as u64) / 2) as i64)
        };
        let mut distance: i64 = self.distance_milli + half_zoom;
        if distance < self.min_distance_milli {
            distance = self.min_distance_milli;
        }
        if distance > self.max_distance_milli {
            distance = self.max_distance_milli;
        }
        self.distance_milli = distance;

        let sens: i64 = self.sensitivity_milli;
        proof {
            assert(-1000000000 <= rot_dy * sens <= 1000000000) by (nonlinear_arith)
                requires
                    -1000000 <= rot_dy <= 1000000,
                    0 <= sens <= 1000,
            ;
            assert(-1000000000 <= rot_dx * sens <= 1000000000) by (nonlinear_arith)
                requires
                    -1000000 <= rot_dx <= 1000000,
                    0 <= sens <= 1000,
            ;
        }
        let mut pitch: i64 = self.pitch_milli - rot_dy * sens;
        if pitch < self.min_pitch_milli {
            pitch = self.min_pitch_milli;
        }
        if pitch > self.max_pitch_milli {
            pitch = self.max_pitch_milli;
        }
        self.pitch_milli = pitch;

        let mut yaw: i64 = self.yaw_milli - rot_dx * sens;
        let ghost raw: int = yaw as int;
        while yaw < 0
            invariant
                -2000000000 <= yaw,
                yaw as int % (TAU_MILLI as int) == raw % (TAU_MILLI as int),
            decreases (if yaw < 0 {
                -(yaw as int)
            } else {
                0int
            }),
        {
            proof {
                lemma_mod_add_multiples_vanish(yaw as int, TAU_MILLI as int);
            }
            yaw = yaw + TAU_MILLI;
        }
        while yaw >= TAU_MILLI
            invariant
                0 <= yaw,
                yaw as int % (TAU_MILLI as int) == raw % (TAU_MILLI as int),
            decreases yaw,
        {
            proof {
                lemma_mod_sub_multiples_vanish((yaw - TAU_MILLI) as int, TAU_MILLI as int);
            }
            yaw = yaw - TAU_MILLI;
        }
        proof {
            lemma_small_mod(yaw as nat, TAU_MILLI as nat);
        }
        self.yaw_milli = yaw;
    }
}

/// Camera clamp, one frame: whatever deltas a frame brings, the updated
/// rig is well-formed again — in particular the distance never falls
/// below its configured minimum and the pitch never exceeds its
/// configured upper bound — and the configuration is untouched.
pub proof fn lemma_camera_clamp(cam: OrbitCamera, rot_dx: int, rot_dy: int, zoom_milli: int)
    requires
        cam.well_formed(),
    ensures
        spec_update(cam, rot_dx, rot_dy, zoom_milli).well_formed(),
        spec_update(cam, rot_dx, rot_dy, zoom_milli).distance_milli >= cam.min_distance_milli,
        spec_update(cam, rot_dx, rot_dy, zoom_milli).pitch_milli <= cam.max_pitch_milli,
        spec_update(cam, rot_dx, rot_dy, zoom_milli).same_config(cam),
{
    lemma_mod_bound(cam.yaw_milli - rot_dx * cam.sensitivity_milli, TAU_MILLI as int);
}

/// The rig after a whole sequence of frame updates, applied in order.
pub open spec fn spec_update_seq(cam: OrbitCamera, deltas: Seq<(int, int, int)>) -> OrbitCamera
    decreases deltas.len(),
{
    if deltas.len() == 0 {
        cam
    } else {
        spec_update_seq(
            spec_update(cam, deltas[0].0, deltas[0].1, deltas[0].2),
            deltas.drop_first(),
        )
    }
}

/// Camera clamp, any number of frames: however many updates accumulate —
/// repeated large negative scroll deltas, repeated pitch-raising deltas —
/// the rig stays well-formed, its distance at or above the configured
/// minimum and its pitch at or below the configured upper bound.
pub proof fn lemma_camera_clamp_sequence(cam: OrbitCamera, deltas: Seq<(int, int, int)>)
    requires
        cam.well_formed(),
    ensures
        spec_update_seq(cam, deltas).well_formed(),
        spec_update_seq(cam, deltas).distance_milli >= cam.min_distance_milli,
        spec_update_seq(cam, deltas).pitch_milli <= cam.max_pitch_milli,
        spec_update_seq(cam, deltas).same_config(cam),
    decreases deltas.len(),
{
    if deltas.len() == 0 {
    } else {
        lemma_camera_clamp(cam, deltas[0].0, deltas[0].1, deltas[0].2);
        lemma_camera_clamp_sequence(
            spec_update(cam, deltas[0].0, deltas[0].1, deltas[0].2),
            deltas.drop_first(),
        );
    }
}

} // verus!
