//! The character-control core: movement intent, the walk basis, the
//! discrete actions (jump, dash) with their phase memory, and the fixed
//! priority by which simultaneous requests are resolved.

use vstd::prelude::*;

verus! {

/// Player intent for one fixed step, already separated from device
/// sampling: camera-relative axis inputs in {-1, 0, 1} and the requested
/// discrete actions. Recomputed every step, never persisted.
#[derive(Clone, Copy, Debug, PartialEq, Eq, Structural)]
pub struct MovementIntent {
    /// Rightward axis input: +1 right, -1 left, 0 neither or both.
    pub axis_x: i8,
    /// Forward axis input: +1 forward, -1 backward, 0 neither or both.
    pub axis_z: i8,
    pub jump_requested: bool,
    pub dash_requested: bool,
    pub turn_in_place: bool,
}

/// The axis value two opposing keys resolve to: they cancel when both are
/// held.
pub open spec fn axis_value(pos: bool, neg: bool) -> i8 {
    if pos && !neg {
        1i8
    } else if neg && !pos {
        -1i8
    } else {
        0i8
    }
}

impl MovementIntent {
    /// Whether the intent carries any translation direction at all.
    pub open spec fn has_direction(self) -> bool {
        self.axis_x != 0 || self.axis_z != 0
    }

    /// Axis inputs stay in {-1, 0, 1}; [`resolve_intent`] only ever
    /// produces such values.
    pub open spec fn valid(self) -> bool {
        -1 <= self.axis_x <= 1 && -1 <= self.axis_z <= 1
    }
}

/// Turn one frame's key samples into a movement intent. Opposing movement
/// keys cancel; `turn_in_place` suppresses translation later, at the walk
/// basis, but never suppresses action requests.
pub fn resolve_intent(
    forward_key: bool,
    backward_key: bool,
    left_key: bool,
    right_key: bool,
    jump_key: bool,
    dash_key: bool,
    turn_key: bool,
) -> (intent: MovementIntent)
    ensures
        intent.axis_x == axis_value(right_key, left_key),
        intent.axis_z == axis_value(forward_key, backward_key),
        intent.jump_requested == jump_key,
        intent.dash_requested == dash_key,
        intent.turn_in_place == turn_key,
        intent.valid(),
{
    let axis_x: i8 = if right_key && !left_key {
        1
    } else if left_key && !right_key {
        -1
    } else {
        0
    };
    let axis_z: i8 = if forward_key && !backward_key {
        1
    } else if backward_key && !forward_key {
        -1
    } else {
        0
    };
    MovementIntent {
        axis_x,
        axis_z,
        jump_requested: jump_key,
        dash_requested: dash_key,
        turn_in_place: turn_key,
    }
}

/// A vector on the ground plane, gravity axis excluded, in thousandths of
/// a unit — the integer shape of the camera's projected forward and right
/// vectors and of the direction composed from them. Renormalizing the
/// composed direction to unit length is the presentation side's
/// floating-point work.
#[derive(Clone, Copy, Debug, PartialEq, Eq, Structural)]
pub struct GroundVec {
    pub x: i64,
    pub z: i64,
}

/// One component of the composition: `v` scaled by an axis input in
/// {-1, 0, 1}.
fn scaled_component(v: i64, axis: i8) -> (r: i64)
    requires
        -1 <= axis <= 1,
        -1000000 <= v <= 1000000,
    ensures
        r == v * axis,
        -1000000 <= r <= 1000000,
{
    if axis == 1 {
        proof {
            assert(v * axis == v) by (nonlinear_arith)
                requires
                    axis == 1i8,
            ;
        }
        v
    } else if axis == -1 {
        proof {
            assert(v * axis == -v) by (nonlinear_arith)
                requires
                    axis == -1i8,
            ;
        }
        -v
    } else {
        proof {
            assert(v * axis == 0) by (nonlinear_arith)
                requires
                    axis == 0i8,
            ;
        }
        0
    }
}

/// Compose the camera-relative movement direction from the camera's
/// ground-projected basis: `forward` scaled by the forward axis input
/// plus `right` scaled by the rightward axis input. Zero input composes
/// to the zero vector; no error.
pub fn compose_direction(forward: &GroundVec, right: &GroundVec, intent: &MovementIntent) -> (d:
    GroundVec)
    requires
        intent.valid(),
        -1000000 <= forward.x <= 1000000,
        -1000000 <= forward.z <= 1000000,
        -1000000 <= right.x <= 1000000,
        -1000000 <= right.z <= 1000000,
    ensures
        d.x == forward.x * intent.axis_z + right.x * intent.axis_x,
        d.z == forward.z * intent.axis_z + right.z * intent.axis_x,
        !intent.has_direction() ==> d == (GroundVec { x: 0i64, z: 0i64 }),
{
    proof {
        if !intent.has_direction() {
            assert(forward.x * intent.axis_z == 0 && right.x * intent.axis_x == 0 && forward.z
                * intent.axis_z == 0 && right.z * intent.axis_x == 0) by (nonlinear_arith)
                requires
                    intent.axis_x == 0i8,
                    intent.axis_z == 0i8,
            ;
        }
    }
    GroundVec {
        x: scaled_component(forward.x, intent.axis_z) + scaled_component(right.x, intent.axis_x),
        z: scaled_component(forward.z, intent.axis_z) + scaled_component(right.z, intent.axis_x),
    }
}

/// The facing a dash request carries: defined only when the intent has a
/// direction. The dash itself is accepted either way; with no direction
/// its ballistic displacement degrades to a pure-vertical impulse.
pub fn dash_facing(intent: &MovementIntent) -> (f: Option<Facing>)
    ensures
        f == if intent.has_direction() {
            Some(Facing { x: intent.axis_x, z: intent.axis_z })
        } else {
            None::<Facing>
        },
{
    if intent.axis_x != 0 || intent.axis_z != 0 {
        Some(Facing { x: intent.axis_x, z: intent.axis_z })
    } else {
        None
    }
}

/// The jump action's internal phase memory, progressing along
/// `NoJump -> StartingJump -> {MaintainingJump | SlowDownTooFastSlopeJump}
/// -> StoppedMaintainingJump -> FallSection -> NoJump`.
#[derive(Clone, Copy, Debug, PartialEq, Eq, Structural)]
pub enum JumpPhase {
    NoJump,
    StartingJump,
    SlowDownTooFastSlopeJump,
    MaintainingJump,
    StoppedMaintainingJump,
    FallSection,
}

/// The transitions the jump phase chain admits, as the physics feedback
/// drives it step by step.
pub open spec fn jump_phase_step_allowed(from: JumpPhase, to: JumpPhase) -> bool {
    match (from, to) {
        (JumpPhase::NoJump, JumpPhase::StartingJump) => true,
        (JumpPhase::StartingJump, JumpPhase::MaintainingJump) => true,
        (JumpPhase::StartingJump, JumpPhase::SlowDownTooFastSlopeJump) => true,
        (JumpPhase::SlowDownTooFastSlopeJump, JumpPhase::StoppedMaintainingJump) => true,
        (JumpPhase::MaintainingJump, JumpPhase::StoppedMaintainingJump) => true,
        (JumpPhase::StoppedMaintainingJump, JumpPhase::FallSection) => true,
        (JumpPhase::FallSection, JumpPhase::NoJump) => true,
        _ => false,
    }
}

/// The discrete action occupying the controller's single action slot,
/// with its phase memory. Holding at most one of these per controller is
/// what enforces the action-cardinality invariant structurally.
#[derive(Clone, Copy, Debug, PartialEq, Eq, Structural)]
pub enum ActiveAction {
    Jump(JumpPhase),
    Dash,
}

/// A desired facing on the ground plane, in the intent's axis units.
#[derive(Clone, Copy, Debug, PartialEq, Eq, Structural)]
pub struct Facing {
    pub x: i8,
    pub z: i8,
}

/// The always-active continuous movement model: desired translation axes
/// (zeroed while turning in place) and the desired facing, which is left
/// unset when the intent direction is zero.
#[derive(Clone, Copy, Debug, PartialEq, Eq, Structural)]
pub struct WalkBasis {
    pub motion_x: i8,
    pub motion_z: i8,
    pub facing: Option<Facing>,
}

/// The walk basis a given intent feeds: translation suppressed while
/// turning in place, facing only when the direction is nonzero.
pub open spec fn basis_of(intent: MovementIntent) -> WalkBasis {
    WalkBasis {
        motion_x: if intent.turn_in_place {
            0
        } else {
            intent.axis_x
        },
        motion_z: if intent.turn_in_place {
            0
        } else {
            intent.axis_z
        },
        facing: if intent.has_direction() {
            Some(Facing { x: intent.axis_x, z: intent.axis_z })
        } else {
            None
        },
    }
}

/// How one fixed step's requests resolve against the action slot, in fixed
/// priority. A jump request is considered first, unconditionally: it
/// continues an active jump, or starts one from an empty slot when
/// grounded (a fresh jump may not start mid-air). Only then is a dash
/// request considered, and it starts only from an empty slot. A request
/// that cannot apply — either action requested while the other is active,
/// or a jump requested mid-air — is dropped silently.
pub open spec fn resolved_action(
    action: Option<ActiveAction>,
    jump_requested: bool,
    dash_requested: bool,
    grounded: bool,
) -> Option<ActiveAction> {
    if jump_requested && action matches Some(ActiveAction::Jump(_)) {
        action
    } else if jump_requested && action is None && grounded {
        Some(ActiveAction::Jump(JumpPhase::StartingJump))
    } else if dash_requested && action is None {
        Some(ActiveAction::Dash)
    } else {
        action
    }
}

/// The locomotion controller: the single walk basis, the single discrete
/// action slot, and the requests fed during the current step. Requests do
/// not persist across steps; each step begins by clearing them.
#[derive(Clone, Copy, Debug, PartialEq, Eq, Structural)]
pub struct LocomotionController {
    pub basis: WalkBasis,
    pub action: Option<ActiveAction>,
    pub jump_fed: bool,
    pub dash_fed: bool,
}

impl LocomotionController {
    /// A controller at rest: no action, no pending requests, zero basis.
    pub fn new() -> (c: LocomotionController)
        ensures
            c.action is None,
            !c.jump_fed,
            !c.dash_fed,
            c.basis == (WalkBasis { motion_x: 0 as i8, motion_z: 0 as i8, facing: None }),
    {
        LocomotionController {
            basis: WalkBasis { motion_x: 0, motion_z: 0, facing: None },
            action: None,
            jump_fed: false,
            dash_fed: false,
        }
    }

    /// Begin a new feeding cycle: requests from the previous step are
    /// forgotten; the action slot and basis are untouched.
    pub fn initiate_action_feeding(&mut self)
        ensures
            !final(self).jump_fed,
            !final(self).dash_fed,
            final(self).action == old(self).action,
            final(self).basis == old(self).basis,
    {
        self.jump_fed = false;
        self.dash_fed = false;
    }

    /// Feed a jump request for this step.
    pub fn request_jump(&mut self)
        ensures
            final(self).jump_fed,
            final(self).dash_fed == old(self).dash_fed,
            final(self).action == old(self).action,
            final(self).basis == old(self).basis,
    {
        self.jump_fed = true;
    }

    /// Feed a dash request for this step.
    pub fn request_dash(&mut self)
        ensures
            final(self).dash_fed,
            final(self).jump_fed == old(self).jump_fed,
            final(self).action == old(self).action,
            final(self).basis == old(self).basis,
    {
        self.dash_fed = true;
    }

    /// Resolve this step's fed requests against the action slot in fixed
    /// priority (jump first, then dash; see [`resolved_action`]).
    pub fn resolve_actions(&mut self, grounded: bool)
        ensures
            final(self).action == resolved_action(
                old(self).action,
                old(self).jump_fed,
                old(self).dash_fed,
                grounded,
            ),
            final(self).jump_fed == old(self).jump_fed,
            final(self).dash_fed == old(self).dash_fed,
            final(self).basis == old(self).basis,
    {
        let continue_jump = self.jump_fed && match self.action {
            Some(ActiveAction::Jump(_)) => true,
            _ => false,
        };
        if continue_jump {
            // an active jump keeps its slot and its phase
        } else if self.jump_fed && self.action.is_none() && grounded {
            self.action = Some(ActiveAction::Jump(JumpPhase::StartingJump));
        } else if self.dash_fed && self.action.is_none() {
            self.action = Some(ActiveAction::Dash);
        }
    }

    /// Set the walk basis from this step's intent.
    pub fn set_basis(&mut self, intent: &MovementIntent)
        ensures
            final(self).basis == basis_of(*intent),
            final(self).action == old(self).action,
            final(self).jump_fed == old(self).jump_fed,
            final(self).dash_fed == old(self).dash_fed,
    {
        let translating = !intent.turn_in_place;
        self.basis = WalkBasis {
            motion_x: if translating {
                intent.axis_x
            } else {
                0
            },
            motion_z: if translating {
                intent.axis_z
            } else {
                0
            },
            facing: if intent.axis_x != 0 || intent.axis_z != 0 {
                Some(Facing { x: intent.axis_x, z: intent.axis_z })
            } else {
                None
            },
        };
    }

    /// One fixed simulation step: begin a new feeding cycle, feed the
    /// intent's requests, resolve them by priority, and — only when no
    /// discrete action holds the slot afterwards — update the walk basis.
    pub fn fixed_step(&mut self, intent: &MovementIntent, grounded: bool)
        ensures
            final(self).action == resolved_action(
                old(self).action,
                intent.jump_requested,
                intent.dash_requested,
                grounded,
            ),
            final(self).jump_fed == intent.jump_requested,
            final(self).dash_fed == intent.dash_requested,
            final(self).action is None ==> final(self).basis == basis_of(*intent),
            final(self).action is Some ==> final(self).basis == old(self).basis,
    {
        self.initiate_action_feeding();
        if intent.jump_requested {
            self.request_jump();
        }
        if intent.dash_requested {
            self.request_dash();
        }
        self.resolve_actions(grounded);
        if self.action.is_none() {
            self.set_basis(intent);
        }
    }

    /// Advance an active jump's phase memory one step along the chain the
    /// physics feedback drives; reaching `NoJump` completes the action and
    /// frees the slot.
    pub fn advance_jump_phase(&mut self, to: JumpPhase)
        requires
            old(self).action matches Some(ActiveAction::Jump(p)) && jump_phase_step_allowed(
                p,
                to,
            ),
        ensures
            final(self).action == if to is NoJump {
                None::<ActiveAction>
            } else {
                Some(ActiveAction::Jump(to))
            },
            final(self).basis == old(self).basis,
            final(self).jump_fed == old(self).jump_fed,
            final(self).dash_fed == old(self).dash_fed,
    {
        match to {
            JumpPhase::NoJump => {
                self.action = None;
            },
            _ => {
                self.action = Some(ActiveAction::Jump(to));
            },
        }
    }

    /// End an active dash (its fixed duration elapsed), freeing the slot.
    pub fn end_dash(&mut self)
        requires
            old(self).action == Some(ActiveAction::Dash),
        ensures
            final(self).action is None,
            final(self).basis == old(self).basis,
            final(self).jump_fed == old(self).jump_fed,
            final(self).dash_fed == old(self).dash_fed,
    {
        self.action = None;
    }
}

/// The control scheme's tuning values, in thousandths of their physical
/// units: the walk basis's top speed, turning rate and float height, the
/// jump's height, and the dash's horizontal and vertical reach.
#[derive(Clone, Copy, Debug, PartialEq, Eq, Structural)]
pub struct ControlConfig {
    pub speed_milli: u32,
    pub turning_angvel_milli: u32,
    pub float_height_milli: u32,
    pub jump_height_milli: u32,
    pub dash_horizontal_milli: u32,
    pub dash_vertical_milli: u32,
}

impl Default for ControlConfig {
    /// The stock tuning: walk at ten units per second turning at fifteen
    /// radians per second floating a hundredth of a unit above ground,
    /// jump five units high, dash five units forward and none upward.
    fn default() -> (c: ControlConfig)
        ensures
            c.speed_milli == 10000,
            c.turning_angvel_milli == 15000,
            c.float_height_milli == 10,
            c.jump_height_milli == 5000,
            c.dash_horizontal_milli == 5000,
            c.dash_vertical_milli == 0,
    {
        ControlConfig {
            speed_milli: 10000,
            turning_angvel_milli: 15000,
            float_height_milli: 10,
            jump_height_milli: 5000,
            dash_horizontal_milli: 5000,
            dash_vertical_milli: 0,
        }
    }
}

/// A configuration modifier that halves the walk speed while the flag it
/// carries is set.
pub struct SlowDownWhileCrouching(pub bool);

impl SlowDownWhileCrouching {
    /// Halve the configured walk speed when crouching; leave every other
    /// tuning value, and the speed itself when not crouching, untouched.
    pub fn modify_config(&self, config: &mut ControlConfig)
        ensures
            final(config).speed_milli == if self.0 {
                old(config).speed_milli / 2
            } else {
                old(config).speed_milli
            },
            final(config).turning_angvel_milli == old(config).turning_angvel_milli,
            final(config).float_height_milli == old(config).float_height_milli,
            final(config).jump_height_milli == old(config).jump_height_milli,
            final(config).dash_horizontal_milli == old(config).dash_horizontal_milli,
            final(config).dash_vertical_milli == old(config).dash_vertical_milli,
    {
        if self.0 {
            config.speed_milli = config.speed_milli / 2;
        }
    }
}

/// Action cardinality: the slot holds at most one action by construction,
/// and resolution never steals it. A dash request issued while a jump is
/// in flight leaves the jump active, phase untouched, and the dash is
/// discarded; symmetrically a jump request never displaces an active
/// dash. When both actions are requested over an empty slot on the
/// ground, the jump wins.
pub proof fn lemma_action_cardinality(
    action: Option<ActiveAction>,
    jump_requested: bool,
    dash_requested: bool,
    grounded: bool,
)
    ensures
        action matches Some(ActiveAction::Jump(p)) ==> resolved_action(
            action,
            jump_requested,
            dash_requested,
            grounded,
        ) == Some(ActiveAction::Jump(p)),
        action == Some(ActiveAction::Dash) ==> resolved_action(
            action,
            jump_requested,
            dash_requested,
            grounded,
        ) == Some(ActiveAction::Dash),
        action is None && jump_requested && grounded ==> resolved_action(
            action,
            jump_requested,
            dash_requested,
            grounded,
        ) == Some(ActiveAction::Jump(JumpPhase::StartingJump)),
{
}

} // verus!
