//! The animation state classifier: a pure mapping from the locomotion
//! controller's instantaneous situation to a discrete animation state.

use vstd::prelude::*;
use crate::animating::AnimationState;
use crate::locomotion::ActiveAction;
use crate::locomotion::JumpPhase;
use crate::locomotion::LocomotionController;

verus! {

/// Horizontal speeds at or below this threshold, in thousandths of a
/// unit, count as standing still.
pub const SPEED_EPSILON_MILLI: u32 = 10;

/// The divisor converting a physical horizontal speed into a run-clip
/// playback speed (one tenth of the physical value).
pub const PLAYBACK_SCALE_DIVISOR: u32 = 10;

/// The physical situation published by the physics collaborator after a
/// fixed step: whether a surface entity supports the character, and the
/// magnitude of its horizontal velocity in thousandths of a unit.
#[derive(Clone, Copy, Debug, PartialEq, Eq, Structural)]
pub struct PhysicalState {
    pub grounded: bool,
    pub horizontal_speed_milli: u32,
}

/// The classification rule, in precedence order. An active jump classifies
/// by its phase: `FallSection` to `Falling`, every other live phase to
/// `Jumping`, and the defensive `NoJump` case — impossible while the jump
/// holds the slot — to no classification at all, skipping the frame. An
/// active dash classifies to `Dashing` unconditionally. With no active
/// action the physical state decides: airborne to `Falling`, grounded
/// above the speed threshold to `Running` at one tenth of the physical
/// speed, grounded otherwise to `Standing`. `Landing` is never produced
/// here.
pub open spec fn spec_classify(
    action: Option<ActiveAction>,
    physical: PhysicalState,
) -> Option<AnimationState> {
    match action {
        Some(ActiveAction::Jump(phase)) => match phase {
            JumpPhase::NoJump => None,
            JumpPhase::StartingJump => Some(AnimationState::Jumping),
            JumpPhase::SlowDownTooFastSlopeJump => Some(AnimationState::Jumping),
            JumpPhase::MaintainingJump => Some(AnimationState::Jumping),
            JumpPhase::StoppedMaintainingJump => Some(AnimationState::Jumping),
            JumpPhase::FallSection => Some(AnimationState::Falling),
        },
        Some(ActiveAction::Dash) => Some(AnimationState::Dashing),
        None => if !physical.grounded {
            Some(AnimationState::Falling)
        } else if physical.horizontal_speed_milli > SPEED_EPSILON_MILLI {
            Some(AnimationState::Running(physical.horizontal_speed_milli / PLAYBACK_SCALE_DIVISOR))
        } else {
            Some(AnimationState::Standing)
        },
    }
}

/// Classify the controller's current situation; see [`spec_classify`] for
/// the precedence rule. Pure, evaluated once per presentation frame.
pub fn classify(controller: &LocomotionController, physical: &PhysicalState) -> (state: Option<
    AnimationState,
>)
    ensures
        state == spec_classify(controller.action, *physical),
{
    match controller.action {
        Some(ActiveAction::Jump(phase)) => match phase {
            JumpPhase::NoJump => None,
            JumpPhase::FallSection => Some(AnimationState::Falling),
            _ => Some(AnimationState::Jumping),
        },
        Some(ActiveAction::Dash) => Some(AnimationState::Dashing),
        None => {
            if !physical.grounded {
                Some(AnimationState::Falling)
            } else if physical.horizontal_speed_milli > SPEED_EPSILON_MILLI {
                Some(
                    AnimationState::Running(
                        physical.horizontal_speed_milli / PLAYBACK_SCALE_DIVISOR,
                    ),
                )
            } else {
                Some(AnimationState::Standing)
            }
        },
    }
}

/// Classifier precedence: an active jump in its `FallSection` phase
/// classifies to `Falling` whatever the grounded flag says, and an active
/// dash classifies to `Dashing` whatever the grounded flag and speed say.
pub proof fn lemma_classifier_precedence(physical: PhysicalState)
    ensures
        spec_classify(Some(ActiveAction::Jump(JumpPhase::FallSection)), physical) == Some(
            AnimationState::Falling,
        ),
        spec_classify(Some(ActiveAction::Dash), physical) == Some(AnimationState::Dashing),
{
}

} // verus!
