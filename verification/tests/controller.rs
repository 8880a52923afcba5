use locomotion_anim::locomotion::ActiveAction;
use locomotion_anim::locomotion::ControlConfig;
use locomotion_anim::locomotion::Facing;
use locomotion_anim::locomotion::JumpPhase;
use locomotion_anim::locomotion::LocomotionController;
use locomotion_anim::locomotion::MovementIntent;
use locomotion_anim::locomotion::GroundVec;
use locomotion_anim::locomotion::SlowDownWhileCrouching;
use locomotion_anim::locomotion::compose_direction;
use locomotion_anim::locomotion::dash_facing;
use locomotion_anim::locomotion::resolve_intent;

fn intent(jump: bool, dash: bool) -> MovementIntent {
    MovementIntent {
        axis_x: 0,
        axis_z: 1,
        jump_requested: jump,
        dash_requested: dash,
        turn_in_place: false,
    }
}

#[test]
fn opposing_keys_cancel() {
    let i = resolve_intent(true, true, true, false, false, false, false);
    assert_eq!(i.axis_z, 0);
    assert_eq!(i.axis_x, -1);
    let i = resolve_intent(false, true, true, true, false, false, false);
    assert_eq!(i.axis_z, -1);
    assert_eq!(i.axis_x, 0);
}

#[test]
fn direction_composes_from_the_camera_basis() {
    let forward = GroundVec { x: 0, z: 1000 };
    let right = GroundVec { x: 1000, z: 0 };
    let i = resolve_intent(true, false, false, true, false, false, false);
    assert_eq!(compose_direction(&forward, &right, &i), GroundVec { x: 1000, z: 1000 });
    // a yawed camera basis turns the same key input with it
    let forward = GroundVec { x: 707, z: 707 };
    let right = GroundVec { x: 707, z: -707 };
    let i = resolve_intent(false, true, false, false, false, false, false);
    assert_eq!(compose_direction(&forward, &right, &i), GroundVec { x: -707, z: -707 });
    // zero input composes to the zero vector, not an error
    let i = resolve_intent(false, false, false, false, false, false, false);
    assert_eq!(compose_direction(&forward, &right, &i), GroundVec { x: 0, z: 0 });
}

#[test]
fn turn_in_place_suppresses_translation_but_not_actions() {
    let i = resolve_intent(true, false, false, false, true, true, true);
    assert!(i.turn_in_place);
    assert!(i.jump_requested);
    assert!(i.dash_requested);
    let mut c = LocomotionController::new();
    // airborne, so neither action starts from the jump-first rule alone:
    // the jump is blocked mid-air and the dash takes the slot
    c.fixed_step(&i, false);
    assert_eq!(c.action, Some(ActiveAction::Dash));
    // grounded with no action requested: the basis translation is zeroed
    // while turning in place, yet the facing follows the direction
    let mut c = LocomotionController::new();
    let i = resolve_intent(true, false, false, false, false, false, true);
    c.fixed_step(&i, true);
    assert_eq!(c.basis.motion_x, 0);
    assert_eq!(c.basis.motion_z, 0);
    assert_eq!(c.basis.facing, Some(Facing { x: 0, z: 1 }));
}

#[test]
fn simultaneous_requests_start_only_the_jump() {
    let mut c = LocomotionController::new();
    c.fixed_step(&intent(true, true), true);
    assert_eq!(c.action, Some(ActiveAction::Jump(JumpPhase::StartingJump)));
}

#[test]
fn dash_request_during_active_jump_is_discarded() {
    let mut c = LocomotionController::new();
    c.fixed_step(&intent(true, false), true);
    assert_eq!(c.action, Some(ActiveAction::Jump(JumpPhase::StartingJump)));
    c.fixed_step(&intent(false, true), true);
    assert_eq!(c.action, Some(ActiveAction::Jump(JumpPhase::StartingJump)));
}

#[test]
fn jump_request_during_active_dash_is_discarded() {
    let mut c = LocomotionController::new();
    c.fixed_step(&intent(false, true), true);
    assert_eq!(c.action, Some(ActiveAction::Dash));
    c.fixed_step(&intent(true, false), true);
    assert_eq!(c.action, Some(ActiveAction::Dash));
}

#[test]
fn fresh_jump_may_not_start_in_the_air() {
    let mut c = LocomotionController::new();
    c.fixed_step(&intent(true, false), false);
    assert_eq!(c.action, None);
    // a dash may
    c.fixed_step(&intent(false, true), false);
    assert_eq!(c.action, Some(ActiveAction::Dash));
}

#[test]
fn requests_do_not_persist_across_steps() {
    let mut c = LocomotionController::new();
    c.request_jump();
    c.initiate_action_feeding();
    c.resolve_actions(true);
    assert_eq!(c.action, None);
}

#[test]
fn jump_phases_walk_the_chain_and_free_the_slot() {
    let mut c = LocomotionController::new();
    c.fixed_step(&intent(true, false), true);
    c.advance_jump_phase(JumpPhase::MaintainingJump);
    assert_eq!(c.action, Some(ActiveAction::Jump(JumpPhase::MaintainingJump)));
    c.advance_jump_phase(JumpPhase::StoppedMaintainingJump);
    c.advance_jump_phase(JumpPhase::FallSection);
    assert_eq!(c.action, Some(ActiveAction::Jump(JumpPhase::FallSection)));
    c.advance_jump_phase(JumpPhase::NoJump);
    assert_eq!(c.action, None);
}

#[test]
fn ending_a_dash_frees_the_slot() {
    let mut c = LocomotionController::new();
    c.fixed_step(&intent(false, true), true);
    c.end_dash();
    assert_eq!(c.action, None);
}

#[test]
fn dash_with_zero_direction_has_no_facing() {
    let i = resolve_intent(false, false, false, false, false, true, false);
    assert_eq!(dash_facing(&i), None);
    let i = resolve_intent(true, false, false, true, false, true, false);
    assert_eq!(dash_facing(&i), Some(Facing { x: 1, z: 1 }));
}

#[test]
fn stock_tuning_values() {
    let c = ControlConfig::default();
    assert_eq!(c.speed_milli, 10000);
    assert_eq!(c.turning_angvel_milli, 15000);
    assert_eq!(c.float_height_milli, 10);
    assert_eq!(c.jump_height_milli, 5000);
    assert_eq!(c.dash_horizontal_milli, 5000);
    assert_eq!(c.dash_vertical_milli, 0);
}

#[test]
fn crouching_halves_the_walk_speed_only() {
    let mut c = ControlConfig::default();
    SlowDownWhileCrouching(true).modify_config(&mut c);
    assert_eq!(c.speed_milli, 5000);
    assert_eq!(c.jump_height_milli, 5000);
    let mut c = ControlConfig::default();
    SlowDownWhileCrouching(false).modify_config(&mut c);
    assert_eq!(c.speed_milli, 10000);
}
