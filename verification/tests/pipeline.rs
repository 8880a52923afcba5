use locomotion_anim::animating::AnimatingState;
use locomotion_anim::animating::AnimationState;
use locomotion_anim::animating::Directive;
use locomotion_anim::classify::PhysicalState;
use locomotion_anim::classify::classify;
use locomotion_anim::locomotion::ActiveAction;
use locomotion_anim::locomotion::JumpPhase;
use locomotion_anim::locomotion::LocomotionController;
use locomotion_anim::playback::AnimationRegistry;
use locomotion_anim::playback::Clip;
use locomotion_anim::playback::PlaybackPlan;
use locomotion_anim::playback::StartCommand;
use locomotion_anim::playback::animation_frame;
use locomotion_anim::playback::plan_playback;

fn controller_with(action: Option<ActiveAction>) -> LocomotionController {
    let mut c = LocomotionController::new();
    c.action = action;
    c
}

fn physical(grounded: bool, speed_milli: u32) -> PhysicalState {
    PhysicalState { grounded, horizontal_speed_milli: speed_milli }
}

fn registry() -> AnimationRegistry {
    let mut r = AnimationRegistry::new(1, 2, 3, 4, 5, 6);
    r.attach();
    r
}

#[test]
fn fall_section_classifies_to_falling_whatever_the_ground_says() {
    let c = controller_with(Some(ActiveAction::Jump(JumpPhase::FallSection)));
    assert_eq!(classify(&c, &physical(true, 5000)), Some(AnimationState::Falling));
    assert_eq!(classify(&c, &physical(false, 0)), Some(AnimationState::Falling));
}

#[test]
fn dash_classifies_to_dashing_whatever_the_ground_and_speed_say() {
    let c = controller_with(Some(ActiveAction::Dash));
    assert_eq!(classify(&c, &physical(true, 0)), Some(AnimationState::Dashing));
    assert_eq!(classify(&c, &physical(false, 9999)), Some(AnimationState::Dashing));
}

#[test]
fn live_jump_phases_classify_to_jumping_and_no_jump_skips() {
    for phase in [
        JumpPhase::StartingJump,
        JumpPhase::SlowDownTooFastSlopeJump,
        JumpPhase::MaintainingJump,
        JumpPhase::StoppedMaintainingJump,
    ] {
        let c = controller_with(Some(ActiveAction::Jump(phase)));
        assert_eq!(classify(&c, &physical(true, 0)), Some(AnimationState::Jumping));
    }
    let c = controller_with(Some(ActiveAction::Jump(JumpPhase::NoJump)));
    assert_eq!(classify(&c, &physical(true, 0)), None);
}

#[test]
fn physical_speed_scales_by_one_tenth() {
    let c = controller_with(None);
    // a physical speed of 2.0 units maps to playback speed 0.2
    assert_eq!(classify(&c, &physical(true, 2000)), Some(AnimationState::Running(200)));
    // at the epsilon the character stands; just above it runs
    assert_eq!(classify(&c, &physical(true, 10)), Some(AnimationState::Standing));
    assert_eq!(classify(&c, &physical(true, 11)), Some(AnimationState::Running(1)));
    assert_eq!(classify(&c, &physical(true, 0)), Some(AnimationState::Standing));
    assert_eq!(classify(&c, &physical(false, 0)), Some(AnimationState::Falling));
}

#[test]
fn maintained_running_rescales_without_restarting() {
    let mut machine = AnimatingState::new();
    let reg = registry();
    let c = controller_with(None);
    let first = animation_frame(&mut machine, &reg, &c, &physical(true, 2000), false);
    assert!(first.stop_all);
    assert_eq!(
        first.start,
        Some(StartCommand { clip: Clip::Run, speed_milli: 200, looped: true })
    );
    // consecutive running frames with varying speed: no stop, no start
    let mut starts: u32 = 0;
    for speed in [3000, 1000, 2500] {
        let p = animation_frame(&mut machine, &reg, &c, &physical(true, speed), false);
        assert!(!p.stop_all);
        assert_eq!(p.start, None);
        assert_eq!(p.set_run_speed, Some(speed / 10));
        if p.start.is_some() {
            starts += 1;
        }
    }
    assert_eq!(starts, 0);
}

#[test]
fn landing_plays_once_and_resolves_into_idle_exactly_once() {
    let mut machine = AnimatingState::new();
    let reg = registry();
    let falling = controller_with(None);
    let p = animation_frame(&mut machine, &reg, &falling, &physical(false, 0), false);
    assert_eq!(
        p.start,
        Some(StartCommand { clip: Clip::JumpIdle, speed_milli: 1000, looped: false })
    );
    // touch down: the alter into Standing from Falling plays the landing clip
    let standing = controller_with(None);
    let p = animation_frame(&mut machine, &reg, &standing, &physical(true, 0), false);
    assert!(p.stop_all);
    assert_eq!(
        p.start,
        Some(StartCommand { clip: Clip::JumpLand, speed_milli: 1000, looped: false })
    );
    // while the landing clip still plays, standing frames change nothing
    let mut idle_starts: u32 = 0;
    for _ in 0..3 {
        let p = animation_frame(&mut machine, &reg, &standing, &physical(true, 0), false);
        assert!(!p.stop_all);
        assert_eq!(p.start, None);
        assert_eq!(p.set_run_speed, None);
    }
    // the frame on which the landing clip reports finished starts idle
    let p = animation_frame(&mut machine, &reg, &standing, &physical(true, 0), true);
    assert_eq!(
        p.start,
        Some(StartCommand { clip: Clip::Idle, speed_milli: 1000, looped: true })
    );
    assert!(!p.stop_all);
    if p.start.is_some() {
        idle_starts += 1;
    }
    // afterwards the landing clip is gone from the player and frames no-op
    let p = animation_frame(&mut machine, &reg, &standing, &physical(true, 0), false);
    assert_eq!(p.start, None);
    assert_eq!(idle_starts, 1);
}

#[test]
fn alter_targets_pick_their_clips() {
    // jump start plays at double speed
    let d = Directive::Alter { old_state: Some(AnimationState::Standing), state: AnimationState::Jumping };
    let p = plan_playback(&d, false);
    assert!(p.stop_all);
    assert_eq!(
        p.start,
        Some(StartCommand { clip: Clip::JumpStart, speed_milli: 2000, looped: false })
    );
    // standing reached from anywhere but falling plays the looping idle
    let d = Directive::Alter { old_state: Some(AnimationState::Running(300)), state: AnimationState::Standing };
    let p = plan_playback(&d, false);
    assert_eq!(
        p.start,
        Some(StartCommand { clip: Clip::Idle, speed_milli: 1000, looped: true })
    );
    // dashing plays the one-shot dash clip
    let d = Directive::Alter { old_state: Some(AnimationState::Running(300)), state: AnimationState::Dashing };
    let p = plan_playback(&d, false);
    assert_eq!(
        p.start,
        Some(StartCommand { clip: Clip::Dash, speed_milli: 1000, looped: false })
    );
    // an alter into a state the mapper does not handle stops and starts nothing
    let d = Directive::Alter { old_state: None, state: AnimationState::Landing };
    let p = plan_playback(&d, false);
    assert!(p.stop_all);
    assert_eq!(p.start, None);
}

#[test]
fn frames_before_attachment_are_safe_no_ops() {
    let mut machine = AnimatingState::new();
    let unattached = AnimationRegistry::new(1, 2, 3, 4, 5, 6);
    let c = controller_with(None);
    let p = animation_frame(&mut machine, &unattached, &c, &physical(true, 2000), false);
    assert_eq!(p, PlaybackPlan { stop_all: false, start: None, set_run_speed: None });
    // the skipped frame left no memory behind: the first attached frame
    // still alters from "none yet"
    let reg = registry();
    let p = animation_frame(&mut machine, &reg, &c, &physical(true, 2000), false);
    assert_eq!(
        p,
        PlaybackPlan {
            stop_all: true,
            start: Some(StartCommand { clip: Clip::Run, speed_milli: 200, looped: true }),
            set_run_speed: None,
        }
    );
}

#[test]
fn attaching_twice_is_a_no_op() {
    let mut r = AnimationRegistry::new(10, 20, 30, 40, 50, 60);
    r.attach();
    let once = r;
    r.attach();
    assert_eq!(r, once);
    assert_eq!(r.node_of(Clip::Idle), 10);
    assert_eq!(r.node_of(Clip::Run), 20);
    assert_eq!(r.node_of(Clip::JumpStart), 30);
    assert_eq!(r.node_of(Clip::JumpIdle), 40);
    assert_eq!(r.node_of(Clip::JumpLand), 50);
    assert_eq!(r.node_of(Clip::Dash), 60);
}

#[test]
fn defensive_no_jump_frame_changes_nothing() {
    let mut machine = AnimatingState::new();
    let reg = registry();
    let c = controller_with(Some(ActiveAction::Jump(JumpPhase::NoJump)));
    let p = animation_frame(&mut machine, &reg, &c, &physical(true, 0), false);
    assert_eq!(p, PlaybackPlan { stop_all: false, start: None, set_run_speed: None });
}
