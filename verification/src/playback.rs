//! The animation playback mapper: turns the animating state machine's
//! per-frame directive into concrete playback commands, including the
//! multi-frame landing transition, plus the clip registry those commands
//! name.

use vstd::prelude::*;
use crate::animating::AnimatingState;
use crate::animating::AnimationState;
use crate::animating::Directive;
use crate::animating::spec_directive;
use crate::classify::PhysicalState;
use crate::classify::spec_classify;
use crate::locomotion::LocomotionController;

verus! {

/// The closed set of clips the mapper drives: the looping idle and run
/// clips, the one-shot jump start, airborne idle, landing and dash clips.
#[derive(Clone, Copy, Debug, PartialEq, Eq, Structural)]
pub enum Clip {
    Idle,
    Run,
    JumpStart,
    JumpIdle,
    JumpLand,
    Dash,
}

/// One playback start: which clip, at what speed (thousandths of the
/// clip's natural rate), looping or one-shot.
#[derive(Clone, Copy, Debug, PartialEq, Eq, Structural)]
pub struct StartCommand {
    pub clip: Clip,
    pub speed_milli: u32,
    pub looped: bool,
}

/// The playback work one frame asks of the animation player: optionally
/// stop everything first, optionally start one clip, optionally rescale
/// the running clip's playback speed without restarting it.
#[derive(Clone, Copy, Debug, PartialEq, Eq, Structural)]
pub struct PlaybackPlan {
    pub stop_all: bool,
    pub start: Option<StartCommand>,
    pub set_run_speed: Option<u32>,
}

impl PlaybackPlan {
    /// The frame changes nothing: no stop, no start, no speed change.
    pub open spec fn is_no_op(self) -> bool {
        !self.stop_all && self.start is None && self.set_run_speed is None
    }
}

/// A plan that leaves playback untouched.
fn no_op_plan() -> (p: PlaybackPlan)
    ensures
        p.is_no_op(),
{
    PlaybackPlan { stop_all: false, start: None, set_run_speed: None }
}

/// The mapping from a directive to playback commands.
///
/// On `Maintain { Running(speed) }` the run clip is not restarted; only
/// its playback speed is rescaled. On `Maintain { Standing }` nothing
/// happens until the landing clip reports finished, and then — exactly
/// then — the looping idle clip starts; this is how `Landing` resolves
/// into steady `Standing` without being a classifier output. Every other
/// maintained state changes nothing.
///
/// On `Alter` all current playback stops, then the new state picks the
/// clip: `Standing` reached from `Falling` plays the one-shot landing
/// clip, `Standing` reached otherwise the looping idle clip; `Running`
/// the looping run clip at the carried speed; `Jumping` the one-shot jump
/// start at double speed; `Falling` the one-shot airborne idle;
/// `Dashing` the one-shot dash clip; any other state starts nothing.
pub open spec fn spec_plan(directive: Directive, landing_finished: bool) -> PlaybackPlan {
    match directive {
        Directive::Maintain { state } => match state {
            AnimationState::Running(speed) => PlaybackPlan {
                stop_all: false,
                start: None,
                set_run_speed: Some(speed),
            },
            AnimationState::Standing => if landing_finished {
                PlaybackPlan {
                    stop_all: false,
                    start: Some(
                        StartCommand { clip: Clip::Idle, speed_milli: 1000u32, looped: true },
                    ),
                    set_run_speed: None,
                }
            } else {
                PlaybackPlan { stop_all: false, start: None, set_run_speed: None }
            },
            _ => PlaybackPlan { stop_all: false, start: None, set_run_speed: None },
        },
        Directive::Alter { old_state, state } => PlaybackPlan {
            stop_all: true,
            start: match state {
                AnimationState::Standing => if old_state == Some(AnimationState::Falling) {
                    Some(StartCommand { clip: Clip::JumpLand, speed_milli: 1000u32, looped: false })
                } else {
                    Some(StartCommand { clip: Clip::Idle, speed_milli: 1000u32, looped: true })
                },
                AnimationState::Running(speed) => Some(
                    StartCommand { clip: Clip::Run, speed_milli: speed, looped: true },
                ),
                AnimationState::Jumping => Some(
                    StartCommand { clip: Clip::JumpStart, speed_milli: 2000u32, looped: false },
                ),
                AnimationState::Falling => Some(
                    StartCommand { clip: Clip::JumpIdle, speed_milli: 1000u32, looped: false },
                ),
                AnimationState::Dashing => Some(
                    StartCommand { clip: Clip::Dash, speed_milli: 1000u32, looped: false },
                ),
                _ => None,
            },
            set_run_speed: None,
        },
    }
}

/// Map one directive to this frame's playback commands.
/// `landing_finished` reports whether the landing clip is present in the
/// player and has finished; it only matters while `Standing` persists.
pub fn plan_playback(directive: &Directive, landing_finished: bool) -> (p: PlaybackPlan)
    ensures
        p == spec_plan(*directive, landing_finished),
{
    match directive {
        Directive::Maintain { state } => match state {
            AnimationState::Running(speed) => PlaybackPlan {
                stop_all: false,
                start: None,
                set_run_speed: Some(*speed),
            },
            AnimationState::Standing => {
                if landing_finished {
                    PlaybackPlan {
                        stop_all: false,
                        start: Some(
                            StartCommand { clip: Clip::Idle, speed_milli: 1000, looped: true },
                        ),
                        set_run_speed: None,
                    }
                } else {
                    PlaybackPlan { stop_all: false, start: None, set_run_speed: None }
                }
            },
            _ => PlaybackPlan { stop_all: false, start: None, set_run_speed: None },
        },
        Directive::Alter { old_state, state } => {
            let start = match state {
                AnimationState::Standing => {
                    let from_falling = match old_state {
                        Some(AnimationState::Falling) => true,
                        _ => false,
                    };
                    if from_falling {
                        Some(StartCommand { clip: Clip::JumpLand, speed_milli: 1000, looped: false })
                    } else {
                        Some(StartCommand { clip: Clip::Idle, speed_milli: 1000, looped: true })
                    }
                },
                AnimationState::Running(speed) => Some(
                    StartCommand { clip: Clip::Run, speed_milli: *speed, looped: true },
                ),
                AnimationState::Jumping => Some(
                    StartCommand { clip: Clip::JumpStart, speed_milli: 2000, looped: false },
                ),
                AnimationState::Falling => Some(
                    StartCommand { clip: Clip::JumpIdle, speed_milli: 1000, looped: false },
                ),
                AnimationState::Dashing => Some(
                    StartCommand { clip: Clip::Dash, speed_milli: 1000, looped: false },
                ),
                AnimationState::Landing => None,
            };
            PlaybackPlan { stop_all: true, start, set_run_speed: None }
        },
    }
}

/// The clip registry: the handle each clip was registered under, plus
/// whether the animation graph has been attached to the skeletal player
/// yet. It is populated once, asynchronously; until attachment every
/// frame's playback work must be a safe no-op.
#[derive(Clone, Copy, Debug, PartialEq, Eq, Structural)]
pub struct AnimationRegistry {
    pub attached: bool,
    pub idle_node: u32,
    pub run_node: u32,
    pub jump_start_node: u32,
    pub jump_idle_node: u32,
    pub jump_land_node: u32,
    pub dash_node: u32,
}

impl AnimationRegistry {
    /// A registry holding the given clip handles, not yet attached.
    pub fn new(
        idle_node: u32,
        run_node: u32,
        jump_start_node: u32,
        jump_idle_node: u32,
        jump_land_node: u32,
        dash_node: u32,
    ) -> (r: AnimationRegistry)
        ensures
            !r.attached,
            r.idle_node == idle_node,
            r.run_node == run_node,
            r.jump_start_node == jump_start_node,
            r.jump_idle_node == jump_idle_node,
            r.jump_land_node == jump_land_node,
            r.dash_node == dash_node,
    {
        AnimationRegistry {
            attached: false,
            idle_node,
            run_node,
            jump_start_node,
            jump_idle_node,
            jump_land_node,
            dash_node,
        }
    }

    /// The handle a clip resolves to.
    pub open spec fn spec_node_of(self, clip: Clip) -> u32 {
        match clip {
            Clip::Idle => self.idle_node,
            Clip::Run => self.run_node,
            Clip::JumpStart => self.jump_start_node,
            Clip::JumpIdle => self.jump_idle_node,
            Clip::JumpLand => self.jump_land_node,
            Clip::Dash => self.dash_node,
        }
    }

    /// Look a clip's handle up; pure, no behavior beyond lookup.
    pub fn node_of(&self, clip: Clip) -> (node: u32)
        ensures
            node == self.spec_node_of(clip),
    {
        match clip {
            Clip::Idle => self.idle_node,
            Clip::Run => self.run_node,
            Clip::JumpStart => self.jump_start_node,
            Clip::JumpIdle => self.jump_idle_node,
            Clip::JumpLand => self.jump_land_node,
            Clip::Dash => self.dash_node,
        }
    }

    /// Record that the animation graph has been attached to the skeletal
    /// player. Idempotent: attaching a second time changes nothing.
    pub fn attach(&mut self)
        ensures
            final(self).attached,
            final(self).idle_node == old(self).idle_node,
            final(self).run_node == old(self).run_node,
            final(self).jump_start_node == old(self).jump_start_node,
            final(self).jump_idle_node == old(self).jump_idle_node,
            final(self).jump_land_node == old(self).jump_land_node,
            final(self).dash_node == old(self).dash_node,
    {
        self.attached = true;
    }
}

/// One presentation frame of the whole animating pipeline: classify the
/// controller's situation, feed the animating state machine, and map the
/// directive to playback commands.
///
/// Before the registry's graph is attached the frame is skipped entirely:
/// the plan is a no-op and the machine's memory is untouched. The same
/// holds for the defensive skip when the classifier yields nothing. On
/// every other frame the memory advances to the classified state and the
/// plan is exactly what [`spec_plan`] maps the directive to.
pub fn animation_frame(
    animating: &mut AnimatingState,
    registry: &AnimationRegistry,
    controller: &LocomotionController,
    physical: &PhysicalState,
    landing_finished: bool,
) -> (p: PlaybackPlan)
    ensures
        !registry.attached ==> p.is_no_op() && final(animating).memory() == old(
            animating,
        ).memory(),
        registry.attached ==> match spec_classify(controller.action, *physical) {
            None => p.is_no_op() && final(animating).memory() == old(animating).memory(),
            Some(state) => p == spec_plan(
                spec_directive(old(animating).memory(), state),
                landing_finished,
            ) && final(animating).memory() == Some(state),
        },
{
    if !registry.attached {
        return no_op_plan();
    }
    let classified = crate::classify::classify(controller, physical);
    match classified {
        None => no_op_plan(),
        Some(state) => {
            let directive = animating.update(state);
            plan_playback(&directive, landing_finished)
        },
    }
}

/// Landing resolution: the transition into `Standing` from `Falling`
/// starts the one-shot landing clip; while `Standing` then persists,
/// nothing starts and nothing stops as long as the landing clip has not
/// finished, and the frame on which it reports finished starts the
/// looping idle clip — without stopping, so exactly once overall, the
/// next `Standing` frame being back to a no-op.
pub proof fn lemma_landing_resolution()
    ensures
        spec_directive(Some(AnimationState::Falling), AnimationState::Standing) == (Directive::Alter {
            old_state: Some(AnimationState::Falling),
            state: AnimationState::Standing,
        }),
        spec_plan(
            Directive::Alter { old_state: Some(AnimationState::Falling), state: AnimationState::Standing },
            false,
        ) == (PlaybackPlan {
            stop_all: true,
            start: Some(StartCommand { clip: Clip::JumpLand, speed_milli: 1000u32, looped: false }),
            set_run_speed: None,
        }),
        spec_plan(Directive::Maintain { state: AnimationState::Standing }, false).is_no_op(),
        spec_plan(Directive::Maintain { state: AnimationState::Standing }, true) == (PlaybackPlan {
            stop_all: false,
            start: Some(StartCommand { clip: Clip::Idle, speed_milli: 1000u32, looped: true }),
            set_run_speed: None,
        }),
{
}

/// Speed scaling across consecutive running frames: whatever speeds the
/// two frames carry, the second frame maintains rather than alters, and
/// its plan never stops or starts anything — it only rescales the run
/// clip's playback speed to the new value.
pub proof fn lemma_running_frames_rescale_only(
    prev_speed_milli: u32,
    new_speed_milli: u32,
    landing_finished: bool,
)
    ensures
        spec_directive(
            Some(AnimationState::Running(prev_speed_milli)),
            AnimationState::Running(new_speed_milli),
        ) == (Directive::Maintain { state: AnimationState::Running(new_speed_milli) }),
        spec_plan(
            Directive::Maintain { state: AnimationState::Running(new_speed_milli) },
            landing_finished,
        ) == (PlaybackPlan { stop_all: false, start: None, set_run_speed: Some(new_speed_milli) }),
{
}

} // verus!
