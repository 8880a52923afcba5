//! The animation state enumeration and the animating state machine: the
//! single point of truth for "did the semantic animation state change".

use vstd::prelude::*;

verus! {

/// The discrete animation state classified once per presentation frame.
///
/// `Running` carries the clip playback speed in thousandths of the clip's
/// natural rate; all other variants are payload-free. For transition
/// purposes two states are compared by variant alone, so two `Running`
/// values with different speeds count as the same state.
#[derive(Clone, Copy, Debug, PartialEq, Eq, Structural)]
pub enum AnimationState {
    Standing,
    Running(u32),
    Jumping,
    Falling,
    Landing,
    Dashing,
}

impl AnimationState {
    /// Whether `self` and `other` are the same variant, whatever payload
    /// `Running` carries.
    pub open spec fn same_discriminant(self, other: AnimationState) -> bool {
        match (self, other) {
            (AnimationState::Standing, AnimationState::Standing) => true,
            (AnimationState::Running(_), AnimationState::Running(_)) => true,
            (AnimationState::Jumping, AnimationState::Jumping) => true,
            (AnimationState::Falling, AnimationState::Falling) => true,
            (AnimationState::Landing, AnimationState::Landing) => true,
            (AnimationState::Dashing, AnimationState::Dashing) => true,
            _ => false,
        }
    }

    /// Variant-only comparison, ignoring the `Running` payload.
    pub fn matches_variant(&self, other: &AnimationState) -> (r: bool)
        ensures
            r == self.same_discriminant(*other),
    {
        match (self, other) {
            (AnimationState::Standing, AnimationState::Standing) => true,
            (AnimationState::Running(_), AnimationState::Running(_)) => true,
            (AnimationState::Jumping, AnimationState::Jumping) => true,
            (AnimationState::Falling, AnimationState::Falling) => true,
            (AnimationState::Landing, AnimationState::Landing) => true,
            (AnimationState::Dashing, AnimationState::Dashing) => true,
            _ => false,
        }
    }
}

/// The per-frame verdict of the animating state machine: either the
/// semantic state persists (playback keeps running, parameters may be
/// refined) or it changed (playback must restart).
#[derive(Clone, Copy, Debug, PartialEq)]
pub enum Directive {
    Maintain { state: AnimationState },
    Alter { old_state: Option<AnimationState>, state: AnimationState },
}

/// The directive produced when the remembered state is `memory` and the
/// frame classifies to `new`: `Maintain` exactly when a state is remembered
/// and shares `new`'s variant, `Alter` otherwise.
pub open spec fn spec_directive(memory: Option<AnimationState>, new: AnimationState) -> Directive {
    if memory matches Some(prev) && prev.same_discriminant(new) {
        Directive::Maintain { state: new }
    } else {
        Directive::Alter { old_state: memory, state: new }
    }
}

/// The animating state machine: remembers the previously observed
/// `AnimationState` (or none before the first observation) and is mutated
/// only through [`AnimatingState::update`], at most once per frame.
pub struct AnimatingState {
    memory: Option<AnimationState>,
}

impl AnimatingState {
    /// The remembered state, as the contracts speak of it.
    pub closed spec fn memory(self) -> Option<AnimationState> {
        self.memory
    }

    /// A machine that has observed no state yet.
    pub fn new() -> (s: AnimatingState)
        ensures
            s.memory() is None,
    {
        AnimatingState { memory: None }
    }

    /// Observe this frame's classified state. Emits `Maintain` when the
    /// variant is unchanged (refreshing the stored payload) and `Alter`
    /// when it differs or nothing was remembered; either way the memory
    /// afterwards is exactly the new state.
    pub fn update(&mut self, new_state: AnimationState) -> (d: Directive)
        ensures
            d == spec_directive(old(self).memory(), new_state),
            final(self).memory() == Some(new_state),
    {
        let maintained = match &self.memory {
            Some(prev) => prev.matches_variant(&new_state),
            None => false,
        };
        let d = if maintained {
            Directive::Maintain { state: new_state }
        } else {
            Directive::Alter { old_state: self.memory, state: new_state }
        };
        self.memory = Some(new_state);
        d
    }
}

/// Discriminant stability: once some state is remembered, observing any
/// state of the same variant — whatever payload it carries — yields
/// `Maintain`, never `Alter`.
pub proof fn lemma_discriminant_stability(prev: AnimationState, next: AnimationState)
    requires
        prev.same_discriminant(next),
    ensures
        spec_directive(Some(prev), next) == (Directive::Maintain { state: next }),
{
}

/// Alter correctness: observing a state whose variant differs from the
/// remembered one yields exactly `Alter { old_state, state }`; the memory
/// afterwards equals the new state by the contract of
/// [`AnimatingState::update`].
pub proof fn lemma_alter_correctness(prev: AnimationState, next: AnimationState)
    requires
        !prev.same_discriminant(next),
    ensures
        spec_directive(Some(prev), next) == (Directive::Alter {
            old_state: Some(prev),
            state: next,
        }),
{
}

} // verus!
