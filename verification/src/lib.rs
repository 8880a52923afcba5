//! Locomotion-to-animation synchronization for a third-person avatar.
//!
//! The library models the discrete decision core of a character controller:
//! resolving player input into a continuous walk basis plus at most one
//! discrete action (jump or dash), classifying the avatar's physical
//! situation into an animation state, deciding frame over frame whether that
//! state changed, and mapping the decision to concrete playback commands.
//! An orbit-camera rig's clamped zoom and pitch accumulators are modeled as
//! well. Continuous quantities (speeds, angles, distances) are carried in
//! thousandths of their physical unit so that every rule is exact integer
//! arithmetic.

pub mod animating;
pub mod camera;
pub mod classify;
pub mod locomotion;
pub mod playback;
