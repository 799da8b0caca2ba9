//! An orbit camera controller over fixed-point arithmetic.
//!
//! A camera orbits a pivot point (`target`) at a distance (`radius`), facing
//! the pivot, with its attitude given by two angles (`yaw` about the world up
//! axis, `pitch` about the camera's local right axis).  Once per frame the
//! host drains its device events, this crate reduces them to a [`input::FrameInput`],
//! folds that input into the persistent [`orbit::OrbitControls`] state, and
//! synthesizes the camera's world transform from the new state.
//!
//! All quantities are fixed-point `i64` values in millionths (see [`fixed`]),
//! so every step of the controller is exact integer arithmetic: the pitch
//! clamp, the multiplicative zoom, the normalized key-direction vector and
//! the look-at shape of the synthesized transform are all proved, not tuned.

pub mod fixed;
pub mod geom;
pub mod input;
pub mod laws;
pub mod orbit;
pub mod transform;
pub mod trig;
