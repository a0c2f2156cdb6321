//! Camera pose controller for a player-driven game camera.
//!
//! A small state machine selects discrete camera poses from logical key
//! input and walks the camera's yaw, pitch and depth toward each pose's
//! target at a bounded speed, one step per simulation tick. The host
//! engine (scene graph, rigid body, rendering) stays outside: it feeds
//! key events in and takes per-tick motion commands out.
//!
//! All angles are kept in tenths of a degree and depths in tenths of a
//! world unit, so every entry of the pose table — including the
//! half-degree-per-tick speeds — is an exact integer.

pub mod controller;
pub mod laws;
pub mod model;
pub mod pose;

pub use controller::ControllerState;
pub use controller::StepOutput;
pub use pose::Direction;
pub use pose::Pose;
