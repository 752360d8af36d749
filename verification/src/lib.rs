//! Interactive camera and overlay state engine for a full-screen
//! "flashlight" viewer: momentum-based pan/zoom over a captured image,
//! a damped flashlight radius, cursor edge-wrap while dragging, and the
//! surface-lifecycle decisions taken each frame.
//!
//! All continuous quantities are held in signed 64-bit fixed point with a
//! scale of one million (micro-units), so every state transition is exact
//! integer arithmetic with a verified contract.

pub mod camera;
pub mod cursor;
pub mod fixed;
pub mod flashlight;
pub mod laws;
pub mod projection;
pub mod state;
pub mod surface;
