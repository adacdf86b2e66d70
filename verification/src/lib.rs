//! A per-frame camera controller for a 2D viewport.
//!
//! Pointer drags pan the cameras, the scroll wheel zooms them, and an optional
//! world boundary keeps the visible rectangle of a camera inside it. The host
//! hands in one [`camera::FrameInput`] per frame together with its camera
//! records and gets the records back with their new pose.
//!
//! All coordinates are `glam` vectors. Their arithmetic is taken from `glam`
//! as it is; what is proved here is which arithmetic is applied to which
//! camera, and what is left alone.
//!
//! - [`vector`] and [`projection`]: the values the controller computes with,
//!   and what is believed of the operations on them.
//! - [`camera`]: the records handed in each frame.
//! - [`pan`] and [`zoom`]: the two passes of a frame.
//! - [`laws`]: what holds over whole runs of frames.

pub mod vector;
pub mod projection;
pub mod camera;
pub mod pan;
pub mod zoom;
pub mod laws;
