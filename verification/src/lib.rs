//! Core logic of a minimal image viewer: viewport fitting under aspect-ratio
//! preservation, a pan/zoom camera over a fixed logical canvas, image
//! placement (center-and-maximize), and the event-dispatch state machine.
//!
//! Windowing, image decoding and rendering are left to a backend; this crate
//! holds only the transform computations and the interaction state machine.

pub mod camera;
pub mod dispatch;
pub mod placement;
pub mod viewport;
