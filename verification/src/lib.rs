//! Interaction and state core of a sprite-based virtual-pet toy.
//!
//! The pet reacts to pointer petting and to proximity with draggable supply
//! items; supplies released away from their inventory slot drift back to it.
//! Positions are integer world units and time is integer microseconds, so
//! every system is a total, verified function from plain values to plain
//! values. The host engine (rendering, input devices, the frame clock) sits
//! outside this crate and only exchanges such values with it.

pub mod emote;
pub mod frame;
pub mod geom;
pub mod pet;
pub mod supplies;
pub mod timer;
pub mod utils;
