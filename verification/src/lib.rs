//! Verified core of a small sprite-animation demo: frame selection from
//! elapsed time, a color-cycle counter, world-to-screen translation, and the
//! per-iteration decision of the main loop. Windowing, event polling and the
//! actual drawing are left to an unverified shell around this library.

pub mod animation;
pub mod color;
pub mod driver;
pub mod geometry;
pub mod input;
