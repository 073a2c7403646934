//! Core of a generative-art scene: one colored disc performs a bounded random
//! walk in position and in per-channel color value, and a driver repeats
//! render-then-advance ticks either as a synchronous burst or one tick per
//! scheduling opportunity.
//!
//! Coordinates are fixed-point: one unit is a hundredth of a canvas unit, so
//! the canvas region `0..500 x 0..250` is `0..50000 x 0..25000` here.
//! Randomness and rendering are injected capabilities (`random::RandomSource`,
//! `driver::Renderer`), so deterministic sequences can drive the walk and the
//! exact render/advance alternation is part of the contracts.
use vstd::prelude::*;

pub mod circle;
pub mod color;
pub mod driver;
pub mod position;
pub mod random;

verus! {

/// The ways a run can fail; all are fatal to the run that raised them.
#[derive(Clone, Copy, Debug, PartialEq, Eq, Structural)]
pub enum ArtError {
    /// The position walk found no candidate offset inside the region.
    InvalidRegion,
    /// The drawing boundary rejected a draw call.
    RendererFailure,
    /// An external control value could not be read at driver start.
    ConfigurationMissing,
}

} // verus!
