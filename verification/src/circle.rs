//! The disc: a position, a color and a fixed radius, advanced as one.
use crate::color::{color_advances_to, renderable_seq, Color};
use crate::position::{has_valid_candidate, is_candidate, Position, MAX_STEP, MAX_X_POS, MAX_Y_POS,
    MIN_POS};
use crate::random::RandomSource;
use crate::ArtError;
use vstd::prelude::*;

verus! {

/// The fixed disc radius, in hundredths of a canvas unit.
pub const RADIUS: i64 = 220;

/// `b` follows `a` by one tick: the position moved to one of its valid
/// candidate offsets, every color channel drifted in its own direction, and
/// the radius stayed.
pub open spec fn circle_advances_to(a: Circle, b: Circle, step: int, color_delta: u8) -> bool {
    &&& is_candidate(a.position, b.position, step)
    &&& b.position.wf()
    &&& color_advances_to(a.color, b.color, color_delta)
    &&& b.radius == a.radius
}

#[derive(Clone, Copy, Debug, PartialEq, Eq, Structural)]
pub struct Circle {
    pub position: Position,
    pub color: Color,
    pub radius: i64,
}

impl Circle {
    /// The disc invariant: its position is strictly inside the region.
    pub open spec fn wf(self) -> bool {
        self.position.wf()
    }

    /// A disc placed uniformly at random inside the region, with independently
    /// random channels and the fixed radius.
    pub fn new<R: RandomSource>(rng: &mut R) -> (c: Circle)
        ensures
            c.wf(),
            c.radius == RADIUS,
    {
        Circle { position: Position::rand(rng), color: Color::rand(rng), radius: RADIUS }
    }

    /// One tick of state: advance the position walk, then the color walk, each
    /// exactly once. A failed position transition leaves the disc unchanged
    /// and surfaces the error; the color is then never touched.
    pub fn update<R: RandomSource>(
        &mut self,
        position_delta: i64,
        color_delta: u8,
        rng: &mut R,
    ) -> (res: Result<(), ArtError>)
        requires
            old(self).wf(),
            0 <= position_delta <= MAX_STEP,
        ensures
            final(self).wf(),
            final(self).radius == old(self).radius,
            res is Ok <==> has_valid_candidate(old(self).position, position_delta as int),
            res is Ok ==> circle_advances_to(
                *old(self),
                *final(self),
                position_delta as int,
                color_delta,
            ),
            res is Err ==> *final(self) == *old(self) && res == Err::<(), ArtError>(
                ArtError::InvalidRegion,
            ),
            res is Err ==> 2 * position_delta >= MAX_X_POS - MIN_POS && 2 * position_delta
                >= MAX_Y_POS - MIN_POS,
    {
        match self.position.update(position_delta, rng) {
            Ok(()) => {},
            Err(e) => {
                return Err(e);
            },
        }
        self.color.update(color_delta, rng);
        Ok(())
    }

    /// The textual `rgb(R, G, B)` form of the current color.
    pub fn color(&self) -> (s: String)
        ensures
            s@ == renderable_seq(self.color),
    {
        self.color.to_renderable()
    }

    pub fn x_position(&self) -> (x: i64)
        ensures
            x == self.position.x,
    {
        self.position.x
    }

    pub fn y_position(&self) -> (y: i64)
        ensures
            y == self.position.y,
    {
        self.position.y
    }

    pub fn radius(&self) -> (r: i64)
        ensures
            r == self.radius,
    {
        self.radius
    }
}

} // verus!
