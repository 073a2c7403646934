//! The bounded random walk in position.
//!
//! A position is valid only strictly inside the region: values exactly on the
//! boundary are invalid. One transition enumerates the eight candidate offsets
//! `(step * mx, step * my)` for multipliers in `{-1, 0, 1}` without `(0, 0)`,
//! keeps the candidates that stay strictly inside, and picks one of them
//! uniformly. When every candidate falls outside, the transition reports
//! `ArtError::InvalidRegion` and leaves the position unchanged.
use crate::random::RandomSource;
use crate::ArtError;
use vstd::prelude::*;

verus! {

/// Lower bound of both axes, in hundredths of a canvas unit.
pub const MIN_POS: i64 = 0;

/// Upper bound of the x axis, in hundredths of a canvas unit.
pub const MAX_X_POS: i64 = 50000;

/// Upper bound of the y axis, in hundredths of a canvas unit.
pub const MAX_Y_POS: i64 = 25000;

/// Largest step a transition accepts; it keeps every candidate coordinate
/// inside `i64`, and any step this large leaves the region anyway.
pub const MAX_STEP: i64 = i64::MAX - MAX_X_POS;

/// Strictly inside the region on both axes.
pub open spec fn in_bounds(x: int, y: int) -> bool {
    MIN_POS < x < MAX_X_POS && MIN_POS < y < MAX_Y_POS
}

#[derive(Clone, Copy, Debug, PartialEq, Eq, Structural)]
pub struct Position {
    pub x: i64,
    pub y: i64,
}

/// `q` is one of the eight candidate offsets of `p` for step `s`: each axis
/// moves by `-s`, `0` or `+s`, and not both axes stay.
pub open spec fn is_candidate(p: Position, q: Position, s: int) -> bool {
    ||| (q.x == p.x - s && q.y == p.y - s)
    ||| (q.x == p.x - s && q.y == p.y)
    ||| (q.x == p.x - s && q.y == p.y + s)
    ||| (q.x == p.x && q.y == p.y - s)
    ||| (q.x == p.x && q.y == p.y + s)
    ||| (q.x == p.x + s && q.y == p.y - s)
    ||| (q.x == p.x + s && q.y == p.y)
    ||| (q.x == p.x + s && q.y == p.y + s)
}

/// At least one of the eight candidate offsets of `p` stays strictly inside
/// the region.
pub open spec fn has_valid_candidate(p: Position, s: int) -> bool {
    ||| in_bounds(p.x - s, p.y - s)
    ||| in_bounds(p.x - s, p.y as int)
    ||| in_bounds(p.x - s, p.y + s)
    ||| in_bounds(p.x as int, p.y - s)
    ||| in_bounds(p.x as int, p.y + s)
    ||| in_bounds(p.x + s, p.y - s)
    ||| in_bounds(p.x + s, p.y as int)
    ||| in_bounds(p.x + s, p.y + s)
}

/// A position with no valid candidate only exists where one step spans the
/// whole region on both axes: with a smaller step, a transition never fails.
pub proof fn lemma_no_candidate_step_spans_region(p: Position, s: int)
    requires
        p.wf(),
        0 <= s,
        !has_valid_candidate(p, s),
    ensures
        2 * s >= MAX_X_POS - MIN_POS,
        2 * s >= MAX_Y_POS - MIN_POS,
{
}

impl Position {
    /// The position invariant: strictly inside the region.
    pub open spec fn wf(self) -> bool {
        in_bounds(self.x as int, self.y as int)
    }

    /// Uniform random placement strictly inside the region.
    pub fn rand<R: RandomSource>(rng: &mut R) -> (p: Position)
        ensures
            p.wf(),
    {
        let x = rng.pick((MAX_X_POS - MIN_POS - 1) as u64) as i64 + MIN_POS + 1;
        let y = rng.pick((MAX_Y_POS - MIN_POS - 1) as u64) as i64 + MIN_POS + 1;
        Position { x, y }
    }

    /// Whether this position is strictly inside the region.
    pub fn validate(&self) -> (valid: bool)
        ensures
            valid == self.wf(),
    {
        self.x > MIN_POS && self.x < MAX_X_POS && self.y > MIN_POS && self.y < MAX_Y_POS
    }

    /// One random-walk transition: keep the candidate offsets that stay
    /// strictly inside the region, pick one of them uniformly, and move there.
    /// When no candidate stays inside, report `InvalidRegion` and stay.
    pub fn update<R: RandomSource>(&mut self, position_delta: i64, rng: &mut R) -> (res: Result<
        (),
        ArtError,
    >)
        requires
            old(self).wf(),
            0 <= position_delta <= MAX_STEP,
        ensures
            final(self).wf(),
            res is Ok <==> has_valid_candidate(*old(self), position_delta as int),
            res is Ok ==> is_candidate(*old(self), *final(self), position_delta as int),
            res is Err ==> *final(self) == *old(self) && res == Err::<(), ArtError>(
                ArtError::InvalidRegion,
            ),
            res is Err ==> 2 * position_delta >= MAX_X_POS - MIN_POS && 2 * position_delta
                >= MAX_Y_POS - MIN_POS,
    {
        let d = position_delta;
        let lo_x = self.x - d;
        let hi_x = self.x + d;
        let lo_y = self.y - d;
        let hi_y = self.y + d;

        let mut options: Vec<Position> = Vec::new();
        push_if_valid(&mut options, lo_x, lo_y);
        push_if_valid(&mut options, lo_x, self.y);
        push_if_valid(&mut options, lo_x, hi_y);
        push_if_valid(&mut options, self.x, lo_y);
        push_if_valid(&mut options, self.x, hi_y);
        push_if_valid(&mut options, hi_x, lo_y);
        push_if_valid(&mut options, hi_x, self.y);
        push_if_valid(&mut options, hi_x, hi_y);

        assert(forall|i: int|
            0 <= i < options@.len() ==> is_candidate(*self, options@[i], d as int)
                && options@[i].wf());
        assert(options@.len() > 0 <==> has_valid_candidate(*self, d as int));

        if options.len() == 0 {
            proof {
                lemma_no_candidate_step_spans_region(*self, d as int);
            }
            return Err(ArtError::InvalidRegion);
        }

        let random_index = rng.pick(options.len() as u64) as usize;
        let chosen = options[random_index];
        self.x = chosen.x;
        self.y = chosen.y;
        Ok(())
    }
}

/// Retain `(x, y)` as a walk candidate only if it lies strictly inside the
/// region.
fn push_if_valid(options: &mut Vec<Position>, x: i64, y: i64)
    ensures
        in_bounds(x as int, y as int) ==> final(options)@ == old(options)@.push(
            Position { x, y },
        ),
        !in_bounds(x as int, y as int) ==> final(options)@ == old(options)@,
{
    let candidate = Position { x, y };
    if candidate.validate() {
        options.push(candidate);
    }
}

} // verus!
