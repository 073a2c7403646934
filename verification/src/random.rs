//! The uniform random source behind every stochastic transition.
//!
//! The walk never draws from a global generator: whoever runs it hands in a
//! `RandomSource`, so a scripted sequence can force any candidate selection or
//! branch decision.
use vstd::prelude::*;

verus! {

/// A uniform random source. Nothing is promised about the distribution of the
/// draws; the contracts only pin each draw into its range, so every verified
/// caller is correct for every possible sequence of draws.
pub trait RandomSource {
    /// Draw an index below `bound`, intended to be uniform over `0..bound`.
    fn pick(&mut self, bound: u64) -> (r: u64)
        requires
            1 <= bound,
        ensures
            r < bound,
    ;

    /// Draw a coin flip, intended to be fair; `true` directs a value upward.
    fn coin(&mut self) -> bool;
}

/// A deterministic source that replays a recorded list of draws in order.
/// `pick` reduces the current draw modulo the requested bound, and `coin`
/// reports whether the current draw is odd; an exhausted script keeps
/// yielding zero.
pub struct ScriptedRandom {
    draws: Vec<u64>,
    next: usize,
}

impl ScriptedRandom {
    /// The recorded draws.
    pub closed spec fn script(self) -> Seq<u64> {
        self.draws@
    }

    /// How many draws have been handed out already.
    pub closed spec fn cursor(self) -> int {
        self.next as int
    }

    pub fn new(draws: Vec<u64>) -> (s: ScriptedRandom)
        ensures
            s.script() == draws@,
            s.cursor() == 0,
    {
        ScriptedRandom { draws, next: 0 }
    }

    /// The next raw draw of the script, or zero once the script is spent.
    fn take(&mut self) -> (d: u64)
        ensures
            final(self).script() == old(self).script(),
            old(self).cursor() < old(self).script().len() ==> {
                &&& d == old(self).script()[old(self).cursor()]
                &&& final(self).cursor() == old(self).cursor() + 1
            },
            old(self).cursor() >= old(self).script().len() ==> {
                &&& d == 0
                &&& final(self).cursor() == old(self).cursor()
            },
    {
        if self.next < self.draws.len() {
            let d = self.draws[self.next];
            self.next = self.next + 1;
            d
        } else {
            0
        }
    }
}

impl RandomSource for ScriptedRandom {
    fn pick(&mut self, bound: u64) -> (r: u64) {
        let d = self.take();
        d % bound
    }

    fn coin(&mut self) -> bool {
        let d = self.take();
        d % 2 == 1
    }
}

} // verus!
