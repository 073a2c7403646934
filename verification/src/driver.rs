//! The animation driver: repeated render-then-advance ticks.
//!
//! Burst mode runs a fixed number of ticks synchronously. Scheduled mode is an
//! explicit state machine, one tick per scheduling opportunity, that
//! self-terminates once its counter passes the frame limit; the off-by-one is
//! deliberate and observable, a limit of `N` renders `N + 1` frames.
//!
//! Rendering is an injected capability: a `Renderer` owns the drawing surface
//! and keeps a ghost trace of every frame it accepted, so the contracts here
//! can count renders and state the strict render/advance alternation.
use crate::circle::{circle_advances_to, Circle};
use crate::color::{Color, ColorBit};
use crate::position::{Position, MAX_STEP, MAX_X_POS, MAX_Y_POS, MIN_POS};
use crate::random::RandomSource;
use crate::ArtError;
use vstd::prelude::*;

verus! {

/// Everything the drawing boundary receives for one render: position, radius
/// and the three channel values, all in the disc's own units.
#[derive(Clone, Copy, Debug, PartialEq, Eq, Structural)]
pub struct Frame {
    pub x: i64,
    pub y: i64,
    pub radius: i64,
    pub red: u8,
    pub green: u8,
    pub blue: u8,
}

impl Frame {
    /// The textual `rgb(R, G, B)` form of the frame's color, as the drawing
    /// boundary consumes it.
    pub fn color(&self) -> (s: String)
        ensures
            s@ == crate::color::renderable_seq(circle_of(*self).color),
    {
        let c = Color {
            r: ColorBit { bit: self.red },
            g: ColorBit { bit: self.green },
            b: ColorBit { bit: self.blue },
        };
        c.to_renderable()
    }
}

/// The frame a render of `c` observes.
pub open spec fn frame_of(c: Circle) -> Frame {
    Frame {
        x: c.position.x,
        y: c.position.y,
        radius: c.radius,
        red: c.color.r.bit,
        green: c.color.g.bit,
        blue: c.color.b.bit,
    }
}

/// The disc state a frame pictures; inverse of `frame_of`.
pub open spec fn circle_of(f: Frame) -> Circle {
    Circle {
        position: Position { x: f.x, y: f.y },
        color: Color {
            r: ColorBit { bit: f.red },
            g: ColorBit { bit: f.green },
            b: ColorBit { bit: f.blue },
        },
        radius: f.radius,
    }
}

/// Take the frame a render of `disc` would observe now.
pub fn snapshot(disc: &Circle) -> (f: Frame)
    ensures
        f == frame_of(*disc),
{
    Frame {
        x: disc.position.x,
        y: disc.position.y,
        radius: disc.radius,
        red: disc.color.r.bit,
        green: disc.color.g.bit,
        blue: disc.color.b.bit,
    }
}

/// The disc pictured by `b` follows the one pictured by `a` by exactly one
/// tick of state.
pub open spec fn frame_advances_to(a: Frame, b: Frame, step: int, color_delta: u8) -> bool {
    circle_advances_to(circle_of(a), circle_of(b), step, color_delta)
}

/// The frames picture one unbroken render-then-advance alternation: each
/// rendered state is exactly one advance past the state rendered before it.
pub open spec fn walk_trace(frames: Seq<Frame>, step: int, color_delta: u8) -> bool {
    forall|i: int|
        0 <= i && i + 1 < frames.len() ==> #[trigger] frame_advances_to(
            frames[i],
            frames[i + 1],
            step,
            color_delta,
        )
}

/// The drawing boundary. A renderer owns the drawing surface; its ghost
/// `frames()` trace holds every frame it has accepted, oldest first. A
/// rejected draw call is fatal to the run that issued it.
pub trait Renderer {
    /// The frames accepted so far, oldest first. A renderer whose surface
    /// keeps no record may leave the default, an empty trace.
    open spec fn frames(&self) -> Seq<Frame> {
        Seq::empty()
    }

    /// Draw one frame; report whether the drawing surface accepted it.
    fn render(&mut self, frame: Frame) -> (ok: bool)
        ensures
            ok ==> final(self).frames() == old(self).frames().push(frame),
            !ok ==> final(self).frames() == old(self).frames(),
    ;
}

/// A renderer that accepts every frame and keeps it; the test double for a
/// drawing surface.
pub struct RecordingRenderer {
    pub rendered: Vec<Frame>,
}

impl RecordingRenderer {
    pub fn new() -> (r: RecordingRenderer)
        ensures
            r.rendered@.len() == 0,
    {
        RecordingRenderer { rendered: Vec::new() }
    }
}

impl Renderer for RecordingRenderer {
    open spec fn frames(&self) -> Seq<Frame> {
        self.rendered@
    }

    fn render(&mut self, frame: Frame) -> (ok: bool) {
        self.rendered.push(frame);
        true
    }
}

/// Burst mode: render the disc, then advance it, exactly `frame_count` times,
/// synchronously. The final advance is never rendered. A rejected draw call or
/// a failed position transition aborts the run with its error; the frames
/// rendered up to that point stay rendered. A run that asks for no frames
/// succeeds outright, and a rejected draw call always leaves fewer accepted
/// frames than were asked for.
pub fn run_burst<RS: RandomSource, RD: Renderer>(
    disc: &mut Circle,
    frame_count: u32,
    position_delta: i64,
    color_delta: u8,
    rng: &mut RS,
    renderer: &mut RD,
) -> (res: Result<(), ArtError>)
    requires
        old(disc).wf(),
        0 <= position_delta <= MAX_STEP,
    ensures
        final(disc).wf(),
        final(disc).radius == old(disc).radius,
        final(renderer).frames().len() >= old(renderer).frames().len(),
        final(renderer).frames().take(old(renderer).frames().len() as int) == old(
            renderer,
        ).frames(),
        ({
            let fresh = final(renderer).frames().skip(old(renderer).frames().len() as int);
            &&& fresh.len() <= frame_count
            &&& walk_trace(fresh, position_delta as int, color_delta)
            &&& fresh.len() > 0 ==> fresh[0] == frame_of(*old(disc))
            &&& res is Ok ==> fresh.len() == frame_count
            &&& res is Ok && frame_count > 0 ==> frame_advances_to(
                fresh.last(),
                frame_of(*final(disc)),
                position_delta as int,
                color_delta,
            )
            &&& res == Err::<(), ArtError>(ArtError::InvalidRegion) ==> fresh.len() > 0
                && fresh.last() == frame_of(*final(disc))
        }),
        frame_count == 0 ==> res is Ok,
        res == Err::<(), ArtError>(ArtError::RendererFailure) ==> final(renderer).frames().skip(
            old(renderer).frames().len() as int,
        ).len() < frame_count,
        res is Ok && frame_count == 0 ==> *final(disc) == *old(disc),
        res is Err ==> res == Err::<(), ArtError>(ArtError::InvalidRegion) || res == Err::<
            (),
            ArtError,
        >(ArtError::RendererFailure),
        res == Err::<(), ArtError>(ArtError::InvalidRegion) ==> 2 * position_delta >= MAX_X_POS
            - MIN_POS && 2 * position_delta >= MAX_Y_POS - MIN_POS,
{
    let ghost base = renderer.frames();
    let ghost start = *disc;
    let mut i: u32 = 0;
    while i < frame_count
        invariant
            start == *old(disc),
            base == old(renderer).frames(),
            disc.wf(),
            disc.radius == start.radius,
            0 <= position_delta <= MAX_STEP,
            i <= frame_count,
            renderer.frames().len() == base.len() + i,
            renderer.frames().take(base.len() as int) == base,
            ({
                let fresh = renderer.frames().skip(base.len() as int);
                &&& fresh.len() == i
                &&& walk_trace(fresh, position_delta as int, color_delta)
                &&& i > 0 ==> fresh[0] == frame_of(start)
                &&& i > 0 ==> frame_advances_to(
                    fresh.last(),
                    frame_of(*disc),
                    position_delta as int,
                    color_delta,
                )
                &&& i == 0 ==> *disc == start
            }),
        decreases frame_count - i,
    {
        let frame = snapshot(disc);
        let ghost before = renderer.frames();
        let ok = renderer.render(frame);
        if !ok {
            proof {
                assert(renderer.frames().take(base.len() as int) =~= base);
            }
            return Err(ArtError::RendererFailure);
        }
        proof {
            assert(renderer.frames().take(base.len() as int) =~= base);
            assert(renderer.frames().skip(base.len() as int) =~= before.skip(
                base.len() as int,
            ).push(frame));
        }
        match disc.update(position_delta, color_delta, rng) {
            Ok(()) => {},
            Err(e) => {
                return Err(e);
            },
        }
        i = i + 1;
    }
    Ok(())
}

/// Scheduled mode as an explicit state machine: a tick counter, a frame limit
/// and the disc. On each scheduling opportunity it takes one `tick`; once the
/// counter passes the limit the state is terminal. A fresh driver renders
/// `frame_limit + 1` frames before terminating, one more than burst mode for
/// the same count: the counter is compared before it is incremented.
pub struct AnimationDriver {
    pub tick: u32,
    pub frame_limit: u32,
    pub disc: Circle,
}

impl AnimationDriver {
    /// The driver invariant: a valid disc, and room to count one past the
    /// limit.
    pub open spec fn wf(self) -> bool {
        self.disc.wf() && self.frame_limit < u32::MAX
    }

    /// How many renders this state still performs if no tick fails.
    pub open spec fn renders_owed(self) -> int {
        if self.tick > self.frame_limit {
            0
        } else {
            self.frame_limit - self.tick + 1
        }
    }

    pub fn new(disc: Circle, frame_limit: u32) -> (driver: AnimationDriver)
        requires
            disc.wf(),
            frame_limit < u32::MAX,
        ensures
            driver.wf(),
            driver.tick == 0,
            driver.frame_limit == frame_limit,
            driver.disc == disc,
    {
        AnimationDriver { tick: 0, frame_limit, disc }
    }

    /// Whether the state is terminal: the counter has passed the limit.
    pub fn is_done(&self) -> (done: bool)
        ensures
            done == (self.tick > self.frame_limit),
    {
        self.tick > self.frame_limit
    }

    /// One scheduling opportunity. In a terminal state nothing happens and
    /// `Ok(false)` asks for no further opportunity. Otherwise the counter
    /// advances, the current disc is rendered, the disc advances once, and
    /// `Ok(true)` asks for exactly one more opportunity. A rejected draw call
    /// or a failed position transition is fatal; either leaves the disc as it
    /// was rendered.
    pub fn tick<RS: RandomSource, RD: Renderer>(
        &mut self,
        position_delta: i64,
        color_delta: u8,
        rng: &mut RS,
        renderer: &mut RD,
    ) -> (res: Result<bool, ArtError>)
        requires
            old(self).wf(),
            0 <= position_delta <= MAX_STEP,
        ensures
            final(self).wf(),
            final(self).frame_limit == old(self).frame_limit,
            final(self).disc.radius == old(self).disc.radius,
            old(self).tick > old(self).frame_limit ==> res == Ok::<bool, ArtError>(false)
                && *final(self) == *old(self) && final(renderer).frames() == old(
                renderer,
            ).frames(),
            old(self).tick <= old(self).frame_limit ==> final(self).tick == old(self).tick + 1,
            res is Ok ==> (res == Ok::<bool, ArtError>(true) <==> old(self).tick <= old(
                self,
            ).frame_limit),
            res == Ok::<bool, ArtError>(true) ==> final(renderer).frames() == old(
                renderer,
            ).frames().push(frame_of(old(self).disc)) && circle_advances_to(
                old(self).disc,
                final(self).disc,
                position_delta as int,
                color_delta,
            ),
            res is Err ==> old(self).tick <= old(self).frame_limit && final(self).disc == old(
                self,
            ).disc,
            res is Err ==> res == Err::<bool, ArtError>(ArtError::InvalidRegion) || res == Err::<
                bool,
                ArtError,
            >(ArtError::RendererFailure),
            res == Err::<bool, ArtError>(ArtError::RendererFailure) ==> final(renderer).frames()
                == old(renderer).frames(),
            res == Err::<bool, ArtError>(ArtError::InvalidRegion) ==> final(renderer).frames()
                == old(renderer).frames().push(frame_of(old(self).disc)) && 2 * position_delta
                >= MAX_X_POS - MIN_POS && 2 * position_delta >= MAX_Y_POS - MIN_POS,
    {
        if self.tick > self.frame_limit {
            return Ok(false);
        }
        self.tick = self.tick + 1;
        let frame = snapshot(&self.disc);
        let ok = renderer.render(frame);
        if !ok {
            return Err(ArtError::RendererFailure);
        }
        match self.disc.update(position_delta, color_delta, rng) {
            Ok(()) => {},
            Err(e) => {
                return Err(e);
            },
        }
        Ok(true)
    }
}

/// A driver whose counter starts at zero owes exactly one render more than its
/// frame limit: the counter is compared against the limit before it is
/// incremented, so a limit of `N` admits ticks `0` through `N`.
pub proof fn lemma_fresh_driver_owes_limit_plus_one(driver: AnimationDriver)
    requires
        driver.tick == 0,
    ensures
        driver.renders_owed() == driver.frame_limit + 1,
{
}

/// Drive a scheduled run to its terminal state, taking one tick per turn of
/// the loop with the same controls each tick. A driver whose counter starts at
/// zero renders exactly `frame_limit + 1` frames before self-terminating. A
/// rejected draw call or a failed position transition aborts the run with its
/// error; the frames rendered up to that point stay rendered. A driver that is
/// already terminal succeeds outright, and a rejected draw call always leaves
/// fewer accepted frames than the state still owed.
pub fn run_scheduled<RS: RandomSource, RD: Renderer>(
    driver: &mut AnimationDriver,
    position_delta: i64,
    color_delta: u8,
    rng: &mut RS,
    renderer: &mut RD,
) -> (res: Result<(), ArtError>)
    requires
        old(driver).wf(),
        0 <= position_delta <= MAX_STEP,
    ensures
        final(driver).wf(),
        final(driver).frame_limit == old(driver).frame_limit,
        final(renderer).frames().len() >= old(renderer).frames().len(),
        final(renderer).frames().take(old(renderer).frames().len() as int) == old(
            renderer,
        ).frames(),
        ({
            let fresh = final(renderer).frames().skip(old(renderer).frames().len() as int);
            &&& fresh.len() <= old(driver).renders_owed()
            &&& walk_trace(fresh, position_delta as int, color_delta)
            &&& fresh.len() > 0 ==> fresh[0] == frame_of(old(driver).disc)
            &&& res is Ok ==> fresh.len() == old(driver).renders_owed()
        }),
        res is Ok ==> final(driver).tick > final(driver).frame_limit,
        old(driver).renders_owed() == 0 ==> res is Ok,
        res == Err::<(), ArtError>(ArtError::RendererFailure) ==> final(renderer).frames().skip(
            old(renderer).frames().len() as int,
        ).len() < old(driver).renders_owed(),
        res is Err ==> res == Err::<(), ArtError>(ArtError::InvalidRegion) || res == Err::<
            (),
            ArtError,
        >(ArtError::RendererFailure),
        res == Err::<(), ArtError>(ArtError::InvalidRegion) ==> 2 * position_delta >= MAX_X_POS
            - MIN_POS && 2 * position_delta >= MAX_Y_POS - MIN_POS,
{
    let ghost base = renderer.frames();
    let ghost start = *driver;
    loop
        invariant
            start == *old(driver),
            base == old(renderer).frames(),
            driver.wf(),
            driver.frame_limit == start.frame_limit,
            0 <= position_delta <= MAX_STEP,
            driver.renders_owed() <= start.renders_owed(),
            renderer.frames().len() == base.len() + start.renders_owed()
                - driver.renders_owed(),
            renderer.frames().take(base.len() as int) == base,
            ({
                let fresh = renderer.frames().skip(base.len() as int);
                &&& fresh.len() == start.renders_owed() - driver.renders_owed()
                &&& walk_trace(fresh, position_delta as int, color_delta)
                &&& fresh.len() > 0 ==> fresh[0] == frame_of(start.disc)
                &&& fresh.len() > 0 ==> frame_advances_to(
                    fresh.last(),
                    frame_of(driver.disc),
                    position_delta as int,
                    color_delta,
                )
                &&& fresh.len() == 0 ==> driver.disc == start.disc
            }),
        decreases driver.renders_owed(),
    {
        let ghost before = renderer.frames();
        match driver.tick(position_delta, color_delta, rng, renderer) {
            Ok(true) => {
                proof {
                    assert(renderer.frames().take(base.len() as int) =~= base);
                    assert(renderer.frames().skip(base.len() as int) =~= before.skip(
                        base.len() as int,
                    ).push(renderer.frames().last()));
                }
            },
            Ok(false) => {
                return Ok(());
            },
            Err(e) => {
                proof {
                    assert(renderer.frames().take(base.len() as int) =~= base);
                    if renderer.frames().len() > before.len() {
                        assert(renderer.frames().skip(base.len() as int) =~= before.skip(
                            base.len() as int,
                        ).push(renderer.frames().last()));
                    } else {
                        assert(renderer.frames().skip(base.len() as int) =~= before.skip(
                            base.len() as int,
                        ));
                    }
                }
                return Err(e);
            },
        }
    }
}

/// A renderer whose drawing surface rejects every draw call; the test double
/// for a failing boundary.
pub struct FailingRenderer {}

impl Renderer for FailingRenderer {
    open spec fn frames(&self) -> Seq<Frame> {
        Seq::empty()
    }

    fn render(&mut self, _frame: Frame) -> (ok: bool) {
        false
    }
}

} // verus!
