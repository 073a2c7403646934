//! The saturating random walk in color.
//!
//! A channel holds one 0-255 intensity. One transition flips a coin and moves
//! the channel by `delta`, clamping at the extremes instead of wrapping. A
//! color is three channels that each flip their own coin: the directions of
//! the channels are never correlated by construction.
use crate::random::RandomSource;
use vstd::prelude::*;
use vstd::string::StringExecFns;

verus! {

/// Where a channel at `v` lands after one drift of magnitude `delta`:
/// saturating addition when `up`, saturating subtraction otherwise.
pub open spec fn drifted(v: u8, delta: u8, up: bool) -> u8 {
    if up {
        if v + delta > 255 {
            255u8
        } else {
            (v + delta) as u8
        }
    } else {
        if v - delta < 0 {
            0u8
        } else {
            (v - delta) as u8
        }
    }
}

/// A drifted channel stays in range, and it touches an extremum exactly when
/// the unclamped value would pass it.
pub proof fn lemma_channel_saturation(v: u8, delta: u8)
    ensures
        drifted(v, delta, true) <= 255,
        drifted(v, delta, true) == 255 <==> v + delta >= 255,
        drifted(v, delta, false) >= 0,
        drifted(v, delta, false) == 0 <==> v <= delta,
{
}

/// One 0-255 color channel.
#[derive(Clone, Copy, Debug, PartialEq, Eq, Structural)]
pub struct ColorBit {
    pub bit: u8,
}

impl ColorBit {
    /// Uniform random intensity.
    pub fn rand<R: RandomSource>(rng: &mut R) -> (c: ColorBit) {
        let bit = rng.pick(256) as u8;
        ColorBit { bit }
    }

    /// Move the channel by `color_delta` in the given direction, clamping at
    /// the extremes.
    pub fn shift(&mut self, color_delta: u8, up: bool)
        ensures
            final(self).bit == drifted(old(self).bit, color_delta, up),
    {
        if up {
            self.bit = self.bit.saturating_add(color_delta);
        } else {
            self.bit = self.bit.saturating_sub(color_delta);
        }
    }

    /// One random transition: the channel draws its own coin and drifts by
    /// `color_delta` in the drawn direction.
    pub fn update<R: RandomSource>(&mut self, color_delta: u8, rng: &mut R)
        ensures
            exists|up: bool| final(self).bit == drifted(old(self).bit, color_delta, up),
    {
        let up = rng.coin();
        self.shift(color_delta, up);
    }
}

/// The character of one decimal digit.
pub open spec fn digit_char(d: nat) -> char {
    if d == 0 {
        '0'
    } else if d == 1 {
        '1'
    } else if d == 2 {
        '2'
    } else if d == 3 {
        '3'
    } else if d == 4 {
        '4'
    } else if d == 5 {
        '5'
    } else if d == 6 {
        '6'
    } else if d == 7 {
        '7'
    } else if d == 8 {
        '8'
    } else {
        '9'
    }
}

/// The decimal digits of `n`, most significant first, with no leading zero.
pub open spec fn decimal_seq(n: nat) -> Seq<char>
    decreases n,
{
    if n < 10 {
        seq![digit_char(n)]
    } else {
        decimal_seq(n / 10).push(digit_char(n % 10))
    }
}

/// The literal of one decimal digit.
fn digit_str(d: u8) -> (s: &'static str)
    requires
        d < 10,
    ensures
        s@ =~= seq![digit_char(d as nat)],
{
    proof {
        reveal_strlit("0");
        reveal_strlit("1");
        reveal_strlit("2");
        reveal_strlit("3");
        reveal_strlit("4");
        reveal_strlit("5");
        reveal_strlit("6");
        reveal_strlit("7");
        reveal_strlit("8");
        reveal_strlit("9");
    }
    if d == 0 {
        "0"
    } else if d == 1 {
        "1"
    } else if d == 2 {
        "2"
    } else if d == 3 {
        "3"
    } else if d == 4 {
        "4"
    } else if d == 5 {
        "5"
    } else if d == 6 {
        "6"
    } else if d == 7 {
        "7"
    } else if d == 8 {
        "8"
    } else {
        "9"
    }
}

/// Append the decimal form of `v` to `out`.
fn append_decimal(out: &mut String, v: u8)
    ensures
        final(out)@ == old(out)@ + decimal_seq(v as nat),
{
    if v >= 100 {
        out.append(digit_str(v / 100));
    }
    if v >= 10 {
        out.append(digit_str((v / 10) % 10));
    }
    out.append(digit_str(v % 10));
    proof {
        if v >= 100 {
            assert(decimal_seq(v as nat) == decimal_seq(v as nat / 10).push(
                digit_char(v as nat % 10),
            ));
            assert(v as nat / 10 / 10 == v as nat / 100);
            assert(decimal_seq(v as nat / 10) == decimal_seq(v as nat / 100).push(
                digit_char(v as nat / 10 % 10),
            ));
            assert(v as nat / 100 < 10);
            assert(decimal_seq(v as nat / 100) == seq![digit_char(v as nat / 100)]);
            assert(final(out)@ =~= old(out)@ + decimal_seq(v as nat));
        } else if v >= 10 {
            assert(decimal_seq(v as nat) == decimal_seq(v as nat / 10).push(
                digit_char(v as nat % 10),
            ));
            assert(v as nat / 10 < 10);
            assert(decimal_seq(v as nat / 10) == seq![digit_char(v as nat / 10)]);
            assert(final(out)@ =~= old(out)@ + decimal_seq(v as nat));
        } else {
            assert(final(out)@ =~= old(out)@ + decimal_seq(v as nat));
        }
    }
}

/// An ordered red, green, blue triple.
#[derive(Clone, Copy, Debug, PartialEq, Eq, Structural)]
pub struct Color {
    pub r: ColorBit,
    pub g: ColorBit,
    pub b: ColorBit,
}

/// Where a color lands after one drift in which each channel takes its own
/// direction.
pub open spec fn shifted_color(c: Color, delta: u8, up_r: bool, up_g: bool, up_b: bool) -> Color {
    Color {
        r: ColorBit { bit: drifted(c.r.bit, delta, up_r) },
        g: ColorBit { bit: drifted(c.g.bit, delta, up_g) },
        b: ColorBit { bit: drifted(c.b.bit, delta, up_b) },
    }
}

/// `d` follows `c` by one color transition: some choice of three independent
/// directions drifts each channel of `c` onto the matching channel of `d`.
pub open spec fn color_advances_to(c: Color, d: Color, delta: u8) -> bool {
    exists|up_r: bool, up_g: bool, up_b: bool| d == shifted_color(c, delta, up_r, up_g, up_b)
}

/// Each channel's outcome is fixed by its own direction alone: flipping the
/// directions handed to the other two channels never moves it. No shared draw
/// can force two channels into one direction.
pub proof fn lemma_channel_directions_independent(
    c: Color,
    delta: u8,
    up_r: bool,
    up_g: bool,
    up_b: bool,
    other_g: bool,
    other_b: bool,
)
    ensures
        shifted_color(c, delta, up_r, up_g, up_b).r == shifted_color(
            c,
            delta,
            up_r,
            other_g,
            other_b,
        ).r,
        shifted_color(c, delta, up_r, up_g, up_b).g == shifted_color(
            c,
            delta,
            other_b,
            up_g,
            other_g,
        ).g,
        shifted_color(c, delta, up_r, up_g, up_b).b == shifted_color(
            c,
            delta,
            other_g,
            other_b,
            up_b,
        ).b,
{
}

impl Color {
    /// Three independently random channels.
    pub fn rand<R: RandomSource>(rng: &mut R) -> (c: Color) {
        Color { r: ColorBit::rand(rng), g: ColorBit::rand(rng), b: ColorBit::rand(rng) }
    }

    /// Drift all three channels by `color_delta`, each in its own direction.
    pub fn shift(&mut self, color_delta: u8, up_r: bool, up_g: bool, up_b: bool)
        ensures
            *final(self) == shifted_color(*old(self), color_delta, up_r, up_g, up_b),
    {
        self.r.shift(color_delta, up_r);
        self.g.shift(color_delta, up_g);
        self.b.shift(color_delta, up_b);
    }

    /// One random transition: every channel draws its own coin, in red, green,
    /// blue order, and drifts by `color_delta` in its drawn direction.
    pub fn update<R: RandomSource>(&mut self, color_delta: u8, rng: &mut R)
        ensures
            color_advances_to(*old(self), *final(self), color_delta),
    {
        let up_r = rng.coin();
        let up_g = rng.coin();
        let up_b = rng.coin();
        self.shift(color_delta, up_r, up_g, up_b);
    }

    /// The textual `rgb(R, G, B)` form of the current channel values, for the
    /// renderer boundary.
    pub fn to_renderable(&self) -> (s: String)
        ensures
            s@ == renderable_seq(*self),
    {
        proof {
            reveal_strlit("rgb(");
            reveal_strlit(", ");
            reveal_strlit(")");
        }
        let mut s = String::new();
        s.append("rgb(");
        append_decimal(&mut s, self.r.bit);
        s.append(", ");
        append_decimal(&mut s, self.g.bit);
        s.append(", ");
        append_decimal(&mut s, self.b.bit);
        s.append(")");
        assert(s@ =~= renderable_seq(*self));
        s
    }
}

/// The characters of the textual `rgb(R, G, B)` form of a color.
pub open spec fn renderable_seq(c: Color) -> Seq<char> {
    seq!['r', 'g', 'b', '('] + decimal_seq(c.r.bit as nat) + seq![',', ' '] + decimal_seq(
        c.g.bit as nat,
    ) + seq![',', ' '] + decimal_seq(c.b.bit as nat) + seq![')']
}

} // verus!
