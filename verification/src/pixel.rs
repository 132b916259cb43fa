//! Pixels as the capture hands them over, three 8-bit channels and no
//! alpha, and their luminance.
//!
//! Luminance is the weighted sum `0.2125 R + 0.7154 G + 0.0721 B` in single
//! precision: each product and each sum is rounded to 24 significant bits, to
//! the nearest value and to the even one on a tie. Here that arithmetic is
//! carried out on integers. A quantity `q` stands for the real number
//! `q / 2^27`, which holds the three weights and every rounded value met on
//! the way without loss. The grey of a pixel is its luminance rounded to the
//! nearest whole number, a half upwards.

use vstd::arithmetic::div_mod::lemma_fundamental_div_mod;
use vstd::arithmetic::div_mod::lemma_mod_bound;
use vstd::prelude::*;

verus! {

/// One pixel, channels in the order blue, green, red.
#[derive(Clone, Copy, Debug, PartialEq, Eq, Structural)]
pub struct Bgr8 {
    pub b: u8,
    pub g: u8,
    pub r: u8,
}

/// The quantity that stands for 1.
pub const ONE: u64 = 0x800_0000;

/// The quantity that stands for one half.
pub const HALF: u64 = 0x400_0000;

/// The weight of red: the single-precision number nearest to 0.2125.
pub const RED_WEIGHT: u64 = 28_521_268;

/// The weight of green: the single-precision number nearest to 0.7154.
pub const GREEN_WEIGHT: u64 = 96_019_360;

/// The weight of blue: the single-precision number nearest to 0.0721.
pub const BLUE_WEIGHT: u64 = 9_677_098;

/// The distance between neighbouring 24-bit values around `x`: the least
/// power of two `u` with `x / u` below `2^24`.
pub open spec fn ulp(x: nat) -> nat
    decreases x,
{
    if x < 0x100_0000 {
        1
    } else {
        2 * ulp(x / 2)
    }
}

/// `x` rounded to 24 significant bits: to the nearest multiple of `ulp(x)`,
/// and of two equally near ones to the even multiple.
pub open spec fn round_single(x: nat) -> nat {
    let unit = ulp(x);
    let whole = x / unit;
    let rest = x % unit;
    if 2 * rest > unit || (2 * rest == unit && whole % 2 == 1) {
        (whole + 1) * unit
    } else {
        whole * unit
    }
}

/// The distance between neighbours is positive; from `2^24` on it is even
/// and at most `x / 2^23`.
pub proof fn lemma_ulp(x: nat)
    ensures
        ulp(x) >= 1,
        x < 0x100_0000 ==> ulp(x) == 1,
        x >= 0x100_0000 ==> ulp(x) % 2 == 0 && ulp(x) * 0x80_0000 <= x,
    decreases x,
{
    if x >= 0x100_0000 {
        lemma_ulp(x / 2);
    }
}

/// Rounding moves a quantity up by at most its `2^24`-th part.
pub proof fn lemma_round_single_bound(x: nat)
    ensures
        round_single(x) <= x + x / 0x100_0000,
{
    lemma_ulp(x);
    let unit = ulp(x);
    let whole = x / unit;
    let rest = x % unit;
    lemma_fundamental_div_mod(x as int, unit as int);
    lemma_mod_bound(x as int, unit as int);
    assert(unit * whole == whole * unit) by (nonlinear_arith);
    assert((whole + 1) * unit == whole * unit + unit) by (nonlinear_arith);
    if unit >= 2 {
        let half = unit / 2;
        assert(half * 0x100_0000 <= x);
    }
}

/// The luminance of a pixel, as a quantity.
pub open spec fn luma(p: Bgr8) -> nat {
    let red = round_single(p.r as nat * RED_WEIGHT as nat);
    let green = round_single(p.g as nat * GREEN_WEIGHT as nat);
    let blue = round_single(p.b as nat * BLUE_WEIGHT as nat);
    round_single(round_single(red + green) + blue)
}

/// The 8-bit grey of a pixel: its luminance rounded to the nearest whole
/// number, a half upwards.
pub open spec fn grey(p: Bgr8) -> nat {
    (luma(p) + HALF as nat) / (ONE as nat)
}

/// The 4-bit grey of a pixel: the whole sixteenths of its 8-bit grey.
pub open spec fn grey_4bpp(p: Bgr8) -> nat {
    grey(p) / 16
}

/// The luminance of a pixel stays below 255 and a half, so that its greys
/// fit 8 and 4 bits.
pub proof fn lemma_luma_bound(p: Bgr8)
    ensures
        luma(p) + HALF < 256 * ONE,
        grey(p) <= 255,
        grey_4bpp(p) <= 15,
{
    let r = p.r as nat * RED_WEIGHT as nat;
    let g = p.g as nat * GREEN_WEIGHT as nat;
    let b = p.b as nat * BLUE_WEIGHT as nat;
    assert(r <= 255 * RED_WEIGHT && g <= 255 * GREEN_WEIGHT && b <= 255 * BLUE_WEIGHT)
        by (nonlinear_arith)
        requires
            r == p.r as nat * RED_WEIGHT as nat,
            g == p.g as nat * GREEN_WEIGHT as nat,
            b == p.b as nat * BLUE_WEIGHT as nat,
            p.r <= 255,
            p.g <= 255,
            p.b <= 255,
    ;
    lemma_round_single_bound(r);
    lemma_round_single_bound(g);
    lemma_round_single_bound(b);
    let both = round_single(r) + round_single(g);
    lemma_round_single_bound(both);
    lemma_round_single_bound(round_single(both) + round_single(b));
}

/// Rounds a quantity to 24 significant bits.
fn round_to_single(x: u64) -> (rounded: u64)
    requires
        x < 0x100_0000_0000,
    ensures
        rounded == round_single(x as nat),
{
    let mut unit: u64 = 1;
    let mut high: u64 = x;
    while high >= 0x100_0000
        invariant
            ulp(x as nat) == unit * ulp(high as nat),
            unit * high <= x,
            unit >= 1,
        decreases high,
    {
        assert(unit * ulp(high as nat) == (unit * 2) * ulp((high / 2) as nat)) by (nonlinear_arith)
            requires
                ulp(high as nat) == 2 * ulp((high / 2) as nat),
        ;
        assert((unit * 2) * (high / 2) <= unit * high) by (nonlinear_arith)
            requires
                unit >= 1,
                high >= 0,
        ;
        assert(unit * 0x100_0000 <= unit * high) by (nonlinear_arith)
            requires
                unit >= 1,
                high >= 0x100_0000,
        ;
        high = high / 2;
        unit = unit * 2;
    }
    assert(unit == ulp(x as nat)) by (nonlinear_arith)
        requires
            ulp(x as nat) == unit * ulp(high as nat),
            ulp(high as nat) == 1,
    ;
    let whole = x / unit;
    let rest = x % unit;
    proof {
        lemma_round_single_bound(x as nat);
        lemma_fundamental_div_mod(x as int, unit as int);
        assert(unit * whole == whole * unit) by (nonlinear_arith);
        assert((whole + 1) * unit == whole * unit + unit) by (nonlinear_arith);
    }
    if 2 * rest > unit || (2 * rest == unit && whole % 2 == 1) {
        (whole + 1) * unit
    } else {
        whole * unit
    }
}

impl Bgr8 {
    /// The pixel with every channel at its maximum.
    pub open spec fn white_spec() -> Bgr8 {
        Bgr8 { b: 255, g: 255, r: 255 }
    }

    /// The pixel with every channel at its maximum.
    pub fn white() -> (p: Bgr8)
        ensures
            p == Self::white_spec(),
    {
        Bgr8 { b: 255, g: 255, r: 255 }
    }

    fn luma(&self) -> (quantity: u64)
        ensures
            quantity == luma(*self),
            quantity + HALF < 256 * ONE,
    {
        proof {
            lemma_luma_bound(*self);
            let r = self.r as nat * RED_WEIGHT as nat;
            let g = self.g as nat * GREEN_WEIGHT as nat;
            let b = self.b as nat * BLUE_WEIGHT as nat;
            assert(r <= 255 * RED_WEIGHT && g <= 255 * GREEN_WEIGHT && b <= 255 * BLUE_WEIGHT)
                by (nonlinear_arith)
                requires
                    r == self.r as nat * RED_WEIGHT as nat,
                    g == self.g as nat * GREEN_WEIGHT as nat,
                    b == self.b as nat * BLUE_WEIGHT as nat,
                    self.r <= 255,
                    self.g <= 255,
                    self.b <= 255,
            ;
            lemma_round_single_bound(r);
            lemma_round_single_bound(g);
            lemma_round_single_bound(b);
            lemma_round_single_bound(round_single(r) + round_single(g));
        }
        let red = round_to_single(self.r as u64 * RED_WEIGHT);
        let green = round_to_single(self.g as u64 * GREEN_WEIGHT);
        let blue = round_to_single(self.b as u64 * BLUE_WEIGHT);
        round_to_single(round_to_single(red + green) + blue)
    }

    /// The 8-bit grey of the pixel.
    pub fn grey(&self) -> (level: u8)
        ensures
            level == grey(*self),
    {
        ((self.luma() + HALF) / ONE) as u8
    }

    /// The 4-bit grey of the pixel.
    pub fn grey_4bpp(&self) -> (level: u8)
        ensures
            level == grey_4bpp(*self),
            level <= 15,
    {
        self.grey() / 16
    }
}

} // verus!
