//! Exact HSV-to-RGB conversion.
//!
//! Hue is a whole number of degrees in [0, 360); saturation and value are
//! rationals in [0, 1], each a numerator over a denominator. Keeping the
//! arithmetic on rationals makes the conversion exact, so its result can be
//! pinned down to the last digit instead of up to a rounding error.

use vstd::prelude::*;

verus! {

/// Largest denominator a `Frac` may carry, and largest extent (in pixels)
/// a widget may have. Small enough that every product in the color math
/// fits comfortably in a `u64`.
pub const MAX_EXTENT: u32 = 1000000;

/// Absolute value of a mathematical integer.
pub open spec fn abs_int(x: int) -> int {
    if x < 0 {
        -x
    } else {
        x
    }
}

/// A rational number in [0, 1], numerator over denominator. Saturation and
/// value reach the color math in this form: a pointer coordinate over the
/// widget's extent.
#[derive(Clone, Copy, PartialEq, Eq, Structural, Debug)]
pub struct Frac {
    pub num: u32,
    pub den: u32,
}

impl Frac {
    /// In [0, 1], with a positive denominator small enough that the color
    /// math cannot overflow.
    pub open spec fn wf(self) -> bool {
        0 < self.den <= MAX_EXTENT && self.num <= self.den
    }

    pub fn new(num: u32, den: u32) -> (r: Frac)
        requires
            0 < den <= MAX_EXTENT,
            num <= den,
        ensures
            r == (Frac { num, den }),
            r.wf(),
    {
        Frac { num, den }
    }
}

/// An exact RGB triple: the channels are the rationals red/den, green/den
/// and blue/den, each in [0, 1], over one common denominator.
#[derive(Clone, Copy, PartialEq, Eq, Structural, Debug)]
pub struct Rgb {
    pub red: u64,
    pub green: u64,
    pub blue: u64,
    pub den: u64,
}

impl Rgb {
    /// The denominator is positive and every channel lies in [0, 1].
    pub open spec fn wf(self) -> bool {
        0 < self.den && self.red <= self.den && self.green <= self.den && self.blue <= self.den
    }
}

/// Pure black, the color of the triangle's top corner.
pub open spec fn black() -> Rgb {
    Rgb { red: 0, green: 0, blue: 0, den: 1 }
}

/// Pure white, the color of the triangle's bottom-left corner.
pub open spec fn white() -> Rgb {
    Rgb { red: 1, green: 1, blue: 1, den: 1 }
}

/// Weight of the middle channel, scaled by 60: the formula's
/// `x = c * (1 - |((h/60) mod 2) - 1|)` factor is `mid_weight(h) / 60`,
/// which rises from 0 to 60 and back as the hue crosses each 120-degree
/// band. It is 0 exactly at the hues 0, 120 and 240.
pub open spec fn mid_weight(h: int) -> int {
    60 - abs_int(h % 120 - 60)
}

/// Unshifted channel triple (r, g, b), before the `m = v - c` shift is
/// added: the hue's sextant decides where the chroma `c` and the middle
/// weight `x` go.
pub open spec fn base_triple(h: int, c: int, x: int) -> (int, int, int) {
    if h < 60 {
        (c, x, 0)
    } else if h < 120 {
        (x, c, 0)
    } else if h < 180 {
        (0, c, x)
    } else if h < 240 {
        (0, x, c)
    } else if h < 300 {
        (x, 0, c)
    } else {
        (c, 0, x)
    }
}

/// HSV to RGB on rationals, exactly: hue `h` in whole degrees in [0, 360),
/// saturation `sn/sd` and value `vn/vd` in [0, 1]. Over the common
/// denominator `60 * sd * vd`, the chroma `c = v * s` is `60 * vn * sn`,
/// the middle channel is `vn * sn * mid_weight(h)`, and the shift
/// `m = v - c` is `60 * vn * (sd - sn)`.
pub open spec fn hsv_rgb(h: int, sn: int, sd: int, vn: int, vd: int) -> Rgb {
    let c: int = 60 * vn * sn;
    let x: int = vn * sn * mid_weight(h);
    let m: int = 60 * vn * (sd - sn);
    let rgb: (int, int, int) = base_triple(h, c, x);
    Rgb {
        red: (rgb.0 + m) as u64,
        green: (rgb.1 + m) as u64,
        blue: (rgb.2 + m) as u64,
        den: (60 * sd * vd) as u64,
    }
}

/// Convert HSV to RGB by the sextant formula: `c = v*s`,
/// `x = c * (1 - |((h/60) mod 2) - 1|)`, `m = v - c`; the hue's sextant
/// places `c` and `x` among the channels, and `m` shifts all three.
pub fn hsv_to_rgb(h: u32, s: Frac, v: Frac) -> (r: Rgb)
    requires
        h < 360,
        s.wf(),
        v.wf(),
    ensures
        r == hsv_rgb(h as int, s.num as int, s.den as int, v.num as int, v.den as int),
        r.wf(),
{
    let sn: u64 = s.num as u64;
    let sd: u64 = s.den as u64;
    let vn: u64 = v.num as u64;
    let vd: u64 = v.den as u64;
    let hm: u32 = h % 120;
    let w: u64 = if hm >= 60 {
        (120 - hm) as u64
    } else {
        hm as u64
    };
    proof {
        assert(vn * sn <= 1000000 * 1000000) by (nonlinear_arith)
            requires
                vn <= 1000000,
                sn <= 1000000,
        ;
        assert(vn * (sd - sn) <= 1000000 * 1000000) by (nonlinear_arith)
            requires
                vn <= 1000000,
                sn <= sd <= 1000000,
        ;
        assert(sd * vd <= 1000000 * 1000000) by (nonlinear_arith)
            requires
                sd <= 1000000,
                vd <= 1000000,
        ;
        assert(1 <= sd * vd) by (nonlinear_arith)
            requires
                1 <= sd,
                1 <= vd,
        ;
        assert((vn * sn) * w <= 60 * (vn * sn)) by (nonlinear_arith)
            requires
                w <= 60,
                vn * sn >= 0,
        ;
        assert(60 * (vn * sn) + 60 * (vn * (sd - sn)) == 60 * vn * sd) by (nonlinear_arith);
        assert(60 * vn * sd <= 60 * (sd * vd)) by (nonlinear_arith)
            requires
                vn <= vd,
                sd >= 0,
        ;
        assert(60 * (vn * sn) == 60 * vn * sn) by (nonlinear_arith);
        assert((vn * sn) * w == vn * sn * w) by (nonlinear_arith);
        assert(60 * (vn * (sd - sn)) == 60 * vn * (sd - sn)) by (nonlinear_arith);
        assert(60 * (sd * vd) == 60 * sd * vd) by (nonlinear_arith);
        assert(mid_weight(h as int) == w);
    }
    let c: u64 = 60 * (vn * sn);
    let x: u64 = (vn * sn) * w;
    let m: u64 = 60 * (vn * (sd - sn));
    let den: u64 = 60 * (sd * vd);
    let (red, green, blue): (u64, u64, u64) = if h < 60 {
        (c, x, 0u64)
    } else if h < 120 {
        (x, c, 0u64)
    } else if h < 180 {
        (0u64, c, x)
    } else if h < 240 {
        (0u64, x, c)
    } else if h < 300 {
        (x, 0u64, c)
    } else {
        (c, 0u64, x)
    };
    Rgb { red: red + m, green: green + m, blue: blue + m, den }
}

/// At full saturation and value, every hue's color touches both ends of
/// the scale: some channel is 0 and some channel is full.
pub proof fn lemma_full_saturation_extremes(h: int)
    requires
        0 <= h < 360,
    ensures
        ({
            let col = hsv_rgb(h, 1, 1, 1, 1);
            (col.red == 0 || col.green == 0 || col.blue == 0) && (col.red == col.den || col.green
                == col.den || col.blue == col.den)
        }),
{
}

/// At full saturation and value, a hue off the three primary axes — not
/// 0, 120 or 240 degrees, where the middle weight vanishes and a second
/// channel drops to 0 — has exactly one channel at 0 (and some channel
/// full, by `lemma_full_saturation_extremes`).
pub proof fn lemma_full_saturation_one_zero(h: int)
    requires
        0 <= h < 360,
        h % 120 != 0,
    ensures
        ({
            let col = hsv_rgb(h, 1, 1, 1, 1);
            (col.red == 0 && col.green != 0 && col.blue != 0) || (col.red != 0 && col.green == 0
                && col.blue != 0) || (col.red != 0 && col.green != 0 && col.blue == 0)
        }),
{
    assert(0 < mid_weight(h) <= 60);
    assert(1 * 1 * mid_weight(h) == mid_weight(h)) by (nonlinear_arith);
    assert(60 * 1 * (1 - 1) == 0) by (nonlinear_arith);
    assert(60 * 1 * 1 == 60) by (nonlinear_arith);
}

/// Zero saturation gives grey: whatever the hue, every channel of
/// `hsv_rgb(h, 0/sd, vn/vd)` equals the value `vn/vd` as a rational.
pub proof fn lemma_zero_saturation_grey(h: int, sd: int, vn: int, vd: int)
    requires
        0 <= h < 360,
        0 < sd <= MAX_EXTENT,
        0 < vd <= MAX_EXTENT,
        0 <= vn <= vd,
    ensures
        ({
            let col = hsv_rgb(h, 0, sd, vn, vd);
            col.red == col.green && col.green == col.blue && col.red * vd == vn * col.den
        }),
{
    assert(60 * vn * sd <= 60 * 1000000 * 1000000) by (nonlinear_arith)
        requires
            0 <= vn <= 1000000,
            0 <= sd <= 1000000,
    ;
    assert(0 <= 60 * vn * sd) by (nonlinear_arith)
        requires
            0 <= vn,
            0 <= sd,
    ;
    assert(60 * sd * vd <= 60 * 1000000 * 1000000) by (nonlinear_arith)
        requires
            0 <= sd <= 1000000,
            0 <= vd <= 1000000,
    ;
    assert(0 <= 60 * sd * vd) by (nonlinear_arith)
        requires
            0 <= sd,
            0 <= vd,
    ;
    assert((60 * vn * sd) * vd == vn * (60 * sd * vd)) by (nonlinear_arith);
}

} // verus!
