//! Angle-to-stick mapper: a whole-degree angle becomes a 2D analog-stick
//! coordinate pair at near-full-scale magnitude, `x` along the sine and `y`
//! along the cosine of the angle (0 degrees points straight up, angles grow
//! clockwise). The sine and cosine come from a fixed-point routine of an
//! outside crate; the phase and scaling arithmetic around it is verified.
use vstd::prelude::*;
use vstd::arithmetic::div_mod::lemma_div_is_ordered;

verus! {

/// Near-full-scale positive extent of one stick axis, kept below the true
/// signed 16-bit maximum to stay clear of clamping at the receiving end.
pub const STICK_MAX: i16 = 30000;

/// One full turn of the fixed-point phase argument is 2^32; the upper half
/// of [0, 360) degrees wraps to the negative range of `i32`.
pub open spec fn phase_of(deg: u16) -> int {
    if deg >= 180 {
        -((((360 - deg) as int) * 0x1_0000_0000) / 360)
    } else {
        ((deg as int) * 0x1_0000_0000) / 360
    }
}

/// What `idsp::cossin` returns for a phase: cosine then sine, at near-2^31
/// amplitude. Stated only through the wrapper below.
pub uninterp spec fn cossin_of(phase: i32) -> (i32, i32);

/// Relies on idsp::cossin: for a 32-bit phase (a full turn is 2^32, zero
/// phase is zero angle) it returns the pair (cosine, sine) at an amplitude
/// the core keeps just under 2^31, so both components stay within
/// plus-or-minus 0x7fff_ffff; the result depends on the phase alone.
#[verifier::external_body]
fn cossin_raw(phase: i32) -> (r: (i32, i32))
    ensures
        r == cossin_of(phase),
        -0x7fff_ffff <= r.0 <= 0x7fff_ffff,
        -0x7fff_ffff <= r.1 <= 0x7fff_ffff,
{
    idsp::cossin(phase)
}

/// A cosine or sine of amplitude 2^31 scaled down to amplitude `STICK_MAX`,
/// truncated toward zero.
pub open spec fn scaled(v: int) -> int {
    if v >= 0 {
        (v * (STICK_MAX as int)) / 0x8000_0000
    } else {
        -((-v * (STICK_MAX as int)) / 0x8000_0000)
    }
}

/// Stick coordinate along the sine of the angle.
pub open spec fn stick_x_of(deg: u16) -> i16 {
    scaled(cossin_of(phase_of(deg) as i32).1 as int) as i16
}

/// Stick coordinate along the cosine of the angle.
pub open spec fn stick_y_of(deg: u16) -> i16 {
    scaled(cossin_of(phase_of(deg) as i32).0 as int) as i16
}

fn phase_i32(deg: u16) -> (r: i32)
    requires
        deg <= 360,
    ensures
        r as int == phase_of(deg),
{
    if deg >= 180 {
        let mag: u64 = ((360 - deg) as u64) * 0x1_0000_0000u64 / 360;
        assert(((360 - deg) as u64) * 0x1_0000_0000u64 <= 180 * 0x1_0000_0000u64)
            by (nonlinear_arith)
            requires deg <= 360 && deg >= 180;
        assert(mag <= 0x8000_0000u64) by {
            lemma_div_is_ordered(
                (((360 - deg) as u64) * 0x1_0000_0000u64) as int,
                (180 * 0x1_0000_0000u64) as int,
                360,
            );
        }
        let r: i64 = -(mag as i64);
        r as i32
    } else {
        let mag: u64 = (deg as u64) * 0x1_0000_0000u64 / 360;
        assert((deg as u64) * 0x1_0000_0000u64 <= 179 * 0x1_0000_0000u64)
            by (nonlinear_arith)
            requires deg < 180;
        assert(mag <= 0x7fff_ffffu64) by {
            lemma_div_is_ordered(
                ((deg as u64) * 0x1_0000_0000u64) as int,
                (179 * 0x1_0000_0000u64) as int,
                360,
            );
        }
        mag as i32
    }
}

fn scale_axis(v: i32) -> (r: i16)
    requires
        -0x7fff_ffff <= v <= 0x7fff_ffff,
    ensures
        r as int == scaled(v as int),
{
    if v >= 0 {
        assert((v as u64) * (STICK_MAX as u64) <= 0x7fff_ffffu64 * 30000)
            by (nonlinear_arith)
            requires 0 <= v <= 0x7fff_ffff;
        let m: u64 = (v as u64) * (STICK_MAX as u64) / 0x8000_0000u64;
        assert(m < 30000u64) by {
            lemma_div_is_ordered(
                ((v as u64) * (STICK_MAX as u64)) as int,
                (0x7fff_ffffu64 * 30000) as int,
                0x8000_0000,
            );
        }
        m as i16
    } else {
        let neg: u64 = (-(v as i64)) as u64;
        assert(neg <= 0x7fff_ffffu64);
        assert(neg * (STICK_MAX as u64) <= 0x7fff_ffffu64 * 30000)
            by (nonlinear_arith)
            requires neg <= 0x7fff_ffffu64;
        let m: u64 = neg * (STICK_MAX as u64) / 0x8000_0000u64;
        assert(neg * (STICK_MAX as u64) <= 0x7fff_ffffu64 * 30000)
            by (nonlinear_arith)
            requires neg <= 0x7fff_ffff;
        assert(m < 30000u64) by {
            lemma_div_is_ordered(
                (neg * (STICK_MAX as u64)) as int,
                (0x7fff_ffffu64 * 30000) as int,
                0x8000_0000,
            );
        }
        let m16: i16 = m as i16;
        -m16
    }
}

/// Map a whole-degree angle (0 to 360, 0 pointing straight up, clockwise) to
/// the near-full-scale stick coordinates at that angle.
pub fn stick_coords(deg: u16) -> (r: (i16, i16))
    requires
        deg <= 360,
    ensures
        r.0 == stick_x_of(deg),
        r.1 == stick_y_of(deg),
{
    let phase = phase_i32(deg);
    let (c, s) = cossin_raw(phase);
    (scale_axis(s), scale_axis(c))
}

} // verus!
