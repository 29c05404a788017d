//! The derived "intensity" signal: from one raw sample and the configured
//! mode, a single non-negative scalar that drives the tone mapping.
//!
//! Single-axis modes take the absolute value of one axis; magnitude modes
//! take the Euclidean norm of the three axes, rounded to the nearest
//! integer, with 64-bit intermediates so the sum of squares cannot
//! overflow even at the extremes of the 16-bit axis range.

use vstd::prelude::*;

use crate::config::BuzzFrequencyMode;

verus! {

/// One accelerometer reading: raw signed 16-bit values for the three axes.
#[derive(Clone, Copy, Debug, PartialEq, Eq, Structural)]
pub struct Accel {
    pub x: i16,
    pub y: i16,
    pub z: i16,
}

/// One gyroscope reading: raw signed 16-bit values for the three axes.
#[derive(Clone, Copy, Debug, PartialEq, Eq, Structural)]
pub struct Gyro {
    pub x: i16,
    pub y: i16,
    pub z: i16,
}

impl Accel {
    pub fn new(x: i16, y: i16, z: i16) -> (r: Accel)
        ensures
            r == (Accel { x, y, z }),
    {
        Accel { x, y, z }
    }

    pub fn x(&self) -> (r: i16)
        ensures
            r == self.x,
    {
        self.x
    }

    pub fn y(&self) -> (r: i16)
        ensures
            r == self.y,
    {
        self.y
    }

    pub fn z(&self) -> (r: i16)
        ensures
            r == self.z,
    {
        self.z
    }
}

impl Gyro {
    pub fn new(x: i16, y: i16, z: i16) -> (r: Gyro)
        ensures
            r == (Gyro { x, y, z }),
    {
        Gyro { x, y, z }
    }

    pub fn x(&self) -> (r: i16)
        ensures
            r == self.x,
    {
        self.x
    }

    pub fn y(&self) -> (r: i16)
        ensures
            r == self.y,
    {
        self.y
    }

    pub fn z(&self) -> (r: i16)
        ensures
            r == self.z,
    {
        self.z
    }
}

/// The absolute value of one raw axis, as a mathematical integer.
pub open spec fn spec_axis_abs(v: i16) -> int {
    if v < 0 {
        -(v as int)
    } else {
        v as int
    }
}

/// The sum of the squares of the three axes, as a mathematical integer.
pub open spec fn spec_sum_squares(x: i16, y: i16, z: i16) -> int {
    (x as int) * (x as int) + (y as int) * (y as int) + (z as int) * (z as int)
}

/// `r` is the square root of `n` rounded to the nearest integer.
///
/// For an integer `n` the true root is never exactly halfway, so this
/// predicate picks out exactly one `r`: the one with
/// `r - 1/2 < sqrt(n) < r + 1/2`.
pub open spec fn is_rounded_root(n: int, r: int) -> bool {
    if r == 0 {
        n == 0
    } else {
        1 <= r && r * r - r < n <= r * r + r
    }
}

/// Two rounded roots of the same number are equal.
pub proof fn lemma_rounded_root_unique(n: int, r1: int, r2: int)
    requires
        is_rounded_root(n, r1),
        is_rounded_root(n, r2),
    ensures
        r1 == r2,
{
    assert(!(r1 < r2 || r2 < r1)) by (nonlinear_arith)
        requires
            is_rounded_root(n, r1),
            is_rounded_root(n, r2),
    ;
}

/// Largest `r` with `r * r <= n`, by binary search on `r`.
fn isqrt_floor(n: u64) -> (r: u64)
    ensures
        (r as int) * (r as int) <= n as int,
        n < (r as int + 1) * (r as int + 1),
{
    let mut lo: u64 = 0;
    let mut hi: u64 = 0x1_0000_0000;
    proof {
        assert((0x1_0000_0000 as int) * (0x1_0000_0000 as int) > u64::MAX as int);
    }
    while lo + 1 < hi
        invariant
            lo < hi <= 0x1_0000_0000,
            (lo as int) * (lo as int) <= n as int,
            n < (hi as int) * (hi as int),
        decreases hi - lo,
    {
        let mid = lo + (hi - lo) / 2;
        proof {
            assert(mid <= 0xFFFF_FFFF ==> (mid as int) * (mid as int)
                <= 0xFFFF_FFFF * 0xFFFF_FFFF) by (nonlinear_arith);
        }
        if mid * mid <= n {
            lo = mid;
        } else {
            hi = mid;
        }
    }
    lo
}

/// Square root of `n`, rounded to the nearest integer.
fn isqrt_round(n: u64) -> (r: u64)
    ensures
        is_rounded_root(n as int, r as int),
{
    let f = isqrt_floor(n);
    proof {
        assert(f <= 0xFFFF_FFFF && (f as int) * (f as int) + f as int <= u64::MAX as int)
            by (nonlinear_arith)
            requires
                (f as int) * (f as int) <= n as int,
                n <= u64::MAX,
        ;
    }
    if n > f * f + f {
        proof {
            assert((f as int + 1) * (f as int + 1) - (f as int + 1)
                == (f as int) * (f as int) + f as int) by (nonlinear_arith);
            assert(n as int <= (f as int + 1) * (f as int + 1) + (f as int + 1));
            assert(is_rounded_root(n as int, f as int + 1));
        }
        f + 1
    } else {
        proof {
            if f == 0 {
                assert(n == 0);
            } else {
                assert((f as int) * (f as int) - (f as int) < (n as int));
            }
            assert(is_rounded_root(n as int, f as int));
        }
        f
    }
}

/// Absolute value of a raw axis, widened so the most negative value is
/// representable.
fn axis_abs(v: i16) -> (r: u32)
    ensures
        r as int == spec_axis_abs(v),
{
    if v < 0 {
        (-(v as i32)) as u32
    } else {
        v as u32
    }
}

/// `r` is the intensity of the sample `(accel, gyro)` under `mode`: the
/// absolute value of the selected axis, or the rounded Euclidean norm of
/// the selected sensor's three axes.
pub open spec fn spec_intensity_matches(
    accel: Accel,
    gyro: Gyro,
    mode: BuzzFrequencyMode,
    r: int,
) -> bool {
    match mode {
        BuzzFrequencyMode::AccelX => r == spec_axis_abs(accel.x),
        BuzzFrequencyMode::AccelY => r == spec_axis_abs(accel.y),
        BuzzFrequencyMode::AccelZ => r == spec_axis_abs(accel.z),
        BuzzFrequencyMode::GyroX => r == spec_axis_abs(gyro.x),
        BuzzFrequencyMode::GyroY => r == spec_axis_abs(gyro.y),
        BuzzFrequencyMode::GyroZ => r == spec_axis_abs(gyro.z),
        BuzzFrequencyMode::AccelMagnitude => is_rounded_root(
            spec_sum_squares(accel.x, accel.y, accel.z),
            r,
        ),
        BuzzFrequencyMode::GyroMagnitude => is_rounded_root(
            spec_sum_squares(gyro.x, gyro.y, gyro.z),
            r,
        ),
    }
}

/// For every mode and every sample there is exactly one intensity.
pub proof fn lemma_intensity_unique(
    accel: Accel,
    gyro: Gyro,
    mode: BuzzFrequencyMode,
    r1: int,
    r2: int,
)
    requires
        spec_intensity_matches(accel, gyro, mode, r1),
        spec_intensity_matches(accel, gyro, mode, r2),
    ensures
        r1 == r2,
{
    match mode {
        BuzzFrequencyMode::AccelMagnitude => {
            lemma_rounded_root_unique(spec_sum_squares(accel.x, accel.y, accel.z), r1, r2);
        },
        BuzzFrequencyMode::GyroMagnitude => {
            lemma_rounded_root_unique(spec_sum_squares(gyro.x, gyro.y, gyro.z), r1, r2);
        },
        _ => {},
    }
}

/// The intensity derived from one sample under the given mode: the
/// absolute value of the selected axis, or the rounded Euclidean norm of
/// the selected sensor's three axes.  Never overflows, for any mode and
/// any axis values including the extremes of the 16-bit range.
pub fn compute_buzz_frequency(accel: &Accel, gyro: &Gyro, mode: BuzzFrequencyMode) -> (r: u32)
    ensures
        spec_intensity_matches(*accel, *gyro, mode, r as int),
{
    match mode {
        BuzzFrequencyMode::AccelX => axis_abs(accel.x),
        BuzzFrequencyMode::AccelY => axis_abs(accel.y),
        BuzzFrequencyMode::AccelZ => axis_abs(accel.z),
        BuzzFrequencyMode::GyroX => axis_abs(gyro.x),
        BuzzFrequencyMode::GyroY => axis_abs(gyro.y),
        BuzzFrequencyMode::GyroZ => axis_abs(gyro.z),
        BuzzFrequencyMode::AccelMagnitude => magnitude(accel.x, accel.y, accel.z),
        BuzzFrequencyMode::GyroMagnitude => magnitude(gyro.x, gyro.y, gyro.z),
    }
}

/// Rounded Euclidean norm of three raw axes.
fn magnitude(x: i16, y: i16, z: i16) -> (r: u32)
    ensures
        is_rounded_root(spec_sum_squares(x, y, z), r as int),
{
    let xi = x as i64;
    let yi = y as i64;
    let zi = z as i64;
    proof {
        assert(
            -0x8000 <= xi <= 0x7FFF && -0x8000 <= yi <= 0x7FFF && -0x8000 <= zi <= 0x7FFF
            ==> 0 <= xi * xi <= 0x4000_0000 && 0 <= yi * yi <= 0x4000_0000
                && 0 <= zi * zi <= 0x4000_0000
        ) by (nonlinear_arith);
    }
    let sum = (xi * xi + yi * yi + zi * zi) as u64;
    let root = isqrt_round(sum);
    proof {
        assert(is_rounded_root(sum as int, root as int) && sum <= 0xC000_0000
            ==> root <= 0xFFFF_FFFF) by (nonlinear_arith);
    }
    root as u32
}

} // verus!
