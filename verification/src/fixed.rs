use vstd::prelude::*;
use vstd::string::*;
use crate::scalar::{strict_order, Angle, Scalar, Truncate};
use crate::traits::{ApproxEq, SpecificRound};
use crate::text::{decimal, decimal_spec, digit_spec, digit_text, Printable};

verus! {

/// How many steps of a [`Fixed`] make one: two to the power 32.
pub const SCALE: i64 = 4294967296;

/// A binary fixed-point number: `raw` steps of `1 / SCALE` each. Its
/// arithmetic rounds towards zero and stops at the largest and the
/// smallest number it can hold.
#[derive(Debug, Clone, Copy, PartialEq, Eq)]
pub struct Fixed {
    pub raw: i64,
}

/// `x`, or the end of the range of `i64` that `x` lies beyond.
pub open spec fn clamp_spec(x: int) -> i64 {
    if x > i64::MAX {
        i64::MAX
    } else if x < i64::MIN {
        i64::MIN
    } else {
        x as i64
    }
}

/// The distance of `x` from zero.
pub open spec fn abs_spec(x: int) -> int {
    if x < 0 {
        -x
    } else {
        x
    }
}

/// The quotient of `x` by `d`, which is not zero, rounded towards zero.
pub open spec fn trunc_div_spec(x: int, d: int) -> int {
    let q = abs_spec(x) / abs_spec(d);
    if (x < 0) != (d < 0) {
        -q
    } else {
        q
    }
}

/// Whether `r` is the largest number whose square is at most `n`.
pub open spec fn is_floor_sqrt(n: int, r: int) -> bool {
    0 <= r && r * r <= n < (r + 1) * (r + 1)
}

/// The largest number whose square is at most `n`.
pub open spec fn floor_sqrt_spec(n: int) -> int {
    choose|r: int| is_floor_sqrt(n, r)
}

/// No number has two floor square roots.
pub proof fn lemma_floor_sqrt_unique(n: int, r: int, s: int)
    requires
        is_floor_sqrt(n, r),
        is_floor_sqrt(n, s),
    ensures
        r == s,
{
    if r < s {
        assert((r + 1) * (r + 1) <= s * s) by (nonlinear_arith)
            requires
                0 <= r,
                r + 1 <= s,
        ;
    } else if s < r {
        assert((s + 1) * (s + 1) <= r * r) by (nonlinear_arith)
            requires
                0 <= s,
                s + 1 <= r,
        ;
    }
}

/// The raw steps of the product of the numbers of `a` and `b` steps.
pub open spec fn mul_raw_spec(a: int, b: int) -> i64 {
    clamp_spec(trunc_div_spec(a * b, SCALE as int))
}

/// The raw steps of the quotient of the numbers of `a` and `b` steps. A
/// division by zero gives the end of the range on the side of `a`, and
/// zero for zero by zero.
pub open spec fn div_raw_spec(a: int, b: int) -> i64 {
    if b == 0 {
        if a > 0 {
            i64::MAX
        } else if a < 0 {
            i64::MIN
        } else {
            0
        }
    } else {
        clamp_spec(trunc_div_spec(a * SCALE, b))
    }
}

/// The raw steps of the square root of the number of `a` steps, rounded
/// down; zero where `a` is below zero.
pub open spec fn sqrt_raw_spec(a: int) -> i64 {
    if a <= 0 {
        0
    } else {
        floor_sqrt_spec(a * SCALE) as i64
    }
}

/// `x`, or the end of the range of `i64` that `x` lies beyond.
fn clamp(x: i128) -> (r: i64)
    ensures
        r == clamp_spec(x as int),
{
    if x > i64::MAX as i128 {
        i64::MAX
    } else if x < i64::MIN as i128 {
        i64::MIN
    } else {
        x as i64
    }
}

/// The distance of `x` from zero.
fn magnitude(x: i64) -> (m: u128)
    ensures
        m == abs_spec(x as int),
        m <= 0x8000_0000_0000_0000,
{
    if x >= 0 {
        x as u128
    } else {
        (-(x as i128)) as u128
    }
}

/// The number of the magnitude `mag`, below zero where `negative` says
/// so, or the end of the range that it lies beyond.
fn with_sign(negative: bool, mag: u128) -> (r: i64)
    ensures
        r == clamp_spec(
            if negative {
                -(mag as int)
            } else {
                mag as int
            },
        ),
{
    if negative {
        if mag >= 0x8000_0000_0000_0000 {
            i64::MIN
        } else {
            -(mag as i64)
        }
    } else {
        if mag > 0x7fff_ffff_ffff_ffff {
            i64::MAX
        } else {
            mag as i64
        }
    }
}

/// The largest number whose square is at most `n`.
fn floor_sqrt(n: u128) -> (r: u128)
    requires
        n < 0x1_0000_0000_0000_0000_0000_0000,
    ensures
        is_floor_sqrt(n as int, r as int),
        r < 0x1_0000_0000_0000,
{
    let mut lo: u128 = 0;
    let mut hi: u128 = 0x1_0000_0000_0000;
    assert(0x1_0000_0000_0000int * 0x1_0000_0000_0000int == 0x1_0000_0000_0000_0000_0000_0000int)
        by (nonlinear_arith);
    while hi - lo > 1
        invariant
            lo < hi <= 0x1_0000_0000_0000,
            lo * lo <= n < hi * hi,
        decreases hi - lo,
    {
        let mid = lo + (hi - lo) / 2;
        assert(mid * mid < 0x1_0000_0000_0000_0000_0000_0000) by (nonlinear_arith)
            requires
                mid < 0x1_0000_0000_0000,
        ;
        if mid * mid <= n {
            lo = mid;
        } else {
            hi = mid;
        }
    }
    lo
}

impl Fixed {
    /// The number of `raw` steps.
    pub fn from_raw(raw: i64) -> (r: Fixed)
        ensures
            r.raw == raw,
    {
        Fixed { raw }
    }

    /// The whole number `n`.
    pub fn from_int(n: i32) -> (r: Fixed)
        ensures
            r.raw == n * SCALE,
    {
        Fixed { raw: (n as i64) * SCALE }
    }
}

impl Scalar for Fixed {
    open spec fn zero_spec() -> Self {
        Fixed { raw: 0 }
    }

    open spec fn one_spec() -> Self {
        Fixed { raw: SCALE }
    }

    open spec fn add_spec(self, rhs: Self) -> Self {
        Fixed { raw: clamp_spec(self.raw + rhs.raw) }
    }

    open spec fn sub_spec(self, rhs: Self) -> Self {
        Fixed { raw: clamp_spec(self.raw - rhs.raw) }
    }

    open spec fn mul_spec(self, rhs: Self) -> Self {
        Fixed { raw: mul_raw_spec(self.raw as int, rhs.raw as int) }
    }

    open spec fn div_spec(self, rhs: Self) -> Self {
        Fixed { raw: div_raw_spec(self.raw as int, rhs.raw as int) }
    }

    open spec fn neg_spec(self) -> Self {
        Fixed { raw: clamp_spec(-self.raw) }
    }

    open spec fn sqrt_spec(self) -> Self {
        Fixed { raw: sqrt_raw_spec(self.raw as int) }
    }

    open spec fn lt_spec(self, rhs: Self) -> bool {
        self.raw < rhs.raw
    }

    open spec fn le_spec(self, rhs: Self) -> bool {
        self.raw <= rhs.raw
    }

    fn zero() -> (r: Self) {
        Fixed { raw: 0 }
    }

    fn one() -> (r: Self) {
        Fixed { raw: SCALE }
    }

    fn add(self, rhs: Self) -> (r: Self) {
        let sum: i128 = self.raw as i128 + rhs.raw as i128;
        Fixed { raw: clamp(sum) }
    }

    fn sub(self, rhs: Self) -> (r: Self) {
        let difference: i128 = self.raw as i128 - rhs.raw as i128;
        Fixed { raw: clamp(difference) }
    }

    fn mul(self, rhs: Self) -> (r: Self) {
        let a = magnitude(self.raw);
        let b = magnitude(rhs.raw);
        assert(a * b <= 0x4000_0000_0000_0000_0000_0000_0000_0000) by (nonlinear_arith)
            requires
                a <= 0x8000_0000_0000_0000,
                b <= 0x8000_0000_0000_0000,
        ;
        let q = a * b / (SCALE as u128);
        let negative = (self.raw < 0) != (rhs.raw < 0);
        proof {
            let x = self.raw as int;
            let y = rhs.raw as int;
            assert(abs_spec(x * y) == abs_spec(x) * abs_spec(y)) by (nonlinear_arith);
            assert((x * y < 0) == ((x < 0) != (y < 0) && x != 0 && y != 0)) by (nonlinear_arith);
            assert(x == 0 || y == 0 ==> x * y == 0) by (nonlinear_arith);
        }
        Fixed { raw: with_sign(negative, q) }
    }

    fn div(self, rhs: Self) -> (r: Self) {
        if rhs.raw == 0 {
            if self.raw > 0 {
                return Fixed { raw: i64::MAX };
            } else if self.raw < 0 {
                return Fixed { raw: i64::MIN };
            } else {
                return Fixed { raw: 0 };
            }
        }
        let a = magnitude(self.raw);
        let b = magnitude(rhs.raw);
        assert(a * 4294967296 <= 0x8000_0000_0000_0000_0000_0000) by (nonlinear_arith)
            requires
                a <= 0x8000_0000_0000_0000,
        ;
        let q = a * (SCALE as u128) / b;
        let negative = (self.raw < 0) != (rhs.raw < 0);
        proof {
            let x = self.raw as int;
            assert(abs_spec(x * SCALE) == abs_spec(x) * SCALE) by (nonlinear_arith);
            assert((x * SCALE < 0) == (x < 0)) by (nonlinear_arith);
        }
        Fixed { raw: with_sign(negative, q) }
    }

    fn neg(self) -> (r: Self) {
        let opposite: i128 = -(self.raw as i128);
        Fixed { raw: clamp(opposite) }
    }

    fn sqrt(self) -> (r: Self) {
        if self.raw <= 0 {
            return Fixed { raw: 0 };
        }
        let a = self.raw as u128;
        assert(a * 4294967296 < 0x1_0000_0000_0000_0000_0000_0000) by (nonlinear_arith)
            requires
                a <= 0x8000_0000_0000_0000,
        ;
        let root = floor_sqrt(a * (SCALE as u128));
        proof {
            let n = self.raw as int * SCALE;
            assert(is_floor_sqrt(n, root as int));
            lemma_floor_sqrt_unique(n, root as int, floor_sqrt_spec(n));
        }
        Fixed { raw: root as i64 }
    }

    fn lt(self, rhs: Self) -> (b: bool) {
        self.raw < rhs.raw
    }

    fn le(self, rhs: Self) -> (b: bool) {
        self.raw <= rhs.raw
    }
}

impl Truncate for Fixed {
    open spec fn to_u32_spec(self) -> u32 {
        if self.raw < 0 {
            0
        } else if self.raw / SCALE > u32::MAX {
            u32::MAX
        } else {
            (self.raw / SCALE) as u32
        }
    }

    fn to_u32(self) -> (n: u32) {
        if self.raw < 0 {
            0
        } else {
            let whole = self.raw / SCALE;
            if whole > u32::MAX as i64 {
                u32::MAX
            } else {
                whole as u32
            }
        }
    }
}

/// Ten to the power `p`.
pub open spec fn pow10_spec(p: nat) -> int
    decreases p,
{
    if p == 0 {
        1
    } else {
        10 * pow10_spec((p - 1) as nat)
    }
}

/// The whole number nearest to `x / d`, where `d` is above zero; of two
/// that are as near, the one further from zero.
pub open spec fn nearest_spec(x: int, d: int) -> int {
    let q = (2 * abs_spec(x) + d) / (2 * d);
    if x < 0 {
        -q
    } else {
        q
    }
}

/// The raw steps of the number of `raw` steps rounded to `places` decimal
/// places: the nearest multiple of the decimal unit, cut down to a whole
/// number of steps. Beyond nine places a step is coarser than the unit,
/// and the number stays as it is.
pub open spec fn round_raw_spec(raw: int, places: u32) -> i64 {
    if places > 9 {
        raw as i64
    } else {
        let unit = pow10_spec(places as nat);
        clamp_spec(trunc_div_spec(nearest_spec(raw * unit, SCALE as int) * SCALE, unit))
    }
}

/// Ten to the power `places`, which is at most nine.
fn pow10(places: u32) -> (unit: u128)
    requires
        places <= 9,
    ensures
        unit == pow10_spec(places as nat),
        1 <= unit <= 1_000_000_000,
{
    proof {
        reveal_with_fuel(pow10_spec, 10);
    }
    if places == 0 {
        1
    } else if places == 1 {
        10
    } else if places == 2 {
        100
    } else if places == 3 {
        1_000
    } else if places == 4 {
        10_000
    } else if places == 5 {
        100_000
    } else if places == 6 {
        1_000_000
    } else if places == 7 {
        10_000_000
    } else if places == 8 {
        100_000_000
    } else {
        1_000_000_000
    }
}

impl SpecificRound for Fixed {
    open spec fn round_spec(&self, places: u32) -> Self {
        Fixed { raw: round_raw_spec(self.raw as int, places) }
    }

    fn specific_round(&self, places: u32) -> (r: Self) {
        if places > 9 {
            return *self;
        }
        let unit = pow10(places);
        let mag = magnitude(self.raw);
        assert(mag * unit <= 0x8000_0000_0000_0000 * 1_000_000_000) by (nonlinear_arith)
            requires
                mag <= 0x8000_0000_0000_0000,
                unit <= 1_000_000_000,
        ;
        let scaled = mag * unit;
        let nearest = (2 * scaled + SCALE as u128) / (2 * SCALE as u128);
        assert(nearest <= 0x8000_0000_0000_0000 * 1_000_000_000) by (nonlinear_arith)
            requires
                nearest == (2 * scaled + 4294967296) / 8589934592int,
                scaled <= 0x8000_0000_0000_0000 * 1_000_000_000,
        ;
        assert(nearest * 4294967296 <= 0x8000_0000_0000_0000 * 1_000_000_000 * 4294967296)
            by (nonlinear_arith)
            requires
                nearest <= 0x8000_0000_0000_0000 * 1_000_000_000,
        ;
        let q = nearest * (SCALE as u128) / unit;
        proof {
            let x = self.raw as int;
            let u = unit as int;
            assert(abs_spec(x * u) == abs_spec(x) * u) by (nonlinear_arith)
                requires
                    u >= 1,
            ;
            assert((x * u < 0) == (x < 0)) by (nonlinear_arith)
                requires
                    u >= 1,
            ;
            let k = nearest_spec(x * u, SCALE as int);
            assert(abs_spec(k) == nearest);
            assert(abs_spec(k * SCALE) == abs_spec(k) * SCALE) by (nonlinear_arith);
            assert((k * SCALE < 0) == (k < 0)) by (nonlinear_arith);
        }
        Fixed { raw: with_sign(self.raw < 0, q) }
    }
}

/// How many steps apart two numbers have to be to count as different.
pub const TOLERANCE: i64 = 65536;

impl ApproxEq for Fixed {
    /// Two numbers are approximately equal when they are less than
    /// `TOLERANCE` steps apart.
    open spec fn approx_spec(&self, other: &Self) -> bool {
        abs_spec(self.raw - other.raw) < TOLERANCE
    }

    fn approx_cmp(&self, other: &Self) -> (b: bool) {
        apart_by_less(self.raw, other.raw, TOLERANCE)
    }
}

/// Whether `a` and `b` are less than `limit` apart.
fn apart_by_less(a: i64, b: i64, limit: i64) -> (r: bool)
    ensures
        r == (abs_spec(a - b) < limit),
{
    let apart: i128 = a as i128 - b as i128;
    if apart < 0 {
        -apart < limit as i128
    } else {
        apart < limit as i128
    }
}

/// The first `budget` decimal digits behind the point of `frac / SCALE`,
/// up to the last one that is not zero. Thirty-two of them hold every
/// fraction of steps.
pub open spec fn fraction_spec(frac: int, budget: nat) -> Seq<char>
    decreases budget,
{
    if frac <= 0 || budget == 0 {
        Seq::empty()
    } else {
        seq![digit_spec(frac * 10 / (SCALE as int))] + fraction_spec(
            frac * 10 % (SCALE as int),
            (budget - 1) as nat,
        )
    }
}

/// The number of `raw` steps written in decimal: a `-` where it is below
/// zero, the whole part, and, where there is a fraction, a point and the
/// digits of the fraction.
pub open spec fn fixed_text_spec(raw: int) -> Seq<char> {
    let mag = abs_spec(raw);
    let sign = if raw < 0 {
        seq!['-']
    } else {
        Seq::empty()
    };
    let fraction = if mag % (SCALE as int) == 0 {
        Seq::empty()
    } else {
        seq!['.'] + fraction_spec(mag % (SCALE as int), 32)
    };
    sign + decimal_spec((mag / (SCALE as int)) as nat) + fraction
}

impl Printable for Fixed {
    open spec fn text_spec(&self) -> String {
        choose|s: String| s@ == fixed_text_spec(self.raw as int)
    }

    fn to_text(&self) -> (s: String)
        ensures
            s@ == fixed_text_spec(self.raw as int),
    {
        let mag = magnitude(self.raw);
        let whole = mag / (SCALE as u128);
        let mut frac = mag % (SCALE as u128);
        let mut text = String::new();
        proof {
            reveal_strlit("-");
            reveal_strlit(".");
        }
        if self.raw < 0 {
            text.append("-");
        }
        let digits = decimal(whole as u32);
        text.append(digits.as_str());
        if frac == 0 {
            assert(text@ =~= fixed_text_spec(self.raw as int));
            return text;
        }
        text.append(".");
        let ghost head = text@;
        let ghost start = frac as int;
        let mut left: u32 = 32;
        while frac != 0 && left > 0
            invariant
                frac < SCALE,
                head + fraction_spec(start, 32) == text@ + fraction_spec(frac as int, left as nat),
            decreases left,
        {
            let ghost before = text@;
            let ghost old_frac = frac as int;
            let digit = frac * 10 / (SCALE as u128);
            assert(digit < 10) by (nonlinear_arith)
                requires
                    digit == frac * 10 / 4294967296,
                    frac < 4294967296,
            ;
            text.append(digit_text(digit as u32));
            frac = frac * 10 % (SCALE as u128);
            left -= 1;
            assert(text@ + fraction_spec(frac as int, left as nat) =~= before + fraction_spec(
                old_frac,
                (left + 1) as nat,
            ));
        }
        assert(fraction_spec(frac as int, left as nat) =~= Seq::<char>::empty());
        assert(text@ =~= head + fraction_spec(start, 32));
        assert(text@ =~= fixed_text_spec(self.raw as int));
        text
    }
}

/// The steps of half a turn: the nearest to `pi * SCALE`.
pub const PI_RAW: i64 = 13493037705;

/// The steps of a quarter turn.
pub const HALF_PI_RAW: i64 = 6746518852;

/// The steps of a full turn.
pub const TWO_PI_RAW: i64 = 26986075410;

/// One less `rest * (square / divisor)`: a step of the evaluation of a
/// power series from its last term.
pub open spec fn series_step_spec(square: Fixed, divisor: int, rest: Fixed) -> Fixed {
    Fixed::one_spec().sub_spec(
        square.div_spec(Fixed { raw: (divisor * SCALE) as i64 }).mul_spec(rest),
    )
}

/// The cosine, where `cosine` says so, or else the sine of the angle of
/// `m` steps, which is at most a quarter turn: the first seven terms of
/// the power series, added up from the last one in the arithmetic of
/// [`Fixed`] and held between minus one and one.
pub open spec fn series_spec(m: i64, cosine: bool) -> Fixed {
    let x = Fixed { raw: m };
    let square = x.mul_spec(x);
    let one = Fixed::one_spec();
    let sum = if cosine {
        series_step_spec(
            square,
            2,
            series_step_spec(
                square,
                12,
                series_step_spec(
                    square,
                    30,
                    series_step_spec(
                        square,
                        56,
                        series_step_spec(square, 90, series_step_spec(square, 132, one)),
                    ),
                ),
            ),
        )
    } else {
        x.mul_spec(
            series_step_spec(
                square,
                6,
                series_step_spec(
                    square,
                    20,
                    series_step_spec(
                        square,
                        42,
                        series_step_spec(
                            square,
                            72,
                            series_step_spec(square, 110, series_step_spec(square, 156, one)),
                        ),
                    ),
                ),
            ),
        )
    };
    if sum.raw > SCALE {
        Fixed { raw: SCALE }
    } else if sum.raw < -SCALE {
        Fixed { raw: (-SCALE) as i64 }
    } else {
        sum
    }
}

/// The angle of `raw` steps brought into the first quarter turn: the
/// steps of an angle there, whether the cosine changes its sign on the
/// way, and whether the sine does. Full turns are left out, an angle
/// beyond half a turn is taken from the full turn, and one beyond a
/// quarter turn from half a turn.
pub open spec fn first_quarter_spec(raw: i64) -> (i64, bool, bool) {
    let turned = (abs_spec(raw as int) % (TWO_PI_RAW as int)) as i64;
    let folded = if turned > PI_RAW {
        (TWO_PI_RAW - turned) as i64
    } else {
        turned
    };
    let sin_flips = (raw < 0) != (turned > PI_RAW);
    if folded > HALF_PI_RAW {
        ((PI_RAW - folded) as i64, true, sin_flips)
    } else {
        (folded, false, sin_flips)
    }
}

/// The cosine of the angle of `raw` steps as [`Fixed`] computes it.
pub open spec fn cos_spec(raw: i64) -> Fixed {
    let (m, cos_flips, sin_flips) = first_quarter_spec(raw);
    let value = series_spec(m, true);
    if cos_flips {
        Fixed { raw: (-value.raw) as i64 }
    } else {
        value
    }
}

/// The sine of the angle of `raw` steps as [`Fixed`] computes it.
pub open spec fn sin_spec(raw: i64) -> Fixed {
    let (m, cos_flips, sin_flips) = first_quarter_spec(raw);
    let value = series_spec(m, false);
    if sin_flips {
        Fixed { raw: (-value.raw) as i64 }
    } else {
        value
    }
}

/// One less `rest * (square / divisor)`.
fn series_step(square: Fixed, divisor: i32, rest: Fixed) -> (r: Fixed)
    ensures
        r == series_step_spec(square, divisor as int, rest),
{
    Fixed::one().sub(square.div(Fixed::from_int(divisor)).mul(rest))
}

/// The cosine, where `cosine` says so, or else the sine of the angle of
/// `m` steps.
fn series(m: i64, cosine: bool) -> (r: Fixed)
    ensures
        r == series_spec(m, cosine),
        -SCALE <= r.raw <= SCALE,
{
    let x = Fixed { raw: m };
    let square = x.mul(x);
    let sum = if cosine {
        let t = series_step(square, 132, Fixed::one());
        let t = series_step(square, 90, t);
        let t = series_step(square, 56, t);
        let t = series_step(square, 30, t);
        let t = series_step(square, 12, t);
        series_step(square, 2, t)
    } else {
        let t = series_step(square, 156, Fixed::one());
        let t = series_step(square, 110, t);
        let t = series_step(square, 72, t);
        let t = series_step(square, 42, t);
        let t = series_step(square, 20, t);
        let t = series_step(square, 6, t);
        x.mul(t)
    };
    if sum.raw > SCALE {
        Fixed { raw: SCALE }
    } else if sum.raw < -SCALE {
        Fixed { raw: -SCALE }
    } else {
        sum
    }
}

/// The angle of `raw` steps brought into the first quarter turn.
fn first_quarter(raw: i64) -> (r: (i64, bool, bool))
    ensures
        r == first_quarter_spec(raw),
        0 <= r.0 <= HALF_PI_RAW,
{
    let turned: i64 = (magnitude(raw) % (TWO_PI_RAW as u128)) as i64;
    let mut m = turned;
    let mut cos_flips = false;
    let mut sin_flips = raw < 0;
    if m > PI_RAW {
        m = TWO_PI_RAW - m;
        sin_flips = !sin_flips;
    }
    if m > HALF_PI_RAW {
        m = PI_RAW - m;
        cos_flips = !cos_flips;
    }
    (m, cos_flips, sin_flips)
}

impl Angle for Fixed {
    /// The one answer for the cosine is an approximation by a power
    /// series.
    open spec fn is_cos_spec(self, value: Self) -> bool {
        value == cos_spec(self.raw)
    }

    /// The one answer for the sine is an approximation by a power series.
    open spec fn is_sin_spec(self, value: Self) -> bool {
        value == sin_spec(self.raw)
    }

    fn cos(self) -> (r: Self)
        ensures
            -SCALE <= r.raw <= SCALE,
    {
        let (m, cos_flips, _) = first_quarter(self.raw);
        let value = series(m, true);
        if cos_flips {
            Fixed { raw: -value.raw }
        } else {
            value
        }
    }

    fn sin(self) -> (r: Self)
        ensures
            -SCALE <= r.raw <= SCALE,
    {
        let (m, _, sin_flips) = first_quarter(self.raw);
        let value = series(m, false);
        if sin_flips {
            Fixed { raw: -value.raw }
        } else {
            value
        }
    }
}

/// The order of [`Fixed`] is a strict one.
pub proof fn lemma_fixed_strict_order()
    ensures
        strict_order::<Fixed>(),
{
}

} // verus!
