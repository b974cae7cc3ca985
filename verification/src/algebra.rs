//! The value algebra: the capability contract a type must satisfy to be
//! tweened, and the two concrete tweenable types the crate ships.
//!
//! Values carry fixed-point integer channels; scalar multiplication takes the
//! scalar as a fraction `num / den`, so every operation is exact integer
//! arithmetic and the result of a blend is a pure function of its inputs.

use vstd::prelude::*;

verus! {

use vstd::arithmetic::div_mod::{
    lemma_div_is_ordered, lemma_div_multiples_vanish, lemma_div_pos_is_pos,
    lemma_fundamental_div_mod,
};
use vstd::arithmetic::mul::{
    lemma_mul_inequality, lemma_mul_is_commutative, lemma_mul_is_distributive_add, lemma_mul_nonnegative,
    lemma_mul_upper_bound,
};

/// Largest channel magnitude a well-formed value may carry. Keeping channels
/// inside this bound lets every blend run in 128-bit intermediates without
/// overflow and keeps channel sums inside `i64`.
pub const VALUE_LIMIT: i64 = 1_000_000_000_000_000;

/// Fixed-point representation of the color value `1.0`: one color channel
/// unit is a thousandth.
pub const COLOR_ONE: i64 = 1000;

/// Scaling a channel `x` by the fraction `num / den`, rounding the magnitude
/// down (truncation toward zero).
pub open spec fn scale_q(x: int, num: int, den: int) -> int {
    if x >= 0 {
        (x * num) / den
    } else {
        -(((-x) * num) / den)
    }
}

/// Scaling by `num / den` with `num <= den` never grows a channel's
/// magnitude and never flips its sign.
pub proof fn lemma_scale_q_bounds(x: int, num: int, den: int)
    requires
        0 < den,
        0 <= num <= den,
    ensures
        x >= 0 ==> 0 <= scale_q(x, num, den) <= x,
        x < 0 ==> x <= scale_q(x, num, den) <= 0,
{
    if x >= 0 {
        lemma_mul_nonnegative(x, num);
        lemma_div_pos_is_pos(x * num, den);
        lemma_mul_inequality(num, den, x);
        lemma_div_is_ordered(x * num, x * den, den);
        lemma_div_multiples_vanish(x, den);
    } else {
        lemma_mul_nonnegative(-x, num);
        lemma_div_pos_is_pos((-x) * num, den);
        lemma_mul_inequality(num, den, -x);
        lemma_div_is_ordered((-x) * num, (-x) * den, den);
        lemma_div_multiples_vanish(-x, den);
    }
}

/// Scaling is monotone in the channel on non-negative channels.
pub proof fn lemma_scale_q_mono(x1: int, x2: int, num: int, den: int)
    requires
        0 < den,
        0 <= num,
        0 <= x1 <= x2,
    ensures
        scale_q(x1, num, den) <= scale_q(x2, num, den),
{
    lemma_mul_inequality(x1, x2, num);
    lemma_div_is_ordered(x1 * num, x2 * num, den);
}

/// Truncating division distributes over a sum of non-negative numerators
/// with at most a deficit: the sum of the quotients never exceeds the
/// quotient of the sum.
pub proof fn lemma_div_sum_le(a: int, b: int, d: int)
    requires
        0 < d,
        0 <= a,
        0 <= b,
    ensures
        a / d + b / d <= (a + b) / d,
{
    lemma_fundamental_div_mod(a, d);
    lemma_fundamental_div_mod(b, d);
    lemma_mul_is_distributive_add(d, a / d, b / d);
    assert(d * (a / d + b / d) <= a + b);
    lemma_div_is_ordered(d * (a / d + b / d), a + b, d);
    lemma_div_multiples_vanish(a / d + b / d, d);
}

/// One linear-interpolation step `x * (den - num) / den + y * num / den`
/// keeps a channel inside a symmetric bound that holds of both inputs.
pub proof fn lemma_lerp_channel(x: int, y: int, num: int, den: int, m: int)
    requires
        0 < den,
        0 <= num <= den,
        0 <= m,
        -m <= x <= m,
        -m <= y <= m,
    ensures
        -m <= scale_q(x, den - num, den) + scale_q(y, num, den) <= m,
{
    lemma_scale_q_bounds(x, den - num, den);
    lemma_scale_q_bounds(y, num, den);
    lemma_scale_q_mono(if x >= 0 { x } else { -x }, m, den - num, den);
    lemma_scale_q_mono(if y >= 0 { y } else { -y }, m, num, den);
    lemma_div_sum_le(m * (den - num), m * num, den);
    lemma_mul_is_distributive_add(m, den - num, num);
    lemma_div_multiples_vanish(m, den);
    assert(m * (den - num) + m * num == m * den);
    assert(scale_q(m, den - num, den) + scale_q(m, num, den) <= m);
}

/// Scaling an `i64` channel by the fraction `num / den`, exactly as
/// [`scale_q`] describes.
pub(crate) fn scale_i64(v: i64, num: u64, den: u64) -> (r: i64)
    requires
        0 < den,
        num <= den,
        -VALUE_LIMIT <= v <= VALUE_LIMIT,
    ensures
        r == scale_q(v as int, num as int, den as int),
        v >= 0 ==> 0 <= r <= v,
        v < 0 ==> v <= r <= 0,
{
    proof {
        lemma_scale_q_bounds(v as int, num as int, den as int);
    }
    let neg = v < 0;
    let mag: u64 = if neg {
        (-v) as u64
    } else {
        v as u64
    };
    proof {
        lemma_mul_upper_bound(mag as int, VALUE_LIMIT as int, num as int, u64::MAX as int);
    }
    let q128: u128 = (mag as u128) * (num as u128) / (den as u128);
    proof {
        lemma_mul_nonnegative(mag as int, num as int);
        lemma_mul_inequality(num as int, den as int, mag as int);
        lemma_mul_is_commutative(mag as int, num as int);
        lemma_mul_is_commutative(mag as int, den as int);
        lemma_div_is_ordered((mag as int) * (num as int), (mag as int) * (den as int), den as int);
        lemma_div_multiples_vanish(mag as int, den as int);
    }
    let q: i64 = q128 as i64;
    if neg {
        -q
    } else {
        q
    }
}

/// The capability contract a value type must satisfy to be tweened: scalar
/// multiplication by a fraction, addition, and subtraction with a
/// type-specific clamping policy. Every operation's result is pinned down by
/// a spec-level counterpart, and the blend law keeps interpolation results
/// well formed.
pub trait ValueAlgebra: Sized + Copy {
    /// The channels are inside the range that keeps all blends exact and
    /// free of overflow.
    spec fn wf(self) -> bool;

    /// What `outer_mul` returns: the value scaled by `num / den`.
    spec fn spec_scale(self, num: int, den: int) -> Self;

    /// What `add` returns.
    spec fn spec_add(self, other: Self) -> Self;

    /// What `sub` returns, including the type's clamping policy.
    spec fn spec_sub(self, other: Self) -> Self;

    /// Scalar multiplication by the fraction `num / den`, with
    /// `num <= den`: blending never scales by more than one.
    fn outer_mul(self, num: u64, den: u64) -> (r: Self)
        requires
            self.wf(),
            0 < den,
            num <= den,
        ensures
            r == self.spec_scale(num as int, den as int),
            r.wf(),
    ;

    /// Scalar division by the fraction `num / den`, with `den <= num`:
    /// dividing by a scalar of at least one, so the value shrinks.
    fn outer_div(self, num: u64, den: u64) -> (r: Self)
        requires
            self.wf(),
            0 < num,
            den <= num,
        ensures
            r == self.spec_scale(den as int, num as int),
            r.wf(),
    ;

    /// Addition of two well-formed values. The sum alone may leave the
    /// channel range; `lemma_lerp_wf` is what keeps chained blends well
    /// formed.
    fn add(self, other: Self) -> (r: Self)
        requires
            self.wf(),
            other.wf(),
        ensures
            r == self.spec_add(other),
    ;

    /// Subtraction, after which the type's own clamping policy applies.
    fn sub(self, other: Self) -> (r: Self)
        requires
            self.wf(),
            other.wf(),
        ensures
            r == self.spec_sub(other),
    ;

    /// Equality test, used to detect a no-op retarget.
    fn eq_value(self, other: Self) -> (r: bool)
        ensures
            r <==> self == other,
    ;

    /// Runtime check of `wf`, so well-formedness can be established for
    /// values handed in from outside.
    fn check_wf(self) -> (r: bool)
        ensures
            r <==> self.wf(),
    ;

    /// Law: one linear-interpolation step of two well-formed values is well
    /// formed again, so chained blends stay inside the channel range.
    proof fn lemma_lerp_wf(a: Self, b: Self, num: int, den: int)
        requires
            a.wf(),
            b.wf(),
            0 < den,
            0 <= num <= den,
        ensures
            a.spec_scale(den - num, den).spec_add(b.spec_scale(num, den)).wf(),
    ;
}

/// Wrapper that carries a concrete value through the tweening machinery;
/// the algebra is implemented on the wrapped form.
#[derive(Clone, Copy, PartialEq, Eq, Debug)]
pub struct TweenValue<T: Copy>(pub T);

/// A three-dimensional translation with whole-number coordinates in the
/// host's smallest spatial unit.
#[derive(Clone, Copy, PartialEq, Eq, Structural, Debug)]
pub struct Translation {
    pub x: i64,
    pub y: i64,
    pub z: i64,
}

impl Translation {
    pub fn new(x: i64, y: i64, z: i64) -> (r: Translation)
        ensures
            r == (Translation { x, y, z }),
    {
        Translation { x, y, z }
    }
}

/// A color with red, green, blue and alpha channels in fixed point:
/// `COLOR_ONE` stands for the channel value `1.0`.
#[derive(Clone, Copy, PartialEq, Eq, Structural, Debug)]
pub struct ColorRgba {
    pub r: i64,
    pub g: i64,
    pub b: i64,
    pub a: i64,
}

impl ColorRgba {
    pub fn rgba(r: i64, g: i64, b: i64, a: i64) -> (c: ColorRgba)
        ensures
            c == (ColorRgba { r, g, b, a }),
    {
        ColorRgba { r, g, b, a }
    }
}

/// A color channel clamped into the valid range `[0, COLOR_ONE]`.
pub open spec fn clamp_channel(x: int) -> int {
    if x < 0 {
        0
    } else if x > COLOR_ONE {
        COLOR_ONE as int
    } else {
        x
    }
}

impl ValueAlgebra for TweenValue<Translation> {
    open spec fn wf(self) -> bool {
        &&& -VALUE_LIMIT <= self.0.x <= VALUE_LIMIT
        &&& -VALUE_LIMIT <= self.0.y <= VALUE_LIMIT
        &&& -VALUE_LIMIT <= self.0.z <= VALUE_LIMIT
    }

    open spec fn spec_scale(self, num: int, den: int) -> Self {
        TweenValue(
            Translation {
                x: scale_q(self.0.x as int, num, den) as i64,
                y: scale_q(self.0.y as int, num, den) as i64,
                z: scale_q(self.0.z as int, num, den) as i64,
            },
        )
    }

    open spec fn spec_add(self, other: Self) -> Self {
        TweenValue(
            Translation {
                x: (self.0.x + other.0.x) as i64,
                y: (self.0.y + other.0.y) as i64,
                z: (self.0.z + other.0.z) as i64,
            },
        )
    }

    open spec fn spec_sub(self, other: Self) -> Self {
        TweenValue(
            Translation {
                x: (self.0.x - other.0.x) as i64,
                y: (self.0.y - other.0.y) as i64,
                z: (self.0.z - other.0.z) as i64,
            },
        )
    }

    fn outer_mul(self, num: u64, den: u64) -> (r: Self) {
        TweenValue(
            Translation {
                x: scale_i64(self.0.x, num, den),
                y: scale_i64(self.0.y, num, den),
                z: scale_i64(self.0.z, num, den),
            },
        )
    }

    fn outer_div(self, num: u64, den: u64) -> (r: Self) {
        TweenValue(
            Translation {
                x: scale_i64(self.0.x, den, num),
                y: scale_i64(self.0.y, den, num),
                z: scale_i64(self.0.z, den, num),
            },
        )
    }

    fn add(self, other: Self) -> (r: Self) {
        TweenValue(
            Translation {
                x: self.0.x + other.0.x,
                y: self.0.y + other.0.y,
                z: self.0.z + other.0.z,
            },
        )
    }

    fn sub(self, other: Self) -> (r: Self) {
        TweenValue(
            Translation {
                x: self.0.x - other.0.x,
                y: self.0.y - other.0.y,
                z: self.0.z - other.0.z,
            },
        )
    }

    fn eq_value(self, other: Self) -> (r: bool) {
        self.0 == other.0
    }

    fn check_wf(self) -> (r: bool) {
        -VALUE_LIMIT <= self.0.x && self.0.x <= VALUE_LIMIT && -VALUE_LIMIT <= self.0.y
            && self.0.y <= VALUE_LIMIT && -VALUE_LIMIT <= self.0.z && self.0.z <= VALUE_LIMIT
    }

    proof fn lemma_lerp_wf(a: Self, b: Self, num: int, den: int) {
        lemma_scale_q_bounds(a.0.x as int, den - num, den);
        lemma_scale_q_bounds(a.0.y as int, den - num, den);
        lemma_scale_q_bounds(a.0.z as int, den - num, den);
        lemma_scale_q_bounds(b.0.x as int, num, den);
        lemma_scale_q_bounds(b.0.y as int, num, den);
        lemma_scale_q_bounds(b.0.z as int, num, den);
        lemma_lerp_channel(a.0.x as int, b.0.x as int, num, den, VALUE_LIMIT as int);
        lemma_lerp_channel(a.0.y as int, b.0.y as int, num, den, VALUE_LIMIT as int);
        lemma_lerp_channel(a.0.z as int, b.0.z as int, num, den, VALUE_LIMIT as int);
    }
}

impl ValueAlgebra for TweenValue<ColorRgba> {
    open spec fn wf(self) -> bool {
        &&& 0 <= self.0.r <= COLOR_ONE
        &&& 0 <= self.0.g <= COLOR_ONE
        &&& 0 <= self.0.b <= COLOR_ONE
        &&& 0 <= self.0.a <= COLOR_ONE
    }

    open spec fn spec_scale(self, num: int, den: int) -> Self {
        TweenValue(
            ColorRgba {
                r: scale_q(self.0.r as int, num, den) as i64,
                g: scale_q(self.0.g as int, num, den) as i64,
                b: scale_q(self.0.b as int, num, den) as i64,
                a: scale_q(self.0.a as int, num, den) as i64,
            },
        )
    }

    open spec fn spec_add(self, other: Self) -> Self {
        TweenValue(
            ColorRgba {
                r: (self.0.r + other.0.r) as i64,
                g: (self.0.g + other.0.g) as i64,
                b: (self.0.b + other.0.b) as i64,
                a: (self.0.a + other.0.a) as i64,
            },
        )
    }

    open spec fn spec_sub(self, other: Self) -> Self {
        TweenValue(
            ColorRgba {
                r: clamp_channel(self.0.r - other.0.r) as i64,
                g: clamp_channel(self.0.g - other.0.g) as i64,
                b: clamp_channel(self.0.b - other.0.b) as i64,
                a: clamp_channel(self.0.a - other.0.a) as i64,
            },
        )
    }

    fn outer_mul(self, num: u64, den: u64) -> (r: Self) {
        TweenValue(
            ColorRgba {
                r: scale_i64(self.0.r, num, den),
                g: scale_i64(self.0.g, num, den),
                b: scale_i64(self.0.b, num, den),
                a: scale_i64(self.0.a, num, den),
            },
        )
    }

    fn outer_div(self, num: u64, den: u64) -> (r: Self) {
        TweenValue(
            ColorRgba {
                r: scale_i64(self.0.r, den, num),
                g: scale_i64(self.0.g, den, num),
                b: scale_i64(self.0.b, den, num),
                a: scale_i64(self.0.a, den, num),
            },
        )
    }

    fn add(self, other: Self) -> (r: Self) {
        TweenValue(
            ColorRgba {
                r: self.0.r + other.0.r,
                g: self.0.g + other.0.g,
                b: self.0.b + other.0.b,
                a: self.0.a + other.0.a,
            },
        )
    }

    fn sub(self, other: Self) -> (r: Self) {
        TweenValue(
            ColorRgba {
                r: clamp_channel_i64(self.0.r - other.0.r),
                g: clamp_channel_i64(self.0.g - other.0.g),
                b: clamp_channel_i64(self.0.b - other.0.b),
                a: clamp_channel_i64(self.0.a - other.0.a),
            },
        )
    }

    fn eq_value(self, other: Self) -> (r: bool) {
        self.0 == other.0
    }

    fn check_wf(self) -> (r: bool) {
        0 <= self.0.r && self.0.r <= COLOR_ONE && 0 <= self.0.g && self.0.g <= COLOR_ONE && 0
            <= self.0.b && self.0.b <= COLOR_ONE && 0 <= self.0.a && self.0.a <= COLOR_ONE
    }

    proof fn lemma_lerp_wf(a: Self, b: Self, num: int, den: int) {
        lemma_scale_q_bounds(a.0.r as int, den - num, den);
        lemma_scale_q_bounds(a.0.g as int, den - num, den);
        lemma_scale_q_bounds(a.0.b as int, den - num, den);
        lemma_scale_q_bounds(a.0.a as int, den - num, den);
        lemma_scale_q_bounds(b.0.r as int, num, den);
        lemma_scale_q_bounds(b.0.g as int, num, den);
        lemma_scale_q_bounds(b.0.b as int, num, den);
        lemma_scale_q_bounds(b.0.a as int, num, den);
        lemma_lerp_channel(a.0.r as int, b.0.r as int, num, den, COLOR_ONE as int);
        lemma_lerp_channel(a.0.g as int, b.0.g as int, num, den, COLOR_ONE as int);
        lemma_lerp_channel(a.0.b as int, b.0.b as int, num, den, COLOR_ONE as int);
        lemma_lerp_channel(a.0.a as int, b.0.a as int, num, den, COLOR_ONE as int);
    }
}

/// Exec counterpart of [`clamp_channel`].
fn clamp_channel_i64(x: i64) -> (r: i64)
    requires
        i64::MIN < x,
    ensures
        r == clamp_channel(x as int),
{
    if x < 0 {
        0
    } else if x > COLOR_ONE {
        COLOR_ONE
    } else {
        x
    }
}

} // verus!
