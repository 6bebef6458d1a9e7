//! What numbers mean: the reals that they stand for.
//!
//! A number in binary64 is the rounding of a real. A meaning says of numbers which reals they
//! stand for, up to the roundings on the way: where two numbers stand for two reals, what the
//! addition makes of the numbers stands for the sum of the reals, and likewise for the other
//! operations. For any arithmetic the evaluation of formulas is such a meaning: a number stands
//! for the real that a formula comes to exactly if it is what the formula comes to in numbers. So
//! what holds of every meaning says which real a result is the rounded value of.
use crate::decimals::{
    D0, D0_001, D0_002, D0_006, D0_008, D0_01, D0_012, D0_02, D0_025, D0_03, D0_033, D0_04, D0_05,
    D0_055, D0_06, D0_08, D0_09, D0_1, D0_11, D0_12, D0_13, D0_14, D0_15, D0_16, D0_17, D0_18, D0_2,
    D0_22, D0_24, D0_25, D0_26, D0_27, D0_28, D0_3, D0_32, D0_33, D0_34, D0_35, D0_36, D0_38, D0_4,
    D0_42, D0_44, D0_45, D0_46, D0_48, D0_5, D0_52, D0_55, D0_56, D0_57, D0_58, D0_6, D0_62, D0_64,
    D0_65, D0_66, D0_67, D0_68, D0_7, D0_72, D0_75, D0_76, D0_78, D0_8, D0_82, D0_85, D0_86, D0_88,
    D0_9, D0_92, D0_95, D0_96, D0_98, D1, D10, D100, D1000, D11, D110, D12, D120, D14, D140, D15,
    D1500, D16, D160, D18, D1EM06, D1EM09, D1EM12, D1EM30, D1_04, D1_05, D1_1, D1_15, D1_18, D1_2,
    D1_24, D1_25, D1_3, D1_32, D1_35, D1_4, D1_45, D1_5, D1_55, D1_6, D1_65, D1_75, D1_8, D1_85,
    D1_96, D2, D20, D200, D22, D220, D23, D24, D240, D25, D250, D27, D28, D29, D2_1, D2_2, D2_25,
    D2_4, D2_5, D2_75, D3, D30, D30000, D32, D33_3, D35, D36, D3_2, D3_25, D3_4, D3_5, D3_8, D4,
    D40, D400, D42, D45, D48, D4_2, D4_5, D4_8, D5, D500, D54, D55, D56, D5_5, D6, D60, D7, D70,
    D72, D7_5, D8, D80, D9, D96, DM0_15, DM0_18, DM0_2, DM1, DM10, DM1000, DM1000000000, DM1_5, DM2,
    DM20, DM30, DM4, DM500000000,
};
use crate::number::{
    clamped_to, image, larger, num, number_of, outcome, smaller, sum_up, Real64,
    SIGN_BIT,
};
use crate::pitch::Vec2;
use vstd::arithmetic::power2::{lemma2_to64, lemma2_to64_rest, lemma_pow2_adds, pow2};
use vstd::prelude::*;

verus! {

/// A number is the binary64 number nearest to a fraction: the fraction lies no further off than
/// half of what the last bit weighs.
pub open spec fn is_nearest(bits: u64, n: int, d: int) -> bool {
    let size = if bits >= SIGN_BIT {
        bits - SIGN_BIT
    } else {
        bits as int
    };
    let sign = if bits >= SIGN_BIT {
        -1int
    } else {
        1
    };
    let e = size / 0x10_0000_0000_0000;
    let m = sign * (size % 0x10_0000_0000_0000 + 0x10_0000_0000_0000);
    &&& d > 0
    &&& bits == 0 ==> n == 0
    &&& bits != 0 && 1 <= e <= 1075 ==> -d <= 2 * (m * d - n * pow2((1075 - e) as nat)) <= d
    &&& bits != 0 ==> 1 <= e <= 1075
}

/// The numbers nearest to fractions stand for them.
pub open spec fn reads_decimals(means: spec_fn(Real64, real) -> bool) -> bool {
    forall|bits: u64, n: int, d: int| #[trigger]
        is_nearest(bits, n, d) ==> means(num(bits), n as real / d as real)
}

/// Sums of numbers stand for sums.
pub open spec fn reads_sums<P: Fn(Real64, Real64) -> Real64>(
    means: spec_fn(Real64, real) -> bool,
    plus: P,
) -> bool {
    forall|a: Real64, b: Real64, x: real, y: real|
        #![trigger outcome(plus, a, b), means(a, x), means(b, y)]
        means(a, x) && means(b, y) ==> means(outcome(plus, a, b), x + y)
}

/// Products of numbers stand for products.
pub open spec fn reads_products<M: Fn(Real64, Real64) -> Real64>(
    means: spec_fn(Real64, real) -> bool,
    times: M,
) -> bool {
    forall|a: Real64, b: Real64, x: real, y: real|
        #![trigger outcome(times, a, b), means(a, x), means(b, y)]
        means(a, x) && means(b, y) ==> means(outcome(times, a, b), x * y)
}

/// Quotients of numbers stand for quotients, but for a divisor of zero.
pub open spec fn reads_quotients<Q: Fn(Real64, Real64) -> Real64>(
    means: spec_fn(Real64, real) -> bool,
    over: Q,
) -> bool {
    forall|a: Real64, b: Real64, x: real, y: real|
        #![trigger outcome(over, a, b), means(a, x), means(b, y)]
        means(a, x) && means(b, y) && y != 0real ==> means(outcome(over, a, b), x / y)
}

/// A number with its sign turned stands for the real with its sign turned.
pub open spec fn reads_signs(means: spec_fn(Real64, real) -> bool) -> bool {
    forall|a: Real64, x: real|
        #![trigger a.negated(), means(a, x)]
        means(a, x) ==> means(a.negated(), -x)
}

/// Counts stand for themselves.
pub open spec fn reads_counts<C: Fn(usize) -> Real64>(
    means: spec_fn(Real64, real) -> bool,
    count: C,
) -> bool {
    forall|n: usize| means(#[trigger] number_of(count, n), n as int as real)
}

/// The square root of a number stands for the square root.
pub open spec fn reads_roots<R: Fn(Real64) -> Real64>(
    means: spec_fn(Real64, real) -> bool,
    root: R,
) -> bool {
    forall|a: Real64, x: real, s: real|
        #![trigger image(root, a), means(a, x), is_root(x, s)]
        means(a, x) && is_root(x, s) ==> means(image(root, a), s)
}

/// A function of a number stands for a function of the real.
pub open spec fn reads_function<F: Fn(Real64) -> Real64>(
    means: spec_fn(Real64, real) -> bool,
    f: F,
    g: spec_fn(real) -> real,
) -> bool {
    forall|a: Real64, x: real|
        #![trigger image(f, a), means(a, x)]
        means(a, x) ==> means(image(f, a), g(x))
}

/// `s` is the square root of `x`.
pub open spec fn is_root(x: real, s: real) -> bool {
    s >= 0real && s * s == x
}

/// The greater of two reals.
pub open spec fn most(x: real, y: real) -> real {
    if x < y {
        y
    } else {
        x
    }
}

/// The lesser of two reals.
pub open spec fn least(x: real, y: real) -> real {
    if y < x {
        y
    } else {
        x
    }
}

/// A real, or the bound that it lies beyond.
pub open spec fn bounded(x: real, low: real, high: real) -> real {
    if x < low {
        low
    } else if high < x {
        high
    } else {
        x
    }
}

/// The size of a real.
pub open spec fn size(x: real) -> real {
    if x < 0real {
        -x
    } else {
        x
    }
}

/// The greater and the lesser of numbers stand for the greater and the lesser, and so does a
/// number kept between bounds and the size of one.
pub open spec fn reads_order(means: spec_fn(Real64, real) -> bool) -> bool {
    &&& forall|a: Real64, b: Real64, x: real, y: real|
        #![trigger larger(a, b), means(a, x), means(b, y)]
        means(a, x) && means(b, y) ==> means(larger(a, b), most(x, y))
    &&& forall|a: Real64, b: Real64, x: real, y: real|
        #![trigger smaller(a, b), means(a, x), means(b, y)]
        means(a, x) && means(b, y) ==> means(smaller(a, b), least(x, y))
    &&& forall|v: Real64, a: Real64, b: Real64, z: real, x: real, y: real|
        #![trigger clamped_to(v, a, b), means(v, z), means(a, x), means(b, y)]
        means(v, z) && means(a, x) && means(b, y) ==> means(clamped_to(v, a, b), bounded(z, x, y))
    &&& forall|a: Real64, x: real|
        #![trigger a.absolute(), means(a, x)]
        means(a, x) ==> means(a.absolute(), size(x))
}

/// Sums, products, signs, bounds and decimals are read as what they are.
pub open spec fn is_faithful<
    P: Fn(Real64, Real64) -> Real64,
    M: Fn(Real64, Real64) -> Real64,
>(means: spec_fn(Real64, real) -> bool, plus: P, times: M) -> bool {
    &&& reads_sums(means, plus)
    &&& reads_products(means, times)
    &&& reads_signs(means)
    &&& reads_order(means)
    &&& reads_decimals(means)
}

/// A place stands for a point.
pub open spec fn stands_at(
    means: spec_fn(Real64, real) -> bool,
    place: Vec2,
    x: real,
    y: real,
) -> bool {
    means(place.x, x) && means(place.y, y)
}

/// The sum of the first `n` reals.
pub open spec fn real_sum(s: Seq<real>, n: int) -> real
    decreases n,
{
    if n <= 0 {
        0real
    } else {
        real_sum(s, n - 1) + s[n - 1]
    }
}

/// How many of the first `n` flags are set.
pub open spec fn set_flags(flags: Seq<bool>, n: int) -> int
    decreases n,
{
    if n <= 0 {
        0
    } else {
        set_flags(flags, n - 1) + (if flags[n - 1] {
            1int
        } else {
            0
        })
    }
}

/// The sum of numbers stands for the sum of the reals that they stand for.
pub proof fn sums_mean_sums<P: Fn(Real64, Real64) -> Real64>(
    means: spec_fn(Real64, real) -> bool,
    plus: P,
    s: Seq<Real64>,
    x: Seq<real>,
    n: int,
)
    requires
        reads_sums(means, plus),
        reads_decimals(means),
        0 <= n <= s.len(),
        s.len() == x.len(),
        forall|i: int| 0 <= i < n ==> means(#[trigger] s[i], x[i]),
    ensures
        means(sum_up(plus, s, n), real_sum(x, n)),
    decreases n,
{
    decimals_are_read(means);
    if n > 0 {
        sums_mean_sums(means, plus, s, x, n - 1);
        assert(means(s[n - 1], x[n - 1]));
    } else {
        assert(means(num(0), 0real));
    }
}

/// Every decimal constant stands for the decimal that it is named for.
pub proof fn decimals_are_read(means: spec_fn(Real64, real) -> bool)
    requires
        reads_decimals(means),
    ensures
        means(num(DM1000000000), -1000000000real),
        means(num(DM500000000), -500000000real),
        means(num(DM1000), -1000real),
        means(num(DM30), -30real),
        means(num(DM20), -20real),
        means(num(DM10), -10real),
        means(num(DM4), -4real),
        means(num(DM2), -2real),
        means(num(DM1_5), -(3real / 2real)),
        means(num(DM1), -1real),
        means(num(DM0_2), -(1real / 5real)),
        means(num(DM0_18), -(9real / 50real)),
        means(num(DM0_15), -(3real / 20real)),
        means(num(D0), 0real),
        means(num(D1EM30), 1real / 1000000000000000000000000000000real),
        means(num(D1EM12), 1real / 1000000000000real),
        means(num(D1EM09), 1real / 1000000000real),
        means(num(D1EM06), 1real / 1000000real),
        means(num(D0_001), 1real / 1000real),
        means(num(D0_002), 1real / 500real),
        means(num(D0_006), 3real / 500real),
        means(num(D0_008), 1real / 125real),
        means(num(D0_01), 1real / 100real),
        means(num(D0_012), 3real / 250real),
        means(num(D0_02), 1real / 50real),
        means(num(D0_025), 1real / 40real),
        means(num(D0_03), 3real / 100real),
        means(num(D0_033), 33real / 1000real),
        means(num(D0_04), 1real / 25real),
        means(num(D0_05), 1real / 20real),
        means(num(D0_055), 11real / 200real),
        means(num(D0_06), 3real / 50real),
        means(num(D0_08), 2real / 25real),
        means(num(D0_09), 9real / 100real),
        means(num(D0_1), 1real / 10real),
        means(num(D0_11), 11real / 100real),
        means(num(D0_12), 3real / 25real),
        means(num(D0_13), 13real / 100real),
        means(num(D0_14), 7real / 50real),
        means(num(D0_15), 3real / 20real),
        means(num(D0_16), 4real / 25real),
        means(num(D0_17), 17real / 100real),
        means(num(D0_18), 9real / 50real),
        means(num(D0_2), 1real / 5real),
        means(num(D0_22), 11real / 50real),
        means(num(D0_24), 6real / 25real),
        means(num(D0_25), 1real / 4real),
        means(num(D0_26), 13real / 50real),
        means(num(D0_27), 27real / 100real),
        means(num(D0_28), 7real / 25real),
        means(num(D0_3), 3real / 10real),
        means(num(D0_32), 8real / 25real),
        means(num(D0_33), 33real / 100real),
        means(num(D0_34), 17real / 50real),
        means(num(D0_35), 7real / 20real),
        means(num(D0_36), 9real / 25real),
        means(num(D0_38), 19real / 50real),
        means(num(D0_4), 2real / 5real),
        means(num(D0_42), 21real / 50real),
        means(num(D0_44), 11real / 25real),
        means(num(D0_45), 9real / 20real),
        means(num(D0_46), 23real / 50real),
        means(num(D0_48), 12real / 25real),
        means(num(D0_5), 1real / 2real),
        means(num(D0_52), 13real / 25real),
        means(num(D0_55), 11real / 20real),
        means(num(D0_56), 14real / 25real),
        means(num(D0_57), 57real / 100real),
        means(num(D0_58), 29real / 50real),
        means(num(D0_6), 3real / 5real),
        means(num(D0_62), 31real / 50real),
        means(num(D0_64), 16real / 25real),
        means(num(D0_65), 13real / 20real),
        means(num(D0_66), 33real / 50real),
        means(num(D0_67), 67real / 100real),
        means(num(D0_68), 17real / 25real),
        means(num(D0_7), 7real / 10real),
        means(num(D0_72), 18real / 25real),
        means(num(D0_75), 3real / 4real),
        means(num(D0_76), 19real / 25real),
        means(num(D0_78), 39real / 50real),
        means(num(D0_8), 4real / 5real),
        means(num(D0_82), 41real / 50real),
        means(num(D0_85), 17real / 20real),
        means(num(D0_86), 43real / 50real),
        means(num(D0_88), 22real / 25real),
        means(num(D0_9), 9real / 10real),
        means(num(D0_92), 23real / 25real),
        means(num(D0_95), 19real / 20real),
        means(num(D0_96), 24real / 25real),
        means(num(D0_98), 49real / 50real),
        means(num(D1), 1real),
        means(num(D1_04), 26real / 25real),
        means(num(D1_05), 21real / 20real),
        means(num(D1_1), 11real / 10real),
        means(num(D1_15), 23real / 20real),
        means(num(D1_18), 59real / 50real),
        means(num(D1_2), 6real / 5real),
        means(num(D1_24), 31real / 25real),
        means(num(D1_25), 5real / 4real),
        means(num(D1_3), 13real / 10real),
        means(num(D1_32), 33real / 25real),
        means(num(D1_35), 27real / 20real),
        means(num(D1_4), 7real / 5real),
        means(num(D1_45), 29real / 20real),
        means(num(D1_5), 3real / 2real),
        means(num(D1_55), 31real / 20real),
        means(num(D1_6), 8real / 5real),
        means(num(D1_65), 33real / 20real),
        means(num(D1_75), 7real / 4real),
        means(num(D1_8), 9real / 5real),
        means(num(D1_85), 37real / 20real),
        means(num(D1_96), 49real / 25real),
        means(num(D2), 2real),
        means(num(D2_1), 21real / 10real),
        means(num(D2_2), 11real / 5real),
        means(num(D2_25), 9real / 4real),
        means(num(D2_4), 12real / 5real),
        means(num(D2_5), 5real / 2real),
        means(num(D2_75), 11real / 4real),
        means(num(D3), 3real),
        means(num(D3_2), 16real / 5real),
        means(num(D3_25), 13real / 4real),
        means(num(D3_4), 17real / 5real),
        means(num(D3_5), 7real / 2real),
        means(num(D3_8), 19real / 5real),
        means(num(D4), 4real),
        means(num(D4_2), 21real / 5real),
        means(num(D4_5), 9real / 2real),
        means(num(D4_8), 24real / 5real),
        means(num(D5), 5real),
        means(num(D5_5), 11real / 2real),
        means(num(D6), 6real),
        means(num(D7), 7real),
        means(num(D7_5), 15real / 2real),
        means(num(D8), 8real),
        means(num(D9), 9real),
        means(num(D10), 10real),
        means(num(D11), 11real),
        means(num(D12), 12real),
        means(num(D14), 14real),
        means(num(D15), 15real),
        means(num(D16), 16real),
        means(num(D18), 18real),
        means(num(D20), 20real),
        means(num(D22), 22real),
        means(num(D23), 23real),
        means(num(D24), 24real),
        means(num(D25), 25real),
        means(num(D27), 27real),
        means(num(D28), 28real),
        means(num(D29), 29real),
        means(num(D30), 30real),
        means(num(D32), 32real),
        means(num(D33_3), 333real / 10real),
        means(num(D35), 35real),
        means(num(D36), 36real),
        means(num(D40), 40real),
        means(num(D42), 42real),
        means(num(D45), 45real),
        means(num(D48), 48real),
        means(num(D54), 54real),
        means(num(D55), 55real),
        means(num(D56), 56real),
        means(num(D60), 60real),
        means(num(D70), 70real),
        means(num(D72), 72real),
        means(num(D80), 80real),
        means(num(D96), 96real),
        means(num(D100), 100real),
        means(num(D110), 110real),
        means(num(D120), 120real),
        means(num(D140), 140real),
        means(num(D160), 160real),
        means(num(D200), 200real),
        means(num(D220), 220real),
        means(num(D240), 240real),
        means(num(D250), 250real),
        means(num(D400), 400real),
        means(num(D500), 500real),
        means(num(D1000), 1000real),
        means(num(D1500), 1500real),
        means(num(D30000), 30000real),
{
    decimals_are_nearest();
}

/// Every decimal constant is the number nearest to the decimal that it is named for.
pub proof fn decimals_are_nearest()
    ensures
        is_nearest(DM1000000000, -1000000000, 1),
        is_nearest(DM500000000, -500000000, 1),
        is_nearest(DM1000, -1000, 1),
        is_nearest(DM30, -30, 1),
        is_nearest(DM20, -20, 1),
        is_nearest(DM10, -10, 1),
        is_nearest(DM4, -4, 1),
        is_nearest(DM2, -2, 1),
        is_nearest(DM1_5, -3, 2),
        is_nearest(DM1, -1, 1),
        is_nearest(DM0_2, -1, 5),
        is_nearest(DM0_18, -9, 50),
        is_nearest(DM0_15, -3, 20),
        is_nearest(D0, 0, 1),
        is_nearest(D1EM30, 1, 1000000000000000000000000000000),
        is_nearest(D1EM12, 1, 1000000000000),
        is_nearest(D1EM09, 1, 1000000000),
        is_nearest(D1EM06, 1, 1000000),
        is_nearest(D0_001, 1, 1000),
        is_nearest(D0_002, 1, 500),
        is_nearest(D0_006, 3, 500),
        is_nearest(D0_008, 1, 125),
        is_nearest(D0_01, 1, 100),
        is_nearest(D0_012, 3, 250),
        is_nearest(D0_02, 1, 50),
        is_nearest(D0_025, 1, 40),
        is_nearest(D0_03, 3, 100),
        is_nearest(D0_033, 33, 1000),
        is_nearest(D0_04, 1, 25),
        is_nearest(D0_05, 1, 20),
        is_nearest(D0_055, 11, 200),
        is_nearest(D0_06, 3, 50),
        is_nearest(D0_08, 2, 25),
        is_nearest(D0_09, 9, 100),
        is_nearest(D0_1, 1, 10),
        is_nearest(D0_11, 11, 100),
        is_nearest(D0_12, 3, 25),
        is_nearest(D0_13, 13, 100),
        is_nearest(D0_14, 7, 50),
        is_nearest(D0_15, 3, 20),
        is_nearest(D0_16, 4, 25),
        is_nearest(D0_17, 17, 100),
        is_nearest(D0_18, 9, 50),
        is_nearest(D0_2, 1, 5),
        is_nearest(D0_22, 11, 50),
        is_nearest(D0_24, 6, 25),
        is_nearest(D0_25, 1, 4),
        is_nearest(D0_26, 13, 50),
        is_nearest(D0_27, 27, 100),
        is_nearest(D0_28, 7, 25),
        is_nearest(D0_3, 3, 10),
        is_nearest(D0_32, 8, 25),
        is_nearest(D0_33, 33, 100),
        is_nearest(D0_34, 17, 50),
        is_nearest(D0_35, 7, 20),
        is_nearest(D0_36, 9, 25),
        is_nearest(D0_38, 19, 50),
        is_nearest(D0_4, 2, 5),
        is_nearest(D0_42, 21, 50),
        is_nearest(D0_44, 11, 25),
        is_nearest(D0_45, 9, 20),
        is_nearest(D0_46, 23, 50),
        is_nearest(D0_48, 12, 25),
        is_nearest(D0_5, 1, 2),
        is_nearest(D0_52, 13, 25),
        is_nearest(D0_55, 11, 20),
        is_nearest(D0_56, 14, 25),
        is_nearest(D0_57, 57, 100),
        is_nearest(D0_58, 29, 50),
        is_nearest(D0_6, 3, 5),
        is_nearest(D0_62, 31, 50),
        is_nearest(D0_64, 16, 25),
        is_nearest(D0_65, 13, 20),
        is_nearest(D0_66, 33, 50),
        is_nearest(D0_67, 67, 100),
        is_nearest(D0_68, 17, 25),
        is_nearest(D0_7, 7, 10),
        is_nearest(D0_72, 18, 25),
        is_nearest(D0_75, 3, 4),
        is_nearest(D0_76, 19, 25),
        is_nearest(D0_78, 39, 50),
        is_nearest(D0_8, 4, 5),
        is_nearest(D0_82, 41, 50),
        is_nearest(D0_85, 17, 20),
        is_nearest(D0_86, 43, 50),
        is_nearest(D0_88, 22, 25),
        is_nearest(D0_9, 9, 10),
        is_nearest(D0_92, 23, 25),
        is_nearest(D0_95, 19, 20),
        is_nearest(D0_96, 24, 25),
        is_nearest(D0_98, 49, 50),
        is_nearest(D1, 1, 1),
        is_nearest(D1_04, 26, 25),
        is_nearest(D1_05, 21, 20),
        is_nearest(D1_1, 11, 10),
        is_nearest(D1_15, 23, 20),
        is_nearest(D1_18, 59, 50),
        is_nearest(D1_2, 6, 5),
        is_nearest(D1_24, 31, 25),
        is_nearest(D1_25, 5, 4),
        is_nearest(D1_3, 13, 10),
        is_nearest(D1_32, 33, 25),
        is_nearest(D1_35, 27, 20),
        is_nearest(D1_4, 7, 5),
        is_nearest(D1_45, 29, 20),
        is_nearest(D1_5, 3, 2),
        is_nearest(D1_55, 31, 20),
        is_nearest(D1_6, 8, 5),
        is_nearest(D1_65, 33, 20),
        is_nearest(D1_75, 7, 4),
        is_nearest(D1_8, 9, 5),
        is_nearest(D1_85, 37, 20),
        is_nearest(D1_96, 49, 25),
        is_nearest(D2, 2, 1),
        is_nearest(D2_1, 21, 10),
        is_nearest(D2_2, 11, 5),
        is_nearest(D2_25, 9, 4),
        is_nearest(D2_4, 12, 5),
        is_nearest(D2_5, 5, 2),
        is_nearest(D2_75, 11, 4),
        is_nearest(D3, 3, 1),
        is_nearest(D3_2, 16, 5),
        is_nearest(D3_25, 13, 4),
        is_nearest(D3_4, 17, 5),
        is_nearest(D3_5, 7, 2),
        is_nearest(D3_8, 19, 5),
        is_nearest(D4, 4, 1),
        is_nearest(D4_2, 21, 5),
        is_nearest(D4_5, 9, 2),
        is_nearest(D4_8, 24, 5),
        is_nearest(D5, 5, 1),
        is_nearest(D5_5, 11, 2),
        is_nearest(D6, 6, 1),
        is_nearest(D7, 7, 1),
        is_nearest(D7_5, 15, 2),
        is_nearest(D8, 8, 1),
        is_nearest(D9, 9, 1),
        is_nearest(D10, 10, 1),
        is_nearest(D11, 11, 1),
        is_nearest(D12, 12, 1),
        is_nearest(D14, 14, 1),
        is_nearest(D15, 15, 1),
        is_nearest(D16, 16, 1),
        is_nearest(D18, 18, 1),
        is_nearest(D20, 20, 1),
        is_nearest(D22, 22, 1),
        is_nearest(D23, 23, 1),
        is_nearest(D24, 24, 1),
        is_nearest(D25, 25, 1),
        is_nearest(D27, 27, 1),
        is_nearest(D28, 28, 1),
        is_nearest(D29, 29, 1),
        is_nearest(D30, 30, 1),
        is_nearest(D32, 32, 1),
        is_nearest(D33_3, 333, 10),
        is_nearest(D35, 35, 1),
        is_nearest(D36, 36, 1),
        is_nearest(D40, 40, 1),
        is_nearest(D42, 42, 1),
        is_nearest(D45, 45, 1),
        is_nearest(D48, 48, 1),
        is_nearest(D54, 54, 1),
        is_nearest(D55, 55, 1),
        is_nearest(D56, 56, 1),
        is_nearest(D60, 60, 1),
        is_nearest(D70, 70, 1),
        is_nearest(D72, 72, 1),
        is_nearest(D80, 80, 1),
        is_nearest(D96, 96, 1),
        is_nearest(D100, 100, 1),
        is_nearest(D110, 110, 1),
        is_nearest(D120, 120, 1),
        is_nearest(D140, 140, 1),
        is_nearest(D160, 160, 1),
        is_nearest(D200, 200, 1),
        is_nearest(D220, 220, 1),
        is_nearest(D240, 240, 1),
        is_nearest(D250, 250, 1),
        is_nearest(D400, 400, 1),
        is_nearest(D500, 500, 1),
        is_nearest(D1000, 1000, 1),
        is_nearest(D1500, 1500, 1),
        is_nearest(D30000, 30000, 1),
{
    lemma2_to64();
    lemma2_to64_rest();
    lemma_pow2_adds(64, 8);
    lemma_pow2_adds(64, 18);
    lemma_pow2_adds(64, 28);
    lemma_pow2_adds(64, 64);
    lemma_pow2_adds(128, 24);
}

} // verus!
