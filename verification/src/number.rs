//! Binary64 numbers held by their bit pattern.
//!
//! Knobs, scores and solver values are compared, clamped and carried here without any
//! arithmetic on them: the place of a number on the number line is an integer read off
//! its bit pattern.
use vstd::prelude::*;

verus! {

/// Bit pattern of positive infinity: the smallest magnitude that is not finite.
pub const INFINITY_BITS: u64 = 0x7FF0_0000_0000_0000;

/// Weight of the sign bit.
pub const SIGN_BIT: u64 = 0x8000_0000_0000_0000;

/// Bit pattern of `1.0`.
pub const ONE_BITS: u64 = 0x3FF0_0000_0000_0000;

/// Bit pattern of `-1.0`.
pub const MINUS_ONE_BITS: u64 = 0xBFF0_0000_0000_0000;

/// Bit pattern of a quiet NaN.
pub const NAN_BITS: u64 = 0x7FF8_0000_0000_0000;

/// A binary64 number, held by its bit pattern. `==` compares bit patterns.
#[derive(Clone, Copy, Debug, PartialEq, Eq, Structural)]
pub struct Real64 {
    pub bits: u64,
}

impl Real64 {
    /// The bit pattern without its sign.
    pub open spec fn magnitude(self) -> int {
        if self.bits >= SIGN_BIT {
            self.bits - SIGN_BIT
        } else {
            self.bits as int
        }
    }

    /// Neither infinite nor NaN.
    pub open spec fn finite(self) -> bool {
        self.magnitude() < INFINITY_BITS
    }

    /// Not a number.
    pub open spec fn nan(self) -> bool {
        self.magnitude() > INFINITY_BITS
    }

    /// The number's place on the number line: of two numbers that are not NaN the smaller
    /// one has the smaller key, and both zeros have key 0.
    pub open spec fn key(self) -> int {
        if self.bits >= SIGN_BIT {
            -self.magnitude()
        } else {
            self.magnitude()
        }
    }

    /// `self < other` as binary64 compares: false where either is NaN.
    pub open spec fn less(self, other: Real64) -> bool {
        !self.nan() && !other.nan() && self.key() < other.key()
    }

    /// The number with its sign turned.
    pub open spec fn negated(self) -> Real64 {
        if self.bits >= SIGN_BIT {
            Real64 { bits: (self.bits - SIGN_BIT) as u64 }
        } else {
            Real64 { bits: (self.bits + SIGN_BIT) as u64 }
        }
    }

    /// 1 with the number's sign, also for the zeros; NaN stays.
    pub open spec fn sign(self) -> Real64 {
        if self.nan() {
            self
        } else if self.bits >= SIGN_BIT {
            Real64 { bits: MINUS_ONE_BITS }
        } else {
            Real64 { bits: ONE_BITS }
        }
    }

    /// The number without its sign.
    pub open spec fn absolute(self) -> Real64 {
        if self.bits >= SIGN_BIT {
            self.negated()
        } else {
            self
        }
    }

    /// The number where it is finite, else zero.
    pub open spec fn finite_or_zero_value(self) -> Real64 {
        if self.finite() {
            self
        } else {
            Real64 { bits: 0 }
        }
    }

    pub fn from_bits(bits: u64) -> (r: Real64)
        ensures
            r.bits == bits,
    {
        Real64 { bits }
    }

    pub fn zero() -> (r: Real64)
        ensures
            r.bits == 0,
    {
        Real64 { bits: 0 }
    }

    pub fn to_bits(self) -> (bits: u64)
        ensures
            bits == self.bits,
    {
        self.bits
    }

    fn unsigned_bits(self) -> (m: u64)
        ensures
            m == self.magnitude(),
            m < SIGN_BIT,
    {
        if self.bits >= SIGN_BIT {
            self.bits - SIGN_BIT
        } else {
            self.bits
        }
    }

    pub fn is_finite(self) -> (b: bool)
        ensures
            b == self.finite(),
    {
        self.unsigned_bits() < INFINITY_BITS
    }

    pub fn is_nan(self) -> (b: bool)
        ensures
            b == self.nan(),
    {
        self.unsigned_bits() > INFINITY_BITS
    }

    pub fn order_key(self) -> (k: i64)
        ensures
            k == self.key(),
    {
        let m: i64 = self.unsigned_bits() as i64;
        if self.bits >= SIGN_BIT {
            -m
        } else {
            m
        }
    }

    /// `self < other`, false where either is NaN.
    pub fn is_below(self, other: Real64) -> (b: bool)
        ensures
            b == self.less(other),
    {
        !self.is_nan() && !other.is_nan() && self.order_key() < other.order_key()
    }

    pub fn negate(self) -> (r: Real64)
        ensures
            r == self.negated(),
    {
        if self.bits >= SIGN_BIT {
            Real64 { bits: self.bits - SIGN_BIT }
        } else {
            Real64 { bits: self.bits + SIGN_BIT }
        }
    }

    pub fn abs(self) -> (r: Real64)
        ensures
            r == self.absolute(),
    {
        if self.bits >= SIGN_BIT {
            self.negate()
        } else {
            self
        }
    }

    pub fn signum(self) -> (r: Real64)
        ensures
            r == self.sign(),
    {
        if self.is_nan() {
            self
        } else if self.bits >= SIGN_BIT {
            Real64 { bits: MINUS_ONE_BITS }
        } else {
            Real64 { bits: ONE_BITS }
        }
    }

    pub fn finite_or_zero(self) -> (r: Real64)
        ensures
            r == self.finite_or_zero_value(),
    {
        if self.is_finite() {
            self
        } else {
            Real64 { bits: 0 }
        }
    }
}

/// The number with a bit pattern.
pub open spec fn num(bits: u64) -> Real64 {
    Real64 { bits }
}

/// Builds the number with a bit pattern.
pub fn at_bits(bits: u64) -> (r: Real64)
    ensures
        r == num(bits),
{
    Real64 { bits }
}

/// What an operation gives for two numbers.
pub open spec fn outcome<F: Fn(Real64, Real64) -> Real64>(f: F, a: Real64, b: Real64) -> Real64 {
    choose|r: Real64| call_ensures(f, (a, b), r)
}

/// The operation takes all numbers and depends on nothing else.
pub open spec fn is_operation<F: Fn(Real64, Real64) -> Real64>(f: F) -> bool {
    &&& forall|a: Real64, b: Real64| #[trigger] call_requires(f, (a, b))
    &&& forall|a: Real64, b: Real64, r: Real64| #[trigger]
        call_ensures(f, (a, b), r) ==> r == outcome(f, a, b)
}

/// Applies an operation.
pub fn apply<F: Fn(Real64, Real64) -> Real64>(f: &F, a: Real64, b: Real64) -> (r: Real64)
    requires
        is_operation(*f),
    ensures
        r == outcome(*f, a, b),
{
    let r: Real64 = f(a, b);
    assert(call_ensures(*f, (a, b), r));
    r
}

/// What a function of one number gives.
pub open spec fn image<F: Fn(Real64) -> Real64>(f: F, a: Real64) -> Real64 {
    choose|r: Real64| call_ensures(f, (a,), r)
}

/// The function takes all numbers and depends on nothing else.
pub open spec fn is_function<F: Fn(Real64) -> Real64>(f: F) -> bool {
    &&& forall|a: Real64| #[trigger] call_requires(f, (a,))
    &&& forall|a: Real64, r: Real64| #[trigger] call_ensures(f, (a,), r) ==> r == image(f, a)
}

/// Applies a function of one number.
pub fn map_number<F: Fn(Real64) -> Real64>(f: &F, a: Real64) -> (r: Real64)
    requires
        is_function(*f),
    ensures
        r == image(*f, a),
{
    let r: Real64 = f(a);
    assert(call_ensures(*f, (a,), r));
    r
}

/// A count as a number.
pub open spec fn number_of<C: Fn(usize) -> Real64>(count: C, n: usize) -> Real64 {
    choose|r: Real64| call_ensures(count, (n,), r)
}

/// The conversion takes all counts and depends on nothing else.
pub open spec fn is_conversion<C: Fn(usize) -> Real64>(count: C) -> bool {
    &&& forall|n: usize| #[trigger] call_requires(count, (n,))
    &&& forall|n: usize, r: Real64| #[trigger]
        call_ensures(count, (n,), r) ==> r == number_of(count, n)
}

/// Converts a count.
pub fn to_number<C: Fn(usize) -> Real64>(count: &C, n: usize) -> (r: Real64)
    requires
        is_conversion(*count),
    ensures
        r == number_of(*count, n),
{
    let r: Real64 = count(n);
    assert(call_ensures(*count, (n,), r));
    r
}

/// A whole number as a number.
pub open spec fn signed_number<W: Fn(i64) -> Real64>(signed: W, n: i64) -> Real64 {
    choose|r: Real64| call_ensures(signed, (n,), r)
}

/// The conversion takes all whole numbers and depends on nothing else.
pub open spec fn is_signed_conversion<W: Fn(i64) -> Real64>(signed: W) -> bool {
    &&& forall|n: i64| #[trigger] call_requires(signed, (n,))
    &&& forall|n: i64, r: Real64| #[trigger]
        call_ensures(signed, (n,), r) ==> r == signed_number(signed, n)
}

pub fn to_signed_number<W: Fn(i64) -> Real64>(signed: &W, n: i64) -> (r: Real64)
    requires
        is_signed_conversion(*signed),
    ensures
        r == signed_number(*signed, n),
{
    let r: Real64 = signed(n);
    assert(call_ensures(*signed, (n,), r));
    r
}

/// The count that a number is taken as.
pub open spec fn steps_of<W: Fn(Real64) -> usize>(whole: W, x: Real64) -> usize {
    choose|n: usize| call_ensures(whole, (x,), n)
}

/// The counting takes all numbers and depends on nothing else.
pub open spec fn is_counting<W: Fn(Real64) -> usize>(whole: W) -> bool {
    &&& forall|x: Real64| #[trigger] call_requires(whole, (x,))
    &&& forall|x: Real64, n: usize| #[trigger]
        call_ensures(whole, (x,), n) ==> n == steps_of(whole, x)
}

/// The number, or the bound that it lies beyond; NaN stays.
pub open spec fn clamped_to(v: Real64, low: Real64, high: Real64) -> Real64 {
    if v.less(low) {
        low
    } else if high.less(v) {
        high
    } else {
        v
    }
}

/// Keeps a number between two bounds.
pub fn clamp_to(v: Real64, low: Real64, high: Real64) -> (r: Real64)
    ensures
        r == clamped_to(v, low, high),
{
    if v.is_below(low) {
        low
    } else if high.is_below(v) {
        high
    } else {
        v
    }
}

/// The greater of two numbers, or the one that is not NaN.
pub open spec fn larger(a: Real64, b: Real64) -> Real64 {
    if a.nan() {
        b
    } else if a.less(b) {
        b
    } else {
        a
    }
}

/// Finds the greater of two numbers.
pub fn larger_of(a: Real64, b: Real64) -> (r: Real64)
    ensures
        r == larger(a, b),
{
    if a.is_nan() || a.is_below(b) {
        b
    } else {
        a
    }
}

/// The lesser of two numbers, or the one that is not NaN.
pub open spec fn smaller(a: Real64, b: Real64) -> Real64 {
    if a.nan() {
        b
    } else if b.less(a) {
        b
    } else {
        a
    }
}

/// Finds the lesser of two numbers.
pub fn smaller_of(a: Real64, b: Real64) -> (r: Real64)
    ensures
        r == smaller(a, b),
{
    if a.is_nan() || b.is_below(a) {
        b
    } else {
        a
    }
}

/// The sum of the first `n` numbers.
pub open spec fn sum_up<P: Fn(Real64, Real64) -> Real64>(plus: P, s: Seq<Real64>, n: int) -> Real64
    decreases n,
{
    if n <= 0 {
        num(0)
    } else {
        outcome(plus, sum_up(plus, s, n - 1), s[n - 1])
    }
}

/// Adds numbers up, from the first on.
pub fn add_up<P: Fn(Real64, Real64) -> Real64>(s: &Vec<Real64>, plus: &P) -> (r: Real64)
    requires
        is_operation(*plus),
    ensures
        r == sum_up(*plus, s@, s@.len() as int),
{
    let mut r: Real64 = at_bits(0);
    let mut i: usize = 0;
    while i < s.len()
        invariant
            i <= s@.len(),
            is_operation(*plus),
            r == sum_up(*plus, s@, i as int),
        decreases s@.len() - i,
    {
        r = apply(plus, r, s[i]);
        i += 1;
    }
    r
}

/// The squares of the distances of numbers from a point.
pub open spec fn squares_from<P: Fn(Real64, Real64) -> Real64, M: Fn(Real64, Real64) -> Real64>(
    plus: P,
    times: M,
    s: Seq<Real64>,
    mean: Real64,
) -> Seq<Real64> {
    s.map_values(
        |v: Real64|
            outcome(
                times,
                outcome(plus, v, mean.negated()),
                outcome(plus, v, mean.negated()),
            ),
    )
}

/// Squares the distances of numbers from a point.
pub fn square_off<P: Fn(Real64, Real64) -> Real64, M: Fn(Real64, Real64) -> Real64>(
    s: &Vec<Real64>,
    mean: Real64,
    plus: &P,
    times: &M,
) -> (squares: Vec<Real64>)
    requires
        is_operation(*plus),
        is_operation(*times),
    ensures
        squares@ == squares_from(*plus, *times, s@, mean),
{
    let mut squares: Vec<Real64> = Vec::new();
    let mut i: usize = 0;
    while i < s.len()
        invariant
            i <= s@.len(),
            is_operation(*plus),
            is_operation(*times),
            squares@ == squares_from(*plus, *times, s@, mean).take(i as int),
        decreases s@.len() - i,
    {
        let off: Real64 = apply(plus, s[i], mean.negate());
        squares.push(apply(times, off, off));
        i += 1;
        assert(squares@ =~= squares_from(*plus, *times, s@, mean).take(i as int));
    }
    assert(squares@ =~= squares_from(*plus, *times, s@, mean));
    squares
}

/// A number between its bounds stays, and no number other than NaN is left beyond them.
pub proof fn clamping_bounds(v: Real64, low: Real64, high: Real64)
    requires
        !v.nan(),
        !low.nan(),
        !high.nan(),
        low.key() <= high.key(),
    ensures
        low.key() <= clamped_to(v, low, high).key() <= high.key(),
        low.key() <= v.key() <= high.key() ==> clamped_to(v, low, high) == v,
{
}

/// Turning the sign twice gives the number back, and mirrors its place on the number line.
pub proof fn negation_mirrors(r: Real64)
    ensures
        r.negated().negated() == r,
        r.negated().key() == -r.key(),
        r.negated().finite() == r.finite(),
{
}

/// Of two numbers that are not NaN exactly one of less, equal place, greater holds.
pub proof fn order_is_total(a: Real64, b: Real64)
    requires
        !a.nan(),
        !b.nan(),
    ensures
        a.less(b) || b.less(a) || a.key() == b.key(),
        !(a.less(b) && b.less(a)),
        a.less(b) ==> a.key() != b.key(),
{
}

} // verus!
