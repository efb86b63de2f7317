//! Exact decimal numbers in the representation of `rust_decimal`: a signed
//! 96-bit mantissa and a power-of-ten scale between 0 and 28.

use vstd::prelude::*;
use vstd::arithmetic::power::pow;

verus! {

/// The largest mantissa magnitude that a decimal holds (96 bits).
pub const MAX_MANTISSA: i128 = 0xFFFF_FFFF_FFFF_FFFF_FFFF_FFFF_i128;

/// The largest scale that a decimal holds.
pub const MAX_SCALE: u32 = 28u32;

/// Three-way result of comparing two values.
#[derive(Clone, Copy, Debug, PartialEq, Eq, Structural)]
pub enum Comparison {
    Less,
    Equal,
    Greater,
}

/// `10` raised to `e`.
pub open spec fn pow10(e: u32) -> int {
    pow(10, e as nat)
}

/// Whether a mantissa and a scale make a representable decimal.
pub open spec fn parts_in_range(mantissa: i128, scale: u32) -> bool {
    &&& scale <= MAX_SCALE
    &&& -MAX_MANTISSA <= mantissa <= MAX_MANTISSA
}

/// The order of the exact values `am / 10^asc` and `bm / 10^bsc`, decided by
/// cross-multiplying with the positive powers of ten.
pub open spec fn compare_parts(am: i128, asc: u32, bm: i128, bsc: u32) -> Comparison {
    let lhs = am * pow10(bsc);
    let rhs = bm * pow10(asc);
    if lhs < rhs {
        Comparison::Less
    } else if lhs == rhs {
        Comparison::Equal
    } else {
        Comparison::Greater
    }
}

/// Cross-multiplied comparisons chain: from `x/px < y/py` and `y/py < z/pz`
/// follows `x/px < z/pz`, with equalities allowed on either link.
proof fn lemma_cross_chain(x: int, y: int, z: int, px: int, py: int, pz: int)
    requires
        px > 0,
        py > 0,
        pz > 0,
    ensures
        x * py < y * px && y * pz < z * py ==> x * pz < z * px,
        x * py == y * px && y * pz < z * py ==> x * pz < z * px,
        x * py < y * px && y * pz == z * py ==> x * pz < z * px,
        x * py == y * px && y * pz == z * py ==> x * pz == z * px,
{
    assert(x * py < y * px && y * pz < z * py ==> x * pz < z * px) by (nonlinear_arith)
        requires px > 0, py > 0, pz > 0;
    assert(x * py == y * px && y * pz < z * py ==> x * pz < z * px) by (nonlinear_arith)
        requires px > 0, py > 0, pz > 0;
    assert(x * py < y * px && y * pz == z * py ==> x * pz < z * px) by (nonlinear_arith)
        requires px > 0, py > 0, pz > 0;
    assert(x * py == y * px && y * pz == z * py ==> x * pz == z * px) by (nonlinear_arith)
        requires px > 0, py > 0, pz > 0;
}

/// Every power of ten is positive.
proof fn lemma_pow10_positive(e: u32)
    ensures
        pow10(e) > 0,
{
    vstd::arithmetic::power::lemma_pow_positive(10, e as nat);
}

/// The value order of decimals is a strict total order, and value equality is
/// an equivalence compatible with it.
pub proof fn lemma_order_laws(a: Decimal, b: Decimal, c: Decimal)
    ensures
        a.value_eq(a),
        a.value_eq(b) ==> b.value_eq(a),
        a.value_lt(b) <==> b.order(a) == Comparison::Greater,
        a.value_lt(b) || a.value_eq(b) || b.value_lt(a),
        !(a.value_lt(b) && b.value_lt(a)),
        !(a.value_lt(b) && a.value_eq(b)),
        a.value_lt(b) && b.value_lt(c) ==> a.value_lt(c),
        a.value_eq(b) && b.value_lt(c) ==> a.value_lt(c),
        a.value_lt(b) && b.value_eq(c) ==> a.value_lt(c),
        a.value_eq(b) && b.value_eq(c) ==> a.value_eq(c),
{
    lemma_pow10_positive(a.exponent());
    lemma_pow10_positive(b.exponent());
    lemma_pow10_positive(c.exponent());
    lemma_cross_chain(
        a.units() as int,
        b.units() as int,
        c.units() as int,
        pow10(a.exponent()),
        pow10(b.exponent()),
        pow10(c.exponent()),
    );
}

/// `rust_decimal::Decimal::cmp` on the decimals built by
/// `rust_decimal::Decimal::from_i128_with_scale` from the given parts.
/// The contract claims that the comparison is the one of the exact values
/// `mantissa / 10^scale`, as `rust_decimal` documents for `Ord`.
#[verifier::external_body]
fn decimal_compare(a_mantissa: i128, a_scale: u32, b_mantissa: i128, b_scale: u32) -> (r: Comparison)
    requires
        parts_in_range(a_mantissa, a_scale),
        parts_in_range(b_mantissa, b_scale),
    ensures
        r == compare_parts(a_mantissa, a_scale, b_mantissa, b_scale),
{
    let a = rust_decimal::Decimal::from_i128_with_scale(a_mantissa, a_scale);
    let b = rust_decimal::Decimal::from_i128_with_scale(b_mantissa, b_scale);
    match a.cmp(&b) {
        core::cmp::Ordering::Less => Comparison::Less,
        core::cmp::Ordering::Equal => Comparison::Equal,
        core::cmp::Ordering::Greater => Comparison::Greater,
    }
}

/// An exact decimal number `mantissa / 10^scale`.
#[derive(Clone, Copy, Debug)]
pub struct Decimal {
    mantissa: i128,
    scale: u32,
}

impl Decimal {
    #[verifier::type_invariant]
    spec fn representable(self) -> bool {
        parts_in_range(self.mantissa, self.scale)
    }

    /// The mantissa of the decimal.
    pub closed spec fn units(self) -> i128 {
        self.mantissa
    }

    /// The scale of the decimal: the value is `units / 10^exponent`.
    pub closed spec fn exponent(self) -> u32 {
        self.scale
    }

    /// The order of the exact values of two decimals.
    pub open spec fn order(self, other: Decimal) -> Comparison {
        compare_parts(self.units(), self.exponent(), other.units(), other.exponent())
    }

    /// Whether the value of `self` is strictly below the value of `other`.
    pub open spec fn value_lt(self, other: Decimal) -> bool {
        self.order(other) == Comparison::Less
    }

    /// Whether the two decimals denote the same number (`1.0` and `1.00` do).
    pub open spec fn value_eq(self, other: Decimal) -> bool {
        self.order(other) == Comparison::Equal
    }

    /// The decimal `mantissa / 10^scale`, or `None` when the mantissa does not
    /// fit in 96 bits or the scale exceeds 28.
    pub fn from_parts(mantissa: i128, scale: u32) -> (r: Option<Decimal>)
        ensures
            r is Some <==> parts_in_range(mantissa, scale),
            r matches Some(d) ==> d.units() == mantissa && d.exponent() == scale,
    {
        if scale <= MAX_SCALE && -MAX_MANTISSA <= mantissa && mantissa <= MAX_MANTISSA {
            Some(Decimal { mantissa, scale })
        } else {
            None
        }
    }

    /// The mantissa.
    pub fn mantissa(&self) -> (m: i128)
        ensures
            m == self.units(),
    {
        self.mantissa
    }

    /// The scale.
    pub fn scale(&self) -> (s: u32)
        ensures
            s == self.exponent(),
    {
        self.scale
    }

    /// Compares the exact values of two decimals.
    pub fn compare(&self, other: &Decimal) -> (r: Comparison)
        ensures
            r == self.order(*other),
    {
        proof {
            use_type_invariant(self);
            use_type_invariant(other);
        }
        decimal_compare(self.mantissa, self.scale, other.mantissa, other.scale)
    }
}

} // verus!
