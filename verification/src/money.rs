//! Exact decimal amounts: a signed 96-bit mantissa and a scale of at most 28
//! decimal places, the value set of `rust_decimal::Decimal`.

use rust_decimal::Decimal;
use vstd::prelude::*;

verus! {

/// The largest number of decimal places an amount can carry.
pub const MAX_SCALE: u32 = 28;

/// Mantissas lie strictly between `-MANTISSA_LIMIT` and `MANTISSA_LIMIT` (2^96).
pub const MANTISSA_LIMIT: i128 = 79228162514264337593543950336;

/// Ten to the power `k`.
pub open spec fn pow10(k: nat) -> int
    decreases k,
{
    if k == 0 {
        1
    } else {
        10 * pow10((k - 1) as nat)
    }
}

/// Whether `m` is a mantissa that 96 bits and a sign can hold.
pub open spec fn fits96(m: int) -> bool {
    -MANTISSA_LIMIT < m && m < MANTISSA_LIMIT
}

/// Whether mantissa and scale together denote a representable amount.
pub open spec fn representable(mantissa: int, scale: int) -> bool {
    fits96(mantissa) && 0 <= scale && scale <= MAX_SCALE
}

/// The amount `mantissa / 10^scale`, counted in units of `10^-28`.
pub open spec fn units(mantissa: int, scale: int) -> int {
    mantissa * pow10((MAX_SCALE - scale) as nat)
}

/// The mantissa that `mantissa / 10^scale` has when written with `target`
/// decimal places, `target` being at least `scale`.
pub open spec fn aligned(mantissa: int, scale: int, target: int) -> int {
    mantissa * pow10((target - scale) as nat)
}

/// The larger of two scales.
pub open spec fn wider(a: int, b: int) -> int {
    if a >= b {
        a
    } else {
        b
    }
}

/// Whether both operands, written with the larger of their two scales, still
/// have 96-bit mantissas.
pub open spec fn alignable(am: int, asc: int, bm: int, bsc: int) -> bool {
    let t = wider(asc, bsc);
    fits96(aligned(am, asc, t)) && fits96(aligned(bm, bsc, t))
}

/// Whether the sum is representable with the larger of the two scales.
pub open spec fn sum_representable(am: int, asc: int, bm: int, bsc: int) -> bool {
    let t = wider(asc, bsc);
    alignable(am, asc, bm, bsc) && fits96(aligned(am, asc, t) + aligned(bm, bsc, t))
}

/// Whether the difference is representable with the larger of the two scales.
pub open spec fn difference_representable(am: int, asc: int, bm: int, bsc: int) -> bool {
    let t = wider(asc, bsc);
    alignable(am, asc, bm, bsc) && fits96(aligned(am, asc, t) - aligned(bm, bsc, t))
}

/// Whether an outcome of decimal arithmetic is present and denotes `total`
/// units.
pub open spec fn denotes(outcome: Option<(i128, u32)>, total: int) -> bool {
    outcome matches Some(v) && units(v.0 as int, v.1 as int) == total
}

/// `pow10` grows with its exponent.
pub proof fn lemma_pow10_monotone(i: nat, j: nat)
    requires
        i <= j,
    ensures
        1 <= pow10(i) <= pow10(j),
    decreases j,
{
    if i == 0 && j == 0 {
    } else if i == j {
        lemma_pow10_monotone((i - 1) as nat, (j - 1) as nat);
    } else {
        lemma_pow10_monotone(i, (j - 1) as nat);
    }
}

/// The value of the largest power of ten in use.
pub proof fn lemma_pow10_max()
    ensures
        pow10(28) == 10000000000000000000000000000,
{
    reveal_with_fuel(pow10, 29);
}

/// Builds both operands with `Decimal::from_i128_with_scale` and compares them
/// with `Decimal`'s `<`, which orders decimals by numeric value whatever their
/// scales are.
#[verifier::external_body]
fn decimal_less(am: i128, asc: u32, bm: i128, bsc: u32) -> (r: bool)
    requires
        representable(am as int, asc as int),
        representable(bm as int, bsc as int),
    ensures
        r == (units(am as int, asc as int) < units(bm as int, bsc as int)),
{
    Decimal::from_i128_with_scale(am, asc) < Decimal::from_i128_with_scale(bm, bsc)
}

/// `Decimal::checked_add` on operands built with
/// `Decimal::from_i128_with_scale`, handed back as `mantissa()` and `scale()`.
/// Whatever comes back is a representable amount. Where both operands can be
/// written with the larger scale and their sum still has a 96-bit mantissa,
/// the call succeeds and the result is the exact sum; outside that range the
/// crate may round or report overflow, and nothing is claimed.
#[verifier::external_body]
fn decimal_checked_add(am: i128, asc: u32, bm: i128, bsc: u32) -> (r: Option<(i128, u32)>)
    requires
        representable(am as int, asc as int),
        representable(bm as int, bsc as int),
    ensures
        r matches Some(v) ==> representable(v.0 as int, v.1 as int),
        sum_representable(am as int, asc as int, bm as int, bsc as int) ==> denotes(
            r,
            units(am as int, asc as int) + units(bm as int, bsc as int),
        ),
{
    let sum = Decimal::from_i128_with_scale(am, asc).checked_add(
        Decimal::from_i128_with_scale(bm, bsc),
    );
    match sum {
        Some(d) => Some((d.mantissa(), d.scale())),
        None => None,
    }
}

/// `Decimal::checked_sub` on operands built with
/// `Decimal::from_i128_with_scale`, handed back as `mantissa()` and `scale()`.
/// Whatever comes back is a representable amount. Where both operands can be
/// written with the larger scale and their difference still has a 96-bit
/// mantissa, the call succeeds and the result is the exact difference; outside
/// that range the crate may round or report overflow, and nothing is claimed.
#[verifier::external_body]
fn decimal_checked_sub(am: i128, asc: u32, bm: i128, bsc: u32) -> (r: Option<(i128, u32)>)
    requires
        representable(am as int, asc as int),
        representable(bm as int, bsc as int),
    ensures
        r matches Some(v) ==> representable(v.0 as int, v.1 as int),
        difference_representable(am as int, asc as int, bm as int, bsc as int) ==> denotes(
            r,
            units(am as int, asc as int) - units(bm as int, bsc as int),
        ),
{
    let difference = Decimal::from_i128_with_scale(am, asc).checked_sub(
        Decimal::from_i128_with_scale(bm, bsc),
    );
    match difference {
        Some(d) => Some((d.mantissa(), d.scale())),
        None => None,
    }
}

/// Ten to the power `k`, for every scale difference that can occur.
fn power_of_ten(k: u32) -> (r: i128)
    requires
        k <= MAX_SCALE,
    ensures
        r == pow10(k as nat),
        1 <= r <= 10000000000000000000000000000,
{
    let mut r: i128 = 1;
    let mut i: u32 = 0;
    while i < k
        invariant
            i <= k,
            k <= MAX_SCALE,
            r == pow10(i as nat),
        decreases k - i,
    {
        proof {
            lemma_pow10_monotone((i + 1) as nat, 28);
            lemma_pow10_max();
        }
        r = r * 10;
        i = i + 1;
    }
    proof {
        lemma_pow10_monotone(k as nat, 28);
        lemma_pow10_max();
    }
    r
}

/// The mantissa written with `target` decimal places, or `None` where that
/// needs more than 96 bits.
fn align(mantissa: i128, scale: u32, target: u32) -> (r: Option<i128>)
    requires
        scale <= target <= MAX_SCALE,
    ensures
        r.is_some() == fits96(aligned(mantissa as int, scale as int, target as int)),
        r matches Some(v) ==> v == aligned(mantissa as int, scale as int, target as int),
{
    let factor = power_of_ten(target - scale);
    match mantissa.checked_mul(factor) {
        Some(v) => {
            if -MANTISSA_LIMIT < v && v < MANTISSA_LIMIT {
                Some(v)
            } else {
                None
            }
        },
        None => None,
    }
}

/// An exact decimal amount of money.
#[derive(Clone, Copy, Debug)]
pub struct Money {
    mantissa: i128,
    scale: u32,
}

impl View for Money {
    type V = int;

    /// The amount in units of `10^-28`.
    open spec fn view(&self) -> int {
        units(self.spec_mantissa(), self.spec_scale())
    }
}

impl Money {
    /// Every amount that exists is representable.
    #[verifier::type_invariant]
    pub closed spec fn wf(self) -> bool {
        representable(self.mantissa as int, self.scale as int)
    }

    /// The mantissa, as a mathematical integer.
    pub closed spec fn spec_mantissa(self) -> int {
        self.mantissa as int
    }

    /// The number of decimal places.
    pub closed spec fn spec_scale(self) -> int {
        self.scale as int
    }

    /// Whether `self + other` is exactly representable with the larger scale.
    pub open spec fn can_add(self, other: Money) -> bool {
        sum_representable(
            self.spec_mantissa(),
            self.spec_scale(),
            other.spec_mantissa(),
            other.spec_scale(),
        )
    }

    /// Whether `self - other` is exactly representable with the larger scale.
    pub open spec fn can_sub(self, other: Money) -> bool {
        difference_representable(
            self.spec_mantissa(),
            self.spec_scale(),
            other.spec_mantissa(),
            other.spec_scale(),
        )
    }

    /// The amount `mantissa / 10^scale`, or `None` where the scale exceeds 28
    /// or the mantissa needs more than 96 bits.
    pub fn new(mantissa: i128, scale: u32) -> (r: Option<Money>)
        ensures
            r.is_some() == representable(mantissa as int, scale as int),
            r matches Some(m) ==> m.wf() && m.spec_mantissa() == mantissa && m.spec_scale() == scale
                && m@ == units(mantissa as int, scale as int),
    {
        if scale <= MAX_SCALE && -MANTISSA_LIMIT < mantissa && mantissa < MANTISSA_LIMIT {
            Some(Money { mantissa, scale })
        } else {
            None
        }
    }

    /// The amount zero.
    pub fn zero() -> (r: Money)
        ensures
            r@ == 0,
            r.wf(),
            r.spec_mantissa() == 0,
            r.spec_scale() == 0,
    {
        Money { mantissa: 0, scale: 0 }
    }

    /// The mantissa of this amount.
    pub fn mantissa(&self) -> (r: i128)
        ensures
            r == self.spec_mantissa(),
            fits96(r as int),
    {
        proof {
            use_type_invariant(self);
        }
        self.mantissa
    }

    /// The number of decimal places of this amount.
    pub fn scale(&self) -> (r: u32)
        ensures
            r == self.spec_scale(),
            r <= MAX_SCALE,
    {
        proof {
            use_type_invariant(self);
        }
        self.scale
    }

    /// Whether this amount is numerically below `other`.
    pub fn less_than(&self, other: &Money) -> (r: bool)
        ensures
            r == (self@ < other@),
    {
        proof {
            use_type_invariant(self);
            use_type_invariant(other);
        }
        decimal_less(self.mantissa, self.scale, other.mantissa, other.scale)
    }

    /// Whether this amount is above zero.
    pub fn is_positive(&self) -> (r: bool)
        ensures
            r == (self@ > 0),
    {
        let zero = Money::zero();
        zero.less_than(self)
    }

    /// Whether `plus` may be called: decides `can_add`.
    pub fn addable(&self, other: &Money) -> (r: bool)
        ensures
            r == self.can_add(*other),
    {
        proof {
            use_type_invariant(self);
            use_type_invariant(other);
        }
        let target: u32 = if self.scale >= other.scale {
            self.scale
        } else {
            other.scale
        };
        match (align(self.mantissa, self.scale, target), align(other.mantissa, other.scale, target)) {
            (Some(x), Some(y)) => {
                let total: i128 = x + y;
                -MANTISSA_LIMIT < total && total < MANTISSA_LIMIT
            },
            _ => false,
        }
    }

    /// Whether `minus` may be called: decides `can_sub`.
    pub fn subtractable(&self, other: &Money) -> (r: bool)
        ensures
            r == self.can_sub(*other),
    {
        proof {
            use_type_invariant(self);
            use_type_invariant(other);
        }
        let target: u32 = if self.scale >= other.scale {
            self.scale
        } else {
            other.scale
        };
        match (align(self.mantissa, self.scale, target), align(other.mantissa, other.scale, target)) {
            (Some(x), Some(y)) => {
                let rest: i128 = x - y;
                -MANTISSA_LIMIT < rest && rest < MANTISSA_LIMIT
            },
            _ => false,
        }
    }

    /// The exact sum, where `can_add` holds.
    pub fn plus(&self, other: &Money) -> (r: Money)
        requires
            self.can_add(*other),
        ensures
            r@ == self@ + other@,
            r.wf(),
    {
        proof {
            use_type_invariant(self);
            use_type_invariant(other);
        }
        match decimal_checked_add(self.mantissa, self.scale, other.mantissa, other.scale) {
            Some((mantissa, scale)) => Money { mantissa, scale },
            None => *self,
        }
    }

    /// The exact difference, where `can_sub` holds.
    pub fn minus(&self, other: &Money) -> (r: Money)
        requires
            self.can_sub(*other),
        ensures
            r@ == self@ - other@,
            r.wf(),
    {
        proof {
            use_type_invariant(self);
            use_type_invariant(other);
        }
        match decimal_checked_sub(self.mantissa, self.scale, other.mantissa, other.scale) {
            Some((mantissa, scale)) => Money { mantissa, scale },
            None => *self,
        }
    }
}

} // verus!
