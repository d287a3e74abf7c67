//! Fixed-precision decimal numbers as plain integers, and the ratio helpers
//! that the quote engine needs. The arithmetic itself is done by the
//! `rust_decimal` crate; this module states what is relied upon.
use rust_decimal::prelude::FromPrimitive;
use rust_decimal::Decimal;
use vstd::prelude::*;

verus! {

/// Largest number of fractional digits a decimal can carry.
pub const MAX_SCALE: u32 = 28;

/// Largest magnitude of a mantissa: ninety-six bits, all set.
pub const MAX_MANTISSA: i128 = 0xFFFF_FFFF_FFFF_FFFF_FFFF_FFFF;

/// The number `mantissa / 10^scale`.
#[derive(Clone, Copy, Debug, PartialEq, Eq, Structural)]
pub struct ScaledDecimal {
    pub mantissa: i128,
    pub scale: u32,
}

impl ScaledDecimal {
    /// The values that `rust_decimal::Decimal` can represent.
    pub open spec fn wf(self) -> bool {
        &&& self.scale <= MAX_SCALE
        &&& -MAX_MANTISSA <= self.mantissa <= MAX_MANTISSA
    }

    /// The whole number `n`, with no fractional digits.
    pub open spec fn whole(n: u64) -> ScaledDecimal {
        ScaledDecimal { mantissa: n as i128, scale: 0 }
    }

    /// The number one.
    pub open spec fn spec_one() -> ScaledDecimal {
        ScaledDecimal { mantissa: 1, scale: 0 }
    }

    /// The number one, which the quote engine reports as the maximal price impact.
    pub fn one() -> (r: ScaledDecimal)
        ensures
            r == Self::spec_one(),
            r.wf(),
    {
        ScaledDecimal { mantissa: 1, scale: 0 }
    }

    /// Whether this value is representable by `rust_decimal::Decimal`.
    pub fn is_valid(&self) -> (r: bool)
        ensures
            r == self.wf(),
    {
        self.scale <= MAX_SCALE && -MAX_MANTISSA <= self.mantissa && self.mantissa <= MAX_MANTISSA
    }
}

/// What `Decimal::checked_div` yields for the dividend `a` and the divisor `b`,
/// both read back as mantissa and scale.
pub uninterp spec fn decimal_quotient(a: ScaledDecimal, b: ScaledDecimal) -> Option<ScaledDecimal>;

/// What `Decimal::checked_sub` yields for `a - b`, read back as mantissa and scale.
pub uninterp spec fn decimal_difference(a: ScaledDecimal, b: ScaledDecimal) -> Option<
    ScaledDecimal,
>;

/// Calls `rust_decimal::Decimal::from_u64` (the crate's `FromPrimitive` impl).
/// Trusted: the call always succeeds and yields the mantissa `n` with scale zero.
#[verifier::external_body]
fn decimal_from_u64(n: u64) -> (r: Option<ScaledDecimal>)
    ensures
        r == Some(ScaledDecimal::whole(n)),
{
    match Decimal::from_u64(n) {
        Some(d) => Some(ScaledDecimal { mantissa: d.mantissa(), scale: d.scale() }),
        None => None,
    }
}

/// Calls `rust_decimal::Decimal::checked_div`. The operands are rebuilt with
/// `Decimal::from_i128_with_scale`, which would panic on what `requires`
/// leaves out, and the result is read back with `mantissa` and `scale`.
/// Trusted: the result is a function of the two operands, named by
/// `decimal_quotient`; a result is itself representable; and a zero divisor
/// yields `None`.
#[verifier::external_body]
fn decimal_checked_div(a: ScaledDecimal, b: ScaledDecimal) -> (r: Option<ScaledDecimal>)
    requires
        a.wf(),
        b.wf(),
    ensures
        r == decimal_quotient(a, b),
        r matches Some(q) ==> q.wf(),
        b.mantissa == 0 ==> r is None,
{
    let x = Decimal::from_i128_with_scale(a.mantissa, a.scale);
    let y = Decimal::from_i128_with_scale(b.mantissa, b.scale);
    match x.checked_div(y) {
        Some(d) => Some(ScaledDecimal { mantissa: d.mantissa(), scale: d.scale() }),
        None => None,
    }
}

/// Calls `rust_decimal::Decimal::checked_sub`, with operands and result
/// converted as for the division.
/// Trusted: the result is a function of the two operands, named by
/// `decimal_difference`, and a result is itself representable.
#[verifier::external_body]
fn decimal_checked_sub(a: ScaledDecimal, b: ScaledDecimal) -> (r: Option<ScaledDecimal>)
    requires
        a.wf(),
        b.wf(),
    ensures
        r == decimal_difference(a, b),
        r matches Some(d) ==> d.wf(),
{
    let x = Decimal::from_i128_with_scale(a.mantissa, a.scale);
    let y = Decimal::from_i128_with_scale(b.mantissa, b.scale);
    match x.checked_sub(y) {
        Some(d) => Some(ScaledDecimal { mantissa: d.mantissa(), scale: d.scale() }),
        None => None,
    }
}

/// Number of basis points in one whole.
pub const BPS_PER_WHOLE: u64 = 10_000;

/// The fee rate `taker_fee_bps / 10_000` as a decimal.
pub open spec fn spec_fee_pct(taker_fee_bps: u64) -> Option<ScaledDecimal> {
    decimal_quotient(ScaledDecimal::whole(taker_fee_bps), ScaledDecimal::whole(BPS_PER_WHOLE))
}

/// The ratio `a / b` as a decimal.
pub open spec fn spec_decimal_div(a: u64, b: u64) -> Option<ScaledDecimal> {
    decimal_quotient(ScaledDecimal::whole(a), ScaledDecimal::whole(b))
}

/// The relative shortfall `(best_price - price) / best_price`.
pub open spec fn spec_price_impact_pct(price: ScaledDecimal, best_price: ScaledDecimal) -> Option<
    ScaledDecimal,
> {
    if !price.wf() || !best_price.wf() {
        None
    } else {
        match decimal_difference(best_price, price) {
            Some(gap) => decimal_quotient(gap, best_price),
            None => None,
        }
    }
}

/// Converts a fee in basis points to a fraction of one.
pub fn compute_fee_pct(taker_fee_bps: u64) -> (r: Option<ScaledDecimal>)
    ensures
        r == spec_fee_pct(taker_fee_bps),
        r matches Some(pct) ==> pct.wf(),
{
    match (decimal_from_u64(taker_fee_bps), decimal_from_u64(BPS_PER_WHOLE)) {
        (Some(bps), Some(whole)) => decimal_checked_div(bps, whole),
        _ => None,
    }
}

/// Divides two unsigned integers into a decimal. A zero denominator gives `None`.
pub fn compute_decimal_div(a: u64, b: u64) -> (r: Option<ScaledDecimal>)
    ensures
        r == spec_decimal_div(a, b),
        r matches Some(q) ==> q.wf(),
        b == 0 ==> r is None,
{
    match (decimal_from_u64(a), decimal_from_u64(b)) {
        (Some(x), Some(y)) => decimal_checked_div(x, y),
        _ => None,
    }
}

/// How far `price` falls short of `best_price`, relative to `best_price`.
/// Gives `None` for operands that are not representable, for a zero
/// `best_price`, and where the decimal arithmetic overflows.
pub fn compute_price_impact_pct(price: ScaledDecimal, best_price: ScaledDecimal) -> (r: Option<
    ScaledDecimal,
>)
    ensures
        r == spec_price_impact_pct(price, best_price),
        r matches Some(pct) ==> pct.wf(),
        best_price.mantissa == 0 ==> r is None,
{
    if !price.is_valid() || !best_price.is_valid() {
        return None;
    }
    match decimal_checked_sub(best_price, price) {
        Some(gap) => decimal_checked_div(gap, best_price),
        None => None,
    }
}

} // verus!
