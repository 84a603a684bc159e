//! Conversion between the chain's integer subunit and its display unit.
//!
//! A display amount is kept as a fixed-point decimal, so that a value which
//! is persisted once is exact and converting it back gives the subunits it
//! was made from.

use crate::text::{append_decimal, append_fixed, decimal_digits, fixed_digits};
use vstd::prelude::*;

verus! {

/// Number of subunits that make up one display unit.
pub const SUBUNITS_PER_UNIT: u64 = 100_000_000;

/// Number of decimal places of a display amount.
pub const FRACTION_DIGITS: u8 = 8;

/// An amount in display units: `whole + fraction / 10^8`, with the fraction
/// counted in subunits.
#[derive(Clone, Copy, Debug, PartialEq, Eq, Structural)]
pub struct DisplayAmount {
    whole: u128,
    fraction: u32,
}

/// Sum of a sequence of subunit values.
pub open spec fn total_subunits(values: Seq<u64>) -> nat
    decreases values.len(),
{
    if values.len() == 0 {
        0
    } else {
        total_subunits(values.drop_last()) + values.last() as nat
    }
}

/// The display amount that stands for `subunits`.
pub closed spec fn display_of(subunits: nat) -> DisplayAmount
    recommends
        subunits <= u128::MAX,
{
    DisplayAmount {
        whole: (subunits / (SUBUNITS_PER_UNIT as nat)) as u128,
        fraction: (subunits % (SUBUNITS_PER_UNIT as nat)) as u32,
    }
}

/// Decimal notation of an amount: the whole units, a point, and exactly
/// eight fractional digits.
pub open spec fn amount_text(amount: DisplayAmount) -> Seq<char> {
    decimal_digits(amount.whole_part()).push('.') + fixed_digits(
        amount.fraction_part(),
        FRACTION_DIGITS as nat,
    )
}

impl DisplayAmount {
    #[verifier::type_invariant]
    closed spec fn well_formed(self) -> bool {
        &&& self.fraction < SUBUNITS_PER_UNIT
        &&& self.whole * SUBUNITS_PER_UNIT + self.fraction <= u128::MAX
    }

    /// Whole display units of the amount.
    pub closed spec fn whole_part(self) -> nat {
        self.whole as nat
    }

    /// What is left below one display unit, in subunits.
    pub closed spec fn fraction_part(self) -> nat {
        self.fraction as nat
    }

    /// The amount scaled by `10^8`, that is, counted in subunits.
    pub open spec fn subunits(self) -> nat {
        self.whole_part() * (SUBUNITS_PER_UNIT as nat) + self.fraction_part()
    }

    /// The amount of no value.
    pub fn zero() -> (amount: DisplayAmount)
        ensures
            amount == display_of(0),
            amount.subunits() == 0,
    {
        DisplayAmount { whole: 0, fraction: 0 }
    }

    /// Whole display units.
    pub fn whole(&self) -> (units: u128)
        ensures
            units == self.whole_part(),
    {
        self.whole
    }

    /// Subunits below one display unit; always less than `SUBUNITS_PER_UNIT`.
    pub fn fraction(&self) -> (rest: u32)
        ensures
            rest == self.fraction_part(),
            rest < SUBUNITS_PER_UNIT,
    {
        proof {
            use_type_invariant(self);
        }
        self.fraction
    }

    /// Converts back to subunits; the inverse of `to_display_units`.
    pub fn to_subunits(&self) -> (subunits: u128)
        ensures
            subunits == self.subunits(),
            *self == display_of(subunits as nat),
    {
        proof {
            use_type_invariant(self);
        }
        self.whole * 100_000_000u128 + (self.fraction as u128)
    }

    /// Renders the amount as decimal text with eight fractional digits.
    pub fn to_text(&self) -> (rendered: String)
        ensures
            rendered@ == amount_text(*self),
    {
        let mut rendered = String::new();
        append_decimal(&mut rendered, self.whole);
        let ghost whole_text = rendered@;
        proof {
            reveal_strlit(".");
        }
        rendered.append(".");
        assert(rendered@ =~= whole_text.push('.'));
        append_fixed(&mut rendered, self.fraction as u128, FRACTION_DIGITS);
        rendered
    }
}

/// Converts subunits to display units: `subunits / 10^8`, without rounding.
pub fn to_display_units(subunits: u128) -> (amount: DisplayAmount)
    ensures
        amount == display_of(subunits as nat),
        amount.whole_part() == subunits / (SUBUNITS_PER_UNIT as u128),
        amount.fraction_part() == subunits % (SUBUNITS_PER_UNIT as u128),
        amount.subunits() == subunits,
{
    let whole: u128 = subunits / 100_000_000u128;
    let rest: u128 = subunits % 100_000_000u128;
    DisplayAmount { whole, fraction: rest as u32 }
}

/// Adds up subunit values; the total of no values is zero.
pub fn sum_subunits(values: &Vec<u64>) -> (total: u128)
    ensures
        total == total_subunits(values@),
{
    let mut total: u128 = 0;
    let mut i: usize = 0;
    while i < values.len()
        invariant
            i <= values.len(),
            total == total_subunits(values@.take(i as int)),
            total <= i * u64::MAX,
        decreases values.len() - i,
    {
        assert(values@.take(i + 1).drop_last() =~= values@.take(i as int));
        assert(i * u64::MAX + u64::MAX <= usize::MAX * u64::MAX + u64::MAX) by (nonlinear_arith)
            requires
                i <= usize::MAX,
        ;
        total = total + values[i] as u128;
        i = i + 1;
    }
    assert(values@.take(i as int) =~= values@);
    total
}

/// Converting to display units and scaling by `10^8` gives back the
/// subunits, exactly, for every amount of subunits.
pub proof fn law_display_round_trip(subunits: nat)
    requires
        subunits <= u128::MAX,
    ensures
        display_of(subunits).subunits() == subunits,
        display_of(subunits).whole_part() == subunits / (SUBUNITS_PER_UNIT as nat),
        display_of(subunits).fraction_part() == subunits % (SUBUNITS_PER_UNIT as nat),
        display_of(subunits).fraction_part() < SUBUNITS_PER_UNIT,
{
}

/// Two amounts of the same subunits are the same amount.
pub proof fn law_display_unique(a: DisplayAmount, b: DisplayAmount)
    requires
        a.fraction_part() < SUBUNITS_PER_UNIT,
        b.fraction_part() < SUBUNITS_PER_UNIT,
        a.subunits() == b.subunits(),
    ensures
        a == b,
{
}

/// No value adds more to a total than the largest value there is.
pub proof fn lemma_total_subunits_bound(values: Seq<u64>)
    ensures
        total_subunits(values) <= values.len() * u64::MAX,
    decreases values.len(),
{
    if values.len() > 0 {
        lemma_total_subunits_bound(values.drop_last());
        assert((values.len() - 1) * u64::MAX + u64::MAX == values.len() * u64::MAX)
            by (nonlinear_arith);
    }
}

} // verus!
