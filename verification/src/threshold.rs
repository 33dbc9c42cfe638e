//! The share of the voting power that a proposal needs before it can pass.

use crate::math::Wide;
use vstd::arithmetic::div_mod::lemma_div_multiples_vanish_quotient;
use vstd::arithmetic::div_mod::lemma_fundamental_div_mod;
use vstd::arithmetic::div_mod::lemma_mod_bound;
use vstd::prelude::*;

verus! {

/// Vote counts are scaled by this factor before they are compared with a
/// percentage, so that the share needed is rounded at the ninth decimal.
pub const PRECISION_FACTOR: u128 = 1_000_000_000;

/// The number of atomic units that make up the decimal `1`.
pub const DECIMAL_FRACTIONAL: u128 = 1_000_000_000_000_000_000;

/// A non-negative fixed-point number with 18 fractional digits.
#[derive(Clone, Copy, Debug, PartialEq, Eq, Structural)]
pub struct Decimal {
    pub atomics: u128,
}

impl Decimal {
    pub fn new(atomics: u128) -> (d: Decimal)
        ensures
            d.atomics == atomics,
    {
        Decimal { atomics }
    }

    pub fn zero() -> (d: Decimal)
        ensures
            d.atomics == 0,
    {
        Decimal { atomics: 0 }
    }

    pub fn one() -> (d: Decimal)
        ensures
            d.atomics == DECIMAL_FRACTIONAL,
    {
        Decimal { atomics: DECIMAL_FRACTIONAL }
    }

    /// The decimal `x / 100`.
    pub fn percent(x: u64) -> (d: Decimal)
        ensures
            d.atomics == x * 10_000_000_000_000_000,
    {
        Decimal { atomics: (x as u128) * 10_000_000_000_000_000 }
    }
}

/// A share of the voting power.
#[derive(Clone, Copy, Debug, PartialEq, Eq, Structural)]
pub enum PercentageThreshold {
    /// Strictly more than half.
    Majority {},
    /// At least this fraction.
    Percent(Decimal),
}

#[derive(Clone, Copy, Debug, PartialEq, Eq, Structural)]
pub enum ThresholdError {
    /// The share asked for is more than the whole.
    UnreachableThreshold {},
}

impl ThresholdError {
    pub fn message(&self) -> (r: String)
        ensures
            r@ == "Not possible to reach required (passing) threshold"@,
    {
        String::from_str("Not possible to reach required (passing) threshold")
    }
}

/// Whether a quorum can be reached at all: it must not exceed 100%. A quorum
/// of zero is valid.
pub open spec fn quorum_is_valid(quorum: PercentageThreshold) -> bool {
    match quorum {
        PercentageThreshold::Majority {} => true,
        PercentageThreshold::Percent(d) => d.atomics <= DECIMAL_FRACTIONAL,
    }
}

pub fn validate_quorum(quorum: &PercentageThreshold) -> (r: Result<(), ThresholdError>)
    ensures
        r == if quorum_is_valid(*quorum) {
            Ok::<(), ThresholdError>(())
        } else {
            Err::<(), ThresholdError>(ThresholdError::UnreachableThreshold {})
        },
{
    match quorum {
        PercentageThreshold::Majority {} => Ok(()),
        PercentageThreshold::Percent(d) => {
            if d.atomics > DECIMAL_FRACTIONAL {
                Err(ThresholdError::UnreachableThreshold {})
            } else {
                Ok(())
            }
        },
    }
}

/// The least scaled count that meets `percent` of `options`:
/// `options * percent`, scaled by the precision factor and rounded down.
pub open spec fn scaled_votes_needed(options: int, percent: Decimal) -> int {
    (options * PRECISION_FACTOR * percent.atomics) / (DECIMAL_FRACTIONAL as int)
}

/// Whether `yes_votes` out of `options` reach `percent`. Nothing passes when
/// there are no votes to count against.
pub open spec fn vote_count_passes(
    yes_votes: u128,
    options: u128,
    percent: PercentageThreshold,
) -> bool {
    options != 0 && match percent {
        PercentageThreshold::Majority {} => yes_votes * 2 > options,
        PercentageThreshold::Percent(d) => yes_votes * PRECISION_FACTOR >= scaled_votes_needed(
            options as int,
            d,
        ),
    }
}

/// The comparison with the rounded share needs no division: the scaled count
/// `y` reaches the share `a` of `o` exactly when `o * a` is below
/// `y * 10^18 + 10^9`.
pub proof fn lemma_percent_rule(y: int, o: int, a: int)
    requires
        0 <= y,
        0 <= o,
        0 <= a,
    ensures
        (y * PRECISION_FACTOR >= (o * PRECISION_FACTOR * a) / (DECIMAL_FRACTIONAL as int)) <==> (o
            * a < y * DECIMAL_FRACTIONAL + PRECISION_FACTOR),
{
    let p: int = PRECISION_FACTOR as int;
    let d: int = DECIMAL_FRACTIONAL as int;
    let n = o * a;
    assert(d == p * p);
    assert(0 <= n) by (nonlinear_arith)
        requires
            n == o * a,
            0 <= o,
            0 <= a,
    ;
    assert(o * p * a == p * n) by (nonlinear_arith)
        requires
            n == o * a,
    ;
    lemma_div_multiples_vanish_quotient(p, n, p);
    let q = n / p;
    assert((o * p * a) / d == q);
    lemma_fundamental_div_mod(n, p);
    lemma_mod_bound(n, p);
    let r = n % p;
    let m = y * p;
    assert((m >= q) <==> (n < (m + 1) * p)) by (nonlinear_arith)
        requires
            n == p * q + r,
            0 <= r < p,
    ;
    assert((m + 1) * p == y * d + p) by (nonlinear_arith)
        requires
            m == y * p,
            d == p * p,
    ;
}

/// Whether `yes_votes` out of `options` reach `percent`.
pub fn does_vote_count_pass(yes_votes: u128, options: u128, percent: PercentageThreshold) -> (r:
    bool)
    ensures
        r == vote_count_passes(yes_votes, options, percent),
{
    if options == 0 {
        return false;
    }
    match percent {
        PercentageThreshold::Majority {} => yes_votes > options / 2,
        PercentageThreshold::Percent(d) => {
            let share = Wide::product(options, d.atomics);
            let scaled = Wide::product(yes_votes, DECIMAL_FRACTIONAL);
            proof {
                lemma_percent_rule(yes_votes as int, options as int, d.atomics as int);
            }
            match scaled.checked_add_small(PRECISION_FACTOR) {
                Some(bound) => share.lt(&bound),
                None => {
                    proof {
                        assert(share.value() < crate::math::pow2_128() * crate::math::pow2_128())
                            by (nonlinear_arith)
                            requires
                                share.value() == options * d.atomics,
                                options < crate::math::pow2_128(),
                                d.atomics < crate::math::pow2_128(),
                                0 <= options,
                                0 <= d.atomics,
                        ;
                    }
                    true
                },
            }
        },
    }
}

} // verus!
