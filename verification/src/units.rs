use vstd::prelude::*;

use crate::errors::MyError;
use vstd::arithmetic::mul::lemma_mul_inequality;

verus! {

/// Decimal precision of the work-token mint: one human-facing token is
/// `10^9` base units.
pub const DAN_DECIMALS: u8 = 9;

/// Decimal precision of the escrow currency: one human-facing currency
/// unit is `10^6` base units.
pub const USDC_DECIMALS: u8 = 6;

/// `10^n`, the scaling factor between a human-facing integer amount and
/// its base-unit representation.
pub open spec fn pow10(n: nat) -> nat
    decreases n,
{
    if n == 0 {
        1
    } else {
        10 * pow10((n - 1) as nat)
    }
}

/// The scaling factor is never zero.
pub proof fn lemma_pow10_positive(n: nat)
    ensures
        pow10(n) >= 1,
    decreases n,
{
    if n > 0 {
        lemma_pow10_positive((n - 1) as nat);
    }
}

/// The scaling factor grows with the number of decimals.
pub proof fn lemma_pow10_monotone(a: nat, b: nat)
    requires
        a <= b,
    ensures
        pow10(a) <= pow10(b),
    decreases b,
{
    if a < b {
        lemma_pow10_monotone(a, (b - 1) as nat);
        lemma_pow10_positive((b - 1) as nat);
    }
}

/// Converts a human-facing integer amount to base units: exactly
/// `amount * 10^decimals`, with explicit overflow checking. Both engines
/// scale through this one function; no call site chains an unchecked
/// multiply into a checked one.
pub fn to_base_units(amount: u64, decimals: u8) -> (r: Result<u64, MyError>)
    ensures
        amount * pow10(decimals as nat) <= u64::MAX ==> r == Ok::<u64, MyError>(
            (amount * pow10(decimals as nat)) as u64,
        ),
        amount * pow10(decimals as nat) > u64::MAX ==> r == Err::<u64, MyError>(
            MyError::ArithmeticOverflow,
        ),
{
    if amount == 0 {
        return Ok(0);
    }
    let mut factor: u64 = 1;
    let mut i: u8 = 0;
    while i < decimals
        invariant
            i <= decimals,
            amount >= 1,
            factor == pow10(i as nat),
        decreases decimals - i,
    {
        factor = match factor.checked_mul(10) {
            Some(f) => f,
            None => {
                proof {
                    lemma_pow10_monotone((i + 1) as nat, decimals as nat);
                    lemma_mul_inequality(1, amount as int, pow10(decimals as nat) as int);
                }
                return Err(MyError::ArithmeticOverflow);
            },
        };
        i = i + 1;
    }
    match amount.checked_mul(factor) {
        Some(base) => Ok(base),
        None => Err(MyError::ArithmeticOverflow),
    }
}

} // verus!
