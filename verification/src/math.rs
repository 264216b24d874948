use vstd::prelude::*;

use vstd::arithmetic::div_mod::lemma_div_is_ordered;
use vstd::arithmetic::div_mod::lemma_div_multiples_vanish;
use vstd::arithmetic::div_mod::lemma_div_pos_is_pos;
use vstd::arithmetic::mul::lemma_mul_inequality;
use vstd::arithmetic::mul::lemma_mul_is_commutative;
use vstd::arithmetic::mul::lemma_mul_nonnegative;
use vstd::arithmetic::mul::lemma_mul_upper_bound;

use crate::constants::BPS_DENOMINATOR;
use crate::constants::QSHARE_DECIMALS;
use crate::error::BasketError;

verus! {

/// `10^e`: the scale factor between two decimal precisions `e` apart.
pub open spec fn pow10(e: nat) -> nat
    decreases e,
{
    if e == 0 {
        1
    } else {
        10 * pow10((e - 1) as nat)
    }
}

/// Every power of ten is at least one, so it is safe to divide by one.
pub proof fn lemma_pow10_positive(e: nat)
    ensures
        pow10(e) >= 1,
    decreases e,
{
    if e > 0 {
        lemma_pow10_positive((e - 1) as nat);
    }
}

/// Powers of ten grow with the exponent.
pub proof fn lemma_pow10_increases(i: nat, j: nat)
    requires
        i <= j,
    ensures
        pow10(i) <= pow10(j),
    decreases j,
{
    if i < j {
        lemma_pow10_increases(i, (j - 1) as nat);
        lemma_pow10_positive((j - 1) as nat);
    }
}

/// An amount rescaled from `token_dec` decimal places to `share_dec`:
/// truncating division when scaling down, exact multiplication when
/// scaling up.
pub open spec fn rescaled(amount: int, token_dec: int, share_dec: int) -> int {
    if token_dec >= share_dec {
        amount / (pow10((token_dec - share_dec) as nat) as int)
    } else {
        amount * (pow10((share_dec - token_dec) as nat) as int)
    }
}

/// Whether the rescaling of `amount` can be carried out in 128-bit
/// arithmetic: the scale factor must be representable, and when scaling up
/// so must the product.
pub open spec fn rescale_fits(amount: int, token_dec: int, share_dec: int) -> bool {
    if token_dec >= share_dec {
        pow10((token_dec - share_dec) as nat) <= u128::MAX
    } else {
        &&& pow10((share_dec - token_dec) as nat) <= u128::MAX
        &&& amount * (pow10((share_dec - token_dec) as nat) as int) <= u128::MAX
    }
}

/// Rescaling keeps amounts nonnegative.
pub proof fn lemma_rescaled_nonneg(amount: int, token_dec: int, share_dec: int)
    requires
        0 <= amount,
    ensures
        rescaled(amount, token_dec, share_dec) >= 0,
{
    if token_dec >= share_dec {
        let d = pow10((token_dec - share_dec) as nat);
        lemma_pow10_positive((token_dec - share_dec) as nat);
        lemma_div_pos_is_pos(amount, d as int);
    } else {
        let m = pow10((share_dec - token_dec) as nat);
        lemma_pow10_positive((share_dec - token_dec) as nat);
        lemma_mul_nonnegative(amount, m as int);
    }
}

/// Computes `10^e` in a 128-bit word, reporting the power that does not fit
/// instead of wrapping.
fn pow10_u128(e: u8) -> (r: Option<u128>)
    ensures
        match r {
            Some(p) => p == pow10(e as nat),
            None => pow10(e as nat) > u128::MAX,
        },
{
    let mut acc: u128 = 1;
    let mut i: u8 = 0;
    while i < e
        invariant
            i <= e,
            acc == pow10(i as nat),
        decreases e - i,
    {
        match acc.checked_mul(10) {
            Some(next) => {
                acc = next;
                i = i + 1;
            }
            None => {
                proof {
                    lemma_pow10_increases((i + 1) as nat, e as nat);
                }
                return None;
            }
        }
    }
    Some(acc)
}

/// Rescales `amount` from the asset's decimal precision to the share
/// token's.  Scaling down truncates the fractional remainder — a
/// deliberate conservative bias against over-crediting depositors.
/// Fails with `ArithmeticOverflow` exactly when the computation does not
/// fit in 128 bits.
pub fn normalize(amount: u64, token_decimals: u8, share_decimals: u8) -> (r: Result<
    u128,
    BasketError,
>)
    ensures
        match r {
            Ok(v) => {
                &&& rescale_fits(amount as int, token_decimals as int, share_decimals as int)
                &&& v == rescaled(amount as int, token_decimals as int, share_decimals as int)
            },
            Err(e) => {
                &&& !rescale_fits(amount as int, token_decimals as int, share_decimals as int)
                &&& e == BasketError::ArithmeticOverflow
            },
        },
{
    if token_decimals >= share_decimals {
        match pow10_u128(token_decimals - share_decimals) {
            Some(divisor) => {
                proof {
                    lemma_pow10_positive((token_decimals - share_decimals) as nat);
                }
                Ok((amount as u128) / divisor)
            }
            None => Err(BasketError::ArithmeticOverflow),
        }
    } else {
        match pow10_u128(share_decimals - token_decimals) {
            Some(multiplier) => {
                match (amount as u128).checked_mul(multiplier) {
                    Some(v) => Ok(v),
                    None => Err(BasketError::ArithmeticOverflow),
                }
            }
            None => Err(BasketError::ArithmeticOverflow),
        }
    }
}

/// Rescales an asset amount to the share token's precision.
pub fn normalise_amount(amount: u64, token_decimals: u8) -> (r: Result<u128, BasketError>)
    ensures
        match r {
            Ok(v) => {
                &&& rescale_fits(amount as int, token_decimals as int, QSHARE_DECIMALS as int)
                &&& v == rescaled(amount as int, token_decimals as int, QSHARE_DECIMALS as int)
            },
            Err(e) => {
                &&& !rescale_fits(amount as int, token_decimals as int, QSHARE_DECIMALS as int)
                &&& e == BasketError::ArithmeticOverflow
            },
        },
{
    normalize(amount, token_decimals, QSHARE_DECIMALS)
}

/// The fee skimmed from `amount` at `fee_bps` basis points, rounded down.
pub open spec fn fee_amount(amount: int, fee_bps: int) -> int {
    amount * fee_bps / (BPS_DENOMINATOR as int)
}

/// For any fee at or below one hundred percent the fee never exceeds the
/// amount it is taken from.
pub proof fn lemma_fee_le_amount(amount: int, fee_bps: int)
    requires
        0 <= amount,
        0 <= fee_bps <= BPS_DENOMINATOR,
    ensures
        0 <= fee_amount(amount, fee_bps) <= amount,
{
    let d = BPS_DENOMINATOR as int;
    lemma_mul_inequality(fee_bps, d, amount);
    lemma_mul_is_commutative(amount, fee_bps);
    lemma_mul_is_commutative(amount, d);
    lemma_div_is_ordered(amount * fee_bps, amount * d, d);
    lemma_div_multiples_vanish(amount, d);
}

/// Splits `amount` into `(net, fee)` with `fee == floor(amount * fee_bps /
/// 10_000)` and `net + fee == amount`.  Succeeds for every fee at or below
/// one hundred percent; a larger fee would leave a negative net, which is
/// rejected as `ArithmeticOverflow` rather than silently wrapped.
pub fn split_fee(amount: u64, fee_bps: u16) -> (r: Result<(u64, u64), BasketError>)
    ensures
        match r {
            Ok(parts) => {
                &&& fee_amount(amount as int, fee_bps as int) <= amount
                &&& parts.1 == fee_amount(amount as int, fee_bps as int)
                &&& parts.0 == amount - fee_amount(amount as int, fee_bps as int)
                &&& parts.0 + parts.1 == amount
            },
            Err(e) => {
                &&& fee_amount(amount as int, fee_bps as int) > amount
                &&& e == BasketError::ArithmeticOverflow
            },
        },
        fee_bps <= BPS_DENOMINATOR ==> r is Ok,
{
    proof {
        lemma_mul_upper_bound(amount as int, u64::MAX as int, fee_bps as int, u16::MAX as int);
        if fee_bps <= BPS_DENOMINATOR {
            lemma_fee_le_amount(amount as int, fee_bps as int);
        }
    }
    let fee_wide: u128 = (amount as u128) * (fee_bps as u128) / (BPS_DENOMINATOR as u128);
    if fee_wide > amount as u128 {
        Err(BasketError::ArithmeticOverflow)
    } else {
        let fee: u64 = fee_wide as u64;
        Ok((amount - fee, fee))
    }
}

} // verus!
