use vstd::prelude::*;

use vstd::arithmetic::mul::lemma_mul_upper_bound;

use crate::address::Address;
use crate::address::vault_authority_address;
use crate::constants::WITHDRAW_ACCOUNTS_PER_TOKEN;
use crate::error::BasketError;
use crate::records::RawRecord;
use crate::records::RecordData;
use crate::records::TransferRequest;
use crate::records::balance_of;
use crate::records::is_registration;
use crate::records::is_token_account;
use crate::records::read_vault_balance;
use crate::records::registration_of;
use crate::state::Basket;
use crate::state::BasketToken;

verus! {

/// Everything one withdrawal call supplies: the basket's address, the
/// caller-supplied share-mint and vault-authority records, the share supply
/// and the caller's share balance read before the burn, the share count to
/// burn, and the flat record list of per-asset legs.
#[derive(Debug)]
pub struct WithdrawCall {
    /// Address of the basket record the legs must reference.
    pub basket_key: Address,
    /// Address of the supplied share-mint record.
    pub share_mint_key: Address,
    /// Outstanding share supply, read before the burn.
    pub share_supply: u64,
    /// The caller's share balance.
    pub user_share_balance: u64,
    /// Address of the supplied vault-authority record.
    pub vault_authority_key: Address,
    /// How many shares to burn.
    pub shares_to_burn: u64,
    /// The flat per-asset record list, `WITHDRAW_ACCOUNTS_PER_TOKEN` records
    /// per leg: registration, asset mint, vault, user account.
    pub remaining: Vec<RawRecord>,
}

/// What a successful withdrawal asks the ledger to do: burn `shares_burned`
/// shares from the caller, then perform the listed payouts out of the
/// basket's vaults.  The plan is applied atomically or not at all.
#[derive(Debug, PartialEq, Eq)]
pub struct WithdrawOutcome {
    /// Shares to burn from the caller.
    pub shares_burned: u64,
    /// Per-asset payouts, in leg order; legs whose payout rounds to zero
    /// are skipped.
    pub payouts: Vec<TransferRequest>,
}

/// The up-front checks of a withdrawal, in the order the engine makes
/// them: layout, burn amount, share-mint identity, derived vault authority.
pub open spec fn withdraw_static_error(basket: Basket, call: WithdrawCall) -> Option<BasketError> {
    if call.remaining@.len() != basket.token_count as int * (WITHDRAW_ACCOUNTS_PER_TOKEN as int) {
        Some(BasketError::IncompleteWithdrawal)
    } else if call.shares_to_burn == 0 {
        Some(BasketError::InsufficientShares)
    } else if call.user_share_balance < call.shares_to_burn {
        Some(BasketError::InsufficientShares)
    } else if call.share_mint_key != basket.share_mint {
        Some(BasketError::ShareMintMismatch)
    } else if call.vault_authority_key != vault_authority_address(
        basket.basket_id,
        basket.vault_authority_bump,
    ) {
        Some(BasketError::VaultAuthMismatch)
    } else {
        None
    }
}

/// Wiring check of withdrawal leg `i`: the leg's first record must be a
/// registration belonging to this basket with the asset enabled, and the
/// asset-mint and vault records must sit at their fixed offsets under
/// exactly the addresses the registration stores.
pub open spec fn withdraw_leg_error(
    remaining: Seq<RawRecord>,
    i: int,
    basket_key: Address,
) -> Option<BasketError> {
    let base = (WITHDRAW_ACCOUNTS_PER_TOKEN as int) * i;
    let rec = remaining[base];
    if !is_registration(rec) {
        Some(BasketError::InvalidBasketWiring)
    } else {
        let bt = registration_of(rec);
        if bt.basket != basket_key {
            Some(BasketError::InvalidBasketWiring)
        } else if !bt.enabled {
            Some(BasketError::TokenNotEnabled)
        } else if remaining[base + 1].key != bt.mint {
            Some(BasketError::MintConfigMismatch)
        } else if remaining[base + 2].key != bt.vault_ata {
            Some(BasketError::InvalidBasketWiring)
        } else {
            None
        }
    }
}

/// One leg's proportional payout: the vault's balance times the burned
/// share count, divided by the outstanding supply, rounded down.
pub open spec fn payout_amount(balance: int, shares: int, supply: int) -> int {
    balance * shares / supply
}

/// The per-leg phase of a withdrawal, from leg `i` onward: validate the
/// leg's wiring, read the vault's live balance, compute the proportional
/// payout, and queue a transfer for it unless it rounds to zero.
pub open spec fn withdraw_leg_scan(
    remaining: Seq<RawRecord>,
    basket_key: Address,
    n: int,
    i: int,
    shares: int,
    supply: int,
    payouts_acc: Seq<TransferRequest>,
) -> Result<Seq<TransferRequest>, BasketError>
    decreases n - i,
{
    if i >= n {
        Ok(payouts_acc)
    } else {
        let leg_err = withdraw_leg_error(remaining, i, basket_key);
        if leg_err is Some {
            Err(leg_err->0)
        } else {
            let base = (WITHDRAW_ACCOUNTS_PER_TOKEN as int) * i;
            let bt = registration_of(remaining[base]);
            let vault_rec = remaining[base + 2];
            if !is_token_account(vault_rec) {
                Err(BasketError::InvalidBasketWiring)
            } else if supply == 0 {
                Err(BasketError::ArithmeticOverflow)
            } else {
                let out = payout_amount(balance_of(vault_rec) as int, shares, supply);
                if out > u64::MAX {
                    Err(BasketError::ArithmeticOverflow)
                } else if out == 0 {
                    withdraw_leg_scan(remaining, basket_key, n, i + 1, shares, supply, payouts_acc)
                } else {
                    withdraw_leg_scan(
                        remaining,
                        basket_key,
                        n,
                        i + 1,
                        shares,
                        supply,
                        payouts_acc.push(
                            TransferRequest {
                                from: bt.vault_ata,
                                to: remaining[base + 3].key,
                                amount: out as u64,
                            },
                        ),
                    )
                }
            }
        }
    }
}

/// The whole withdrawal as a mathematical function of its inputs: either
/// the exact payout plan, or the exact error, in the order the engine
/// checks things.
pub open spec fn spec_withdraw(basket: Basket, call: WithdrawCall) -> Result<
    Seq<TransferRequest>,
    BasketError,
> {
    let static_err = withdraw_static_error(basket, call);
    if static_err is Some {
        Err(static_err->0)
    } else {
        withdraw_leg_scan(
            call.remaining@,
            call.basket_key,
            basket.token_count as int,
            0,
            call.shares_to_burn as int,
            call.share_supply as int,
            Seq::empty(),
        )
    }
}

/// Checks that a withdrawal covers all registered assets, and returns the
/// leg count.
pub fn validate_remaining_layout(remaining_len: usize, token_count: u8) -> (r: Result<
    usize,
    BasketError,
>)
    ensures
        match r {
            Ok(n) => n == token_count as int && remaining_len as int == token_count as int * (
            WITHDRAW_ACCOUNTS_PER_TOKEN as int),
            Err(e) => {
                &&& remaining_len as int != token_count as int * (
                WITHDRAW_ACCOUNTS_PER_TOKEN as int)
                &&& e == BasketError::IncompleteWithdrawal
            },
        },
{
    let expected = (token_count as usize) * WITHDRAW_ACCOUNTS_PER_TOKEN;
    if remaining_len != expected {
        return Err(BasketError::IncompleteWithdrawal);
    }
    Ok(token_count as usize)
}

/// The records of one validated withdrawal leg that later steps use.
pub struct WithdrawLeg {
    /// The leg's registration entry.
    pub basket_token: BasketToken,
    /// The vault record, balance included, key-checked against the
    /// registration.
    pub vault_record: RawRecord,
    /// Address of the caller's account for this asset.
    pub user_ata_key: Address,
}

/// Resolves withdrawal leg `index` out of the flat record list, checking
/// its wiring against the registration entry.
pub fn parse_and_validate_leg(remaining: &Vec<RawRecord>, index: usize, basket_key: Address) -> (r:
    Result<WithdrawLeg, BasketError>)
    requires
        (index as int) * (WITHDRAW_ACCOUNTS_PER_TOKEN as int) + (WITHDRAW_ACCOUNTS_PER_TOKEN as int)
            <= remaining@.len(),
    ensures
        match r {
            Ok(leg) => {
                &&& withdraw_leg_error(remaining@, index as int, basket_key) is None
                &&& leg.basket_token == registration_of(
                    remaining@[(WITHDRAW_ACCOUNTS_PER_TOKEN as int) * (index as int)],
                )
                &&& leg.vault_record == remaining@[(WITHDRAW_ACCOUNTS_PER_TOKEN as int) * (
                index as int) + 2]
                &&& leg.user_ata_key == remaining@[(WITHDRAW_ACCOUNTS_PER_TOKEN as int) * (
                index as int) + 3].key
            },
            Err(e) => withdraw_leg_error(remaining@, index as int, basket_key) == Some(e),
        },
{
    let total = remaining.len();
    proof {
        assert((index as int) * (WITHDRAW_ACCOUNTS_PER_TOKEN as int) + (
        WITHDRAW_ACCOUNTS_PER_TOKEN as int) <= total as int);
    }
    let base = index * WITHDRAW_ACCOUNTS_PER_TOKEN;
    let bt = match remaining[base].data {
        RecordData::Registration(bt) => bt,
        _ => {
            return Err(BasketError::InvalidBasketWiring);
        },
    };
    if bt.basket != basket_key {
        return Err(BasketError::InvalidBasketWiring);
    }
    if !bt.enabled {
        return Err(BasketError::TokenNotEnabled);
    }
    if remaining[base + 1].key != bt.mint {
        return Err(BasketError::MintConfigMismatch);
    }
    if remaining[base + 2].key != bt.vault_ata {
        return Err(BasketError::InvalidBasketWiring);
    }
    Ok(
        WithdrawLeg {
            basket_token: bt,
            vault_record: remaining[base + 2],
            user_ata_key: remaining[base + 3].key,
        },
    )
}

/// One leg's proportional payout from its live vault balance, computed in
/// 128 bits.
pub fn compute_proportional_payout(leg: &WithdrawLeg, shares_to_burn: u64, total_supply: u64) -> (r:
    Result<u64, BasketError>)
    ensures
        match r {
            Ok(out) => {
                &&& is_token_account(leg.vault_record)
                &&& total_supply > 0
                &&& payout_amount(
                    balance_of(leg.vault_record) as int,
                    shares_to_burn as int,
                    total_supply as int,
                ) == out as int
            },
            Err(e) => {
                if !is_token_account(leg.vault_record) {
                    e == BasketError::InvalidBasketWiring
                } else {
                    &&& e == BasketError::ArithmeticOverflow
                    &&& (total_supply == 0 || payout_amount(
                        balance_of(leg.vault_record) as int,
                        shares_to_burn as int,
                        total_supply as int,
                    ) > u64::MAX)
                }
            },
        },
{
    let vault_balance = match read_vault_balance(&leg.vault_record) {
        Ok(b) => b,
        Err(e) => {
            return Err(e);
        },
    };
    proof {
        lemma_mul_upper_bound(
            vault_balance as int,
            u64::MAX as int,
            shares_to_burn as int,
            u64::MAX as int,
        );
    }
    let numerator = (vault_balance as u128) * (shares_to_burn as u128);
    let quotient = match numerator.checked_div(total_supply as u128) {
        Some(v) => v,
        None => {
            return Err(BasketError::ArithmeticOverflow);
        },
    };
    if quotient > u64::MAX as u128 {
        return Err(BasketError::ArithmeticOverflow);
    }
    Ok(quotient as u64)
}

/// The withdrawal engine.  Validates the whole call, then computes each
/// leg's proportional payout against the supply captured before the burn,
/// and returns the burn-and-payout plan — or the first error, with no plan
/// at all, so a failed call moves nothing.
#[verifier::loop_isolation(false)]
pub fn withdraw_multi(basket: &Basket, call: &WithdrawCall) -> (r: Result<
    WithdrawOutcome,
    BasketError,
>)
    ensures
        match r {
            Ok(out) => spec_withdraw(*basket, *call) == Ok::<Seq<TransferRequest>, BasketError>(
                out.payouts@,
            ) && out.shares_burned == call.shares_to_burn,
            Err(e) => spec_withdraw(*basket, *call) == Err::<Seq<TransferRequest>, BasketError>(e),
        },
        r is Ok ==> call.shares_to_burn > 0 && call.shares_to_burn <= call.user_share_balance
            && call.remaining@.len() == basket.token_count as int * (
        WITHDRAW_ACCOUNTS_PER_TOKEN as int),
        call.remaining@.len() != basket.token_count as int * (WITHDRAW_ACCOUNTS_PER_TOKEN as int)
            ==> r == Err::<WithdrawOutcome, BasketError>(BasketError::IncompleteWithdrawal),
{
    let n = match validate_remaining_layout(call.remaining.len(), basket.token_count) {
        Ok(n) => n,
        Err(e) => {
            return Err(e);
        },
    };
    if call.shares_to_burn == 0 {
        return Err(BasketError::InsufficientShares);
    }
    if call.user_share_balance < call.shares_to_burn {
        return Err(BasketError::InsufficientShares);
    }
    if call.share_mint_key != basket.share_mint {
        return Err(BasketError::ShareMintMismatch);
    }
    let expected_authority = crate::address::derive_vault_authority(
        basket.basket_id,
        basket.vault_authority_bump,
    );
    if call.vault_authority_key != expected_authority {
        return Err(BasketError::VaultAuthMismatch);
    }

    let mut payouts: Vec<TransferRequest> = Vec::new();
    let mut i: usize = 0;
    while i < n
        invariant
            i <= n,
            withdraw_leg_scan(
                call.remaining@,
                call.basket_key,
                n as int,
                0,
                call.shares_to_burn as int,
                call.share_supply as int,
                Seq::empty(),
            ) == withdraw_leg_scan(
                call.remaining@,
                call.basket_key,
                n as int,
                i as int,
                call.shares_to_burn as int,
                call.share_supply as int,
                payouts@,
            ),
        decreases n - i,
    {
        let leg = match parse_and_validate_leg(&call.remaining, i, call.basket_key) {
            Ok(leg) => leg,
            Err(e) => {
                return Err(e);
            },
        };
        let amount_out = match compute_proportional_payout(
            &leg,
            call.shares_to_burn,
            call.share_supply,
        ) {
            Ok(v) => v,
            Err(e) => {
                return Err(e);
            },
        };
        if amount_out > 0 {
            payouts.push(
                TransferRequest {
                    from: leg.basket_token.vault_ata,
                    to: leg.user_ata_key,
                    amount: amount_out,
                },
            );
        }
        i = i + 1;
    }
    Ok(WithdrawOutcome { shares_burned: call.shares_to_burn, payouts })
}

} // verus!
