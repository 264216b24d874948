use vstd::prelude::*;

use crate::address::Address;
use crate::address::mint_authority_address;
use crate::constants::DEPOSIT_ACCOUNTS_PER_TOKEN;
use crate::constants::QSHARE_DECIMALS;
use crate::error::BasketError;
use crate::math::fee_amount;
use crate::math::normalise_amount;
use crate::math::rescale_fits;
use crate::math::rescaled;
use crate::math::split_fee;
use crate::records::RawRecord;
use crate::records::RecordData;
use crate::records::TransferRequest;
use crate::records::balance_of;
use crate::records::is_registration;
use crate::records::is_token_account;
use crate::records::read_vault_balance;
use crate::records::registration_of;
use crate::state::Basket;
use crate::state::BasketToken;
use crate::state::Config;
use crate::state::UserAllowList;

verus! {

/// Everything one deposit call supplies: the basket's address, the
/// caller-supplied share-mint and mint-authority records, the share supply
/// read before any transfer of this call, the depositor, an optional
/// compliance entry, one amount per registered asset, and the flat record
/// list of per-asset legs.
#[derive(Debug)]
pub struct DepositCall {
    /// Address of the basket record the legs must reference.
    pub basket_key: Address,
    /// Address of the supplied share-mint record.
    pub share_mint_key: Address,
    /// Outstanding share supply, read before any transfer of this call.
    pub share_supply: u64,
    /// Address of the supplied mint-authority record.
    pub mint_authority_key: Address,
    /// The depositor's identity.
    pub user_key: Address,
    /// The supplied compliance entry, when one was passed.
    pub user_allow_list: Option<UserAllowList>,
    /// One deposit amount per registered asset, in registration order.
    pub amounts: Vec<u64>,
    /// The flat per-asset record list, `DEPOSIT_ACCOUNTS_PER_TOKEN` records
    /// per leg: registration, asset mint, user account, vault, fee vault.
    pub remaining: Vec<RawRecord>,
}

/// What a successful deposit asks the ledger to do: the listed transfers
/// out of the depositor's accounts, then a mint of `shares_minted` shares
/// to the depositor.  The plan is applied atomically or not at all.
#[derive(Debug, PartialEq, Eq)]
pub struct DepositOutcome {
    /// Net and fee transfers, in leg order.
    pub transfers: Vec<TransferRequest>,
    /// Shares to mint to the depositor; always positive.
    pub shares_minted: u64,
}

/// Layout check of a deposit: the amount list must cover every registered
/// asset exactly, and the record list must hold exactly one full group per
/// asset.
pub open spec fn deposit_layout_error(
    remaining_len: int,
    num_amounts: int,
    token_count: int,
) -> Option<BasketError> {
    if num_amounts != token_count {
        Some(BasketError::IncompleteWithdrawal)
    } else if remaining_len != num_amounts * (DEPOSIT_ACCOUNTS_PER_TOKEN as int) {
        Some(BasketError::InvalidRemainingAccounts)
    } else {
        None
    }
}

/// Compliance check: when gating is enabled, a supplied entry must allow
/// this user for this basket; anything else is a denial.
pub open spec fn compliance_error(
    config: Config,
    basket_key: Address,
    user_key: Address,
    entry: Option<UserAllowList>,
) -> Option<BasketError> {
    if !config.compliance_enabled {
        None
    } else {
        match entry {
            Option::None => Some(BasketError::ComplianceDenied),
            Option::Some(e) => {
                if !e.allowed {
                    Some(BasketError::ComplianceDenied)
                } else if e.basket != basket_key {
                    Some(BasketError::ComplianceDenied)
                } else if e.user != user_key {
                    Some(BasketError::ComplianceDenied)
                } else {
                    None
                }
            },
        }
    }
}

/// The up-front checks of a deposit, in the order the engine makes them:
/// layout, share-mint identity, derived mint authority, compliance.
pub open spec fn deposit_static_error(config: Config, basket: Basket, call: DepositCall) -> Option<
    BasketError,
> {
    let layout = deposit_layout_error(
        call.remaining@.len() as int,
        call.amounts@.len() as int,
        basket.token_count as int,
    );
    if layout is Some {
        layout
    } else if call.share_mint_key != basket.share_mint {
        Some(BasketError::ShareMintMismatch)
    } else if call.mint_authority_key != mint_authority_address(
        basket.basket_id,
        basket.mint_authority_bump,
    ) {
        Some(BasketError::InvalidBasketWiring)
    } else {
        compliance_error(config, call.basket_key, call.user_key, call.user_allow_list)
    }
}

/// Leg `j`'s vault record read as a token account whose balance is
/// `balances[j]`: what the snapshot loop establishes for every scanned leg.
pub open spec fn snapshot_leg_ok(remaining: Seq<RawRecord>, balances: Seq<u64>, j: int) -> bool {
    &&& is_token_account(remaining[(DEPOSIT_ACCOUNTS_PER_TOKEN as int) * j + 3])
    &&& balances[j] == balance_of(remaining[(DEPOSIT_ACCOUNTS_PER_TOKEN as int) * j + 3])
}

/// The pre-transfer balance snapshot: every leg's vault record, at its
/// fixed offset, must read as a token account.  Returns the first leg's
/// failure, scanning from leg `i`.
pub open spec fn snapshot_error_from(remaining: Seq<RawRecord>, n: int, i: int) -> Option<
    BasketError,
>
    decreases n - i,
{
    if i >= n {
        None
    } else if !is_token_account(remaining[(DEPOSIT_ACCOUNTS_PER_TOKEN as int) * i + 3]) {
        Some(BasketError::InvalidBasketWiring)
    } else {
        snapshot_error_from(remaining, n, i + 1)
    }
}

/// Total vault value: the sum over legs of every vault's snapshot balance,
/// rescaled to share precision, accumulated in 128 bits from leg `i`
/// onward on top of `acc`.  Fails on a record that is not a registration,
/// on a rescaling that does not fit, and on an accumulator overflow.
pub open spec fn tvv_scan(remaining: Seq<RawRecord>, n: int, i: int, acc: int) -> Result<
    int,
    BasketError,
>
    decreases n - i,
{
    if i >= n {
        Ok(acc)
    } else {
        let rec = remaining[(DEPOSIT_ACCOUNTS_PER_TOKEN as int) * i];
        if !is_registration(rec) {
            Err(BasketError::InvalidBasketWiring)
        } else {
            let bt = registration_of(rec);
            let balance = balance_of(
                remaining[(DEPOSIT_ACCOUNTS_PER_TOKEN as int) * i + 3],
            ) as int;
            if !rescale_fits(balance, bt.decimals as int, QSHARE_DECIMALS as int) {
                Err(BasketError::ArithmeticOverflow)
            } else if acc + rescaled(balance, bt.decimals as int, QSHARE_DECIMALS as int)
                > u128::MAX {
                Err(BasketError::ArithmeticOverflow)
            } else {
                tvv_scan(
                    remaining,
                    n,
                    i + 1,
                    acc + rescaled(balance, bt.decimals as int, QSHARE_DECIMALS as int),
                )
            }
        }
    }
}

/// Wiring check of deposit leg `i`: the leg's first record must be a
/// registration belonging to this basket with the asset enabled, and the
/// asset-mint, vault and fee-vault records must sit at their fixed offsets
/// under exactly the addresses the registration stores.
pub open spec fn deposit_leg_error(
    remaining: Seq<RawRecord>,
    i: int,
    basket_key: Address,
) -> Option<BasketError> {
    let base = (DEPOSIT_ACCOUNTS_PER_TOKEN as int) * i;
    let rec = remaining[base];
    if !is_registration(rec) {
        Some(BasketError::InvalidBasketWiring)
    } else {
        let bt = registration_of(rec);
        if bt.basket != basket_key {
            Some(BasketError::InvalidBasketWiring)
        } else if !bt.enabled {
            Some(BasketError::TokenNotEnabled)
        } else if remaining[base + 1].key != bt.mint {
            Some(BasketError::MintConfigMismatch)
        } else if remaining[base + 3].key != bt.vault_ata {
            Some(BasketError::InvalidBasketWiring)
        } else if remaining[base + 4].key != bt.fee_vault_ata {
            Some(BasketError::InvalidBasketWiring)
        } else {
            None
        }
    }
}

/// Shares one leg earns for a normalized net deposit: the first depositor
/// gets one share per normalized unit (the peg); afterwards shares are
/// priced pro rata against the snapshot total vault value.
pub open spec fn leg_share_amount(norm_net: int, supply: int, tvv: int) -> int {
    if supply == 0 {
        norm_net
    } else {
        norm_net * supply / tvv
    }
}

/// The per-leg phase of a deposit, from leg `i` onward: validate the leg's
/// wiring, reject a zero amount, split the fee, queue the net and fee
/// transfers, rescale the net amount, price the leg's shares, and
/// accumulate them with every representability check the engine makes.
pub open spec fn deposit_leg_scan(
    remaining: Seq<RawRecord>,
    amounts: Seq<u64>,
    basket_key: Address,
    n: int,
    i: int,
    fee_bps: int,
    supply: int,
    tvv: int,
    shares_acc: int,
    transfers_acc: Seq<TransferRequest>,
) -> Result<(Seq<TransferRequest>, u64), BasketError>
    decreases n - i,
{
    if i >= n {
        Ok((transfers_acc, shares_acc as u64))
    } else {
        let leg_err = deposit_leg_error(remaining, i, basket_key);
        if leg_err is Some {
            Err(leg_err->0)
        } else {
            let base = (DEPOSIT_ACCOUNTS_PER_TOKEN as int) * i;
            let bt = registration_of(remaining[base]);
            let amount = amounts[i] as int;
            if amount == 0 {
                Err(BasketError::ZeroDeposit)
            } else if fee_amount(amount, fee_bps) > amount {
                Err(BasketError::ArithmeticOverflow)
            } else {
                let fee = fee_amount(amount, fee_bps);
                let net = amount - fee;
                let user_ata = remaining[base + 2].key;
                let with_net = transfers_acc.push(
                    TransferRequest { from: user_ata, to: bt.vault_ata, amount: net as u64 },
                );
                let queued = if fee > 0 {
                    with_net.push(
                        TransferRequest {
                            from: user_ata,
                            to: bt.fee_vault_ata,
                            amount: fee as u64,
                        },
                    )
                } else {
                    with_net
                };
                if !rescale_fits(net, bt.decimals as int, QSHARE_DECIMALS as int) {
                    Err(BasketError::ArithmeticOverflow)
                } else {
                    let norm_net = rescaled(net, bt.decimals as int, QSHARE_DECIMALS as int);
                    if supply == 0 {
                        if norm_net > u64::MAX {
                            Err(BasketError::ArithmeticOverflow)
                        } else if shares_acc + norm_net > u64::MAX {
                            Err(BasketError::ArithmeticOverflow)
                        } else {
                            deposit_leg_scan(
                                remaining,
                                amounts,
                                basket_key,
                                n,
                                i + 1,
                                fee_bps,
                                supply,
                                tvv,
                                shares_acc + norm_net,
                                queued,
                            )
                        }
                    } else {
                        if norm_net * supply > u128::MAX {
                            Err(BasketError::ArithmeticOverflow)
                        } else if tvv == 0 {
                            Err(BasketError::ArithmeticOverflow)
                        } else {
                            let shares = norm_net * supply / tvv;
                            if shares > u64::MAX {
                                Err(BasketError::ArithmeticOverflow)
                            } else if shares_acc + shares > u64::MAX {
                                Err(BasketError::ArithmeticOverflow)
                            } else {
                                deposit_leg_scan(
                                    remaining,
                                    amounts,
                                    basket_key,
                                    n,
                                    i + 1,
                                    fee_bps,
                                    supply,
                                    tvv,
                                    shares_acc + shares,
                                    queued,
                                )
                            }
                        }
                    }
                }
            }
        }
    }
}

/// The whole deposit as a mathematical function of its inputs: either the
/// exact transfer plan and share amount, or the exact error, in the order
/// the engine checks things — static checks, balance snapshot, total vault
/// value, per-leg processing, and finally the zero-mint guard.
pub open spec fn spec_deposit(config: Config, basket: Basket, call: DepositCall) -> Result<
    (Seq<TransferRequest>, u64),
    BasketError,
> {
    let static_err = deposit_static_error(config, basket, call);
    if static_err is Some {
        Err(static_err->0)
    } else {
        let n = basket.token_count as int;
        let snap_err = snapshot_error_from(call.remaining@, n, 0);
        if snap_err is Some {
            Err(snap_err->0)
        } else {
            let fee_bps = basket.spec_effective_fee_bps(config.fee_bps) as int;
            match tvv_scan(call.remaining@, n, 0, 0) {
                Err(e) => Err(e),
                Ok(tvv) => {
                    match deposit_leg_scan(
                        call.remaining@,
                        call.amounts@,
                        call.basket_key,
                        n,
                        0,
                        fee_bps,
                        call.share_supply as int,
                        tvv,
                        0,
                        Seq::empty(),
                    ) {
                        Err(e) => Err(e),
                        Ok(out) => {
                            if out.1 == 0 {
                                Err(BasketError::ZeroSharesMinted)
                            } else {
                                Ok(out)
                            }
                        },
                    }
                },
            }
        }
    }
}

/// Checks that a deposit covers all registered assets with a full record
/// group per asset.
pub fn validate_remaining_layout(remaining_len: usize, num_tokens: usize, token_count: u8) -> (r:
    Result<(), BasketError>)
    ensures
        match r {
            Ok(()) => deposit_layout_error(
                remaining_len as int,
                num_tokens as int,
                token_count as int,
            ) is None,
            Err(e) => deposit_layout_error(
                remaining_len as int,
                num_tokens as int,
                token_count as int,
            ) == Some(e),
        },
{
    if num_tokens != token_count as usize {
        return Err(BasketError::IncompleteWithdrawal);
    }
    if remaining_len != num_tokens * DEPOSIT_ACCOUNTS_PER_TOKEN {
        return Err(BasketError::InvalidRemainingAccounts);
    }
    Ok(())
}

/// Checks the compliance gate for one depositor.
pub fn check_compliance(
    config: &Config,
    basket_key: Address,
    user_key: Address,
    entry: &Option<UserAllowList>,
) -> (r: Result<(), BasketError>)
    ensures
        match r {
            Ok(()) => compliance_error(*config, basket_key, user_key, *entry) is None,
            Err(e) => compliance_error(*config, basket_key, user_key, *entry) == Some(e),
        },
{
    if !config.compliance_enabled {
        return Ok(());
    }
    match entry {
        Option::None => Err(BasketError::ComplianceDenied),
        Option::Some(e) => {
            if !e.allowed {
                Err(BasketError::ComplianceDenied)
            } else if e.basket != basket_key {
                Err(BasketError::ComplianceDenied)
            } else if e.user != user_key {
                Err(BasketError::ComplianceDenied)
            } else {
                Ok(())
            }
        },
    }
}

/// The records of one validated deposit leg that later steps use.
pub struct TokenLeg {
    /// The leg's registration entry.
    pub basket_token: BasketToken,
    /// Address of the depositor's account for this asset.
    pub user_ata_key: Address,
}

/// Resolves deposit leg `index` out of the flat record list, checking its
/// wiring against the registration entry.
pub fn parse_and_validate_leg(remaining: &Vec<RawRecord>, index: usize, basket_key: Address) -> (r:
    Result<TokenLeg, BasketError>)
    requires
        (index as int) * (DEPOSIT_ACCOUNTS_PER_TOKEN as int) + (DEPOSIT_ACCOUNTS_PER_TOKEN as int)
            <= remaining@.len(),
    ensures
        match r {
            Ok(leg) => {
                &&& deposit_leg_error(remaining@, index as int, basket_key) is None
                &&& leg.basket_token == registration_of(
                    remaining@[(DEPOSIT_ACCOUNTS_PER_TOKEN as int) * (index as int)],
                )
                &&& leg.user_ata_key == remaining@[(DEPOSIT_ACCOUNTS_PER_TOKEN as int) * (
                index as int) + 2].key
            },
            Err(e) => deposit_leg_error(remaining@, index as int, basket_key) == Some(e),
        },
{
    let total = remaining.len();
    proof {
        assert((index as int) * (DEPOSIT_ACCOUNTS_PER_TOKEN as int) + (
        DEPOSIT_ACCOUNTS_PER_TOKEN as int) <= total as int);
    }
    let base = index * DEPOSIT_ACCOUNTS_PER_TOKEN;
    let bt = match remaining[base].data {
        RecordData::Registration(bt) => bt,
        _ => {
            return Err(BasketError::InvalidBasketWiring);
        },
    };
    if bt.basket != basket_key {
        return Err(BasketError::InvalidBasketWiring);
    }
    if !bt.enabled {
        return Err(BasketError::TokenNotEnabled);
    }
    if remaining[base + 1].key != bt.mint {
        return Err(BasketError::MintConfigMismatch);
    }
    if remaining[base + 3].key != bt.vault_ata {
        return Err(BasketError::InvalidBasketWiring);
    }
    if remaining[base + 4].key != bt.fee_vault_ata {
        return Err(BasketError::InvalidBasketWiring);
    }
    Ok(TokenLeg { basket_token: bt, user_ata_key: remaining[base + 2].key })
}

/// The deposit engine.  Validates the whole call against the registry,
/// snapshots every vault balance before any transfer, prices each leg's
/// shares against the same pre-transfer baseline, and returns the full
/// transfer-and-mint plan — or the first error, with no plan at all, so a
/// failed call moves nothing.
#[verifier::loop_isolation(false)]
pub fn deposit_multi(config: &Config, basket: &Basket, call: &DepositCall) -> (r: Result<
    DepositOutcome,
    BasketError,
>)
    ensures
        match r {
            Ok(out) => spec_deposit(*config, *basket, *call) == Ok::<
                (Seq<TransferRequest>, u64),
                BasketError,
            >((out.transfers@, out.shares_minted)),
            Err(e) => spec_deposit(*config, *basket, *call) == Err::<
                (Seq<TransferRequest>, u64),
                BasketError,
            >(e),
        },
        r matches Ok(out) ==> out.shares_minted > 0,
        r is Ok ==> call.amounts@.len() == basket.token_count as int && call.remaining@.len()
            == basket.token_count as int * (DEPOSIT_ACCOUNTS_PER_TOKEN as int),
        call.amounts@.len() != basket.token_count as int ==> r == Err::<
            DepositOutcome,
            BasketError,
        >(BasketError::IncompleteWithdrawal),
        call.amounts@.len() == basket.token_count as int && call.remaining@.len()
            != basket.token_count as int * (DEPOSIT_ACCOUNTS_PER_TOKEN as int) ==> r == Err::<
            DepositOutcome,
            BasketError,
        >(BasketError::InvalidRemainingAccounts),
{
    let num_tokens = call.amounts.len();
    if let Err(e) = validate_remaining_layout(call.remaining.len(), num_tokens, basket.token_count)
        {
        return Err(e);
    }
    if call.share_mint_key != basket.share_mint {
        return Err(BasketError::ShareMintMismatch);
    }
    let expected_authority = crate::address::derive_mint_authority(
        basket.basket_id,
        basket.mint_authority_bump,
    );
    if call.mint_authority_key != expected_authority {
        return Err(BasketError::InvalidBasketWiring);
    }
    if let Err(e) = check_compliance(config, call.basket_key, call.user_key, &call.user_allow_list)
        {
        return Err(e);
    }
    let fee_bps = basket.effective_fee_bps(config.fee_bps);
    let n = num_tokens;

    // Pre-transfer snapshot: read every vault balance before any transfer,
    // so that all legs of this call are priced against the same baseline.
    let mut balances: Vec<u64> = Vec::new();
    let mut i: usize = 0;
    while i < n
        invariant
            i <= n,
            balances@.len() == i as int,
            forall|j: int| 0 <= j < i as int ==> #[trigger] snapshot_leg_ok(
                call.remaining@,
                balances@,
                j,
            ),
            snapshot_error_from(call.remaining@, n as int, 0) == snapshot_error_from(
                call.remaining@,
                n as int,
                i as int,
            ),
        decreases n - i,
    {
        let base = i * DEPOSIT_ACCOUNTS_PER_TOKEN;
        match read_vault_balance(&call.remaining[base + 3]) {
            Ok(b) => {
                let ghost prev = balances@;
                balances.push(b);
                proof {
                    assert(base + 3 == (DEPOSIT_ACCOUNTS_PER_TOKEN as int) * (i as int) + 3);
                    assert forall|j: int| 0 <= j < i as int + 1 implies #[trigger] snapshot_leg_ok(
                        call.remaining@,
                        balances@,
                        j,
                    ) by {
                        if j < i as int {
                            assert(snapshot_leg_ok(call.remaining@, prev, j));
                            assert(balances@[j] == prev[j]);
                        }
                    }
                }
            },
            Err(e) => {
                return Err(e);
            },
        }
        i = i + 1;
    }

    // Total vault value: the normalized sum of the snapshot balances.
    let mut tvv: u128 = 0;
    let mut i: usize = 0;
    while i < n
        invariant
            i <= n,
            tvv_scan(call.remaining@, n as int, 0, 0) == tvv_scan(
                call.remaining@,
                n as int,
                i as int,
                tvv as int,
            ),
        decreases n - i,
    {
        let base = i * DEPOSIT_ACCOUNTS_PER_TOKEN;
        proof {
            assert(snapshot_leg_ok(call.remaining@, balances@, i as int));
            assert(base == (DEPOSIT_ACCOUNTS_PER_TOKEN as int) * (i as int));
        }
        let bt = match call.remaining[base].data {
            RecordData::Registration(bt) => bt,
            _ => {
                return Err(BasketError::InvalidBasketWiring);
            },
        };
        match normalise_amount(balances[i], bt.decimals) {
            Ok(v) => {
                match tvv.checked_add(v) {
                    Some(t) => {
                        tvv = t;
                    },
                    None => {
                        return Err(BasketError::ArithmeticOverflow);
                    },
                }
            },
            Err(e) => {
                return Err(e);
            },
        }
        i = i + 1;
    }

    // Per-leg processing: wiring, fee split, transfers, pricing.
    let mut total_shares: u64 = 0;
    let mut transfers: Vec<TransferRequest> = Vec::new();
    let mut i: usize = 0;
    while i < n
        invariant
            i <= n,
            deposit_leg_scan(
                call.remaining@,
                call.amounts@,
                call.basket_key,
                n as int,
                0,
                fee_bps as int,
                call.share_supply as int,
                tvv as int,
                0,
                Seq::empty(),
            ) == deposit_leg_scan(
                call.remaining@,
                call.amounts@,
                call.basket_key,
                n as int,
                i as int,
                fee_bps as int,
                call.share_supply as int,
                tvv as int,
                total_shares as int,
                transfers@,
            ),
        decreases n - i,
    {
        let leg = match parse_and_validate_leg(&call.remaining, i, call.basket_key) {
            Ok(leg) => leg,
            Err(e) => {
                return Err(e);
            },
        };
        let amount = call.amounts[i];
        if amount == 0 {
            return Err(BasketError::ZeroDeposit);
        }
        let (net, fee) = match split_fee(amount, fee_bps) {
            Ok(parts) => parts,
            Err(e) => {
                return Err(e);
            },
        };
        transfers.push(
            TransferRequest { from: leg.user_ata_key, to: leg.basket_token.vault_ata, amount: net },
        );
        if fee > 0 {
            transfers.push(
                TransferRequest {
                    from: leg.user_ata_key,
                    to: leg.basket_token.fee_vault_ata,
                    amount: fee,
                },
            );
        }
        let norm_net = match normalise_amount(net, leg.basket_token.decimals) {
            Ok(v) => v,
            Err(e) => {
                return Err(e);
            },
        };
        let shares_for_leg: u64;
        if call.share_supply == 0 {
            if norm_net > u64::MAX as u128 {
                return Err(BasketError::ArithmeticOverflow);
            }
            shares_for_leg = norm_net as u64;
        } else {
            let numerator = match norm_net.checked_mul(call.share_supply as u128) {
                Some(v) => v,
                None => {
                    return Err(BasketError::ArithmeticOverflow);
                },
            };
            let quotient = match numerator.checked_div(tvv) {
                Some(v) => v,
                None => {
                    return Err(BasketError::ArithmeticOverflow);
                },
            };
            if quotient > u64::MAX as u128 {
                return Err(BasketError::ArithmeticOverflow);
            }
            shares_for_leg = quotient as u64;
        }
        total_shares = match total_shares.checked_add(shares_for_leg) {
            Some(t) => t,
            None => {
                return Err(BasketError::ArithmeticOverflow);
            },
        };
        i = i + 1;
    }

    if total_shares == 0 {
        return Err(BasketError::ZeroSharesMinted);
    }
    Ok(DepositOutcome { transfers, shares_minted: total_shares })
}

} // verus!
