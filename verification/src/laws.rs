use vstd::prelude::*;

use vstd::arithmetic::div_mod::lemma_div_is_ordered;
use vstd::arithmetic::div_mod::lemma_div_multiples_vanish;
use vstd::arithmetic::div_mod::lemma_div_pos_is_pos;
use vstd::arithmetic::div_mod::lemma_fundamental_div_mod;
use vstd::arithmetic::div_mod::lemma_mod_division_less_than_divisor;
use vstd::arithmetic::div_mod::lemma_multiply_divide_le;
use vstd::arithmetic::mul::lemma_mul_inequality_converse;
use vstd::arithmetic::mul::lemma_mul_is_commutative;
use vstd::arithmetic::mul::lemma_mul_is_distributive_add;
use vstd::arithmetic::mul::lemma_mul_is_distributive_add_other_way;
use vstd::arithmetic::mul::lemma_mul_left_inequality;
use vstd::arithmetic::mul::lemma_mul_nonnegative;

use crate::address::Address;
use crate::constants::DEPOSIT_ACCOUNTS_PER_TOKEN;
use crate::constants::QSHARE_DECIMALS;
use crate::constants::WITHDRAW_ACCOUNTS_PER_TOKEN;
use crate::deposit::DepositCall;
use crate::deposit::deposit_leg_error;
use crate::deposit::deposit_leg_scan;
use crate::deposit::leg_share_amount;
use crate::deposit::spec_deposit;
use crate::error::BasketError;
use crate::math::fee_amount;
use crate::math::lemma_pow10_positive;
use crate::math::pow10;
use crate::math::rescaled;
use crate::records::RawRecord;
use crate::records::TransferRequest;
use crate::records::balance_of;
use crate::records::registration_of;
use crate::state::Basket;
use crate::state::Config;
use crate::withdraw::WithdrawCall;
use crate::withdraw::payout_amount;
use crate::withdraw::spec_withdraw;
use crate::withdraw::withdraw_leg_error;
use crate::withdraw::withdraw_leg_scan;

verus! {

/// Total amount moved by a list of transfer requests.
pub open spec fn sum_amounts(ts: Seq<TransferRequest>) -> int
    decreases ts.len(),
{
    if ts.len() == 0 {
        0
    } else {
        sum_amounts(ts.drop_last()) + ts.last().amount
    }
}

/// Sum of the vault balances of withdrawal legs `i..n`.
pub open spec fn sum_vault_balances_from(remaining: Seq<RawRecord>, n: int, i: int) -> int
    decreases n - i,
{
    if i >= n {
        0
    } else {
        balance_of(remaining[(WITHDRAW_ACCOUNTS_PER_TOKEN as int) * i + 2])
            + sum_vault_balances_from(remaining, n, i + 1)
    }
}

/// A proportional payout never exceeds the vault balance it is taken from,
/// as long as no more shares are burned than exist.
pub proof fn lemma_payout_le_balance(balance: int, shares: int, supply: int)
    requires
        0 <= balance,
        0 <= shares <= supply,
        0 < supply,
    ensures
        0 <= payout_amount(balance, shares, supply) <= balance,
{
    lemma_mul_nonnegative(balance, shares);
    lemma_div_pos_is_pos(balance * shares, supply);
    if balance > 0 {
        lemma_mul_left_inequality(balance, shares, supply);
    }
    lemma_div_is_ordered(balance * shares, balance * supply, supply);
    lemma_mul_is_commutative(balance, supply);
    lemma_div_multiples_vanish(balance, supply);
}

/// Every payout list a per-leg withdrawal scan can produce moves, in
/// total, no more than the scanned vaults held.
proof fn lemma_withdraw_scan_conservation(
    remaining: Seq<RawRecord>,
    basket_key: Address,
    n: int,
    i: int,
    shares: int,
    supply: int,
    acc: Seq<TransferRequest>,
    result: Seq<TransferRequest>,
)
    requires
        0 <= i <= n,
        0 <= shares <= supply,
        withdraw_leg_scan(remaining, basket_key, n, i, shares, supply, acc) == Ok::<
            Seq<TransferRequest>,
            BasketError,
        >(result),
    ensures
        sum_amounts(result) <= sum_amounts(acc) + sum_vault_balances_from(remaining, n, i),
    decreases n - i,
{
    if i < n {
        let base = (WITHDRAW_ACCOUNTS_PER_TOKEN as int) * i;
        let bt = registration_of(remaining[base]);
        let balance = balance_of(remaining[base + 2]) as int;
        let out = payout_amount(balance, shares, supply);
        lemma_payout_le_balance(balance, shares, supply);
        if out == 0 {
            lemma_withdraw_scan_conservation(
                remaining,
                basket_key,
                n,
                i + 1,
                shares,
                supply,
                acc,
                result,
            );
        } else {
            let pushed = acc.push(
                TransferRequest {
                    from: bt.vault_ata,
                    to: remaining[base + 3].key,
                    amount: out as u64,
                },
            );
            lemma_withdraw_scan_conservation(
                remaining,
                basket_key,
                n,
                i + 1,
                shares,
                supply,
                pushed,
                result,
            );
            assert(pushed.drop_last() =~= acc);
            assert(sum_amounts(pushed) == sum_amounts(acc) + out);
        }
    }
}

/// Conservation law: a successful withdrawal burning `s` shares when the
/// total supply is `T >= s` pays each leg exactly
/// `floor(vault_balance * s / T)` (by construction of `spec_withdraw`) and
/// pays out, summed over all legs, no more than the vaults held.
pub proof fn lemma_withdraw_conservation(
    basket: Basket,
    call: WithdrawCall,
    payouts: Seq<TransferRequest>,
)
    requires
        call.shares_to_burn <= call.share_supply,
        spec_withdraw(basket, call) == Ok::<Seq<TransferRequest>, BasketError>(payouts),
    ensures
        sum_amounts(payouts) <= sum_vault_balances_from(
            call.remaining@,
            basket.token_count as int,
            0,
        ),
{
    lemma_withdraw_scan_conservation(
        call.remaining@,
        call.basket_key,
        basket.token_count as int,
        0,
        call.shares_to_burn as int,
        call.share_supply as int,
        Seq::empty(),
        payouts,
    );
}

/// A successful per-leg deposit scan implies that every scanned leg was
/// wired correctly.
proof fn lemma_deposit_scan_ok_legs(
    remaining: Seq<RawRecord>,
    amounts: Seq<u64>,
    basket_key: Address,
    n: int,
    i: int,
    fee_bps: int,
    supply: int,
    tvv: int,
    shares_acc: int,
    transfers_acc: Seq<TransferRequest>,
    j: int,
)
    requires
        0 <= i <= j < n,
        deposit_leg_scan(
            remaining,
            amounts,
            basket_key,
            n,
            i,
            fee_bps,
            supply,
            tvv,
            shares_acc,
            transfers_acc,
        ) is Ok,
    ensures
        deposit_leg_error(remaining, j, basket_key) is None,
    decreases j - i,
{
    if i < j {
        let base = (DEPOSIT_ACCOUNTS_PER_TOKEN as int) * i;
        let bt = registration_of(remaining[base]);
        let amount = amounts[i] as int;
        let fee = fee_amount(amount, fee_bps);
        let net = amount - fee;
        let user_ata = remaining[base + 2].key;
        let with_net = transfers_acc.push(
            TransferRequest { from: user_ata, to: bt.vault_ata, amount: net as u64 },
        );
        let queued = if fee > 0 {
            with_net.push(
                TransferRequest { from: user_ata, to: bt.fee_vault_ata, amount: fee as u64 },
            )
        } else {
            with_net
        };
        let norm_net = rescaled(net, bt.decimals as int, QSHARE_DECIMALS as int);
        let shares = if supply == 0 {
            norm_net
        } else {
            norm_net * supply / tvv
        };
        lemma_deposit_scan_ok_legs(
            remaining,
            amounts,
            basket_key,
            n,
            i + 1,
            fee_bps,
            supply,
            tvv,
            shares_acc + shares,
            queued,
            j,
        );
    }
}

/// Wiring-rejection law: a deposit whose leg `i` presents any record that
/// does not match the registry entry — a foreign or disabled registration,
/// a wrong asset mint, a wrong vault, a wrong fee vault — fails as a
/// whole, whatever the other legs look like.
pub proof fn lemma_deposit_wiring_rejection(
    config: Config,
    basket: Basket,
    call: DepositCall,
    i: int,
)
    requires
        0 <= i < basket.token_count as int,
        deposit_leg_error(call.remaining@, i, call.basket_key) is Some,
    ensures
        spec_deposit(config, basket, call) is Err,
{
    if spec_deposit(config, basket, call) is Ok {
        let tvv = tvv_value(config, basket, call);
        lemma_deposit_scan_ok_legs(
            call.remaining@,
            call.amounts@,
            call.basket_key,
            basket.token_count as int,
            0,
            basket.spec_effective_fee_bps(config.fee_bps) as int,
            call.share_supply as int,
            tvv,
            0,
            Seq::empty(),
            i,
        );
    }
}

/// The total vault value a deposit call works with; meaningful only when
/// the call got past its snapshot phase.
pub open spec fn tvv_value(config: Config, basket: Basket, call: DepositCall) -> int {
    crate::deposit::tvv_scan(call.remaining@, basket.token_count as int, 0, 0)->Ok_0
}

/// A successful per-leg withdrawal scan implies that every scanned leg was
/// wired correctly.
proof fn lemma_withdraw_scan_ok_legs(
    remaining: Seq<RawRecord>,
    basket_key: Address,
    n: int,
    i: int,
    shares: int,
    supply: int,
    acc: Seq<TransferRequest>,
    j: int,
)
    requires
        0 <= i <= j < n,
        withdraw_leg_scan(remaining, basket_key, n, i, shares, supply, acc) is Ok,
    ensures
        withdraw_leg_error(remaining, j, basket_key) is None,
    decreases j - i,
{
    if i < j {
        let base = (WITHDRAW_ACCOUNTS_PER_TOKEN as int) * i;
        let bt = registration_of(remaining[base]);
        let out = payout_amount(balance_of(remaining[base + 2]) as int, shares, supply);
        let pushed = acc.push(
            TransferRequest {
                from: bt.vault_ata,
                to: remaining[base + 3].key,
                amount: out as u64,
            },
        );
        if out == 0 {
            lemma_withdraw_scan_ok_legs(remaining, basket_key, n, i + 1, shares, supply, acc, j);
        } else {
            lemma_withdraw_scan_ok_legs(remaining, basket_key, n, i + 1, shares, supply, pushed, j);
        }
    }
}

/// Wiring-rejection law for withdrawals: a bad record in any leg fails the
/// whole call.
pub proof fn lemma_withdraw_wiring_rejection(basket: Basket, call: WithdrawCall, i: int)
    requires
        0 <= i < basket.token_count as int,
        withdraw_leg_error(call.remaining@, i, call.basket_key) is Some,
    ensures
        spec_withdraw(basket, call) is Err,
{
    if spec_withdraw(basket, call) is Ok {
        lemma_withdraw_scan_ok_legs(
            call.remaining@,
            call.basket_key,
            basket.token_count as int,
            0,
            call.shares_to_burn as int,
            call.share_supply as int,
            Seq::empty(),
            i,
        );
    }
}

/// Zero-mint law: no deposit ever succeeds with zero shares; a plan that
/// would mint nothing is rejected outright, and a rejected call returns no
/// plan at all.
pub proof fn lemma_no_zero_mint(
    config: Config,
    basket: Basket,
    call: DepositCall,
    transfers: Seq<TransferRequest>,
    shares: u64,
)
    requires
        spec_deposit(config, basket, call) == Ok::<(Seq<TransferRequest>, u64), BasketError>(
            (transfers, shares),
        ),
    ensures
        shares > 0,
{
}

/// What a successful one-leg deposit scan pins down: the fee fits in the
/// amount, and the minted shares are exactly the engine's pricing rule
/// applied to the rescaled net amount.
proof fn lemma_single_leg_scan(
    remaining: Seq<RawRecord>,
    amounts: Seq<u64>,
    basket_key: Address,
    fee_bps: int,
    supply: int,
    tvv: int,
    transfers: Seq<TransferRequest>,
    shares: u64,
)
    requires
        deposit_leg_scan(
            remaining,
            amounts,
            basket_key,
            1,
            0,
            fee_bps,
            supply,
            tvv,
            0,
            Seq::empty(),
        ) == Ok::<(Seq<TransferRequest>, u64), BasketError>((transfers, shares)),
        0 <= fee_bps,
        0 <= supply,
    ensures
        ({
            let amount = amounts[0] as int;
            let net = amount - fee_amount(amount, fee_bps);
            let norm_net = rescaled(
                net,
                registration_of(remaining[0]).decimals as int,
                QSHARE_DECIMALS as int,
            );
            &&& fee_amount(amount, fee_bps) <= amount
            &&& 0 <= norm_net
            &&& (supply == 0 ==> shares as int == norm_net)
            &&& (supply > 0 ==> tvv != 0 && (tvv > 0 ==> shares as int == norm_net * supply / tvv))
        }),
{
    let amount = amounts[0] as int;
    let fee = fee_amount(amount, fee_bps);
    let net = amount - fee;
    assert((DEPOSIT_ACCOUNTS_PER_TOKEN as int) * 0 == 0);
    let bt = registration_of(remaining[0]);
    let user_ata = remaining[2].key;
    let with_net = Seq::<TransferRequest>::empty().push(
        TransferRequest { from: user_ata, to: bt.vault_ata, amount: net as u64 },
    );
    let queued = if fee > 0 {
        with_net.push(TransferRequest { from: user_ata, to: bt.fee_vault_ata, amount: fee as u64 })
    } else {
        with_net
    };
    let norm_net = rescaled(net, bt.decimals as int, QSHARE_DECIMALS as int);
    crate::math::lemma_rescaled_nonneg(net, bt.decimals as int, QSHARE_DECIMALS as int);
    if supply == 0 {
        assert(deposit_leg_scan(
            remaining,
            amounts,
            basket_key,
            1,
            1,
            fee_bps,
            supply,
            tvv,
            0 + norm_net,
            queued,
        ) == Ok::<(Seq<TransferRequest>, u64), BasketError>((queued, (0 + norm_net) as u64)));
    } else {
        let q = norm_net * supply / tvv;
        assert(deposit_leg_scan(
            remaining,
            amounts,
            basket_key,
            1,
            1,
            fee_bps,
            supply,
            tvv,
            0 + q,
            queued,
        ) == Ok::<(Seq<TransferRequest>, u64), BasketError>((queued, (0 + q) as u64)));
        if tvv > 0 {
            lemma_mul_nonnegative(norm_net, supply);
            lemma_div_pos_is_pos(norm_net * supply, tvv);
        }
    }
}

/// First-depositor peg: when the share supply is zero, a one-asset deposit
/// mints exactly the net amount rescaled to share precision — one share
/// per normalized unit of value.
pub proof fn lemma_first_depositor_peg(
    config: Config,
    basket: Basket,
    call: DepositCall,
    transfers: Seq<TransferRequest>,
    shares: u64,
)
    requires
        basket.token_count == 1,
        call.share_supply == 0,
        spec_deposit(config, basket, call) == Ok::<(Seq<TransferRequest>, u64), BasketError>(
            (transfers, shares),
        ),
    ensures
        ({
            let fee_bps = basket.spec_effective_fee_bps(config.fee_bps) as int;
            let net = call.amounts@[0] - fee_amount(call.amounts@[0] as int, fee_bps);
            shares == rescaled(
                net,
                registration_of(call.remaining@[0]).decimals as int,
                QSHARE_DECIMALS as int,
            )
        }),
{
    let fee_bps = basket.spec_effective_fee_bps(config.fee_bps) as int;
    let tvv = tvv_value(config, basket, call);
    lemma_single_leg_scan(
        call.remaining@,
        call.amounts@,
        call.basket_key,
        fee_bps,
        0,
        tvv,
        transfers,
        shares,
    );
}

/// Exact normalization: at or below the share precision, rescaling is a
/// plain multiplication by the decimal gap's power of ten.
pub proof fn lemma_rescale_up_exact(x: int, dec: int)
    requires
        0 <= x,
        0 <= dec <= QSHARE_DECIMALS as int,
    ensures
        rescaled(x, dec, QSHARE_DECIMALS as int) == x * (pow10(
            (QSHARE_DECIMALS as int - dec) as nat,
        ) as int),
{
    if dec == QSHARE_DECIMALS as int {
        assert(pow10(0) == 1);
        assert(x / 1 == x);
        assert(x * 1 == x);
    }
}

/// Round-trip law, arithmetic core.  One asset at `dec <= QSHARE_DECIMALS`
/// decimals; the vault holds `balance` and the supply is `supply` (zero
/// only for an empty vault).  A deposit of `net` (already net of fees) is
/// priced at `s` shares by the engine's pricing rule; immediately burning
/// those `s` shares against the grown vault and supply pays back at most
/// `net`: rounding always favours the pool.
pub proof fn lemma_round_trip_bound(balance: int, net: int, supply: int, dec: int, s: int)
    requires
        0 <= balance,
        0 <= net,
        0 <= supply,
        0 <= dec <= QSHARE_DECIMALS as int,
        supply == 0 ==> balance == 0,
        supply > 0 ==> rescaled(balance, dec, QSHARE_DECIMALS as int) > 0,
        s == leg_share_amount(
            rescaled(net, dec, QSHARE_DECIMALS as int),
            supply,
            rescaled(balance, dec, QSHARE_DECIMALS as int),
        ),
        supply + s > 0,
    ensures
        payout_amount(balance + net, s, supply + s) <= net,
{
    let m = pow10((QSHARE_DECIMALS as int - dec) as nat) as int;
    lemma_pow10_positive((QSHARE_DECIMALS as int - dec) as nat);
    lemma_rescale_up_exact(net, dec);
    lemma_rescale_up_exact(balance, dec);
    if supply == 0 {
        // First depositor: s == net * m, and the burn returns the whole
        // vault, which is exactly the net deposit.
        assert(s == net * m);
        assert(s > 0);
        lemma_mul_is_commutative(net, s);
        lemma_div_multiples_vanish(net, s);
        assert((balance + net) * s == net * s) by (nonlinear_arith)
            requires
                balance == 0,
        ;
        assert(payout_amount(balance + net, s, supply + s) == (net * s) / s);
        assert((s * net) / s == net);
        lemma_mul_is_commutative(s, net);
    } else {
        let tvv = balance * m;
        assert(tvv > 0);
        assert(balance > 0) by (nonlinear_arith)
            requires
                balance * m > 0,
                m >= 1,
                balance >= 0,
        ;
        let norm_net = net * m;
        assert(s == norm_net * supply / tvv);
        lemma_mul_nonnegative(net, m);
        lemma_mul_nonnegative(norm_net, supply);
        lemma_div_pos_is_pos(norm_net * supply, tvv);
        assert(s >= 0);
        // The divisor times the quotient never exceeds the dividend.
        lemma_fundamental_div_mod(norm_net * supply, tvv);
        lemma_mod_division_less_than_divisor(norm_net * supply, tvv);
        assert(tvv * s <= norm_net * supply);
        // Cancel the common scale factor m.
        assert((balance * s) * m <= (net * supply) * m) by (nonlinear_arith)
            requires
                tvv == balance * m,
                norm_net == net * m,
                tvv * s <= norm_net * supply,
        ;
        lemma_mul_inequality_converse(balance * s, net * supply, m);
        assert(balance * s <= net * supply);
        // Hence the grown vault, burned pro rata, returns at most `net`.
        lemma_mul_is_distributive_add_other_way(s, balance, net);
        assert((balance + net) * s == balance * s + net * s);
        lemma_mul_is_distributive_add(net, supply, s);
        assert(net * (supply + s) == net * supply + net * s);
        assert((balance + net) * s <= net * (supply + s));
        lemma_mul_is_commutative(net, supply + s);
        lemma_multiply_divide_le((balance + net) * s, supply + s, net);
    }
}

/// Round-trip law applied to a whole one-asset deposit: when the asset's
/// precision does not exceed the share precision and an empty supply means
/// an empty vault, a successful deposit followed immediately by a burn of
/// the minted shares pays back at most the deposit net of its entry fee.
pub proof fn lemma_round_trip_single_asset(
    config: Config,
    basket: Basket,
    call: DepositCall,
    transfers: Seq<TransferRequest>,
    shares: u64,
)
    requires
        basket.token_count == 1,
        registration_of(call.remaining@[0]).decimals <= QSHARE_DECIMALS,
        call.share_supply == 0 ==> balance_of(call.remaining@[3]) == 0,
        spec_deposit(config, basket, call) == Ok::<(Seq<TransferRequest>, u64), BasketError>(
            (transfers, shares),
        ),
    ensures
        ({
            let fee_bps = basket.spec_effective_fee_bps(config.fee_bps) as int;
            let net = call.amounts@[0] - fee_amount(call.amounts@[0] as int, fee_bps);
            let balance = balance_of(call.remaining@[3]) as int;
            payout_amount(balance + net, shares as int, call.share_supply + shares as int) <= net
        }),
{
    let fee_bps = basket.spec_effective_fee_bps(config.fee_bps) as int;
    let dec = registration_of(call.remaining@[0]).decimals as int;
    let balance = balance_of(call.remaining@[3]) as int;
    let supply = call.share_supply as int;
    let amount = call.amounts@[0] as int;
    let fee = fee_amount(amount, fee_bps);
    let net = amount - fee;
    let tvv = tvv_value(config, basket, call);
    // The snapshot phase fixes the total vault value to the one vault's
    // rescaled balance.
    assert((DEPOSIT_ACCOUNTS_PER_TOKEN as int) * 0 == 0);
    let tvv_step = rescaled(balance, dec, QSHARE_DECIMALS as int);
    assert(crate::deposit::tvv_scan(call.remaining@, 1, 1, 0 + tvv_step) == Ok::<int, BasketError>(
        0 + tvv_step,
    ));
    assert(tvv == tvv_step);
    crate::math::lemma_rescaled_nonneg(balance, dec, QSHARE_DECIMALS as int);
    lemma_single_leg_scan(
        call.remaining@,
        call.amounts@,
        call.basket_key,
        fee_bps,
        supply,
        tvv,
        transfers,
        shares,
    );
    lemma_no_zero_mint(config, basket, call, transfers, shares);
    lemma_round_trip_bound(balance, net, supply, dec, shares as int);
}

} // verus!
