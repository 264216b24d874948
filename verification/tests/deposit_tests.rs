use basket_core::address::{derive_mint_authority, derive_vault_authority, Address};
use basket_core::deposit::{deposit_multi, DepositCall};
use basket_core::error::BasketError;
use basket_core::records::{RawRecord, RecordData, TransferRequest};
use basket_core::state::{Basket, BasketToken, Config, UserAllowList};

const BASKET_ID: u64 = 7;
const VAULT_AUTH_BUMP: u8 = 42;
const MINT_AUTH_BUMP: u8 = 43;

fn addr(n: u64) -> Address {
    Address { w0: 9, w1: n, w2: 0, w3: 0 }
}

fn basket_key() -> Address {
    addr(100)
}

fn mk_config(compliance_enabled: bool) -> Config {
    Config {
        admin: addr(1),
        whitelist_auth: addr(2),
        fee_bps: 30,
        compliance_enabled,
        version: 1,
        bump: 0,
    }
}

fn mk_basket(token_count: u8) -> Basket {
    Basket {
        owner: addr(1),
        share_mint: addr(10),
        vault_authority: derive_vault_authority(BASKET_ID, VAULT_AUTH_BUMP),
        basket_id: BASKET_ID,
        name: [0u8; 32],
        fee_bps_override: 0,
        has_fee_override: 0,
        token_count,
        version: 1,
        basket_bump: 0,
        vault_authority_bump: VAULT_AUTH_BUMP,
        mint_authority_bump: MINT_AUTH_BUMP,
    }
}

fn mk_token(i: u64, decimals: u8) -> BasketToken {
    BasketToken {
        basket: basket_key(),
        mint: addr(200 + i),
        vault_ata: addr(300 + i),
        fee_vault_ata: addr(400 + i),
        decimals,
        enabled: true,
        bump: 0,
    }
}

fn user_ata(i: u64) -> Address {
    addr(600 + i)
}

fn leg_records(token: BasketToken, i: u64, vault_balance: u64) -> Vec<RawRecord> {
    vec![
        RawRecord { key: addr(500 + i), data: RecordData::Registration(token) },
        RawRecord { key: token.mint, data: RecordData::Other },
        RawRecord { key: user_ata(i), data: RecordData::Other },
        RawRecord { key: token.vault_ata, data: RecordData::TokenAccount(vault_balance) },
        RawRecord { key: token.fee_vault_ata, data: RecordData::TokenAccount(0) },
    ]
}

/// Two registered assets at decimals 6 and 9, empty vaults, no shares yet.
fn two_asset_call(amounts: Vec<u64>) -> DepositCall {
    let mut remaining = leg_records(mk_token(0, 6), 0, 0);
    remaining.extend(leg_records(mk_token(1, 9), 1, 0));
    DepositCall {
        basket_key: basket_key(),
        share_mint_key: addr(10),
        share_supply: 0,
        mint_authority_key: derive_mint_authority(BASKET_ID, MINT_AUTH_BUMP),
        user_key: addr(50),
        user_allow_list: None,
        amounts,
        remaining,
    }
}

#[test]
fn first_deposit_two_assets() {
    // Pool with assets at decimals 6 and 9, share decimals 6, fee 30 bps.
    // First deposit of (1_000_000, 1_000_000_000): fees (3000, 3000000),
    // nets (997000, 997000000), both normalize to 997000, so the first
    // depositor is pegged at 1_994_000 shares.
    let config = mk_config(false);
    let basket = mk_basket(2);
    let call = two_asset_call(vec![1_000_000, 1_000_000_000]);
    let out = deposit_multi(&config, &basket, &call).unwrap();
    assert_eq!(out.shares_minted, 1_994_000);
    let t0 = mk_token(0, 6);
    let t1 = mk_token(1, 9);
    assert_eq!(
        out.transfers,
        vec![
            TransferRequest { from: user_ata(0), to: t0.vault_ata, amount: 997_000 },
            TransferRequest { from: user_ata(0), to: t0.fee_vault_ata, amount: 3_000 },
            TransferRequest { from: user_ata(1), to: t1.vault_ata, amount: 997_000_000 },
            TransferRequest { from: user_ata(1), to: t1.fee_vault_ata, amount: 3_000_000 },
        ]
    );
}

#[test]
fn second_deposit_prices_against_vault_value() {
    // After the first deposit the vaults hold (997000, 997000000) and the
    // supply is 1_994_000; the recorded total vault value is 1_994_000.  A
    // second identical deposit is priced pro rata to the same share count.
    let config = mk_config(false);
    let basket = mk_basket(2);
    let mut call = two_asset_call(vec![1_000_000, 1_000_000_000]);
    call.share_supply = 1_994_000;
    call.remaining[3].data = RecordData::TokenAccount(997_000);
    call.remaining[8].data = RecordData::TokenAccount(997_000_000);
    let out = deposit_multi(&config, &basket, &call).unwrap();
    assert_eq!(out.shares_minted, 1_994_000);
}

#[test]
fn fee_override_takes_precedence() {
    let config = mk_config(false);
    let mut basket = mk_basket(2);
    basket.fee_bps_override = 50;
    basket.has_fee_override = 1;
    let call = two_asset_call(vec![1_000_000, 1_000_000_000]);
    let out = deposit_multi(&config, &basket, &call).unwrap();
    // fee = 0.5%: nets are 995000 and 995000000.
    assert_eq!(out.transfers[0].amount, 995_000);
    assert_eq!(out.transfers[1].amount, 5_000);
    assert_eq!(out.shares_minted, 1_990_000);
}

#[test]
fn wrong_amount_count_is_incomplete() {
    let config = mk_config(false);
    let basket = mk_basket(2);
    let call = two_asset_call(vec![1_000_000]);
    assert_eq!(
        deposit_multi(&config, &basket, &call),
        Err(BasketError::IncompleteWithdrawal)
    );
}

#[test]
fn wrong_record_count_is_invalid_layout() {
    let config = mk_config(false);
    let basket = mk_basket(2);
    let mut call = two_asset_call(vec![1_000_000, 1_000_000_000]);
    call.remaining.pop();
    assert_eq!(
        deposit_multi(&config, &basket, &call),
        Err(BasketError::InvalidRemainingAccounts)
    );
}

#[test]
fn wrong_share_mint_is_rejected() {
    let config = mk_config(false);
    let basket = mk_basket(2);
    let mut call = two_asset_call(vec![1_000_000, 1_000_000_000]);
    call.share_mint_key = addr(11);
    assert_eq!(
        deposit_multi(&config, &basket, &call),
        Err(BasketError::ShareMintMismatch)
    );
}

#[test]
fn wrong_mint_authority_is_rejected() {
    let config = mk_config(false);
    let basket = mk_basket(2);
    let mut call = two_asset_call(vec![1_000_000, 1_000_000_000]);
    call.mint_authority_key = derive_mint_authority(BASKET_ID, MINT_AUTH_BUMP + 1);
    assert_eq!(
        deposit_multi(&config, &basket, &call),
        Err(BasketError::InvalidBasketWiring)
    );
}

#[test]
fn compliance_gate_requires_matching_entry() {
    let config = mk_config(true);
    let basket = mk_basket(2);
    let base = two_asset_call(vec![1_000_000, 1_000_000_000]);

    let mut call = two_asset_call(vec![1_000_000, 1_000_000_000]);
    call.user_allow_list = None;
    assert_eq!(deposit_multi(&config, &basket, &call), Err(BasketError::ComplianceDenied));

    let mut call = two_asset_call(vec![1_000_000, 1_000_000_000]);
    call.user_allow_list = Some(UserAllowList {
        basket: basket_key(),
        user: base.user_key,
        allowed: false,
        bump: 0,
    });
    assert_eq!(deposit_multi(&config, &basket, &call), Err(BasketError::ComplianceDenied));

    let mut call = two_asset_call(vec![1_000_000, 1_000_000_000]);
    call.user_allow_list = Some(UserAllowList {
        basket: addr(101),
        user: base.user_key,
        allowed: true,
        bump: 0,
    });
    assert_eq!(deposit_multi(&config, &basket, &call), Err(BasketError::ComplianceDenied));

    let mut call = two_asset_call(vec![1_000_000, 1_000_000_000]);
    call.user_allow_list = Some(UserAllowList {
        basket: basket_key(),
        user: addr(51),
        allowed: true,
        bump: 0,
    });
    assert_eq!(deposit_multi(&config, &basket, &call), Err(BasketError::ComplianceDenied));

    let mut call = two_asset_call(vec![1_000_000, 1_000_000_000]);
    call.user_allow_list = Some(UserAllowList {
        basket: basket_key(),
        user: base.user_key,
        allowed: true,
        bump: 0,
    });
    assert!(deposit_multi(&config, &basket, &call).is_ok());
}

#[test]
fn zero_amount_is_rejected() {
    let config = mk_config(false);
    let basket = mk_basket(2);
    let call = two_asset_call(vec![1_000_000, 0]);
    assert_eq!(deposit_multi(&config, &basket, &call), Err(BasketError::ZeroDeposit));
}

#[test]
fn zero_share_result_is_rejected() {
    // A positive deposit so small against the vault value that its shares
    // round to zero must fail, not mint for free.
    let config = mk_config(false);
    let basket = mk_basket(1);
    let call = DepositCall {
        basket_key: basket_key(),
        share_mint_key: addr(10),
        share_supply: 1,
        mint_authority_key: derive_mint_authority(BASKET_ID, MINT_AUTH_BUMP),
        user_key: addr(50),
        user_allow_list: None,
        amounts: vec![10],
        remaining: leg_records(mk_token(0, 6), 0, 1_000_000_000),
    };
    assert_eq!(deposit_multi(&config, &basket, &call), Err(BasketError::ZeroSharesMinted));
}

#[test]
fn normalization_overflow_is_rejected() {
    // An asset claiming 45 decimal places needs 10^39 to rescale, which
    // does not fit in 128 bits.
    let config = mk_config(false);
    let basket = mk_basket(1);
    let call = DepositCall {
        basket_key: basket_key(),
        share_mint_key: addr(10),
        share_supply: 0,
        mint_authority_key: derive_mint_authority(BASKET_ID, MINT_AUTH_BUMP),
        user_key: addr(50),
        user_allow_list: None,
        amounts: vec![1_000_000],
        remaining: leg_records(mk_token(0, 45), 0, 0),
    };
    assert_eq!(deposit_multi(&config, &basket, &call), Err(BasketError::ArithmeticOverflow));
}

#[test]
fn substituted_records_fail_every_leg_position() {
    let config = mk_config(false);
    let basket = mk_basket(2);
    for leg in 0..2usize {
        let base = leg * 5;

        // A record that is not a registration at all.
        let mut call = two_asset_call(vec![1_000_000, 1_000_000_000]);
        call.remaining[base].data = RecordData::Other;
        assert_eq!(
            deposit_multi(&config, &basket, &call),
            Err(BasketError::InvalidBasketWiring)
        );

        // A registration belonging to another basket.
        let mut call = two_asset_call(vec![1_000_000, 1_000_000_000]);
        if let RecordData::Registration(ref mut bt) = call.remaining[base].data {
            bt.basket = addr(101);
        }
        assert_eq!(
            deposit_multi(&config, &basket, &call),
            Err(BasketError::InvalidBasketWiring)
        );

        // A disabled asset.
        let mut call = two_asset_call(vec![1_000_000, 1_000_000_000]);
        if let RecordData::Registration(ref mut bt) = call.remaining[base].data {
            bt.enabled = false;
        }
        assert_eq!(deposit_multi(&config, &basket, &call), Err(BasketError::TokenNotEnabled));

        // An asset-identity record under the wrong address.
        let mut call = two_asset_call(vec![1_000_000, 1_000_000_000]);
        call.remaining[base + 1].key = addr(999);
        assert_eq!(
            deposit_multi(&config, &basket, &call),
            Err(BasketError::MintConfigMismatch)
        );

        // A vault record under the wrong address.
        let mut call = two_asset_call(vec![1_000_000, 1_000_000_000]);
        call.remaining[base + 3].key = addr(999);
        assert_eq!(
            deposit_multi(&config, &basket, &call),
            Err(BasketError::InvalidBasketWiring)
        );

        // A fee-vault record under the wrong address.
        let mut call = two_asset_call(vec![1_000_000, 1_000_000_000]);
        call.remaining[base + 4].key = addr(999);
        assert_eq!(
            deposit_multi(&config, &basket, &call),
            Err(BasketError::InvalidBasketWiring)
        );

        // A vault record that is not a token account.
        let mut call = two_asset_call(vec![1_000_000, 1_000_000_000]);
        call.remaining[base + 3].data = RecordData::Other;
        assert_eq!(
            deposit_multi(&config, &basket, &call),
            Err(BasketError::InvalidBasketWiring)
        );
    }
}

#[test]
fn supply_without_vault_value_cannot_price() {
    // Shares exist but every vault is empty: the pro-rata divisor is zero
    // and the deposit cannot be priced.
    let config = mk_config(false);
    let basket = mk_basket(2);
    let mut call = two_asset_call(vec![1_000_000, 1_000_000_000]);
    call.share_supply = 1;
    assert_eq!(deposit_multi(&config, &basket, &call), Err(BasketError::ArithmeticOverflow));
}

#[test]
fn first_deposit_too_large_to_represent() {
    // The largest amount at zero decimals normalizes to a million times
    // itself, far past what a share count can hold.
    let config = mk_config(false);
    let basket = mk_basket(1);
    let call = DepositCall {
        basket_key: basket_key(),
        share_mint_key: addr(10),
        share_supply: 0,
        mint_authority_key: derive_mint_authority(BASKET_ID, MINT_AUTH_BUMP),
        user_key: addr(50),
        user_allow_list: None,
        amounts: vec![u64::MAX],
        remaining: leg_records(mk_token(0, 0), 0, 0),
    };
    assert_eq!(deposit_multi(&config, &basket, &call), Err(BasketError::ArithmeticOverflow));
}

#[test]
fn no_fee_transfer_when_fee_rounds_to_zero() {
    // 333 at 30 bps skims nothing, so only the net transfer is queued.
    let mut config = mk_config(false);
    config.fee_bps = 30;
    let basket = mk_basket(1);
    let call = DepositCall {
        basket_key: basket_key(),
        share_mint_key: addr(10),
        share_supply: 0,
        mint_authority_key: derive_mint_authority(BASKET_ID, MINT_AUTH_BUMP),
        user_key: addr(50),
        user_allow_list: None,
        amounts: vec![333],
        remaining: leg_records(mk_token(0, 6), 0, 0),
    };
    let out = deposit_multi(&config, &basket, &call).unwrap();
    assert_eq!(out.transfers.len(), 1);
    assert_eq!(out.transfers[0].amount, 333);
    assert_eq!(out.shares_minted, 333);
}
