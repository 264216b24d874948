use basket_core::address::{derive_mint_authority, derive_vault_authority, Address};
use basket_core::admin::{
    add_tokens, create_basket, init_config, set_config, update_allow_list, verify_basket_owner,
};
use basket_core::error::BasketError;
use basket_core::events::{
    AllowListUpdated, BasketCreated, ConfigInitialized, ConfigUpdated, DepositCompleted,
    TokenAdded, WithdrawCompleted,
};
use basket_core::records::{RawRecord, RecordData};
use basket_core::state::{Basket, BasketToken, Config, UserAllowList};

const BASKET_ID: u64 = 7;
const VAULT_AUTH_BUMP: u8 = 42;
const MINT_AUTH_BUMP: u8 = 43;

fn addr(n: u64) -> Address {
    Address { w0: 9, w1: n, w2: 0, w3: 0 }
}

fn mk_config() -> Config {
    Config {
        admin: addr(1),
        whitelist_auth: addr(2),
        fee_bps: 30,
        compliance_enabled: false,
        version: 1,
        bump: 0,
    }
}

fn mk_basket(token_count: u8) -> Basket {
    Basket {
        owner: addr(1),
        share_mint: addr(10),
        vault_authority: derive_vault_authority(BASKET_ID, VAULT_AUTH_BUMP),
        basket_id: BASKET_ID,
        name: [0u8; 32],
        fee_bps_override: 0,
        has_fee_override: 0,
        token_count,
        version: 1,
        basket_bump: 0,
        vault_authority_bump: VAULT_AUTH_BUMP,
        mint_authority_bump: MINT_AUTH_BUMP,
    }
}

#[test]
fn init_config_checks_fee_range() {
    let c = init_config(addr(1), 30, addr(2), true, 5).unwrap();
    assert_eq!(c.admin, addr(1));
    assert_eq!(c.whitelist_auth, addr(2));
    assert_eq!(c.fee_bps, 30);
    assert!(c.compliance_enabled);
    assert_eq!(c.version, 1);
    assert_eq!(c.bump, 5);
    assert_eq!(init_config(addr(1), 9, addr(2), false, 0), Err(BasketError::InvalidFee));
    assert_eq!(init_config(addr(1), 51, addr(2), false, 0), Err(BasketError::InvalidFee));
    assert!(init_config(addr(1), 10, addr(2), false, 0).is_ok());
    assert!(init_config(addr(1), 50, addr(2), false, 0).is_ok());
}

#[test]
fn set_config_applies_only_supplied_fields() {
    let mut config = mk_config();
    set_config(&mut config, addr(1), Some(45), None, Some(true), None).unwrap();
    assert_eq!(config.fee_bps, 45);
    assert!(config.compliance_enabled);
    assert_eq!(config.whitelist_auth, addr(2));
    assert_eq!(config.admin, addr(1));

    set_config(&mut config, addr(1), None, Some(addr(8)), None, Some(addr(9))).unwrap();
    assert_eq!(config.whitelist_auth, addr(8));
    assert_eq!(config.admin, addr(9));
    assert_eq!(config.fee_bps, 45);
}

#[test]
fn set_config_rejects_wrong_caller_and_bad_fee() {
    let mut config = mk_config();
    assert_eq!(
        set_config(&mut config, addr(3), Some(45), None, None, None),
        Err(BasketError::Unauthorized)
    );
    assert_eq!(config, mk_config());
    assert_eq!(
        set_config(&mut config, addr(1), Some(5), None, None, None),
        Err(BasketError::InvalidFee)
    );
    assert_eq!(config, mk_config());
}

#[test]
fn create_basket_builds_an_empty_basket() {
    let config = mk_config();
    let name = [7u8; 32];
    let b = create_basket(
        &config,
        addr(1),
        BASKET_ID,
        name,
        Some(40),
        addr(10),
        derive_vault_authority(BASKET_ID, VAULT_AUTH_BUMP),
        3,
        VAULT_AUTH_BUMP,
        MINT_AUTH_BUMP,
    )
    .unwrap();
    assert_eq!(b.owner, addr(1));
    assert_eq!(b.share_mint, addr(10));
    assert_eq!(b.basket_id, BASKET_ID);
    assert_eq!(b.name, name);
    assert_eq!(b.fee_bps_override, 40);
    assert_eq!(b.has_fee_override, 1);
    assert_eq!(b.token_count, 0);
    assert_eq!(b.version, 1);
    assert_eq!(b.effective_fee_bps(30), 40);

    let plain = create_basket(
        &config,
        addr(1),
        BASKET_ID,
        name,
        None,
        addr(10),
        derive_vault_authority(BASKET_ID, VAULT_AUTH_BUMP),
        3,
        VAULT_AUTH_BUMP,
        MINT_AUTH_BUMP,
    )
    .unwrap();
    assert_eq!(plain.has_fee_override, 0);
    assert_eq!(plain.effective_fee_bps(30), 30);
}

#[test]
fn create_basket_rejects_wrong_caller_and_bad_fee() {
    let config = mk_config();
    let r = create_basket(
        &config,
        addr(3),
        BASKET_ID,
        [0u8; 32],
        None,
        addr(10),
        addr(11),
        0,
        0,
        0,
    );
    assert_eq!(r, Err(BasketError::Unauthorized));
    let r = create_basket(
        &config,
        addr(1),
        BASKET_ID,
        [0u8; 32],
        Some(51),
        addr(10),
        addr(11),
        0,
        0,
        0,
    );
    assert_eq!(r, Err(BasketError::InvalidFee));
}

#[test]
fn add_tokens_registers_and_counts() {
    let config = mk_config();
    let mut basket = mk_basket(0);
    let vault_auth = basket.vault_authority;
    let t = add_tokens(
        &config,
        addr(1),
        &mut basket,
        addr(100),
        vault_auth,
        addr(200),
        9,
        addr(300),
        addr(400),
        6,
    )
    .unwrap();
    assert_eq!(basket.token_count, 1);
    assert_eq!(
        t,
        BasketToken {
            basket: addr(100),
            mint: addr(200),
            vault_ata: addr(300),
            fee_vault_ata: addr(400),
            decimals: 9,
            enabled: true,
            bump: 6,
        }
    );
}

#[test]
fn add_tokens_rejections() {
    let config = mk_config();

    let mut basket = mk_basket(0);
    let vault_auth = basket.vault_authority;
    let r = add_tokens(
        &config,
        addr(3),
        &mut basket,
        addr(100),
        vault_auth,
        addr(200),
        9,
        addr(300),
        addr(400),
        0,
    );
    assert_eq!(r, Err(BasketError::Unauthorized));
    assert_eq!(basket.token_count, 0);

    let mut basket = mk_basket(0);
    let r = add_tokens(
        &config,
        addr(1),
        &mut basket,
        addr(100),
        addr(999),
        addr(200),
        9,
        addr(300),
        addr(400),
        0,
    );
    assert_eq!(r, Err(BasketError::VaultAuthMismatch));
    assert_eq!(basket.token_count, 0);

    let mut basket = mk_basket(10);
    let vault_auth = basket.vault_authority;
    let r = add_tokens(
        &config,
        addr(1),
        &mut basket,
        addr(100),
        vault_auth,
        addr(200),
        9,
        addr(300),
        addr(400),
        0,
    );
    assert_eq!(r, Err(BasketError::MaxTokensExceeded));
    assert_eq!(basket.token_count, 10);
}

#[test]
fn update_allow_list_requires_whitelist_authority() {
    let config = mk_config();
    let entry = update_allow_list(&config, addr(2), addr(100), addr(50), true, 4).unwrap();
    assert_eq!(
        entry,
        UserAllowList { basket: addr(100), user: addr(50), allowed: true, bump: 4 }
    );
    assert_eq!(
        update_allow_list(&config, addr(1), addr(100), addr(50), true, 4),
        Err(BasketError::Unauthorized)
    );
}

#[test]
fn verify_basket_owner_checks_in_order() {
    let basket = mk_basket(2);
    let vault_auth = derive_vault_authority(BASKET_ID, VAULT_AUTH_BUMP);
    let ok_reg = RawRecord {
        key: addr(500),
        data: RecordData::Registration(BasketToken {
            basket: addr(100),
            mint: addr(200),
            vault_ata: addr(300),
            fee_vault_ata: addr(400),
            decimals: 6,
            enabled: true,
            bump: 0,
        }),
    };

    let records = vec![ok_reg, ok_reg];
    assert!(verify_basket_owner(&basket, addr(100), addr(10), vault_auth, addr(1), &records)
        .is_ok());

    let mut stale = mk_basket(2);
    stale.version = 2;
    assert_eq!(
        verify_basket_owner(&stale, addr(100), addr(10), vault_auth, addr(1), &records),
        Err(BasketError::UnsupportedVersion)
    );

    assert_eq!(
        verify_basket_owner(&basket, addr(100), addr(10), vault_auth, addr(3), &records),
        Err(BasketError::OwnerMismatch)
    );

    assert_eq!(
        verify_basket_owner(&basket, addr(100), addr(11), vault_auth, addr(1), &records),
        Err(BasketError::ShareMintMismatch)
    );

    assert_eq!(
        verify_basket_owner(
            &basket,
            addr(100),
            addr(10),
            derive_vault_authority(BASKET_ID, VAULT_AUTH_BUMP + 1),
            addr(1),
            &records
        ),
        Err(BasketError::VaultAuthMismatch)
    );

    let mut bad = records.clone();
    bad[1].data = RecordData::Other;
    assert_eq!(
        verify_basket_owner(&basket, addr(100), addr(10), vault_auth, addr(1), &bad),
        Err(BasketError::InvalidBasketWiring)
    );

    let mut foreign = records.clone();
    if let RecordData::Registration(ref mut bt) = foreign[0].data {
        bt.basket = addr(101);
    }
    assert_eq!(
        verify_basket_owner(&basket, addr(100), addr(10), vault_auth, addr(1), &foreign),
        Err(BasketError::MintConfigMismatch)
    );

    let mut disabled = records.clone();
    if let RecordData::Registration(ref mut bt) = disabled[1].data {
        bt.enabled = false;
    }
    assert_eq!(
        verify_basket_owner(&basket, addr(100), addr(10), vault_auth, addr(1), &disabled),
        Err(BasketError::TokenNotEnabled)
    );
}

#[test]
fn derived_authorities_are_distinct() {
    let mint_auth = derive_mint_authority(BASKET_ID, 5);
    let vault_auth = derive_vault_authority(BASKET_ID, 5);
    assert_ne!(mint_auth, vault_auth);
    assert_ne!(derive_mint_authority(BASKET_ID, 5), derive_mint_authority(BASKET_ID, 6));
    assert_ne!(derive_mint_authority(8, 5), derive_mint_authority(9, 5));
    assert_eq!(derive_mint_authority(8, 5), derive_mint_authority(8, 5));
}

#[test]
fn completion_records_carry_their_fields() {
    let a = ConfigInitialized {
        admin: addr(1),
        whitelist_auth: addr(2),
        fee_bps: 30,
        compliance_enabled: false,
    };
    assert_eq!(a.fee_bps, 30);
    let b = ConfigUpdated {
        fee_bps: 45,
        whitelist_auth: addr(8),
        compliance_enabled: true,
        new_admin: addr(9),
    };
    assert_eq!(b.new_admin, addr(9));
    let c = AllowListUpdated { basket: addr(100), user: addr(50), allowed: true };
    assert!(c.allowed);
    let d = BasketCreated { basket_id: BASKET_ID, owner: addr(1), share_mint: addr(10) };
    assert_eq!(d.basket_id, BASKET_ID);
    let e = TokenAdded { basket: addr(100), mint: addr(200), vault_ata: addr(300) };
    assert_eq!(e.vault_ata, addr(300));
    let f = DepositCompleted { basket: addr(100), user: addr(50), shares_minted: 1_994_000 };
    assert_eq!(f.shares_minted, 1_994_000);
    let g = WithdrawCompleted { basket: addr(100), user: addr(50), shares_burned: 997_000 };
    assert_eq!(g.shares_burned, 997_000);
}
