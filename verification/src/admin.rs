use vstd::prelude::*;

use crate::address::Address;
use crate::address::vault_authority_address;
use crate::constants::CURRENT_VERSION;
use crate::constants::FEE_BPS_MAX;
use crate::constants::FEE_BPS_MIN;
use crate::constants::MAX_NAME_LEN;
use crate::constants::MAX_TOKENS_PER_BASKET;
use crate::error::BasketError;
use crate::records::RawRecord;
use crate::records::RecordData;
use crate::records::is_registration;
use crate::records::registration_of;
use crate::state::Basket;
use crate::state::BasketToken;
use crate::state::Config;
use crate::state::UserAllowList;

verus! {

/// Whether a fee lies in the allowed basis-point range.
pub open spec fn fee_in_range(fee_bps: u16) -> bool {
    FEE_BPS_MIN <= fee_bps <= FEE_BPS_MAX
}

/// Builds the global configuration once, rejecting an out-of-range fee.
pub fn init_config(
    admin: Address,
    fee_bps: u16,
    whitelist_auth: Address,
    compliance_enabled: bool,
    bump: u8,
) -> (r: Result<Config, BasketError>)
    ensures
        match r {
            Ok(c) => {
                &&& fee_in_range(fee_bps)
                &&& c == (Config {
                    admin,
                    whitelist_auth,
                    fee_bps,
                    compliance_enabled,
                    version: CURRENT_VERSION,
                    bump,
                })
            },
            Err(e) => !fee_in_range(fee_bps) && e == BasketError::InvalidFee,
        },
{
    if fee_bps < FEE_BPS_MIN || fee_bps > FEE_BPS_MAX {
        return Err(BasketError::InvalidFee);
    }
    Ok(Config { admin, whitelist_auth, fee_bps, compliance_enabled, version: CURRENT_VERSION, bump })
}

/// The configuration after applying the optional updates of one
/// `set_config` call.
pub open spec fn updated_config(
    c: Config,
    fee_bps: Option<u16>,
    whitelist_auth: Option<Address>,
    compliance_enabled: Option<bool>,
    new_admin: Option<Address>,
) -> Config {
    Config {
        fee_bps: if fee_bps is Some {
            fee_bps->0
        } else {
            c.fee_bps
        },
        whitelist_auth: if whitelist_auth is Some {
            whitelist_auth->0
        } else {
            c.whitelist_auth
        },
        compliance_enabled: if compliance_enabled is Some {
            compliance_enabled->0
        } else {
            c.compliance_enabled
        },
        admin: if new_admin is Some {
            new_admin->0
        } else {
            c.admin
        },
        ..c
    }
}

/// Applies optional configuration updates.  Only the stored administrator
/// may call it, and a supplied fee must be in range; a rejected call
/// leaves the configuration untouched.
pub fn set_config(
    config: &mut Config,
    caller: Address,
    fee_bps: Option<u16>,
    whitelist_auth: Option<Address>,
    compliance_enabled: Option<bool>,
    new_admin: Option<Address>,
) -> (r: Result<(), BasketError>)
    ensures
        r is Ok <==> (caller == old(config).admin && (fee_bps matches Some(b) ==> fee_in_range(b))),
        r is Ok ==> *final(config) == updated_config(
            *old(config),
            fee_bps,
            whitelist_auth,
            compliance_enabled,
            new_admin,
        ),
        r is Err ==> *final(config) == *old(config),
        r matches Err(e) ==> e == (if caller != old(config).admin {
            BasketError::Unauthorized
        } else {
            BasketError::InvalidFee
        }),
{
    if caller != config.admin {
        return Err(BasketError::Unauthorized);
    }
    if let Some(bps) = fee_bps {
        if bps < FEE_BPS_MIN || bps > FEE_BPS_MAX {
            return Err(BasketError::InvalidFee);
        }
        config.fee_bps = bps;
    }
    if let Some(auth) = whitelist_auth {
        config.whitelist_auth = auth;
    }
    if let Some(enabled) = compliance_enabled {
        config.compliance_enabled = enabled;
    }
    if let Some(admin) = new_admin {
        config.admin = admin;
    }
    Ok(())
}

/// Builds a new basket with no registered assets.  Only the administrator
/// may call it, and a supplied fee override must be in range.
pub fn create_basket(
    config: &Config,
    caller: Address,
    basket_id: u64,
    name: [u8; MAX_NAME_LEN],
    fee_bps_override: Option<u16>,
    share_mint: Address,
    vault_authority: Address,
    basket_bump: u8,
    vault_authority_bump: u8,
    mint_authority_bump: u8,
) -> (r: Result<Basket, BasketError>)
    ensures
        r is Ok <==> (caller == config.admin && (fee_bps_override matches Some(b) ==> fee_in_range(
            b,
        ))),
        r matches Ok(b) ==> b == (Basket {
            owner: caller,
            share_mint,
            vault_authority,
            basket_id,
            name,
            fee_bps_override: if fee_bps_override is Some {
                fee_bps_override->0
            } else {
                0
            },
            has_fee_override: if fee_bps_override is Some {
                1u8
            } else {
                0u8
            },
            token_count: 0,
            version: CURRENT_VERSION,
            basket_bump,
            vault_authority_bump,
            mint_authority_bump,
        }),
        r matches Ok(b) ==> b.wf(),
        r matches Err(e) ==> e == (if caller != config.admin {
            BasketError::Unauthorized
        } else {
            BasketError::InvalidFee
        }),
{
    if caller != config.admin {
        return Err(BasketError::Unauthorized);
    }
    let (fee_override_value, has_override): (u16, u8) = match fee_bps_override {
        Some(bps) => {
            if bps < FEE_BPS_MIN || bps > FEE_BPS_MAX {
                return Err(BasketError::InvalidFee);
            }
            (bps, 1)
        },
        None => (0, 0),
    };
    Ok(
        Basket {
            owner: caller,
            share_mint,
            vault_authority,
            basket_id,
            name,
            fee_bps_override: fee_override_value,
            has_fee_override: has_override,
            token_count: 0,
            version: CURRENT_VERSION,
            basket_bump,
            vault_authority_bump,
            mint_authority_bump,
        },
    )
}

/// Registers one underlying asset into a basket: bumps the basket's asset
/// count and builds the registration entry whose addresses every later
/// deposit and withdrawal leg is checked against.  Only the administrator
/// may call it, the supplied vault authority must match the basket's, and
/// the basket must have room; a rejected call leaves the basket untouched.
pub fn add_tokens(
    config: &Config,
    caller: Address,
    basket: &mut Basket,
    basket_key: Address,
    vault_authority_key: Address,
    underlying_mint: Address,
    underlying_decimals: u8,
    vault_ata: Address,
    fee_vault_ata: Address,
    bump: u8,
) -> (r: Result<BasketToken, BasketError>)
    ensures
        r is Ok <==> (caller == config.admin && vault_authority_key == old(
            basket,
        ).vault_authority && old(basket).token_count < MAX_TOKENS_PER_BASKET),
        r is Ok ==> *final(basket) == (Basket {
            token_count: (old(basket).token_count + 1) as u8,
            ..*old(basket)
        }),
        r is Ok ==> final(basket).wf(),
        r matches Ok(t) ==> t == (BasketToken {
            basket: basket_key,
            mint: underlying_mint,
            vault_ata,
            fee_vault_ata,
            decimals: underlying_decimals,
            enabled: true,
            bump,
        }),
        r is Err ==> *final(basket) == *old(basket),
        r matches Err(e) ==> e == (if caller != config.admin {
            BasketError::Unauthorized
        } else if vault_authority_key != old(basket).vault_authority {
            BasketError::VaultAuthMismatch
        } else {
            BasketError::MaxTokensExceeded
        }),
{
    if caller != config.admin {
        return Err(BasketError::Unauthorized);
    }
    if vault_authority_key != basket.vault_authority {
        return Err(BasketError::VaultAuthMismatch);
    }
    if basket.token_count >= MAX_TOKENS_PER_BASKET {
        return Err(BasketError::MaxTokensExceeded);
    }
    basket.token_count = basket.token_count + 1;
    Ok(
        BasketToken {
            basket: basket_key,
            mint: underlying_mint,
            vault_ata,
            fee_vault_ata,
            decimals: underlying_decimals,
            enabled: true,
            bump,
        },
    )
}

/// Writes a compliance allow-list entry for one (basket, user) pair.  Only
/// the stored whitelist authority may call it.
pub fn update_allow_list(
    config: &Config,
    caller: Address,
    basket_key: Address,
    user_key: Address,
    allowed: bool,
    bump: u8,
) -> (r: Result<UserAllowList, BasketError>)
    ensures
        match r {
            Ok(entry) => {
                &&& caller == config.whitelist_auth
                &&& entry == (UserAllowList { basket: basket_key, user: user_key, allowed, bump })
            },
            Err(e) => caller != config.whitelist_auth && e == BasketError::Unauthorized,
        },
{
    if caller != config.whitelist_auth {
        return Err(BasketError::Unauthorized);
    }
    Ok(UserAllowList { basket: basket_key, user: user_key, allowed, bump })
}

/// Check of the optional per-asset registrations handed to an ownership
/// query, from record `i` onward: each must be a registration of this
/// basket with its asset enabled.
pub open spec fn owner_records_error(
    records: Seq<RawRecord>,
    basket_key: Address,
    i: int,
) -> Option<BasketError>
    decreases records.len() - i,
{
    if i >= records.len() {
        None
    } else if !is_registration(records[i]) {
        Some(BasketError::InvalidBasketWiring)
    } else if registration_of(records[i]).basket != basket_key {
        Some(BasketError::MintConfigMismatch)
    } else if !registration_of(records[i]).enabled {
        Some(BasketError::TokenNotEnabled)
    } else {
        owner_records_error(records, basket_key, i + 1)
    }
}

/// The whole ownership query as a function of its inputs: the first
/// failing check, or none.
pub open spec fn spec_verify_basket_owner(
    basket: Basket,
    basket_key: Address,
    share_mint_key: Address,
    vault_authority_key: Address,
    expected_owner: Address,
    records: Seq<RawRecord>,
) -> Option<BasketError> {
    if basket.version != CURRENT_VERSION {
        Some(BasketError::UnsupportedVersion)
    } else if basket.owner != expected_owner {
        Some(BasketError::OwnerMismatch)
    } else if share_mint_key != basket.share_mint {
        Some(BasketError::ShareMintMismatch)
    } else if vault_authority_key != vault_authority_address(
        basket.basket_id,
        basket.vault_authority_bump,
    ) {
        Some(BasketError::VaultAuthMismatch)
    } else {
        owner_records_error(records, basket_key, 0)
    }
}

/// Answers whether a basket is owned as expected and wired as expected:
/// schema version, owner, share mint, derived vault authority, and any
/// supplied per-asset registrations are all checked; the first mismatch is
/// the answer.
#[verifier::loop_isolation(false)]
pub fn verify_basket_owner(
    basket: &Basket,
    basket_key: Address,
    share_mint_key: Address,
    vault_authority_key: Address,
    expected_owner: Address,
    records: &Vec<RawRecord>,
) -> (r: Result<(), BasketError>)
    ensures
        match r {
            Ok(()) => spec_verify_basket_owner(
                *basket,
                basket_key,
                share_mint_key,
                vault_authority_key,
                expected_owner,
                records@,
            ) is None,
            Err(e) => spec_verify_basket_owner(
                *basket,
                basket_key,
                share_mint_key,
                vault_authority_key,
                expected_owner,
                records@,
            ) == Some(e),
        },
{
    if basket.version != CURRENT_VERSION {
        return Err(BasketError::UnsupportedVersion);
    }
    if basket.owner != expected_owner {
        return Err(BasketError::OwnerMismatch);
    }
    if share_mint_key != basket.share_mint {
        return Err(BasketError::ShareMintMismatch);
    }
    let expected_authority = crate::address::derive_vault_authority(
        basket.basket_id,
        basket.vault_authority_bump,
    );
    if vault_authority_key != expected_authority {
        return Err(BasketError::VaultAuthMismatch);
    }
    let n = records.len();
    let mut i: usize = 0;
    while i < n
        invariant
            i <= n,
            owner_records_error(records@, basket_key, 0) == owner_records_error(
                records@,
                basket_key,
                i as int,
            ),
        decreases n - i,
    {
        let bt = match records[i].data {
            RecordData::Registration(bt) => bt,
            _ => {
                return Err(BasketError::InvalidBasketWiring);
            },
        };
        if bt.basket != basket_key {
            return Err(BasketError::MintConfigMismatch);
        }
        if !bt.enabled {
            return Err(BasketError::TokenNotEnabled);
        }
        i = i + 1;
    }
    Ok(())
}

} // verus!
