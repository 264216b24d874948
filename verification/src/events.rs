use vstd::prelude::*;

use crate::address::Address;

verus! {

/// Completion record of the one-time configuration initialization.
#[derive(Clone, Copy, Debug, PartialEq, Eq, Structural)]
pub struct ConfigInitialized {
    pub admin: Address,
    pub whitelist_auth: Address,
    pub fee_bps: u16,
    pub compliance_enabled: bool,
}

/// Completion record of a configuration update.
#[derive(Clone, Copy, Debug, PartialEq, Eq, Structural)]
pub struct ConfigUpdated {
    pub fee_bps: u16,
    pub whitelist_auth: Address,
    pub compliance_enabled: bool,
    pub new_admin: Address,
}

/// Completion record of a compliance allow-list edit.
#[derive(Clone, Copy, Debug, PartialEq, Eq, Structural)]
pub struct AllowListUpdated {
    pub basket: Address,
    pub user: Address,
    pub allowed: bool,
}

/// Completion record of a basket creation.
#[derive(Clone, Copy, Debug, PartialEq, Eq, Structural)]
pub struct BasketCreated {
    pub basket_id: u64,
    pub owner: Address,
    pub share_mint: Address,
}

/// Completion record of an asset registration.
#[derive(Clone, Copy, Debug, PartialEq, Eq, Structural)]
pub struct TokenAdded {
    pub basket: Address,
    pub mint: Address,
    pub vault_ata: Address,
}

/// Completion record of a deposit.
#[derive(Clone, Copy, Debug, PartialEq, Eq, Structural)]
pub struct DepositCompleted {
    pub basket: Address,
    pub user: Address,
    pub shares_minted: u64,
}

/// Completion record of a withdrawal.
#[derive(Clone, Copy, Debug, PartialEq, Eq, Structural)]
pub struct WithdrawCompleted {
    pub basket: Address,
    pub user: Address,
    pub shares_burned: u64,
}

} // verus!
