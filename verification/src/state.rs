use vstd::prelude::*;

use crate::address::Address;
use crate::constants::MAX_NAME_LEN;
use crate::constants::MAX_TOKENS_PER_BASKET;

verus! {

/// Global protocol configuration: a singleton record, mutated only by the
/// administrative operations and read-only to the engines.
#[derive(Clone, Copy, Debug, PartialEq, Eq, Structural)]
pub struct Config {
    /// Administrator allowed to change the configuration and create baskets.
    pub admin: Address,
    /// Authority allowed to edit compliance allow-list entries.
    pub whitelist_auth: Address,
    /// Global deposit fee in basis points, used when a basket has no override.
    pub fee_bps: u16,
    /// When true, depositors must hold a matching allow-list entry.
    pub compliance_enabled: bool,
    /// Schema version.
    pub version: u8,
    /// Derivation nonce of the configuration record itself.
    pub bump: u8,
}

/// Per-basket state: identity, share-token wiring, fee override, and the
/// derivation nonces needed to re-derive its authority addresses.
#[derive(Clone, Copy, Debug, PartialEq, Eq)]
pub struct Basket {
    /// The basket's owner.
    pub owner: Address,
    /// Address of the share token this basket mints and burns.
    pub share_mint: Address,
    /// Address that owns every vault of this basket.
    pub vault_authority: Address,
    /// Numeric basket id, a seed of every derived authority.
    pub basket_id: u64,
    /// Fixed-length name, padded with zero bytes.
    pub name: [u8; MAX_NAME_LEN],
    /// Per-basket fee override in basis points; meaningful only when
    /// `has_fee_override` is 1.
    pub fee_bps_override: u16,
    /// 1 when `fee_bps_override` replaces the global fee, 0 otherwise.
    pub has_fee_override: u8,
    /// How many assets are registered into this basket.
    pub token_count: u8,
    /// Schema version.
    pub version: u8,
    /// Derivation nonce of the basket record.
    pub basket_bump: u8,
    /// Derivation nonce of the basket's vault authority.
    pub vault_authority_bump: u8,
    /// Derivation nonce of the basket's mint authority.
    pub mint_authority_bump: u8,
}

impl Basket {
    /// Structural invariant: the registered-asset count never exceeds the
    /// basket's fixed capacity.
    pub open spec fn wf(self) -> bool {
        self.token_count <= MAX_TOKENS_PER_BASKET
    }

    /// The fee this basket charges: its own override when set, otherwise the
    /// global fee.
    pub open spec fn spec_effective_fee_bps(self, global_fee_bps: u16) -> u16 {
        if self.has_fee_override == 1 {
            self.fee_bps_override
        } else {
            global_fee_bps
        }
    }

    /// Picks the effective fee for one call.
    pub fn effective_fee_bps(&self, global_fee_bps: u16) -> (r: u16)
        ensures
            r == self.spec_effective_fee_bps(global_fee_bps),
    {
        if self.has_fee_override == 1 {
            self.fee_bps_override
        } else {
            global_fee_bps
        }
    }
}

/// Registration of one underlying asset into one basket: the addresses a
/// deposit or withdrawal leg must present, fixed when the asset is added.
#[derive(Clone, Copy, Debug, PartialEq, Eq, Structural)]
pub struct BasketToken {
    /// The basket this registration belongs to.
    pub basket: Address,
    /// The underlying asset's mint address.
    pub mint: Address,
    /// The basket's custody vault for this asset.
    pub vault_ata: Address,
    /// The basket's fee-collection vault for this asset.
    pub fee_vault_ata: Address,
    /// Decimal precision of the underlying asset.
    pub decimals: u8,
    /// Whether the asset currently participates in deposits and withdrawals.
    pub enabled: bool,
    /// Derivation nonce of the registration record.
    pub bump: u8,
}

/// Per-(basket, user) compliance gate; absence of an entry means denial.
#[derive(Clone, Copy, Debug, PartialEq, Eq, Structural)]
pub struct UserAllowList {
    /// The basket the entry gates.
    pub basket: Address,
    /// The gated user.
    pub user: Address,
    /// Whether the user may deposit into the basket.
    pub allowed: bool,
    /// Derivation nonce of the entry record.
    pub bump: u8,
}

} // verus!
