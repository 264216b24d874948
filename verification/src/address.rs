use vstd::prelude::*;

verus! {

/// A 256-bit account address, held as four 64-bit words.
///
/// The engines never look inside an address except to compare two of them
/// for equality, so four plain words are a faithful stand-in for the host
/// ledger's opaque 32-byte keys.
#[derive(Clone, Copy, Debug, PartialEq, Eq, Hash, Structural)]
pub struct Address {
    pub w0: u64,
    pub w1: u64,
    pub w2: u64,
    pub w3: u64,
}

/// Derivation tag distinguishing a basket's share-mint authority.
pub const MINT_AUTHORITY_TAG: u64 = 1;

/// Derivation tag distinguishing a basket's vault authority.
pub const VAULT_AUTHORITY_TAG: u64 = 2;

/// The address that authorizes minting shares for the basket `basket_id`,
/// derived deterministically from the basket id and its stored nonce.
pub open spec fn mint_authority_address(basket_id: u64, bump: u8) -> Address {
    Address { w0: MINT_AUTHORITY_TAG, w1: basket_id, w2: bump as u64, w3: 0 }
}

/// The address that authorizes transfers out of the basket's vaults,
/// derived deterministically from the basket id and its stored nonce.
pub open spec fn vault_authority_address(basket_id: u64, bump: u8) -> Address {
    Address { w0: VAULT_AUTHORITY_TAG, w1: basket_id, w2: bump as u64, w3: 0 }
}

/// Re-derives the share-mint authority for a basket; both engines compare a
/// caller-supplied authority record against this before trusting it.
pub fn derive_mint_authority(basket_id: u64, bump: u8) -> (a: Address)
    ensures
        a == mint_authority_address(basket_id, bump),
{
    Address { w0: MINT_AUTHORITY_TAG, w1: basket_id, w2: bump as u64, w3: 0 }
}

/// Re-derives the vault authority for a basket.
pub fn derive_vault_authority(basket_id: u64, bump: u8) -> (a: Address)
    ensures
        a == vault_authority_address(basket_id, bump),
{
    Address { w0: VAULT_AUTHORITY_TAG, w1: basket_id, w2: bump as u64, w3: 0 }
}

} // verus!
