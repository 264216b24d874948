use vstd::prelude::*;

use crate::address::Address;
use crate::error::BasketError;
use crate::state::BasketToken;

verus! {

/// What a caller-supplied ledger record holds, as far as the engines read
/// it: an asset registration, a token account with a balance, or anything
/// else (an asset mint, a user identity, ...).
#[derive(Clone, Copy, Debug, PartialEq, Eq, Structural)]
pub enum RecordData {
    /// The record deserializes as an asset registration.
    Registration(BasketToken),
    /// The record deserializes as a token account holding this balance.
    TokenAccount(u64),
    /// Any other record; the engines only compare its address.
    Other,
}

/// One caller-supplied ledger record: its address plus whatever the engines
/// can read out of it.  Nothing in a record is trusted until its address or
/// content has been checked against the registry.
#[derive(Clone, Copy, Debug, PartialEq, Eq, Structural)]
pub struct RawRecord {
    /// The record's address on the ledger.
    pub key: Address,
    /// The record's readable content.
    pub data: RecordData,
}

/// Whether a record deserializes as an asset registration.
pub open spec fn is_registration(r: RawRecord) -> bool {
    r.data is Registration
}

/// The registration a record holds; meaningful only when `is_registration`.
pub open spec fn registration_of(r: RawRecord) -> BasketToken {
    r.data->Registration_0
}

/// Whether a record deserializes as a token account.
pub open spec fn is_token_account(r: RawRecord) -> bool {
    r.data is TokenAccount
}

/// The balance a token-account record holds; meaningful only when
/// `is_token_account`.
pub open spec fn balance_of(r: RawRecord) -> u64 {
    r.data->TokenAccount_0
}

/// Reads a vault's balance out of a caller-supplied record, failing when
/// the record is not a token account at all.
pub fn read_vault_balance(record: &RawRecord) -> (r: Result<u64, BasketError>)
    ensures
        match r {
            Ok(b) => is_token_account(*record) && b == balance_of(*record),
            Err(e) => !is_token_account(*record) && e == BasketError::InvalidBasketWiring,
        },
{
    match record.data {
        RecordData::TokenAccount(balance) => Ok(balance),
        _ => Err(BasketError::InvalidBasketWiring),
    }
}

/// One transfer the engine asks the ledger to perform: `amount` units of an
/// asset moved from the account at `from` to the account at `to`.
#[derive(Clone, Copy, Debug, PartialEq, Eq, Structural)]
pub struct TransferRequest {
    /// Source account address.
    pub from: Address,
    /// Destination account address.
    pub to: Address,
    /// Amount, in the asset's own decimal precision.
    pub amount: u64,
}

} // verus!
