use vstd::prelude::*;

verus! {

/// Lower bound (inclusive) for any configured fee, in basis points.
pub const FEE_BPS_MIN: u16 = 10;

/// Upper bound (inclusive) for any configured fee, in basis points.
pub const FEE_BPS_MAX: u16 = 50;

/// One hundred percent in basis points: the denominator of every fee computation.
pub const BPS_DENOMINATOR: u64 = 10_000;

/// Largest number of underlying assets one basket may register.
pub const MAX_TOKENS_PER_BASKET: u8 = 10;

/// Fixed byte length of a basket's name.
pub const MAX_NAME_LEN: usize = 32;

/// Decimal precision of the share token.
pub const QSHARE_DECIMALS: u8 = 6;

/// Current schema version stamped into newly created records.
pub const CURRENT_VERSION: u8 = 1;

/// Records per asset leg in a deposit:
/// registration, asset mint, user account, vault, fee vault.
pub const DEPOSIT_ACCOUNTS_PER_TOKEN: usize = 5;

/// Records per asset leg in a withdrawal:
/// registration, asset mint, vault, user account.
pub const WITHDRAW_ACCOUNTS_PER_TOKEN: usize = 4;

} // verus!
