use vstd::prelude::*;

verus! {

/// Every way a basket operation can fail.  Each failure aborts the whole
/// call: the engines return an error instead of a plan, so no partial
/// effect is ever handed to the ledger.
#[derive(Clone, Copy, Debug, PartialEq, Eq, Structural)]
pub enum BasketError {
    /// Caller is not the required authority.
    Unauthorized,
    /// Fee basis points out of the allowed range.
    InvalidFee,
    /// Basket name exceeds the maximum length.
    NameTooLong,
    /// Basket has reached its maximum token capacity.
    MaxTokensExceeded,
    /// Asset mint is not whitelisted for this basket.
    MintNotWhitelisted,
    /// Asset is registered but not enabled in this basket.
    TokenNotEnabled,
    /// User is not on the compliance allow list.
    ComplianceDenied,
    /// Cannot deposit zero tokens.
    ZeroDeposit,
    /// Insufficient share balance for the requested withdrawal.
    InsufficientShares,
    /// Arithmetic overflow, or a quotient that cannot be represented.
    ArithmeticOverflow,
    /// The flat record list's length does not match the expected layout.
    InvalidRemainingAccounts,
    /// Supplied records do not match the addresses the registry expects.
    InvalidBasketWiring,
    /// Supplied share mint does not match the basket's share mint.
    ShareMintMismatch,
    /// Supplied vault authority does not match the expected derivation.
    VaultAuthMismatch,
    /// Basket owner does not match the expected owner.
    OwnerMismatch,
    /// Unsupported schema version.
    UnsupportedVersion,
    /// Asset-identity record does not match the registration entry.
    MintConfigMismatch,
    /// A call must cover every registered asset; no partial baskets.
    IncompleteWithdrawal,
    /// The deposit's computed shares round to zero.
    ZeroSharesMinted,
    /// User token account's mint does not match the expected asset mint.
    UserAtaMintMismatch,
    /// User token account is not owned by a valid token program.
    InvalidTokenProgramOwner,
}

} // verus!
