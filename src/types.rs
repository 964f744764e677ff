//! The ledger's data: account keys, holdings, positions, the registry,
//! errors, and the custody movements that operations ask for.
use vstd::prelude::*;

verus! {

/// A 32-byte account identity (an asset mint, a price feed, a user), held as
/// two 128-bit words.
#[derive(Clone, Copy, Debug, PartialEq, Eq, Hash, Structural)]
pub struct AccountKey {
    pub hi: u128,
    pub lo: u128,
}

impl AccountKey {
    /// The all-zero key, which marks a position that has no owner yet.
    pub fn zero() -> (r: AccountKey)
        ensures
            r == AccountKey::zero_spec(),
    {
        AccountKey { hi: 0, lo: 0 }
    }

    pub open spec fn zero_spec() -> AccountKey {
        AccountKey { hi: 0, lo: 0 }
    }
}

/// The amount of one asset held in a position.
#[derive(Clone, Copy, Debug, PartialEq, Eq, Structural)]
pub struct Collateral {
    pub token: AccountKey,
    pub amount: u64,
}

/// A user's debt and collateral basket.
pub struct UserPosition {
    pub user: AccountKey,
    pub dsc_minted: u64,
    pub collateral: Vec<Collateral>,
}

/// The collateral registry: approved assets paired by index with their
/// price feeds, and the mint of the debt token.
pub struct DscState {
    pub collateral_tokens: Vec<AccountKey>,
    pub price_feeds: Vec<AccountKey>,
    pub dsc_mint: AccountKey,
}

/// Why an operation was rejected. Every error leaves the position unchanged.
#[derive(Clone, Copy, Debug, PartialEq, Eq, Structural)]
pub enum DscError {
    NeedMoreThanZero,
    TokenAndPriceFeedLengthMismatch,
    NotAllowedToken,
    TransferFailed,
    BreaksHealthFactor,
    MintFailed,
    HealthFactorOk,
    HealthFactorNotImproved,
    ArithmeticOverflow,
    InsufficientCollateral,
    InsufficientDebt,
    BurnFailed,
    PriceUnavailable,
}

/// A movement of tokens that the custody collaborator must carry out for an
/// operation to take effect.
#[derive(Clone, Copy, Debug, PartialEq, Eq, Structural)]
pub enum CustodyAction {
    /// Move `amount` of `token` from `from` into the protocol's vault.
    TransferToVault { token: AccountKey, from: AccountKey, amount: u64 },
    /// Move `amount` of `token` out of the vault to `to`.
    TransferFromVault { token: AccountKey, to: AccountKey, amount: u64 },
    /// Issue `amount` of the debt token to `to`.
    MintDebt { to: AccountKey, amount: u64 },
    /// Destroy `amount` of the debt token held by `from`.
    BurnDebt { from: AccountKey, amount: u64 },
}

/// Notification that collateral entered a position.
#[derive(Clone, Copy, Debug, PartialEq, Eq, Structural)]
pub struct CollateralDeposited {
    pub user: AccountKey,
    pub token: AccountKey,
    pub amount: u64,
}

/// Notification that collateral left a position's vault.
#[derive(Clone, Copy, Debug, PartialEq, Eq, Structural)]
pub struct CollateralRedeemed {
    pub from: AccountKey,
    pub to: AccountKey,
    pub token: AccountKey,
    pub amount: u64,
}

/// The error to report when the custody collaborator could not carry out
/// `action`.
pub fn custody_error(action: &CustodyAction) -> (r: DscError)
    ensures
        r == custody_error_spec(*action),
{
    match action {
        CustodyAction::TransferToVault { .. } => DscError::TransferFailed,
        CustodyAction::TransferFromVault { .. } => DscError::TransferFailed,
        CustodyAction::MintDebt { .. } => DscError::MintFailed,
        CustodyAction::BurnDebt { .. } => DscError::BurnFailed,
    }
}

pub open spec fn custody_error_spec(action: CustodyAction) -> DscError {
    match action {
        CustodyAction::TransferToVault { .. } => DscError::TransferFailed,
        CustodyAction::TransferFromVault { .. } => DscError::TransferFailed,
        CustodyAction::MintDebt { .. } => DscError::MintFailed,
        CustodyAction::BurnDebt { .. } => DscError::BurnFailed,
    }
}

} // verus!
