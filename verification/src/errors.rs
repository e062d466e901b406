//! The typed, non-retryable rejections of the vault core. Every failure is
//! reported with a specific kind, never as a generic failure.

use vstd::prelude::*;

verus! {

/// Why an operation was refused, or why a transfer leg could not be carried
/// out. Authorization and state errors reject before any mutation; only the
/// transfer service can fail mid-operation.
#[derive(Clone, Copy, Debug, PartialEq, Eq)]
pub enum ErrorCode {
    /// The caller is not the owner of the vault, or does not own the supplied
    /// holding account.
    NotOwner,
    /// A supplied holding account is bound to a different asset type than the
    /// vault.
    WrongAsset,
    /// The supplied custody account is not the one recorded in the vault, or
    /// is not controlled by the vault's delegated authority.
    WrongCustodyAccount,
    /// A vault record for this owner and asset pair already exists.
    AlreadyExists,
    /// Withdrawals are forbidden until the recorded lock expiry.
    TokensLocked,
    /// The requested lock expiry does not fit in the timestamp range.
    InvalidLockDuration,
    /// The asset transfer service refused to move the requested units.
    ServiceUnavailable,
}

} // verus!
