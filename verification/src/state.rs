//! The records the engine persists and the account bundles each operation
//! receives from its caller.
//!
//! Account identities (wallets, token accounts, asset types) are abstract
//! 64-bit keys here. The host that embeds the engine maps each real 32-byte
//! chain address to one such key; `crate::pda` derives the real holding-vault
//! addresses from lock identities.

use vstd::prelude::*;

verus! {

/// The registry singleton: assigns sequential lock identities.
#[derive(Clone, Copy, Debug, PartialEq, Eq, Structural)]
pub struct GlobalState {
    /// Identity of the initializer. Recorded once; no operation is gated on it.
    pub authority: u64,
    /// Number of locks created so far, and the next lock's identity.
    pub lock_counter: u64,
}

/// One time-locked deposit.
#[derive(Clone, Copy, Debug, PartialEq, Eq, Structural)]
pub struct Lock {
    /// Sequential identity, assigned from the registry counter at creation.
    pub id: u64,
    /// The depositor; the only identity that may release, top up, or extend.
    pub owner: u64,
    /// Asset type of the deposit; every later transfer must match it.
    pub mint: u64,
    /// Quantity locked. Grows by top-ups; kept as a historical figure after
    /// release, when the holding vault is drained.
    pub amount: u64,
    /// Timestamp from which release is allowed. Only ever increased.
    pub unlock_timestamp: i64,
    /// Timestamp of creation; strictly below `unlock_timestamp`.
    pub created_at: i64,
    /// Proof byte with which the holding vault's derived address signs for
    /// its own outbound transfer.
    pub vault_bump: u8,
    /// Whether the deposit has been released. Set once, never cleared.
    pub is_unlocked: bool,
}

/// A fungible-token custody slot: the depositor's own account, or a lock's
/// holding vault.
#[derive(Clone, Copy, Debug, PartialEq, Eq, Structural)]
pub struct TokenAccount {
    /// The slot's address.
    pub key: u64,
    /// Asset type the slot holds.
    pub mint: u64,
    /// Identity whose signature authorizes outbound transfers.
    pub owner: u64,
    /// Current balance.
    pub amount: u64,
}

/// Deployment configuration: whether lock creation charges a flat
/// native-currency fee, and to whom it goes.
#[derive(Clone, Copy, Debug, PartialEq, Eq, Structural)]
pub struct LockConfig {
    /// Whether creation charges the fee at all.
    pub fee_enabled: bool,
    /// Flat fee in native-currency units, charged per created lock.
    pub fee_amount: u64,
    /// The only identity allowed to receive the fee.
    pub fee_recipient: u64,
}

/// Accounts for registry initialization.
#[derive(Clone, Copy, Debug, PartialEq, Eq, Structural)]
pub struct Initialize {
    /// The caller; recorded as the registry's authority.
    pub authority: u64,
}

/// Accounts for lock creation.
#[derive(Clone, Copy, Debug, PartialEq, Eq, Structural)]
pub struct LockTokens {
    /// The depositor, who signs the call.
    pub owner: u64,
    /// The depositor's token account, source of the deposit.
    pub owner_token_account: TokenAccount,
    /// Asset type being locked.
    pub mint: u64,
    /// Proof byte for the new holding vault's derived address, computed by
    /// the host from the new lock's identity.
    pub vault_bump: u8,
    /// Native-currency balance of the depositor, charged the fee.
    pub owner_lamports: u64,
    /// The fee recipient the caller supplied; must match the configured one.
    pub fee_recipient: u64,
    /// Native-currency balance of the fee recipient.
    pub fee_recipient_lamports: u64,
}

/// Accounts for release.
#[derive(Clone, Copy, Debug, PartialEq, Eq, Structural)]
pub struct UnlockTokens {
    /// The caller; must be the lock's owner.
    pub owner: u64,
    /// Destination token account for the released deposit.
    pub owner_token_account: TokenAccount,
}

/// Accounts for a top-up.
#[derive(Clone, Copy, Debug, PartialEq, Eq, Structural)]
pub struct TopUpLock {
    /// The caller; must be the lock's owner.
    pub owner: u64,
    /// Source token account for the additional deposit.
    pub owner_token_account: TokenAccount,
}

/// Accounts for an extension.
#[derive(Clone, Copy, Debug, PartialEq, Eq, Structural)]
pub struct ExtendLock {
    /// The caller; must be the lock's owner.
    pub owner: u64,
}

} // verus!
