//! The time-lock state machine: the registry, every lock and its paired
//! holding vault, and the four guarded operations.
//!
//! Each operation checks its guards in a documented order, reports the first
//! violated guard as a tagged error with no state change, and on success
//! applies the whole transition at once.

use vstd::prelude::*;

use crate::errors::ErrorCode;
use crate::state::{
    ExtendLock, GlobalState, Initialize, Lock, LockConfig, LockTokens, TokenAccount, TopUpLock,
    UnlockTokens,
};

verus! {

/// The model address of lock `id`'s holding vault. It is derived from the
/// lock's identity alone, so holding vaults of distinct locks never collide;
/// in this model the derivation is the identity map into the shared key
/// space. The host maps it to the real derived chain address (`crate::pda`).
pub open spec fn holding_key(id: u64) -> u64 {
    id
}

/// The whole custody engine: deployment configuration, the registry, and
/// every lock with its paired holding vault.
///
/// Lock `i` lives at `locks[i]` and its holding vault at `vaults[i]`; the
/// registry counter always equals the number of locks created.
pub struct Engine {
    /// Fee configuration, fixed at construction.
    pub config: LockConfig,
    /// Whether `initialize` has run. No lock can be created before it has.
    pub initialized: bool,
    /// The registry singleton.
    pub global_state: GlobalState,
    /// Every lock ever created, indexed by its identity.
    pub locks: Vec<Lock>,
    /// Each lock's holding vault, at the same index as the lock.
    pub vaults: Vec<TokenAccount>,
}

impl Engine {
    /// Everything that must hold of lock `i` and its holding vault.
    pub open spec fn pair_wf(self, i: int) -> bool {
        &&& self.locks@[i].id == i
        &&& self.locks@[i].amount > 0
        &&& self.locks@[i].unlock_timestamp > self.locks@[i].created_at
        &&& self.vaults@[i].key == holding_key(self.locks@[i].id)
        &&& self.vaults@[i].owner == self.vaults@[i].key
        &&& self.vaults@[i].mint == self.locks@[i].mint
        &&& (!self.locks@[i].is_unlocked ==> self.vaults@[i].amount == self.locks@[i].amount)
        &&& (self.locks@[i].is_unlocked ==> self.vaults@[i].amount == 0)
    }

    /// The engine's invariant, established at construction and preserved by
    /// every operation.
    pub open spec fn wf(self) -> bool {
        &&& self.locks@.len() == self.vaults@.len()
        &&& self.global_state.lock_counter == self.locks@.len()
        &&& (!self.initialized ==> self.locks@.len() == 0)
        &&& forall|i: int| 0 <= i < self.locks@.len() ==> #[trigger] self.pair_wf(i)
    }

    /// A fresh engine with no registry yet: `initialize` must run before
    /// any lock can be created.
    pub fn new(config: LockConfig) -> (e: Engine)
        ensures
            e.wf(),
            !e.initialized,
            e.config == config,
            e.locks@.len() == 0,
    {
        Engine {
            config,
            initialized: false,
            global_state: GlobalState { authority: 0, lock_counter: 0 },
            locks: Vec::new(),
            vaults: Vec::new(),
        }
    }

    /// What `initialize` returns: creation is refused once the registry
    /// exists, so an authority can never be silently overwritten.
    pub open spec fn initialize_result(self, ctx: Initialize) -> Result<(), ErrorCode> {
        if self.initialized {
            Err(ErrorCode::AlreadyInitialized)
        } else {
            Ok(())
        }
    }

    /// Create the registry with a zero counter, recording the caller as its
    /// authority. Fails if and only if the registry already exists, and then
    /// changes nothing.
    pub fn initialize(&mut self, ctx: &Initialize) -> (r: Result<(), ErrorCode>)
        requires
            old(self).wf(),
        ensures
            final(self).wf(),
            r == old(self).initialize_result(*ctx),
            r is Err ==> *final(self) == *old(self),
            r is Ok ==> *final(self) == (Engine {
                initialized: true,
                global_state: (GlobalState { authority: ctx.authority, lock_counter: 0 }),
                ..*old(self)
            }),
            final(self).initialized,
    {
        if self.initialized {
            return Err(ErrorCode::AlreadyInitialized);
        }
        self.global_state = GlobalState { authority: ctx.authority, lock_counter: 0 };
        self.initialized = true;
        Ok(())
    }

    /// What `lock` returns, by the order its guards are checked: the
    /// deposit must be positive and its release time in the future; with
    /// the fee enabled the supplied recipient must match the configured one
    /// before anything moves; the deposit transfer must be well-typed,
    /// authorized by the depositor, and covered; the fee must be covered and
    /// receivable; and the registry counter must not overflow. When every
    /// guard passes, the new lock's identity is the counter's current value.
    pub open spec fn lock_result(
        self,
        ctx: LockTokens,
        amount: u64,
        unlock_timestamp: i64,
        now: i64,
    ) -> Result<u64, ErrorCode> {
        if amount == 0 {
            Err(ErrorCode::AmountZero)
        } else if unlock_timestamp <= now {
            Err(ErrorCode::TimestampInPast)
        } else if self.config.fee_enabled && ctx.fee_recipient != self.config.fee_recipient {
            Err(ErrorCode::InvalidFeeRecipient)
        } else if ctx.owner_token_account.mint != ctx.mint {
            Err(ErrorCode::InvalidMint)
        } else if ctx.owner_token_account.owner != ctx.owner {
            Err(ErrorCode::Unauthorized)
        } else if ctx.owner_token_account.amount < amount {
            Err(ErrorCode::InsufficientFunds)
        } else if self.config.fee_enabled && ctx.owner_lamports < self.config.fee_amount {
            Err(ErrorCode::InsufficientFunds)
        } else if self.config.fee_enabled
            && ctx.fee_recipient_lamports + self.config.fee_amount > u64::MAX {
            Err(ErrorCode::Overflow)
        } else if self.global_state.lock_counter == u64::MAX {
            Err(ErrorCode::Overflow)
        } else {
            Ok(self.global_state.lock_counter)
        }
    }

    /// The lock record that a successful `lock` call appends.
    pub open spec fn created_lock(
        self,
        ctx: LockTokens,
        amount: u64,
        unlock_timestamp: i64,
        now: i64,
    ) -> Lock {
        Lock {
            id: self.global_state.lock_counter,
            owner: ctx.owner,
            mint: ctx.mint,
            amount,
            unlock_timestamp,
            created_at: now,
            vault_bump: ctx.vault_bump,
            is_unlocked: false,
        }
    }

    /// The holding vault that a successful `lock` call appends: a custody
    /// slot at the derived address, signing for itself, already credited
    /// with the whole deposit.
    pub open spec fn created_vault(self, ctx: LockTokens, amount: u64) -> TokenAccount {
        TokenAccount {
            key: holding_key(self.global_state.lock_counter),
            mint: ctx.mint,
            owner: holding_key(self.global_state.lock_counter),
            amount,
        }
    }

    /// Create a lock: assign the next sequential identity, record the lock,
    /// move the whole deposit from the depositor's token account into the
    /// new holding vault, charge the flat fee where one is configured, and
    /// advance the registry counter by exactly one. On any failed guard
    /// nothing at all changes.
    pub fn lock(
        &mut self,
        ctx: &mut LockTokens,
        amount: u64,
        unlock_timestamp: i64,
        now: i64,
    ) -> (r: Result<u64, ErrorCode>)
        requires
            old(self).wf(),
            old(self).initialized,
        ensures
            final(self).wf(),
            final(self).initialized,
            r == old(self).lock_result(*old(ctx), amount, unlock_timestamp, now),
            r is Err ==> *final(self) == *old(self) && *final(ctx) == *old(ctx),
            r matches Ok(id) ==> ({
                &&& id == old(self).global_state.lock_counter
                &&& final(self).global_state.lock_counter == id + 1
                &&& final(self).global_state.authority == old(self).global_state.authority
                &&& final(self).config == old(self).config
                &&& final(self).locks@ == old(self).locks@.push(
                    old(self).created_lock(*old(ctx), amount, unlock_timestamp, now))
                &&& final(self).vaults@ == old(self).vaults@.push(
                    old(self).created_vault(*old(ctx), amount))
                &&& final(ctx).owner_token_account == (TokenAccount {
                    amount: (old(ctx).owner_token_account.amount - amount) as u64,
                    ..old(ctx).owner_token_account
                })
                &&& (if old(self).config.fee_enabled {
                    *final(ctx) == (LockTokens {
                        owner_token_account: final(ctx).owner_token_account,
                        owner_lamports: (old(ctx).owner_lamports
                            - old(self).config.fee_amount) as u64,
                        fee_recipient_lamports: (old(ctx).fee_recipient_lamports
                            + old(self).config.fee_amount) as u64,
                        ..*old(ctx)
                    })
                } else {
                    *final(ctx) == (LockTokens {
                        owner_token_account: final(ctx).owner_token_account,
                        ..*old(ctx)
                    })
                })
            }),
    {
        if amount == 0 {
            return Err(ErrorCode::AmountZero);
        }
        if unlock_timestamp <= now {
            return Err(ErrorCode::TimestampInPast);
        }
        if self.config.fee_enabled && ctx.fee_recipient != self.config.fee_recipient {
            return Err(ErrorCode::InvalidFeeRecipient);
        }
        if ctx.owner_token_account.mint != ctx.mint {
            return Err(ErrorCode::InvalidMint);
        }
        if ctx.owner_token_account.owner != ctx.owner {
            return Err(ErrorCode::Unauthorized);
        }
        if ctx.owner_token_account.amount < amount {
            return Err(ErrorCode::InsufficientFunds);
        }
        if self.config.fee_enabled && ctx.owner_lamports < self.config.fee_amount {
            return Err(ErrorCode::InsufficientFunds);
        }
        if self.config.fee_enabled
            && ctx.fee_recipient_lamports > u64::MAX - self.config.fee_amount {
            return Err(ErrorCode::Overflow);
        }
        if self.global_state.lock_counter == u64::MAX {
            return Err(ErrorCode::Overflow);
        }

        let id = self.global_state.lock_counter;
        let new_lock = Lock {
            id,
            owner: ctx.owner,
            mint: ctx.mint,
            amount,
            unlock_timestamp,
            created_at: now,
            vault_bump: ctx.vault_bump,
            is_unlocked: false,
        };
        self.locks.push(new_lock);
        // The deposit: debit the depositor, credit the new vault in full.
        self.vaults.push(TokenAccount { key: id, mint: ctx.mint, owner: id, amount });
        ctx.owner_token_account.amount = ctx.owner_token_account.amount - amount;
        // The flat protocol fee, where one is configured.
        if self.config.fee_enabled {
            ctx.owner_lamports = ctx.owner_lamports - self.config.fee_amount;
            ctx.fee_recipient_lamports = ctx.fee_recipient_lamports + self.config.fee_amount;
        }
        self.global_state.lock_counter = id + 1;

        proof {
            assert forall|i: int| 0 <= i < self.locks@.len() implies #[trigger] self.pair_wf(i) by {
                if i < old(self).locks@.len() {
                    assert(old(self).pair_wf(i));
                }
            }
        }
        Ok(id)
    }

    /// What `unlock` returns, by the order its guards are checked: the
    /// destination must not be the holding vault itself (the aliasing
    /// guard), the caller must be the lock's owner, the destination must
    /// carry the lock's asset type and be controlled by the caller, the
    /// lock must still be active, the release time must have been reached,
    /// and the destination balance must be able to take the deposit.
    pub open spec fn unlock_result(self, lock_id: u64, ctx: UnlockTokens, now: i64) -> Result<
        (),
        ErrorCode,
    >
        recommends
            lock_id < self.locks@.len(),
    {
        let l = self.locks@[lock_id as int];
        let v = self.vaults@[lock_id as int];
        if ctx.owner_token_account.key == v.key {
            Err(ErrorCode::DuplicateAccounts)
        } else if ctx.owner != l.owner {
            Err(ErrorCode::Unauthorized)
        } else if ctx.owner_token_account.mint != l.mint {
            Err(ErrorCode::InvalidMint)
        } else if ctx.owner_token_account.owner != ctx.owner {
            Err(ErrorCode::Unauthorized)
        } else if l.is_unlocked {
            Err(ErrorCode::AlreadyUnlocked)
        } else if now < l.unlock_timestamp {
            Err(ErrorCode::TooEarly)
        } else if ctx.owner_token_account.amount + l.amount > u64::MAX {
            Err(ErrorCode::Overflow)
        } else {
            Ok(())
        }
    }

    /// Release a lock: drain the whole deposit from the holding vault to
    /// the caller's destination account, authorized by the vault's own
    /// derived address, and mark the lock released — exactly once, never
    /// before the release time, and only for the owner. The lock's `amount`
    /// field keeps its historical value. On any failed guard nothing at all
    /// changes.
    pub fn unlock(&mut self, lock_id: u64, ctx: &mut UnlockTokens, now: i64) -> (r: Result<
        (),
        ErrorCode,
    >)
        requires
            old(self).wf(),
            lock_id < old(self).locks@.len(),
        ensures
            final(self).wf(),
            r == old(self).unlock_result(lock_id, *old(ctx), now),
            r is Err ==> *final(self) == *old(self) && *final(ctx) == *old(ctx),
            r is Ok ==> ({
                &&& final(self).locks@ == old(self).locks@.update(lock_id as int, (Lock {
                    is_unlocked: true,
                    ..old(self).locks@[lock_id as int]
                }))
                &&& final(self).vaults@ == old(self).vaults@.update(lock_id as int, (TokenAccount {
                    amount: 0,
                    ..old(self).vaults@[lock_id as int]
                }))
                &&& final(self).global_state == old(self).global_state
                &&& final(self).config == old(self).config
                &&& final(self).initialized == old(self).initialized
                &&& *final(ctx) == (UnlockTokens {
                    owner_token_account: (TokenAccount {
                        amount: (old(ctx).owner_token_account.amount
                            + old(self).locks@[lock_id as int].amount) as u64,
                        ..old(ctx).owner_token_account
                    }),
                    ..*old(ctx)
                })
            }),
    {
        // Establishes that the identity of an existing lock fits in usize.
        let _n: usize = self.locks.len();
        let i = lock_id as usize;
        if ctx.owner_token_account.key == self.vaults[i].key {
            return Err(ErrorCode::DuplicateAccounts);
        }
        let l = self.locks[i];
        if ctx.owner != l.owner {
            return Err(ErrorCode::Unauthorized);
        }
        if ctx.owner_token_account.mint != l.mint {
            return Err(ErrorCode::InvalidMint);
        }
        if ctx.owner_token_account.owner != ctx.owner {
            return Err(ErrorCode::Unauthorized);
        }
        if l.is_unlocked {
            return Err(ErrorCode::AlreadyUnlocked);
        }
        if now < l.unlock_timestamp {
            return Err(ErrorCode::TooEarly);
        }
        if ctx.owner_token_account.amount > u64::MAX - l.amount {
            return Err(ErrorCode::Overflow);
        }

        // Drain the vault into the destination, then flip the flag.
        let mut vault = self.vaults[i];
        vault.amount = 0;
        self.vaults.set(i, vault);
        ctx.owner_token_account.amount = ctx.owner_token_account.amount + l.amount;
        let mut updated = l;
        updated.is_unlocked = true;
        self.locks.set(i, updated);

        proof {
            assert forall|j: int| 0 <= j < self.locks@.len() implies #[trigger] self.pair_wf(j) by {
                assert(old(self).pair_wf(j));
            }
        }
        Ok(())
    }

    /// What `top_up` returns, by the order its guards are checked: the
    /// source must not be the holding vault itself (the aliasing guard),
    /// the added amount must be positive, the caller must be the lock's
    /// owner, the lock must still be active, the source must carry the
    /// lock's asset type, be controlled by the caller, and cover the
    /// amount, and the lock's total must stay within the 64-bit range.
    pub open spec fn top_up_result(
        self,
        lock_id: u64,
        ctx: TopUpLock,
        additional_amount: u64,
    ) -> Result<(), ErrorCode>
        recommends
            lock_id < self.locks@.len(),
    {
        let l = self.locks@[lock_id as int];
        let v = self.vaults@[lock_id as int];
        if ctx.owner_token_account.key == v.key {
            Err(ErrorCode::DuplicateAccounts)
        } else if additional_amount == 0 {
            Err(ErrorCode::AmountZero)
        } else if ctx.owner != l.owner {
            Err(ErrorCode::Unauthorized)
        } else if l.is_unlocked {
            Err(ErrorCode::AlreadyUnlocked)
        } else if ctx.owner_token_account.mint != l.mint {
            Err(ErrorCode::InvalidMint)
        } else if ctx.owner_token_account.owner != ctx.owner {
            Err(ErrorCode::Unauthorized)
        } else if ctx.owner_token_account.amount < additional_amount {
            Err(ErrorCode::InsufficientFunds)
        } else if l.amount + additional_amount > u64::MAX {
            Err(ErrorCode::Overflow)
        } else {
            Ok(())
        }
    }

    /// Top up an active lock: move the additional deposit from the caller's
    /// token account into the holding vault and grow the lock's total by
    /// the same checked amount. The release time does not change. On any
    /// failed guard nothing at all changes.
    pub fn top_up(&mut self, lock_id: u64, ctx: &mut TopUpLock, additional_amount: u64) -> (r:
        Result<(), ErrorCode>)
        requires
            old(self).wf(),
            lock_id < old(self).locks@.len(),
        ensures
            final(self).wf(),
            r == old(self).top_up_result(lock_id, *old(ctx), additional_amount),
            r is Err ==> *final(self) == *old(self) && *final(ctx) == *old(ctx),
            r is Ok ==> ({
                &&& final(self).locks@ == old(self).locks@.update(lock_id as int, (Lock {
                    amount: (old(self).locks@[lock_id as int].amount + additional_amount) as u64,
                    ..old(self).locks@[lock_id as int]
                }))
                &&& final(self).vaults@ == old(self).vaults@.update(lock_id as int, (TokenAccount {
                    amount: (old(self).vaults@[lock_id as int].amount + additional_amount) as u64,
                    ..old(self).vaults@[lock_id as int]
                }))
                &&& final(self).global_state == old(self).global_state
                &&& final(self).config == old(self).config
                &&& final(self).initialized == old(self).initialized
                &&& *final(ctx) == (TopUpLock {
                    owner_token_account: (TokenAccount {
                        amount: (old(ctx).owner_token_account.amount - additional_amount) as u64,
                        ..old(ctx).owner_token_account
                    }),
                    ..*old(ctx)
                })
            }),
    {
        // Establishes that the identity of an existing lock fits in usize.
        let _n: usize = self.locks.len();
        let i = lock_id as usize;
        if ctx.owner_token_account.key == self.vaults[i].key {
            return Err(ErrorCode::DuplicateAccounts);
        }
        if additional_amount == 0 {
            return Err(ErrorCode::AmountZero);
        }
        let l = self.locks[i];
        if ctx.owner != l.owner {
            return Err(ErrorCode::Unauthorized);
        }
        if l.is_unlocked {
            return Err(ErrorCode::AlreadyUnlocked);
        }
        if ctx.owner_token_account.mint != l.mint {
            return Err(ErrorCode::InvalidMint);
        }
        if ctx.owner_token_account.owner != ctx.owner {
            return Err(ErrorCode::Unauthorized);
        }
        if ctx.owner_token_account.amount < additional_amount {
            return Err(ErrorCode::InsufficientFunds);
        }
        if l.amount > u64::MAX - additional_amount {
            return Err(ErrorCode::Overflow);
        }
        proof {
            // The active vault's balance equals the lock's total, so the
            // checked addition above covers the vault's credit too.
            assert(self.pair_wf(lock_id as int));
        }

        // Move the additional deposit, then grow the recorded total.
        ctx.owner_token_account.amount = ctx.owner_token_account.amount - additional_amount;
        let mut vault = self.vaults[i];
        vault.amount = vault.amount + additional_amount;
        self.vaults.set(i, vault);
        let mut updated = l;
        updated.amount = l.amount + additional_amount;
        self.locks.set(i, updated);

        proof {
            assert forall|j: int| 0 <= j < self.locks@.len() implies #[trigger] self.pair_wf(j) by {
                assert(old(self).pair_wf(j));
            }
        }
        Ok(())
    }

    /// What `extend` returns, by the order its guards are checked: the
    /// caller must be the lock's owner, the lock must still be active, and
    /// the new release time must be strictly later than the recorded one.
    pub open spec fn extend_result(
        self,
        lock_id: u64,
        ctx: ExtendLock,
        new_unlock_timestamp: i64,
    ) -> Result<(), ErrorCode>
        recommends
            lock_id < self.locks@.len(),
    {
        let l = self.locks@[lock_id as int];
        if ctx.owner != l.owner {
            Err(ErrorCode::Unauthorized)
        } else if l.is_unlocked {
            Err(ErrorCode::AlreadyUnlocked)
        } else if new_unlock_timestamp <= l.unlock_timestamp {
            Err(ErrorCode::CannotShortenTimestamp)
        } else {
            Ok(())
        }
    }

    /// Push an active lock's release time strictly later; it can never be
    /// pulled earlier. No funds move. Whatever the outcome, the recorded
    /// release time never decreases. On any failed guard nothing at all
    /// changes.
    pub fn extend(&mut self, lock_id: u64, ctx: &ExtendLock, new_unlock_timestamp: i64) -> (r:
        Result<(), ErrorCode>)
        requires
            old(self).wf(),
            lock_id < old(self).locks@.len(),
        ensures
            final(self).wf(),
            r == old(self).extend_result(lock_id, *ctx, new_unlock_timestamp),
            r is Err ==> *final(self) == *old(self),
            r is Ok ==> final(self).locks@ == old(self).locks@.update(lock_id as int, (Lock {
                unlock_timestamp: new_unlock_timestamp,
                ..old(self).locks@[lock_id as int]
            })) && final(self).vaults == old(self).vaults && final(self).global_state == old(
                self,
            ).global_state && final(self).config == old(self).config && final(self).initialized
                == old(self).initialized,
            final(self).locks@[lock_id as int].unlock_timestamp >= old(self).locks@[lock_id
                as int].unlock_timestamp,
    {
        // Establishes that the identity of an existing lock fits in usize.
        let _n: usize = self.locks.len();
        let i = lock_id as usize;
        let l = self.locks[i];
        if ctx.owner != l.owner {
            return Err(ErrorCode::Unauthorized);
        }
        if l.is_unlocked {
            return Err(ErrorCode::AlreadyUnlocked);
        }
        if new_unlock_timestamp <= l.unlock_timestamp {
            return Err(ErrorCode::CannotShortenTimestamp);
        }

        let mut updated = l;
        updated.unlock_timestamp = new_unlock_timestamp;
        self.locks.set(i, updated);

        proof {
            assert forall|j: int| 0 <= j < self.locks@.len() implies #[trigger] self.pair_wf(j) by {
                assert(old(self).pair_wf(j));
            }
        }
        Ok(())
    }
}

/// Law: lock identities are assigned sequentially from zero. In every
/// reachable engine the i-th created lock has identity i, and the registry
/// counter equals the number of locks created — so the identities handed
/// out by successive creations are exactly 0, 1, 2, ..., each one more than
/// the last.
pub proof fn lemma_lock_ids_sequential(e: Engine)
    requires
        e.wf(),
    ensures
        e.global_state.lock_counter == e.locks@.len(),
        forall|i: int| 0 <= i < e.locks@.len() ==> #[trigger] e.locks@[i].id == i,
{
    assert forall|i: int| 0 <= i < e.locks@.len() implies #[trigger] e.locks@[i].id == i by {
        assert(e.pair_wf(i));
    }
}

/// Law: creation identities strictly increase by one. A successful creation
/// returns the registry counter's value and leaves the counter one higher,
/// so when two creations succeed in turn — whoever the callers are — the
/// second returns exactly the first's identity plus one.
pub proof fn lemma_creation_ids_increase(
    pre: Engine,
    ctx1: LockTokens,
    amount1: u64,
    unlock1: i64,
    now1: i64,
    id1: u64,
    mid: Engine,
    ctx2: LockTokens,
    amount2: u64,
    unlock2: i64,
    now2: i64,
)
    requires
        pre.lock_result(ctx1, amount1, unlock1, now1) == Ok::<u64, ErrorCode>(id1),
        mid.global_state.lock_counter == id1 + 1,
        mid.lock_result(ctx2, amount2, unlock2, now2) is Ok,
    ensures
        mid.lock_result(ctx2, amount2, unlock2, now2) == Ok::<u64, ErrorCode>((id1 + 1) as u64),
{
}

/// Law: every holding vault's balance tracks its lock's state. A released
/// lock's vault holds zero; an active lock's vault holds exactly the lock's
/// recorded amount.
pub proof fn lemma_holding_balance_matches(e: Engine)
    requires
        e.wf(),
    ensures
        forall|i: int|
            0 <= i < e.locks@.len() ==> ((#[trigger] e.locks@[i]).is_unlocked ==> e.vaults@[i].amount
                == 0),
        forall|i: int|
            0 <= i < e.locks@.len() ==> (!(#[trigger] e.locks@[i]).is_unlocked
                ==> e.vaults@[i].amount == e.locks@[i].amount),
{
    assert forall|i: int| 0 <= i < e.locks@.len() implies ((#[trigger] e.locks@[i]).is_unlocked
        ==> e.vaults@[i].amount == 0) && (!e.locks@[i].is_unlocked ==> e.vaults@[i].amount
        == e.locks@[i].amount) by {
        assert(e.pair_wf(i));
    }
}

/// Law: release is gated on the release time. With the account checks
/// passing and the lock still active, a release strictly before the
/// recorded release time always fails as too early, and a release at or
/// after it (whose destination can take the deposit) always succeeds — in
/// particular a release at exactly the release time succeeds.
pub proof fn lemma_release_time_gate(e: Engine, lock_id: u64, ctx: UnlockTokens, now: i64)
    requires
        e.wf(),
        lock_id < e.locks@.len(),
        ctx.owner_token_account.key != e.vaults@[lock_id as int].key,
        ctx.owner == e.locks@[lock_id as int].owner,
        ctx.owner_token_account.mint == e.locks@[lock_id as int].mint,
        ctx.owner_token_account.owner == ctx.owner,
        !e.locks@[lock_id as int].is_unlocked,
    ensures
        now < e.locks@[lock_id as int].unlock_timestamp ==> e.unlock_result(lock_id, ctx, now)
            == Err::<(), ErrorCode>(ErrorCode::TooEarly),
        now >= e.locks@[lock_id as int].unlock_timestamp && ctx.owner_token_account.amount
            + e.locks@[lock_id as int].amount <= u64::MAX ==> e.unlock_result(lock_id, ctx, now)
            == Ok::<(), ErrorCode>(()),
{
}

/// Law: only the owner can release. Whenever the destination is not the
/// holding vault itself, a release attempted by any identity other than
/// the lock's owner fails as unauthorized, whatever the lock's state and
/// whatever the time.
pub proof fn lemma_release_unauthorized(e: Engine, lock_id: u64, ctx: UnlockTokens, now: i64)
    requires
        e.wf(),
        lock_id < e.locks@.len(),
        ctx.owner_token_account.key != e.vaults@[lock_id as int].key,
        ctx.owner != e.locks@[lock_id as int].owner,
    ensures
        e.unlock_result(lock_id, ctx, now) == Err::<(), ErrorCode>(ErrorCode::Unauthorized),
{
}

/// Law: extension is strictly monotone. For the owner of an active lock,
/// an extension to a time at or before the recorded release time always
/// fails, and one to a strictly later time always succeeds; so repeated
/// extensions only ever push the release time later.
pub proof fn lemma_extend_monotone(e: Engine, lock_id: u64, ctx: ExtendLock, new_unlock_timestamp: i64)
    requires
        e.wf(),
        lock_id < e.locks@.len(),
        ctx.owner == e.locks@[lock_id as int].owner,
        !e.locks@[lock_id as int].is_unlocked,
    ensures
        new_unlock_timestamp <= e.locks@[lock_id as int].unlock_timestamp ==> e.extend_result(
            lock_id, ctx, new_unlock_timestamp)
            == Err::<(), ErrorCode>(ErrorCode::CannotShortenTimestamp),
        new_unlock_timestamp > e.locks@[lock_id as int].unlock_timestamp ==> e.extend_result(
            lock_id, ctx, new_unlock_timestamp) == Ok::<(), ErrorCode>(()),
{
}

/// Law: a lock can be released only once. After a successful release the
/// lock stands released, so a second release of the same lock can never
/// succeed: with any accounts and any time it fails — leaving the already
/// empty vault unchanged — and whenever it gets past the account checks it
/// fails precisely as already released.
pub proof fn lemma_double_release_rejected(
    pre: Engine,
    ctx: UnlockTokens,
    now: i64,
    post: Engine,
    ctx2: UnlockTokens,
    now2: i64,
    lock_id: u64,
)
    requires
        pre.wf(),
        lock_id < pre.locks@.len(),
        pre.unlock_result(lock_id, ctx, now) is Ok,
        post.locks@ == pre.locks@.update(lock_id as int, (Lock {
            is_unlocked: true,
            ..pre.locks@[lock_id as int]
        })),
        post.vaults@ == pre.vaults@.update(lock_id as int, (TokenAccount {
            amount: 0,
            ..pre.vaults@[lock_id as int]
        })),
    ensures
        post.unlock_result(lock_id, ctx2, now2) is Err,
        ctx2.owner_token_account.key != post.vaults@[lock_id as int].key && ctx2.owner
            == post.locks@[lock_id as int].owner && ctx2.owner_token_account.mint
            == post.locks@[lock_id as int].mint && ctx2.owner_token_account.owner == ctx2.owner
            ==> post.unlock_result(lock_id, ctx2, now2)
            == Err::<(), ErrorCode>(ErrorCode::AlreadyUnlocked),
        post.vaults@[lock_id as int].amount == 0,
{
}

/// Law: aliasing is rejected before anything moves. A release whose
/// destination, or a top-up whose source, is the lock's own holding vault
/// always fails as a duplicate account, whatever else holds.
pub proof fn lemma_aliasing_rejected(
    e: Engine,
    lock_id: u64,
    uctx: UnlockTokens,
    tctx: TopUpLock,
    now: i64,
    additional_amount: u64,
)
    requires
        e.wf(),
        lock_id < e.locks@.len(),
    ensures
        uctx.owner_token_account.key == e.vaults@[lock_id as int].key ==> e.unlock_result(
            lock_id, uctx, now) == Err::<(), ErrorCode>(ErrorCode::DuplicateAccounts),
        tctx.owner_token_account.key == e.vaults@[lock_id as int].key ==> e.top_up_result(
            lock_id, tctx, additional_amount)
            == Err::<(), ErrorCode>(ErrorCode::DuplicateAccounts),
{
}

/// Law: no two locks share a holding vault. Vault addresses are derived
/// from lock identities, and identities are never reused, so the custody
/// slots of distinct locks are always distinct.
pub proof fn lemma_holding_vaults_distinct(e: Engine)
    requires
        e.wf(),
    ensures
        forall|i: int, j: int|
            0 <= i < e.locks@.len() && 0 <= j < e.locks@.len() && i != j ==> (
            #[trigger] e.vaults@[i]).key != (#[trigger] e.vaults@[j]).key,
{
    assert forall|i: int, j: int|
        0 <= i < e.locks@.len() && 0 <= j < e.locks@.len() && i != j implies (
    #[trigger] e.vaults@[i]).key != (#[trigger] e.vaults@[j]).key by {
        assert(e.pair_wf(i));
        assert(e.pair_wf(j));
    }
}

} // verus!
