use lockfun::engine::Engine;
use lockfun::errors::ErrorCode;
use lockfun::state::{
    ExtendLock, Initialize, LockConfig, LockTokens, TokenAccount, TopUpLock, UnlockTokens,
};

const OWNER: u64 = 1001;
const OTHER: u64 = 1002;
const MINT: u64 = 77;
const WALLET_KEY: u64 = 5001;
const FEE_RECIPIENT: u64 = 9001;
const FEE_AMOUNT: u64 = 30_000_000;

fn no_fee_config() -> LockConfig {
    LockConfig { fee_enabled: false, fee_amount: 0, fee_recipient: 0 }
}

fn fee_config() -> LockConfig {
    LockConfig { fee_enabled: true, fee_amount: FEE_AMOUNT, fee_recipient: FEE_RECIPIENT }
}

fn ready_engine(config: LockConfig) -> Engine {
    let mut e = Engine::new(config);
    assert_eq!(e.initialize(&Initialize { authority: 1 }), Ok(()));
    e
}

fn deposit_ctx(balance: u64) -> LockTokens {
    LockTokens {
        owner: OWNER,
        owner_token_account: TokenAccount {
            key: WALLET_KEY,
            mint: MINT,
            owner: OWNER,
            amount: balance,
        },
        mint: MINT,
        vault_bump: 254,
        owner_lamports: 100_000_000,
        fee_recipient: FEE_RECIPIENT,
        fee_recipient_lamports: 0,
    }
}

fn withdraw_ctx(caller: u64, balance: u64) -> UnlockTokens {
    UnlockTokens {
        owner: caller,
        owner_token_account: TokenAccount {
            key: WALLET_KEY,
            mint: MINT,
            owner: caller,
            amount: balance,
        },
    }
}

fn top_up_ctx(caller: u64, balance: u64) -> TopUpLock {
    TopUpLock {
        owner: caller,
        owner_token_account: TokenAccount {
            key: WALLET_KEY,
            mint: MINT,
            owner: caller,
            amount: balance,
        },
    }
}

#[test]
fn initialize_records_authority_and_zero_counter() {
    let mut e = Engine::new(no_fee_config());
    assert_eq!(e.initialize(&Initialize { authority: 42 }), Ok(()));
    assert_eq!(e.global_state.authority, 42);
    assert_eq!(e.global_state.lock_counter, 0);
}

#[test]
fn initialize_twice_fails() {
    let mut e = Engine::new(no_fee_config());
    assert_eq!(e.initialize(&Initialize { authority: 42 }), Ok(()));
    assert_eq!(e.initialize(&Initialize { authority: 43 }), Err(ErrorCode::AlreadyInitialized));
    assert_eq!(e.global_state.authority, 42);
}

#[test]
fn lock_ids_are_sequential_from_zero() {
    let mut e = ready_engine(no_fee_config());
    let mut ctx = deposit_ctx(10_000);
    assert_eq!(e.lock(&mut ctx, 100, 1_000, 500), Ok(0));
    assert_eq!(e.lock(&mut ctx, 200, 1_000, 500), Ok(1));
    assert_eq!(e.lock(&mut ctx, 300, 1_000, 500), Ok(2));
    assert_eq!(e.global_state.lock_counter, 3);
    assert_eq!(e.locks[0].id, 0);
    assert_eq!(e.locks[1].id, 1);
    assert_eq!(e.locks[2].id, 2);
    assert_eq!(ctx.owner_token_account.amount, 10_000 - 600);
}

#[test]
fn lock_populates_record_and_vault() {
    let mut e = ready_engine(no_fee_config());
    let mut ctx = deposit_ctx(5_000);
    assert_eq!(e.lock(&mut ctx, 1_000, 150, 50), Ok(0));
    let l = &e.locks[0];
    assert_eq!(l.owner, OWNER);
    assert_eq!(l.mint, MINT);
    assert_eq!(l.amount, 1_000);
    assert_eq!(l.unlock_timestamp, 150);
    assert_eq!(l.created_at, 50);
    assert_eq!(l.vault_bump, 254);
    assert!(!l.is_unlocked);
    assert_eq!(e.vaults[0].amount, 1_000);
    assert_eq!(e.vaults[0].mint, MINT);
    assert_eq!(e.vaults[0].owner, e.vaults[0].key);
}

#[test]
fn lock_rejects_zero_amount() {
    let mut e = ready_engine(no_fee_config());
    let mut ctx = deposit_ctx(5_000);
    assert_eq!(e.lock(&mut ctx, 0, 150, 50), Err(ErrorCode::AmountZero));
    assert_eq!(e.global_state.lock_counter, 0);
    assert_eq!(ctx.owner_token_account.amount, 5_000);
}

#[test]
fn lock_rejects_non_future_timestamp() {
    let mut e = ready_engine(no_fee_config());
    let mut ctx = deposit_ctx(5_000);
    assert_eq!(e.lock(&mut ctx, 100, 50, 50), Err(ErrorCode::TimestampInPast));
    assert_eq!(e.lock(&mut ctx, 100, 49, 50), Err(ErrorCode::TimestampInPast));
    assert_eq!(e.global_state.lock_counter, 0);
}

#[test]
fn lock_rejects_mint_mismatch() {
    let mut e = ready_engine(no_fee_config());
    let mut ctx = deposit_ctx(5_000);
    ctx.owner_token_account.mint = MINT + 1;
    assert_eq!(e.lock(&mut ctx, 100, 150, 50), Err(ErrorCode::InvalidMint));
}

#[test]
fn lock_rejects_foreign_source_account() {
    let mut e = ready_engine(no_fee_config());
    let mut ctx = deposit_ctx(5_000);
    ctx.owner_token_account.owner = OTHER;
    assert_eq!(e.lock(&mut ctx, 100, 150, 50), Err(ErrorCode::Unauthorized));
}

#[test]
fn lock_rejects_insufficient_balance() {
    let mut e = ready_engine(no_fee_config());
    let mut ctx = deposit_ctx(99);
    assert_eq!(e.lock(&mut ctx, 100, 150, 50), Err(ErrorCode::InsufficientFunds));
    assert_eq!(ctx.owner_token_account.amount, 99);
}

#[test]
fn lock_charges_flat_fee() {
    let mut e = ready_engine(fee_config());
    let mut ctx = deposit_ctx(5_000);
    assert_eq!(e.lock(&mut ctx, 1_000, 150, 50), Ok(0));
    assert_eq!(ctx.owner_lamports, 100_000_000 - FEE_AMOUNT);
    assert_eq!(ctx.fee_recipient_lamports, FEE_AMOUNT);
    assert_eq!(ctx.owner_token_account.amount, 4_000);
}

#[test]
fn lock_rejects_wrong_fee_recipient() {
    let mut e = ready_engine(fee_config());
    let mut ctx = deposit_ctx(5_000);
    ctx.fee_recipient = FEE_RECIPIENT + 1;
    assert_eq!(e.lock(&mut ctx, 1_000, 150, 50), Err(ErrorCode::InvalidFeeRecipient));
    assert_eq!(ctx.owner_token_account.amount, 5_000);
    assert_eq!(ctx.fee_recipient_lamports, 0);
}

#[test]
fn lock_rejects_unpayable_fee() {
    let mut e = ready_engine(fee_config());
    let mut ctx = deposit_ctx(5_000);
    ctx.owner_lamports = FEE_AMOUNT - 1;
    assert_eq!(e.lock(&mut ctx, 1_000, 150, 50), Err(ErrorCode::InsufficientFunds));
    assert_eq!(ctx.owner_token_account.amount, 5_000);
}

#[test]
fn no_fee_config_leaves_lamports_alone() {
    let mut e = ready_engine(no_fee_config());
    let mut ctx = deposit_ctx(5_000);
    assert_eq!(e.lock(&mut ctx, 1_000, 150, 50), Ok(0));
    assert_eq!(ctx.owner_lamports, 100_000_000);
    assert_eq!(ctx.fee_recipient_lamports, 0);
}

#[test]
fn release_before_time_fails_at_time_succeeds() {
    let mut e = ready_engine(no_fee_config());
    let mut ctx = deposit_ctx(5_000);
    assert_eq!(e.lock(&mut ctx, 1_000, 150, 50), Ok(0));
    let mut uctx = withdraw_ctx(OWNER, 4_000);
    assert_eq!(e.unlock(0, &mut uctx, 149), Err(ErrorCode::TooEarly));
    assert!(!e.locks[0].is_unlocked);
    assert_eq!(uctx.owner_token_account.amount, 4_000);
    // Release at exactly the recorded time succeeds.
    assert_eq!(e.unlock(0, &mut uctx, 150), Ok(()));
    assert!(e.locks[0].is_unlocked);
    assert_eq!(uctx.owner_token_account.amount, 5_000);
    assert_eq!(e.vaults[0].amount, 0);
}

#[test]
fn release_by_non_owner_fails_whatever_the_time() {
    let mut e = ready_engine(no_fee_config());
    let mut ctx = deposit_ctx(5_000);
    assert_eq!(e.lock(&mut ctx, 1_000, 150, 50), Ok(0));
    let mut uctx = withdraw_ctx(OTHER, 0);
    // Before the release time.
    assert_eq!(e.unlock(0, &mut uctx, 100), Err(ErrorCode::Unauthorized));
    // Long after it.
    assert_eq!(e.unlock(0, &mut uctx, 1_000_000), Err(ErrorCode::Unauthorized));
    assert_eq!(e.vaults[0].amount, 1_000);
    assert_eq!(uctx.owner_token_account.amount, 0);
}

#[test]
fn release_rejects_wrong_mint_destination() {
    let mut e = ready_engine(no_fee_config());
    let mut ctx = deposit_ctx(5_000);
    assert_eq!(e.lock(&mut ctx, 1_000, 150, 50), Ok(0));
    let mut uctx = withdraw_ctx(OWNER, 0);
    uctx.owner_token_account.mint = MINT + 1;
    assert_eq!(e.unlock(0, &mut uctx, 200), Err(ErrorCode::InvalidMint));
}

#[test]
fn release_rejects_destination_not_controlled_by_caller() {
    let mut e = ready_engine(no_fee_config());
    let mut ctx = deposit_ctx(5_000);
    assert_eq!(e.lock(&mut ctx, 1_000, 150, 50), Ok(0));
    let mut uctx = withdraw_ctx(OWNER, 0);
    uctx.owner_token_account.owner = OTHER;
    assert_eq!(e.unlock(0, &mut uctx, 200), Err(ErrorCode::Unauthorized));
}

#[test]
fn double_release_fails_and_leaves_balances_alone() {
    let mut e = ready_engine(no_fee_config());
    let mut ctx = deposit_ctx(5_000);
    assert_eq!(e.lock(&mut ctx, 1_000, 150, 50), Ok(0));
    let mut uctx = withdraw_ctx(OWNER, 4_000);
    assert_eq!(e.unlock(0, &mut uctx, 200), Ok(()));
    assert_eq!(uctx.owner_token_account.amount, 5_000);
    assert_eq!(e.unlock(0, &mut uctx, 201), Err(ErrorCode::AlreadyUnlocked));
    assert_eq!(uctx.owner_token_account.amount, 5_000);
    assert_eq!(e.vaults[0].amount, 0);
    assert_eq!(e.locks[0].amount, 1_000);
}

#[test]
fn release_aliasing_vault_as_destination_fails() {
    let mut e = ready_engine(no_fee_config());
    let mut ctx = deposit_ctx(5_000);
    assert_eq!(e.lock(&mut ctx, 1_000, 150, 50), Ok(0));
    let vault = e.vaults[0];
    // Point the destination at the holding vault itself.
    let mut uctx = UnlockTokens { owner: OWNER, owner_token_account: vault };
    assert_eq!(e.unlock(0, &mut uctx, 200), Err(ErrorCode::DuplicateAccounts));
    assert_eq!(e.vaults[0].amount, 1_000);
    assert!(!e.locks[0].is_unlocked);
}

#[test]
fn top_up_grows_lock_and_vault() {
    let mut e = ready_engine(no_fee_config());
    let mut ctx = deposit_ctx(5_000);
    assert_eq!(e.lock(&mut ctx, 1_000, 150, 50), Ok(0));
    let mut tctx = top_up_ctx(OWNER, 4_000);
    assert_eq!(e.top_up(0, &mut tctx, 500), Ok(()));
    assert_eq!(e.locks[0].amount, 1_500);
    assert_eq!(e.vaults[0].amount, 1_500);
    assert_eq!(tctx.owner_token_account.amount, 3_500);
    // The release time is untouched.
    assert_eq!(e.locks[0].unlock_timestamp, 150);
}

#[test]
fn top_up_guards() {
    let mut e = ready_engine(no_fee_config());
    let mut ctx = deposit_ctx(5_000);
    assert_eq!(e.lock(&mut ctx, 1_000, 150, 50), Ok(0));
    let mut tctx = top_up_ctx(OWNER, 4_000);
    assert_eq!(e.top_up(0, &mut tctx, 0), Err(ErrorCode::AmountZero));
    let mut other_ctx = top_up_ctx(OTHER, 4_000);
    assert_eq!(e.top_up(0, &mut other_ctx, 100), Err(ErrorCode::Unauthorized));
    let mut wrong_mint = top_up_ctx(OWNER, 4_000);
    wrong_mint.owner_token_account.mint = MINT + 1;
    assert_eq!(e.top_up(0, &mut wrong_mint, 100), Err(ErrorCode::InvalidMint));
    let mut poor = top_up_ctx(OWNER, 99);
    assert_eq!(e.top_up(0, &mut poor, 100), Err(ErrorCode::InsufficientFunds));
    assert_eq!(e.locks[0].amount, 1_000);
    assert_eq!(e.vaults[0].amount, 1_000);
}

#[test]
fn top_up_aliasing_vault_as_source_fails() {
    let mut e = ready_engine(no_fee_config());
    let mut ctx = deposit_ctx(5_000);
    assert_eq!(e.lock(&mut ctx, 1_000, 150, 50), Ok(0));
    let vault = e.vaults[0];
    let mut tctx = TopUpLock { owner: OWNER, owner_token_account: vault };
    assert_eq!(e.top_up(0, &mut tctx, 100), Err(ErrorCode::DuplicateAccounts));
    assert_eq!(e.vaults[0].amount, 1_000);
}

#[test]
fn top_up_released_lock_fails() {
    let mut e = ready_engine(no_fee_config());
    let mut ctx = deposit_ctx(5_000);
    assert_eq!(e.lock(&mut ctx, 1_000, 150, 50), Ok(0));
    let mut uctx = withdraw_ctx(OWNER, 0);
    assert_eq!(e.unlock(0, &mut uctx, 200), Ok(()));
    let mut tctx = top_up_ctx(OWNER, 4_000);
    assert_eq!(e.top_up(0, &mut tctx, 100), Err(ErrorCode::AlreadyUnlocked));
}

#[test]
fn top_up_overflow_is_rejected() {
    let mut e = ready_engine(no_fee_config());
    let mut ctx = deposit_ctx(u64::MAX);
    assert_eq!(e.lock(&mut ctx, u64::MAX - 10, 150, 50), Ok(0));
    let mut tctx = top_up_ctx(OWNER, 100);
    assert_eq!(e.top_up(0, &mut tctx, 11), Err(ErrorCode::Overflow));
    assert_eq!(e.top_up(0, &mut tctx, 10), Ok(()));
    assert_eq!(e.locks[0].amount, u64::MAX);
}

#[test]
fn extend_only_moves_time_later() {
    let mut e = ready_engine(no_fee_config());
    let mut ctx = deposit_ctx(5_000);
    assert_eq!(e.lock(&mut ctx, 1_000, 150, 50), Ok(0));
    let ectx = ExtendLock { owner: OWNER };
    assert_eq!(e.extend(0, &ectx, 150), Err(ErrorCode::CannotShortenTimestamp));
    assert_eq!(e.extend(0, &ectx, 100), Err(ErrorCode::CannotShortenTimestamp));
    assert_eq!(e.locks[0].unlock_timestamp, 150);
    assert_eq!(e.extend(0, &ectx, 151), Ok(()));
    assert_eq!(e.locks[0].unlock_timestamp, 151);
    // Repeated extensions only ever push the time later.
    assert_eq!(e.extend(0, &ectx, 300), Ok(()));
    assert_eq!(e.extend(0, &ectx, 299), Err(ErrorCode::CannotShortenTimestamp));
    assert_eq!(e.locks[0].unlock_timestamp, 300);
}

#[test]
fn extend_guards() {
    let mut e = ready_engine(no_fee_config());
    let mut ctx = deposit_ctx(5_000);
    assert_eq!(e.lock(&mut ctx, 1_000, 150, 50), Ok(0));
    assert_eq!(e.extend(0, &ExtendLock { owner: OTHER }, 500), Err(ErrorCode::Unauthorized));
    let mut uctx = withdraw_ctx(OWNER, 0);
    assert_eq!(e.unlock(0, &mut uctx, 200), Ok(()));
    assert_eq!(e.extend(0, &ExtendLock { owner: OWNER }, 500), Err(ErrorCode::AlreadyUnlocked));
}

#[test]
fn full_lifecycle_scenario() {
    let t: i64 = 10_000;
    let mut e = ready_engine(no_fee_config());
    let mut ctx = deposit_ctx(5_000);
    // create(amount=1000, unlock_time=T+100) at time T
    assert_eq!(e.lock(&mut ctx, 1_000, t + 100, t), Ok(0));
    assert_eq!(e.vaults[0].amount, 1_000);
    // top_up(0, 500)
    let mut tctx = top_up_ctx(OWNER, ctx.owner_token_account.amount);
    assert_eq!(e.top_up(0, &mut tctx, 500), Ok(()));
    assert_eq!(e.locks[0].amount, 1_500);
    assert_eq!(e.vaults[0].amount, 1_500);
    // release at T+50: too early
    let mut uctx = withdraw_ctx(OWNER, tctx.owner_token_account.amount);
    assert_eq!(e.unlock(0, &mut uctx, t + 50), Err(ErrorCode::TooEarly));
    // release at T+150: succeeds; the amount field keeps its history
    assert_eq!(e.unlock(0, &mut uctx, t + 150), Ok(()));
    assert_eq!(e.locks[0].amount, 1_500);
    assert_eq!(e.vaults[0].amount, 0);
    assert!(e.locks[0].is_unlocked);
    // release again: already released
    assert_eq!(e.unlock(0, &mut uctx, t + 151), Err(ErrorCode::AlreadyUnlocked));
}
