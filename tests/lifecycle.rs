use liquidity_locking::address::{
    config_address, escrow_authority_address, event_authority_address, lock_record_address,
    position_address, Address,
};
use liquidity_locking::engine::EngineCall;
use liquidity_locking::lock::{
    handle_initialize_config, handle_lock_liquidity, handle_unlock_liquidity, LockLiquidity,
    Step, UnlockLiquidity,
};
use liquidity_locking::state::{Config, Deployment, ErrorCode, LockAccount, LockStatus};

fn addr(b: u8) -> Address {
    Address::new([b; 32])
}

fn deployment() -> Deployment {
    Deployment { program_id: addr(1), engine_program_id: addr(2) }
}

const USER: u8 = 10;
const MINT: u8 = 11;
const POOL: u8 = 12;

fn lock_accounts(d: &Deployment, user: Address, mint: Address, pool: Address) -> LockLiquidity {
    LockLiquidity {
        config: config_address(&d.program_id).unwrap().0,
        escrow_authority: escrow_authority_address(&d.program_id).unwrap().0,
        lock_account: lock_record_address(&user, &mint, &d.program_id).unwrap().0,
        user_token_a: addr(20),
        user_token_b: addr(21),
        position_nft_mint: mint,
        position_nft_account: addr(22),
        escrow_nft_account: addr(23),
        pool,
        position: position_address(&mint, &d.engine_program_id).unwrap().0,
        pool_authority: addr(24),
        token_a_vault: addr(25),
        token_b_vault: addr(26),
        token_a_mint: addr(27),
        token_b_mint: addr(28),
        event_authority: event_authority_address(&d.engine_program_id).unwrap().0,
        token_program: addr(29),
        associated_token_program: addr(30),
        system_program: addr(31),
        damm_program: d.engine_program_id,
        token_a_program: addr(32),
        token_b_program: addr(33),
        user,
    }
}

fn unlock_accounts(d: &Deployment, requester: Address, mint: Address) -> UnlockLiquidity {
    UnlockLiquidity {
        lock_account: lock_record_address(&requester, &mint, &d.program_id).unwrap().0,
        position_nft_mint: mint,
        escrow_authority: escrow_authority_address(&d.program_id).unwrap().0,
        user_token_a: addr(20),
        user_token_b: addr(21),
        escrow_nft_account: addr(23),
        user_nft_account: addr(22),
        pool: addr(POOL),
        position: position_address(&mint, &d.engine_program_id).unwrap().0,
        pool_authority: addr(24),
        token_a_vault: addr(25),
        token_b_vault: addr(26),
        token_a_mint: addr(27),
        token_b_mint: addr(28),
        event_authority: event_authority_address(&d.engine_program_id).unwrap().0,
        token_program: addr(29),
        token_2022_program: addr(34),
        associated_token_program: addr(30),
        system_program: addr(31),
        damm_program: d.engine_program_id,
        user: requester,
    }
}

fn config() -> Config {
    Config { pool_id: addr(POOL), admin: addr(40), fee_bps: 25, reward_mint: addr(41) }
}

fn locked(d: &Deployment, now: u64, amount: u128, months: u8) -> LockAccount {
    let a = lock_accounts(d, addr(USER), addr(MINT), addr(POOL));
    let mut slot: Option<LockAccount> = None;
    handle_lock_liquidity(d, &a, &config(), &mut slot, now, amount, months).unwrap();
    slot.unwrap()
}

#[test]
fn scenario_lock_three_months_then_unlock_all() {
    let d = deployment();
    let start: u64 = 1_700_000_000;
    let rec = locked(&d, start, 1_000_000, 3);
    assert_eq!(rec.duration_months, 3);
    assert_eq!(rec.lock_start, start);
    assert_eq!(rec.lock_end, start + 7_776_000);
    assert_eq!(rec.status, LockStatus::Active);
    assert_eq!(rec.liquidity_locked, 1_000_000);

    let ua = unlock_accounts(&d, addr(USER), addr(MINT));
    let mut early = rec;
    let r = handle_unlock_liquidity(&d, &ua, &mut early, true, start + 100, 0);
    assert_eq!(r.unwrap_err(), ErrorCode::LockNotExpired);
    assert_eq!(early.status, LockStatus::Active);
    assert_eq!(early.liquidity_locked, 1_000_000);

    let mut late = rec;
    let steps = handle_unlock_liquidity(&d, &ua, &mut late, true, start + 7_776_001, 0).unwrap();
    assert_eq!(late.status, LockStatus::Claimed);
    assert_eq!(late.liquidity_locked, 0);
    assert_eq!(steps.len(), 2);
    assert!(matches!(steps[1], Step::Engine(EngineCall::RemoveAllLiquidity(_, 0, 0))));
}

#[test]
fn lock_record_fields_and_steps() {
    let d = deployment();
    let a = lock_accounts(&d, addr(USER), addr(MINT), addr(POOL));
    let mut slot: Option<LockAccount> = None;
    let steps = handle_lock_liquidity(&d, &a, &config(), &mut slot, 500, 77, 12).unwrap();
    let rec = slot.unwrap();
    assert!(rec.user == addr(USER));
    assert!(rec.position_nft_mint == addr(MINT));
    assert!(rec.position_pda == a.position);
    assert_eq!(rec.lock_end, 500 + 31_104_000);
    assert_eq!(rec.total_rewards_earned, 0);
    assert_eq!(rec.rewards_claimed, 0);
    assert_eq!(rec.last_claim_time, 500);
    assert_eq!(steps.len(), 4);
    assert!(matches!(steps[0], Step::Engine(EngineCall::CreatePosition(_))));
    match steps[2] {
        Step::Engine(EngineCall::AddLiquidity(_, p)) => {
            assert_eq!(p.liquidity_delta, 77);
            assert_eq!(p.token_a_amount_threshold, u64::MAX);
        }
        _ => panic!("expected the deposit"),
    }
    match steps[3] {
        Step::TransferPositionToken { from, to, escrow_bump, .. } => {
            assert!(from == addr(22));
            assert!(to == addr(23));
            assert!(escrow_bump.is_none());
        }
        _ => panic!("expected the transfer into escrow"),
    }
}

#[test]
fn lock_every_duration_ends_at_its_months() {
    let d = deployment();
    for (months, secs) in [(3u8, 7_776_000u64), (6, 15_552_000), (12, 31_104_000)] {
        let rec = locked(&d, 1000, 5, months);
        assert_eq!(rec.lock_end - rec.lock_start, secs);
        let ua = unlock_accounts(&d, addr(USER), addr(MINT));
        let mut early = rec;
        let r = handle_unlock_liquidity(&d, &ua, &mut early, true, rec.lock_end - 1, 5);
        assert_eq!(r.unwrap_err(), ErrorCode::LockNotExpired);
        let mut done = rec;
        handle_unlock_liquidity(&d, &ua, &mut done, true, rec.lock_end, 5).unwrap();
        assert_eq!(done.status, LockStatus::Claimed);
        assert_eq!(done.liquidity_locked, 0);
    }
}

#[test]
fn lock_unknown_duration_refused() {
    let d = deployment();
    let a = lock_accounts(&d, addr(USER), addr(MINT), addr(POOL));
    for months in [0u8, 1, 4, 7, 24, 255] {
        let mut slot: Option<LockAccount> = None;
        let r = handle_lock_liquidity(&d, &a, &config(), &mut slot, 10, 1, months);
        assert_eq!(r.unwrap_err(), ErrorCode::InvalidDuration);
        assert!(slot.is_none());
    }
}

#[test]
fn lock_wrong_pool_refused() {
    let d = deployment();
    let a = lock_accounts(&d, addr(USER), addr(MINT), addr(99));
    let mut slot: Option<LockAccount> = None;
    let r = handle_lock_liquidity(&d, &a, &config(), &mut slot, 10, 1, 3);
    assert_eq!(r.unwrap_err(), ErrorCode::InvalidPool);
    assert!(slot.is_none());
}

#[test]
fn lock_existing_record_refused() {
    let d = deployment();
    let a = lock_accounts(&d, addr(USER), addr(MINT), addr(POOL));
    let mut slot = Some(locked(&d, 10, 1, 3));
    let r = handle_lock_liquidity(&d, &a, &config(), &mut slot, 20, 9, 6);
    assert_eq!(r.unwrap_err(), ErrorCode::AccountAlreadyExists);
    assert_eq!(slot.unwrap().liquidity_locked, 1);
}

#[test]
fn lock_underived_account_refused() {
    let d = deployment();
    let mut a = lock_accounts(&d, addr(USER), addr(MINT), addr(POOL));
    a.escrow_authority = addr(50);
    let mut slot: Option<LockAccount> = None;
    let r = handle_lock_liquidity(&d, &a, &config(), &mut slot, 10, 1, 3);
    assert_eq!(r.unwrap_err(), ErrorCode::InvalidAccount);
    let mut b = lock_accounts(&d, addr(USER), addr(MINT), addr(POOL));
    b.lock_account = lock_record_address(&addr(USER), &addr(60), &d.program_id).unwrap().0;
    let r = handle_lock_liquidity(&d, &b, &config(), &mut slot, 10, 1, 3);
    assert_eq!(r.unwrap_err(), ErrorCode::InvalidAccount);
    assert!(slot.is_none());
}

#[test]
fn unlock_by_other_identity_unauthorized() {
    let d = deployment();
    let rec = locked(&d, 10, 100, 3);
    let ua = unlock_accounts(&d, addr(70), addr(MINT));
    for (now, amount) in [(11u64, 0u128), (rec.lock_end, 100), (u64::MAX, 1000)] {
        let mut r2 = rec;
        let r = handle_unlock_liquidity(&d, &ua, &mut r2, true, now, amount);
        assert_eq!(r.unwrap_err(), ErrorCode::Unauthorized);
        assert_eq!(r2.liquidity_locked, 100);
    }
}

#[test]
fn unlock_amount_over_locked_refused() {
    let d = deployment();
    let mut rec = locked(&d, 10, 100, 3);
    let ua = unlock_accounts(&d, addr(USER), addr(MINT));
    let end = rec.lock_end;
    let r = handle_unlock_liquidity(&d, &ua, &mut rec, true, end, 101);
    assert_eq!(r.unwrap_err(), ErrorCode::InvalidUnlockAmount);
    assert_eq!(rec.liquidity_locked, 100);
}

#[test]
fn unlock_partial_then_full() {
    let d = deployment();
    let mut rec = locked(&d, 10, 100, 3);
    let ua = unlock_accounts(&d, addr(USER), addr(MINT));
    let now = rec.lock_end + 5;
    let steps = handle_unlock_liquidity(&d, &ua, &mut rec, false, now, 30).unwrap();
    assert_eq!(rec.liquidity_locked, 70);
    assert_eq!(rec.status, LockStatus::Active);
    assert_eq!(steps.len(), 3);
    assert!(matches!(steps[0], Step::CreateTokenAccount { .. }));
    match steps[2] {
        Step::Engine(EngineCall::RemoveLiquidity(_, p)) => assert_eq!(p.liquidity_delta, 30),
        _ => panic!("expected a partial removal"),
    }
    // A partial unlock that empties the record leaves it active.
    let mut emptied = rec;
    handle_unlock_liquidity(&d, &ua, &mut emptied, true, now, 69).unwrap();
    assert_eq!(emptied.liquidity_locked, 1);
    handle_unlock_liquidity(&d, &ua, &mut rec, true, now, 70).unwrap();
    assert_eq!(rec.liquidity_locked, 0);
    assert_eq!(rec.status, LockStatus::Claimed);
    let r = handle_unlock_liquidity(&d, &ua, &mut rec, true, now, 0);
    assert_eq!(r.unwrap_err(), ErrorCode::LockNotActive);
}

#[test]
fn unlock_amounts_never_exceed_locked() {
    let d = deployment();
    let mut rec = locked(&d, 10, 50, 6);
    let ua = unlock_accounts(&d, addr(USER), addr(MINT));
    let now = rec.lock_end;
    let mut released: u128 = 0;
    let mut last = rec.liquidity_locked;
    for amount in [10u128, 60, 15, 25, 1, 0] {
        let before = rec.liquidity_locked;
        if handle_unlock_liquidity(&d, &ua, &mut rec, true, now, amount).is_ok() {
            released += before - rec.liquidity_locked;
        }
        assert!(rec.liquidity_locked <= last);
        last = rec.liquidity_locked;
    }
    assert_eq!(released, 50);
    assert_eq!(rec.liquidity_locked, 0);
}

#[test]
fn unlock_wrong_position_refused() {
    let d = deployment();
    let mut rec = locked(&d, 10, 50, 3);
    let mut ua = unlock_accounts(&d, addr(USER), addr(MINT));
    ua.position = addr(80);
    let end = rec.lock_end;
    let r = handle_unlock_liquidity(&d, &ua, &mut rec, true, end, 0);
    assert_eq!(r.unwrap_err(), ErrorCode::InvalidAccount);
}

#[test]
fn custody_moves_into_escrow_and_back() {
    let d = deployment();
    let a = lock_accounts(&d, addr(USER), addr(MINT), addr(POOL));
    let mut slot: Option<LockAccount> = None;
    let steps = handle_lock_liquidity(&d, &a, &config(), &mut slot, 10, 5, 3).unwrap();
    let mut at = a.position_nft_account;
    for s in &steps {
        if let Step::TransferPositionToken { from, to, .. } = s {
            if *from == at {
                at = *to;
            }
        }
    }
    assert!(at == a.escrow_nft_account);

    let mut rec = slot.unwrap();
    let ua = unlock_accounts(&d, addr(USER), addr(MINT));
    let end = rec.lock_end;
    let steps = handle_unlock_liquidity(&d, &ua, &mut rec, false, end, 5).unwrap();
    let escrow_bump = escrow_authority_address(&d.program_id).unwrap().1;
    for s in &steps {
        if let Step::TransferPositionToken { from, to, escrow_bump: bump, .. } = s {
            if *from == at {
                at = *to;
            }
            assert_eq!(*bump, Some(escrow_bump));
        }
    }
    assert!(at == ua.user_nft_account);
}

#[test]
fn config_created_once() {
    let d = deployment();
    let acct = config_address(&d.program_id).unwrap().0;
    let mut slot: Option<Config> = None;
    handle_initialize_config(&d, &acct, &mut slot, addr(40), addr(POOL), 30, addr(41)).unwrap();
    let c = slot.unwrap();
    assert!(c.pool_id == addr(POOL));
    assert!(c.admin == addr(40));
    assert_eq!(c.fee_bps, 30);
    assert!(c.reward_mint == addr(41));
    let r = handle_initialize_config(&d, &acct, &mut slot, addr(42), addr(43), 1, addr(44));
    assert_eq!(r.unwrap_err(), ErrorCode::AccountAlreadyExists);
    assert!(slot.unwrap().admin == addr(40));
}

#[test]
fn config_wrong_address_refused() {
    let d = deployment();
    let mut slot: Option<Config> = None;
    let r = handle_initialize_config(&d, &addr(9), &mut slot, addr(40), addr(POOL), 30, addr(41));
    assert_eq!(r.unwrap_err(), ErrorCode::InvalidAccount);
    assert!(slot.is_none());
}

#[test]
fn derivations_depend_on_their_inputs() {
    let p = addr(1);
    let (a, _) = lock_record_address(&addr(USER), &addr(MINT), &p).unwrap();
    let (b, _) = lock_record_address(&addr(MINT), &addr(USER), &p).unwrap();
    let (c, _) = lock_record_address(&addr(USER), &addr(MINT), &addr(3)).unwrap();
    let (again, _) = lock_record_address(&addr(USER), &addr(MINT), &p).unwrap();
    assert!(a == again);
    assert!(!(a == b));
    assert!(!(a == c));
    assert!(!(a == p));
    let (e, _) = escrow_authority_address(&p).unwrap();
    let (f, _) = config_address(&p).unwrap();
    assert!(!(e == f));
    assert!(!(e == p));
}

#[test]
fn error_messages() {
    assert_eq!(ErrorCode::LockNotExpired.message(), "Lock period not expired");
    assert_eq!(ErrorCode::Unauthorized.message(), "Unauthorized access");
    assert_eq!(ErrorCode::InvalidDuration.message(), "Invalid duration");
}
