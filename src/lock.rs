use vstd::prelude::*;
use crate::address::{
    Address, config_address, config_seed, derived_view, escrow_authority_address,
    escrow_authority_seed, event_authority_address, event_authority_seed, lock_record_address,
    lock_seed, position_address, position_seed, program_address_of,
};
use crate::duration::{LockDuration, is_offered, seconds_of, vesting_of};
use crate::engine::{
    AddLiquidity, AddLiquidityParameters, CreatePosition, EngineCall, LockPosition,
    RemoveLiquidity, RemoveLiquidityParameters,
};
use crate::state::{Config, Deployment, ErrorCode, LockAccount, LockStatus};

verus! {

/// One call that the host issues on the library's behalf, in order. Either
/// all the calls of an operation succeed and its record change is kept, or
/// the host rolls the whole operation back.
#[derive(Clone, Copy, Debug)]
pub enum Step {
    Engine(EngineCall),
    /// Create `account`, the associated token account of `authority` for
    /// `mint`, where it does not exist yet.
    CreateTokenAccount {
        payer: Address,
        account: Address,
        authority: Address,
        mint: Address,
        token_program: Address,
    },
    /// Move the single position token from `from` to `to`. Where
    /// `escrow_bump` is set, the escrow authority signs with that bump seed.
    TransferPositionToken {
        from: Address,
        to: Address,
        authority: Address,
        mint: Address,
        token_program: Address,
        escrow_bump: Option<u8>,
    },
}

/// Where the position token sits after `steps`, starting from `at`.
pub open spec fn token_location_after(at: Address, steps: Seq<Step>) -> Address
    decreases steps.len(),
{
    if steps.len() == 0 {
        at
    } else {
        let next = match steps[0] {
            Step::TransferPositionToken { from, to, .. } => if from@ == at@ {
                to
            } else {
                at
            },
            _ => at,
        };
        token_location_after(next, steps.subrange(1, steps.len() as int))
    }
}

/// Whether a derivation found an address, and it is `supplied`.
pub open spec fn derives(supplied: Address, derived: Option<(Seq<u8>, u8)>) -> bool {
    derived matches Some((k, _)) && k == supplied@
}

fn matches_derived(supplied: &Address, derived: Option<(Address, u8)>) -> (r: bool)
    ensures
        r == derives(*supplied, derived_view(derived)),
{
    match derived {
        Some((k, _)) => k == *supplied,
        None => false,
    }
}

// ---------------------------------------------------------------------------
// Configuration

/// Whether `config_account` is the deployment's configuration address.
pub open spec fn config_account_valid(d: Deployment, config_account: Address) -> bool {
    derives(config_account, program_address_of(seq![config_seed()], d.program_id@))
}

pub open spec fn config_refusal(
    d: Deployment,
    config_account: Address,
    existing: Option<Config>,
) -> Option<ErrorCode> {
    if !config_account_valid(d, config_account) {
        Some(ErrorCode::InvalidAccount)
    } else if existing is Some {
        Some(ErrorCode::AccountAlreadyExists)
    } else {
        None
    }
}

/// Creates the deployment's configuration in `slot`, with `admin` as its
/// administrator. It succeeds only while no configuration exists.
pub fn handle_initialize_config(
    d: &Deployment,
    config_account: &Address,
    slot: &mut Option<Config>,
    admin: Address,
    pool_id: Address,
    fee_bps: u16,
    reward_mint: Address,
) -> (r: Result<(), ErrorCode>)
    ensures
        match r {
            Ok(()) => config_refusal(*d, *config_account, *old(slot)) is None
                && *final(slot) == Some(Config { pool_id, admin, fee_bps, reward_mint }),
            Err(e) => config_refusal(*d, *config_account, *old(slot)) == Some(e)
                && *final(slot) == *old(slot),
        },
{
    if !matches_derived(config_account, config_address(&d.program_id)) {
        return Err(ErrorCode::InvalidAccount);
    }
    if slot.is_some() {
        return Err(ErrorCode::AccountAlreadyExists);
    }
    *slot = Some(Config { pool_id, admin, fee_bps, reward_mint });
    Ok(())
}

// ---------------------------------------------------------------------------
// Lock

/// Accounts of a lock request.
#[derive(Clone, Copy, Debug)]
pub struct LockLiquidity {
    pub config: Address,
    pub escrow_authority: Address,
    pub lock_account: Address,
    pub user_token_a: Address,
    pub user_token_b: Address,
    pub position_nft_mint: Address,
    /// The user's account for the position token, which the engine mints into.
    pub position_nft_account: Address,
    /// The escrow authority's account for the position token.
    pub escrow_nft_account: Address,
    pub pool: Address,
    pub position: Address,
    pub pool_authority: Address,
    pub token_a_vault: Address,
    pub token_b_vault: Address,
    pub token_a_mint: Address,
    pub token_b_mint: Address,
    pub event_authority: Address,
    pub token_program: Address,
    pub associated_token_program: Address,
    pub system_program: Address,
    pub damm_program: Address,
    pub token_a_program: Address,
    pub token_b_program: Address,
    pub user: Address,
}

/// Whether each derived account of a lock request is the one that its seeds
/// give, and the engine is the deployment's.
pub open spec fn lock_accounts_valid(d: Deployment, a: LockLiquidity) -> bool {
    &&& a.damm_program@ == d.engine_program_id@
    &&& config_account_valid(d, a.config)
    &&& derives(a.escrow_authority, program_address_of(seq![escrow_authority_seed()], d.program_id@))
    &&& derives(
        a.lock_account,
        program_address_of(seq![lock_seed(), a.user@, a.position_nft_mint@], d.program_id@),
    )
    &&& derives(a.event_authority, program_address_of(seq![event_authority_seed()], d.engine_program_id@))
    &&& derives(
        a.position,
        program_address_of(seq![position_seed(), a.position_nft_mint@], d.engine_program_id@),
    )
}

/// The error of a lock request, checked in this order, or `None` where it is
/// carried out.
pub open spec fn lock_refusal(
    d: Deployment,
    a: LockLiquidity,
    config: Config,
    existing: Option<LockAccount>,
    duration_months: u8,
) -> Option<ErrorCode> {
    if !lock_accounts_valid(d, a) {
        Some(ErrorCode::InvalidAccount)
    } else if existing is Some {
        Some(ErrorCode::AccountAlreadyExists)
    } else if config.pool_id@ != a.pool@ {
        Some(ErrorCode::InvalidPool)
    } else if !is_offered(duration_months) {
        Some(ErrorCode::InvalidDuration)
    } else {
        None
    }
}

/// The record that a lock made at `now` creates.
pub open spec fn locked_record(
    a: LockLiquidity,
    now: u64,
    liquidity_delta: u128,
    duration_months: u8,
) -> LockAccount {
    LockAccount {
        user: a.user,
        position_nft_mint: a.position_nft_mint,
        position_pda: a.position,
        lock_start: now,
        lock_end: (now + seconds_of(duration_months as nat)) as u64,
        liquidity_locked: liquidity_delta,
        duration_months,
        status: LockStatus::Active,
        total_rewards_earned: 0,
        rewards_claimed: 0,
        last_claim_time: now,
    }
}

pub open spec fn lock_create_position(a: LockLiquidity) -> CreatePosition {
    CreatePosition {
        owner: a.user,
        position_nft_mint: a.position_nft_mint,
        position_nft_account: a.position_nft_account,
        pool: a.pool,
        position: a.position,
        pool_authority: a.pool_authority,
        payer: a.user,
        token_program: a.token_program,
        system_program: a.system_program,
        event_authority: a.event_authority,
        program: a.damm_program,
    }
}

pub open spec fn lock_add_liquidity(a: LockLiquidity) -> AddLiquidity {
    AddLiquidity {
        pool: a.pool,
        position: a.position,
        token_a_account: a.user_token_a,
        token_b_account: a.user_token_b,
        token_a_vault: a.token_a_vault,
        token_b_vault: a.token_b_vault,
        token_a_mint: a.token_a_mint,
        token_b_mint: a.token_b_mint,
        position_nft_account: a.position_nft_account,
        owner: a.user,
        token_a_program: a.token_a_program,
        token_b_program: a.token_b_program,
        event_authority: a.event_authority,
        program: a.damm_program,
    }
}

/// The calls of a lock: open the position, create the escrow's token
/// account, deposit the liquidity with no cap on either token, and move the
/// position token into escrow.
pub open spec fn lock_steps(a: LockLiquidity, liquidity_delta: u128) -> Seq<Step> {
    seq![
        Step::Engine(EngineCall::CreatePosition(lock_create_position(a))),
        Step::CreateTokenAccount {
            payer: a.user,
            account: a.escrow_nft_account,
            authority: a.escrow_authority,
            mint: a.position_nft_mint,
            token_program: a.token_program,
        },
        Step::Engine(
            EngineCall::AddLiquidity(
                lock_add_liquidity(a),
                AddLiquidityParameters {
                    liquidity_delta,
                    token_a_amount_threshold: u64::MAX,
                    token_b_amount_threshold: u64::MAX,
                },
            ),
        ),
        Step::TransferPositionToken {
            from: a.position_nft_account,
            to: a.escrow_nft_account,
            authority: a.user,
            mint: a.position_nft_mint,
            token_program: a.token_program,
            escrow_bump: None,
        },
    ]
}

fn lock_accounts_check(d: &Deployment, a: &LockLiquidity) -> (r: bool)
    ensures
        r == lock_accounts_valid(*d, *a),
{
    a.damm_program == d.engine_program_id
        && matches_derived(&a.config, config_address(&d.program_id))
        && matches_derived(&a.escrow_authority, escrow_authority_address(&d.program_id))
        && matches_derived(
        &a.lock_account,
        lock_record_address(&a.user, &a.position_nft_mint, &d.program_id),
    ) && matches_derived(&a.event_authority, event_authority_address(&d.engine_program_id))
        && matches_derived(&a.position, position_address(&a.position_nft_mint, &d.engine_program_id))
}

/// Locks `liquidity_delta` of new liquidity in `a.pool` for `duration_months`
/// months, starting at `now`: it validates the request, writes the new lock
/// record into `record`, and returns the calls that carry it out. A refused
/// request leaves `record` as it was and issues no call.
pub fn handle_lock_liquidity(
    d: &Deployment,
    a: &LockLiquidity,
    config: &Config,
    record: &mut Option<LockAccount>,
    now: u64,
    liquidity_delta: u128,
    duration_months: u8,
) -> (r: Result<Vec<Step>, ErrorCode>)
    requires
        now <= u64::MAX - 31_104_000,
    ensures
        match r {
            Ok(steps) => lock_refusal(*d, *a, *config, *old(record), duration_months) is None
                && *final(record) == Some(locked_record(*a, now, liquidity_delta, duration_months))
                && steps@ == lock_steps(*a, liquidity_delta),
            Err(e) => lock_refusal(*d, *a, *config, *old(record), duration_months) == Some(e)
                && *final(record) == *old(record),
        },
{
    if !lock_accounts_check(d, a) {
        return Err(ErrorCode::InvalidAccount);
    }
    if record.is_some() {
        return Err(ErrorCode::AccountAlreadyExists);
    }
    if !(config.pool_id == a.pool) {
        return Err(ErrorCode::InvalidPool);
    }
    let duration = match LockDuration::from_months(duration_months) {
        Some(duration) => duration,
        None => return Err(ErrorCode::InvalidDuration),
    };
    let lock_end = now + duration.seconds();

    let create = CreatePosition {
        owner: a.user,
        position_nft_mint: a.position_nft_mint,
        position_nft_account: a.position_nft_account,
        pool: a.pool,
        position: a.position,
        pool_authority: a.pool_authority,
        payer: a.user,
        token_program: a.token_program,
        system_program: a.system_program,
        event_authority: a.event_authority,
        program: a.damm_program,
    };
    let add = AddLiquidity {
        pool: a.pool,
        position: a.position,
        token_a_account: a.user_token_a,
        token_b_account: a.user_token_b,
        token_a_vault: a.token_a_vault,
        token_b_vault: a.token_b_vault,
        token_a_mint: a.token_a_mint,
        token_b_mint: a.token_b_mint,
        position_nft_account: a.position_nft_account,
        owner: a.user,
        token_a_program: a.token_a_program,
        token_b_program: a.token_b_program,
        event_authority: a.event_authority,
        program: a.damm_program,
    };
    let steps = vec![
        Step::Engine(EngineCall::CreatePosition(create)),
        Step::CreateTokenAccount {
            payer: a.user,
            account: a.escrow_nft_account,
            authority: a.escrow_authority,
            mint: a.position_nft_mint,
            token_program: a.token_program,
        },
        Step::Engine(
            EngineCall::AddLiquidity(
                add,
                AddLiquidityParameters {
                    liquidity_delta,
                    token_a_amount_threshold: u64::MAX,
                    token_b_amount_threshold: u64::MAX,
                },
            ),
        ),
        Step::TransferPositionToken {
            from: a.position_nft_account,
            to: a.escrow_nft_account,
            authority: a.user,
            mint: a.position_nft_mint,
            token_program: a.token_program,
            escrow_bump: None,
        },
    ];
    *record = Some(
        LockAccount {
            user: a.user,
            position_nft_mint: a.position_nft_mint,
            position_pda: a.position,
            lock_start: now,
            lock_end,
            liquidity_locked: liquidity_delta,
            duration_months,
            status: LockStatus::Active,
            total_rewards_earned: 0,
            rewards_claimed: 0,
            last_claim_time: now,
        },
    );
    proof {
        assert(steps@ =~= lock_steps(*a, liquidity_delta));
    }
    Ok(steps)
}

/// The engine call that puts a position under the vesting schedule of a
/// `duration_months` lock, or `InvalidDuration` where no such lock is offered.
pub fn handle_lock_position(a: &LockPosition, duration_months: u8) -> (r: Result<EngineCall, ErrorCode>)
    ensures
        match r {
            Ok(call) => is_offered(duration_months)
                && call == EngineCall::LockPosition(*a, vesting_of(duration_months as nat)),
            Err(e) => !is_offered(duration_months) && e == ErrorCode::InvalidDuration,
        },
{
    match LockDuration::from_months(duration_months) {
        Some(duration) => Ok(EngineCall::LockPosition(*a, duration.vesting_parameters())),
        None => Err(ErrorCode::InvalidDuration),
    }
}

// ---------------------------------------------------------------------------
// Unlock

/// Accounts of an unlock request.
#[derive(Clone, Copy, Debug)]
pub struct UnlockLiquidity {
    pub lock_account: Address,
    pub position_nft_mint: Address,
    pub escrow_authority: Address,
    pub user_token_a: Address,
    pub user_token_b: Address,
    /// The escrow authority's account for the position token.
    pub escrow_nft_account: Address,
    /// The user's account for the position token, created where missing.
    pub user_nft_account: Address,
    pub pool: Address,
    pub position: Address,
    pub pool_authority: Address,
    pub token_a_vault: Address,
    pub token_b_vault: Address,
    pub token_a_mint: Address,
    pub token_b_mint: Address,
    pub event_authority: Address,
    /// Token program of the pool's two tokens.
    pub token_program: Address,
    /// Token program of the position token.
    pub token_2022_program: Address,
    pub associated_token_program: Address,
    pub system_program: Address,
    pub damm_program: Address,
    /// The identity that asks for the unlock.
    pub user: Address,
}

/// Whether the accounts of an unlock request are those of `rec` and of the
/// deployment.
pub open spec fn unlock_accounts_valid(d: Deployment, a: UnlockLiquidity, rec: LockAccount) -> bool {
    &&& a.damm_program@ == d.engine_program_id@
    &&& a.position_nft_mint@ == rec.position_nft_mint@
    &&& a.position@ == rec.position_pda@
    &&& derives(a.escrow_authority, program_address_of(seq![escrow_authority_seed()], d.program_id@))
    &&& derives(
        a.lock_account,
        program_address_of(seq![lock_seed(), a.user@, a.position_nft_mint@], d.program_id@),
    )
    &&& derives(a.event_authority, program_address_of(seq![event_authority_seed()], d.engine_program_id@))
}

/// The error of an unlock request, checked in this order, or `None` where it
/// is carried out.
pub open spec fn unlock_refusal(
    d: Deployment,
    a: UnlockLiquidity,
    rec: LockAccount,
    now: u64,
    liquidity_delta: u128,
) -> Option<ErrorCode> {
    if rec.user@ != a.user@ {
        Some(ErrorCode::Unauthorized)
    } else if rec.status != LockStatus::Active {
        Some(ErrorCode::LockNotActive)
    } else if !unlock_accounts_valid(d, a, rec) {
        Some(ErrorCode::InvalidAccount)
    } else if now < rec.lock_end {
        Some(ErrorCode::LockNotExpired)
    } else if liquidity_delta > rec.liquidity_locked {
        Some(ErrorCode::InvalidUnlockAmount)
    } else {
        None
    }
}

/// Whether a request for `liquidity_delta` takes out all that `rec` holds;
/// zero asks for all.
pub open spec fn is_full_unlock(rec: LockAccount, liquidity_delta: u128) -> bool {
    liquidity_delta == 0 || liquidity_delta == rec.liquidity_locked
}

/// The record after an unlock of `liquidity_delta`: a full unlock empties and
/// closes it; a partial one lowers the amount and keeps it active.
pub open spec fn unlocked_record(rec: LockAccount, liquidity_delta: u128) -> LockAccount {
    if is_full_unlock(rec, liquidity_delta) {
        LockAccount { liquidity_locked: 0, status: LockStatus::Claimed, ..rec }
    } else {
        LockAccount { liquidity_locked: (rec.liquidity_locked - liquidity_delta) as u128, ..rec }
    }
}

pub open spec fn unlock_remove_liquidity(a: UnlockLiquidity) -> RemoveLiquidity {
    RemoveLiquidity {
        pool_authority: a.pool_authority,
        pool: a.pool,
        position: a.position,
        token_a_account: a.user_token_a,
        token_b_account: a.user_token_b,
        token_a_vault: a.token_a_vault,
        token_b_vault: a.token_b_vault,
        token_a_mint: a.token_a_mint,
        token_b_mint: a.token_b_mint,
        position_nft_account: a.user_nft_account,
        owner: a.user,
        token_a_program: a.token_program,
        token_b_program: a.token_program,
        event_authority: a.event_authority,
        program: a.damm_program,
    }
}

/// The escrow authority's bump seed in deployment `d`.
pub open spec fn escrow_bump_of(d: Deployment) -> u8 {
    match program_address_of(seq![escrow_authority_seed()], d.program_id@) {
        Some((_, bump)) => bump,
        None => 0,
    }
}

/// The calls of an unlock: create the user's token account where it is
/// missing, return the position token from escrow, then take the liquidity
/// out, with no floor on either token.
pub open spec fn unlock_steps(
    d: Deployment,
    a: UnlockLiquidity,
    rec: LockAccount,
    liquidity_delta: u128,
    user_nft_account_exists: bool,
) -> Seq<Step> {
    let create = if user_nft_account_exists {
        seq![]
    } else {
        seq![
            Step::CreateTokenAccount {
                payer: a.user,
                account: a.user_nft_account,
                authority: a.user,
                mint: a.position_nft_mint,
                token_program: a.token_2022_program,
            },
        ]
    };
    let remove = if is_full_unlock(rec, liquidity_delta) {
        EngineCall::RemoveAllLiquidity(unlock_remove_liquidity(a), 0, 0)
    } else {
        EngineCall::RemoveLiquidity(
            unlock_remove_liquidity(a),
            RemoveLiquidityParameters {
                liquidity_delta,
                token_a_amount_threshold: 0,
                token_b_amount_threshold: 0,
            },
        )
    };
    create + seq![
        Step::TransferPositionToken {
            from: a.escrow_nft_account,
            to: a.user_nft_account,
            authority: a.escrow_authority,
            mint: a.position_nft_mint,
            token_program: a.token_2022_program,
            escrow_bump: Some(escrow_bump_of(d)),
        },
        Step::Engine(remove),
    ]
}

/// Unlocks `liquidity_delta` of the liquidity under `record` (zero for all)
/// at `now`, for the requester `a.user`: it validates the request, updates
/// `record`, and returns the calls that carry it out.
/// `user_nft_account_exists` tells whether the user's account for the
/// position token exists already. A refused request leaves `record` as it
/// was and issues no call.
pub fn handle_unlock_liquidity(
    d: &Deployment,
    a: &UnlockLiquidity,
    record: &mut LockAccount,
    user_nft_account_exists: bool,
    now: u64,
    liquidity_delta: u128,
) -> (r: Result<Vec<Step>, ErrorCode>)
    ensures
        match r {
            Ok(steps) => unlock_refusal(*d, *a, *old(record), now, liquidity_delta) is None
                && *final(record) == unlocked_record(*old(record), liquidity_delta)
                && steps@ == unlock_steps(*d, *a, *old(record), liquidity_delta, user_nft_account_exists),
            Err(e) => unlock_refusal(*d, *a, *old(record), now, liquidity_delta) == Some(e)
                && *final(record) == *old(record),
        },
{
    if !(record.user == a.user) {
        return Err(ErrorCode::Unauthorized);
    }
    if record.status != LockStatus::Active {
        return Err(ErrorCode::LockNotActive);
    }
    let escrow = escrow_authority_address(&d.program_id);
    let accounts_valid = a.damm_program == d.engine_program_id
        && a.position_nft_mint == record.position_nft_mint
        && a.position == record.position_pda
        && matches_derived(&a.escrow_authority, escrow)
        && matches_derived(
        &a.lock_account,
        lock_record_address(&a.user, &a.position_nft_mint, &d.program_id),
    ) && matches_derived(&a.event_authority, event_authority_address(&d.engine_program_id));
    if !accounts_valid {
        return Err(ErrorCode::InvalidAccount);
    }
    let escrow_bump = match escrow {
        Some((_, bump)) => bump,
        None => 0,
    };
    if now < record.lock_end {
        return Err(ErrorCode::LockNotExpired);
    }
    if liquidity_delta > record.liquidity_locked {
        return Err(ErrorCode::InvalidUnlockAmount);
    }
    let full = liquidity_delta == 0 || liquidity_delta == record.liquidity_locked;

    let mut steps: Vec<Step> = Vec::new();
    if !user_nft_account_exists {
        steps.push(
            Step::CreateTokenAccount {
                payer: a.user,
                account: a.user_nft_account,
                authority: a.user,
                mint: a.position_nft_mint,
                token_program: a.token_2022_program,
            },
        );
    }
    steps.push(
        Step::TransferPositionToken {
            from: a.escrow_nft_account,
            to: a.user_nft_account,
            authority: a.escrow_authority,
            mint: a.position_nft_mint,
            token_program: a.token_2022_program,
            escrow_bump: Some(escrow_bump),
        },
    );
    let remove_accounts = RemoveLiquidity {
        pool_authority: a.pool_authority,
        pool: a.pool,
        position: a.position,
        token_a_account: a.user_token_a,
        token_b_account: a.user_token_b,
        token_a_vault: a.token_a_vault,
        token_b_vault: a.token_b_vault,
        token_a_mint: a.token_a_mint,
        token_b_mint: a.token_b_mint,
        position_nft_account: a.user_nft_account,
        owner: a.user,
        token_a_program: a.token_program,
        token_b_program: a.token_program,
        event_authority: a.event_authority,
        program: a.damm_program,
    };
    if full {
        steps.push(Step::Engine(EngineCall::RemoveAllLiquidity(remove_accounts, 0, 0)));
        record.liquidity_locked = 0;
        record.status = LockStatus::Claimed;
    } else {
        steps.push(
            Step::Engine(
                EngineCall::RemoveLiquidity(
                    remove_accounts,
                    RemoveLiquidityParameters {
                        liquidity_delta,
                        token_a_amount_threshold: 0,
                        token_b_amount_threshold: 0,
                    },
                ),
            ),
        );
        record.liquidity_locked = record.liquidity_locked - liquidity_delta;
    }
    proof {
        assert(steps@ =~= unlock_steps(*d, *a, *old(record), liquidity_delta, user_nft_account_exists));
    }
    Ok(steps)
}

} // verus!
