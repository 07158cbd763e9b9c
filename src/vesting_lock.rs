use vstd::prelude::*;
use crate::address::Address;
use crate::duration::{LockDuration, is_offered, vesting_of};
use crate::engine::{AddLiquidity, AddLiquidityParameters, CreatePosition, EngineCall, LockPosition};
use crate::state::ErrorCode;

verus! {

/// Accounts of a lock that the engine itself enforces: the position stays
/// with the payer and the engine's vesting schedule holds its liquidity.
#[derive(Clone, Copy, Debug)]
pub struct DynamicAmmLockLiquidity {
    pub pool: Address,
    pub user_token_a_account: Address,
    pub user_token_b_account: Address,
    pub token_a_mint: Address,
    pub token_b_mint: Address,
    pub token_a_vault: Address,
    pub token_b_vault: Address,
    pub pool_authority: Address,
    pub position_nft_mint: Address,
    pub position_nft_account: Address,
    pub position: Address,
    pub vesting: Address,
    pub payer: Address,
    pub token_program: Address,
    pub token_a_program: Address,
    pub token_b_program: Address,
    pub event_authority: Address,
    pub system_program: Address,
    pub associated_token_program: Address,
    pub damm_program: Address,
}

/// The engine calls of such a lock: open a position for the payer, add
/// `liquidity_delta` to it with no cap on either token, and put it under the
/// vesting schedule of `duration_months`.
pub open spec fn vesting_lock_calls(a: DynamicAmmLockLiquidity, liquidity_delta: u128, duration_months: u8) -> Seq<EngineCall> {
    seq![
        EngineCall::CreatePosition(
            CreatePosition {
                owner: a.payer,
                position_nft_mint: a.position_nft_mint,
                position_nft_account: a.position_nft_account,
                pool: a.pool,
                position: a.position,
                pool_authority: a.pool_authority,
                payer: a.payer,
                token_program: a.token_program,
                system_program: a.system_program,
                event_authority: a.event_authority,
                program: a.damm_program,
            },
        ),
        EngineCall::AddLiquidity(
            AddLiquidity {
                pool: a.pool,
                position: a.position,
                token_a_account: a.user_token_a_account,
                token_b_account: a.user_token_b_account,
                token_a_vault: a.token_a_vault,
                token_b_vault: a.token_b_vault,
                token_a_mint: a.token_a_mint,
                token_b_mint: a.token_b_mint,
                position_nft_account: a.position_nft_account,
                owner: a.payer,
                token_a_program: a.token_a_program,
                token_b_program: a.token_b_program,
                event_authority: a.event_authority,
                program: a.damm_program,
            },
            AddLiquidityParameters {
                liquidity_delta,
                token_a_amount_threshold: u64::MAX,
                token_b_amount_threshold: u64::MAX,
            },
        ),
        EngineCall::LockPosition(
            LockPosition {
                pool: a.pool,
                position: a.position,
                vesting: a.vesting,
                position_nft_account: a.position_nft_account,
                owner: a.payer,
                payer: a.payer,
                system_program: a.system_program,
                event_authority: a.event_authority,
                program: a.damm_program,
            },
            vesting_of(duration_months as nat),
        ),
    ]
}

/// The engine calls that lock `liquidity_delta` in a new position under the
/// vesting schedule of `duration_months`, or `InvalidDuration`, before any
/// call, where that duration is not offered.
pub fn handle_lock_liquidity(a: &DynamicAmmLockLiquidity, liquidity_delta: u128, duration_months: u8) -> (r: Result<Vec<EngineCall>, ErrorCode>)
    ensures
        match r {
            Ok(calls) => is_offered(duration_months)
                && calls@ == vesting_lock_calls(*a, liquidity_delta, duration_months),
            Err(e) => !is_offered(duration_months) && e == ErrorCode::InvalidDuration,
        },
{
    let vesting = match LockDuration::from_months(duration_months) {
        Some(duration) => duration.vesting_parameters(),
        None => return Err(ErrorCode::InvalidDuration),
    };
    let calls = vec![
        EngineCall::CreatePosition(
            CreatePosition {
                owner: a.payer,
                position_nft_mint: a.position_nft_mint,
                position_nft_account: a.position_nft_account,
                pool: a.pool,
                position: a.position,
                pool_authority: a.pool_authority,
                payer: a.payer,
                token_program: a.token_program,
                system_program: a.system_program,
                event_authority: a.event_authority,
                program: a.damm_program,
            },
        ),
        EngineCall::AddLiquidity(
            AddLiquidity {
                pool: a.pool,
                position: a.position,
                token_a_account: a.user_token_a_account,
                token_b_account: a.user_token_b_account,
                token_a_vault: a.token_a_vault,
                token_b_vault: a.token_b_vault,
                token_a_mint: a.token_a_mint,
                token_b_mint: a.token_b_mint,
                position_nft_account: a.position_nft_account,
                owner: a.payer,
                token_a_program: a.token_a_program,
                token_b_program: a.token_b_program,
                event_authority: a.event_authority,
                program: a.damm_program,
            },
            AddLiquidityParameters {
                liquidity_delta,
                token_a_amount_threshold: u64::MAX,
                token_b_amount_threshold: u64::MAX,
            },
        ),
        EngineCall::LockPosition(
            LockPosition {
                pool: a.pool,
                position: a.position,
                vesting: a.vesting,
                position_nft_account: a.position_nft_account,
                owner: a.payer,
                payer: a.payer,
                system_program: a.system_program,
                event_authority: a.event_authority,
                program: a.damm_program,
            },
            vesting,
        ),
    ];
    proof {
        assert(calls@ =~= vesting_lock_calls(*a, liquidity_delta, duration_months));
    }
    Ok(calls)
}

} // verus!
