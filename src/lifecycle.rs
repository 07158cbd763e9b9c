use vstd::prelude::*;
use crate::address::Address;
use crate::duration::{is_offered, seconds_of, vesting_of};
use crate::lock::{
    LockLiquidity, Step, UnlockLiquidity, config_account_valid, config_refusal, is_full_unlock,
    lock_accounts_valid, lock_refusal, lock_steps, locked_record, token_location_after,
    unlock_accounts_valid, unlock_refusal, unlock_steps, unlocked_record,
};
use crate::state::{Config, Deployment, ErrorCode, LockAccount, LockStatus};

verus! {

/// A deployment's configuration is created exactly once: the first request on
/// the configuration address is carried out, and once a configuration exists
/// every later request is refused, whatever its arguments.
pub proof fn lemma_config_created_once(d: Deployment, first: Address, later: Address, existing: Config)
    requires
        config_account_valid(d, first),
    ensures
        config_refusal(d, first, None) is None,
        config_refusal(d, later, Some(existing)) is Some,
{
}

/// For every offered duration, the lock ends exactly where the vesting cliff
/// handed to the engine falls; an unlock of a fresh record before its end is
/// refused as premature, whatever the amount; an unlock of the whole amount
/// at or after its end is carried out and closes the record with nothing
/// left locked.
pub proof fn lemma_lock_then_unlock(
    d: Deployment,
    la: LockLiquidity,
    config: Config,
    now: u64,
    liquidity_delta: u128,
    duration_months: u8,
    ua: UnlockLiquidity,
    later: u64,
    amount: u128,
)
    requires
        lock_refusal(d, la, config, None, duration_months) is None,
        now <= u64::MAX - 31_104_000,
        ua.user@ == la.user@,
        unlock_accounts_valid(d, ua, locked_record(la, now, liquidity_delta, duration_months)),
    ensures
        ({
            let rec = locked_record(la, now, liquidity_delta, duration_months);
            &&& is_offered(duration_months)
            &&& rec.lock_end == rec.lock_start + seconds_of(duration_months as nat)
            &&& vesting_of(duration_months as nat).cliff_point == Some((rec.lock_end - rec.lock_start) as u64)
            &&& rec.status == LockStatus::Active
            &&& (later < rec.lock_end ==> unlock_refusal(d, ua, rec, later, amount) == Some(ErrorCode::LockNotExpired))
            &&& (later >= rec.lock_end ==> {
                &&& unlock_refusal(d, ua, rec, later, liquidity_delta) is None
                &&& unlocked_record(rec, liquidity_delta).status == LockStatus::Claimed
                &&& unlocked_record(rec, liquidity_delta).liquidity_locked == 0
            })
            &&& (later >= rec.lock_end ==> {
                &&& unlock_refusal(d, ua, rec, later, 0) is None
                &&& unlocked_record(rec, 0).status == LockStatus::Claimed
                &&& unlocked_record(rec, 0).liquidity_locked == 0
            })
        }),
{
}

/// Liquidity that an unlock of `liquidity_delta` takes out of `rec`.
pub open spec fn released(rec: LockAccount, liquidity_delta: u128) -> nat {
    if is_full_unlock(rec, liquidity_delta) {
        rec.liquidity_locked as nat
    } else {
        liquidity_delta as nat
    }
}

/// The record after a series of unlock requests, each given by its accounts,
/// its time and its amount, and the liquidity that the accepted ones took
/// out. A refused request changes nothing.
pub open spec fn after_unlocks(
    d: Deployment,
    rec: LockAccount,
    requests: Seq<(UnlockLiquidity, u64, u128)>,
) -> (LockAccount, nat)
    decreases requests.len(),
{
    if requests.len() == 0 {
        (rec, 0)
    } else {
        let (a, now, delta) = requests[0];
        let rest = requests.subrange(1, requests.len() as int);
        if unlock_refusal(d, a, rec, now, delta) is None {
            let (last, total) = after_unlocks(d, unlocked_record(rec, delta), rest);
            (last, total + released(rec, delta))
        } else {
            after_unlocks(d, rec, rest)
        }
    }
}

/// An accepted unlock never raises the locked amount: it lowers it by
/// exactly what it releases, and never by more than was locked. It keeps the
/// reward counters, and leaves the record either still active or closed.
pub proof fn lemma_unlock_lowers_amount(d: Deployment, a: UnlockLiquidity, rec: LockAccount, now: u64, liquidity_delta: u128)
    requires
        unlock_refusal(d, a, rec, now, liquidity_delta) is None,
    ensures
        unlocked_record(rec, liquidity_delta).liquidity_locked <= rec.liquidity_locked,
        unlocked_record(rec, liquidity_delta).liquidity_locked + released(rec, liquidity_delta)
            == rec.liquidity_locked,
        liquidity_delta <= released(rec, liquidity_delta),
        unlocked_record(rec, liquidity_delta).total_rewards_earned == rec.total_rewards_earned,
        unlocked_record(rec, liquidity_delta).rewards_claimed == rec.rewards_claimed,
        unlocked_record(rec, liquidity_delta).last_claim_time == rec.last_claim_time,
        unlocked_record(rec, liquidity_delta).status == LockStatus::Active
            || unlocked_record(rec, liquidity_delta).status == LockStatus::Claimed,
{
}

/// Over any series of unlock requests on one record, the amount still locked
/// never rises, and what was locked at the start is exactly what is still
/// locked plus what the accepted requests released; so the released total
/// never exceeds the amount locked.
pub proof fn lemma_unlocks_conserve_amount(
    d: Deployment,
    rec: LockAccount,
    requests: Seq<(UnlockLiquidity, u64, u128)>,
)
    ensures
        after_unlocks(d, rec, requests).0.liquidity_locked <= rec.liquidity_locked,
        after_unlocks(d, rec, requests).0.liquidity_locked + after_unlocks(d, rec, requests).1
            == rec.liquidity_locked,
        after_unlocks(d, rec, requests).1 <= rec.liquidity_locked,
    decreases requests.len(),
{
    if requests.len() > 0 {
        let (a, now, delta) = requests[0];
        let rest = requests.subrange(1, requests.len() as int);
        if unlock_refusal(d, a, rec, now, delta) is None {
            lemma_unlock_lowers_amount(d, a, rec, now, delta);
            lemma_unlocks_conserve_amount(d, unlocked_record(rec, delta), rest);
        } else {
            lemma_unlocks_conserve_amount(d, rec, rest);
        }
    }
}

/// An unlock request from anyone but the record's owner is refused as
/// unauthorised, whatever its time, amount or accounts.
pub proof fn lemma_only_owner_unlocks(d: Deployment, a: UnlockLiquidity, rec: LockAccount, now: u64, liquidity_delta: u128)
    requires
        rec.user@ != a.user@,
    ensures
        unlock_refusal(d, a, rec, now, liquidity_delta) == Some(ErrorCode::Unauthorized),
{
}

/// A lock request for a duration that is not offered is refused, so it
/// creates no record and issues no call; where nothing else is wrong with it,
/// the refusal names the duration.
pub proof fn lemma_unknown_duration_refused(
    d: Deployment,
    a: LockLiquidity,
    config: Config,
    existing: Option<LockAccount>,
    duration_months: u8,
)
    requires
        !is_offered(duration_months),
    ensures
        lock_refusal(d, a, config, existing, duration_months) is Some,
        lock_accounts_valid(d, a) && existing is None && config.pool_id@ == a.pool@
            ==> lock_refusal(d, a, config, existing, duration_months) == Some(ErrorCode::InvalidDuration),
{
}

/// The calls of a lock leave the position token, minted into the user's
/// account, in the escrow account; those of a full unlock bring it from
/// escrow back to the user's account.
pub proof fn lemma_custody_round_trip(
    d: Deployment,
    la: LockLiquidity,
    liquidity_delta: u128,
    ua: UnlockLiquidity,
    rec: LockAccount,
    unlock_delta: u128,
    user_nft_account_exists: bool,
)
    requires
        la.escrow_nft_account@ != la.position_nft_account@,
        ua.escrow_nft_account@ != ua.user_nft_account@,
        is_full_unlock(rec, unlock_delta),
    ensures
        token_location_after(la.position_nft_account, lock_steps(la, liquidity_delta)) == la.escrow_nft_account,
        token_location_after(la.position_nft_account, lock_steps(la, liquidity_delta))@
            != la.position_nft_account@,
        token_location_after(
            ua.escrow_nft_account,
            unlock_steps(d, ua, rec, unlock_delta, user_nft_account_exists),
        ) == ua.user_nft_account,
        token_location_after(
            ua.escrow_nft_account,
            unlock_steps(d, ua, rec, unlock_delta, user_nft_account_exists),
        )@ != ua.escrow_nft_account@,
{
    let s = lock_steps(la, liquidity_delta);
    lemma_location_unfold(la.position_nft_account, s);
    let s1 = s.subrange(1, 4);
    lemma_location_unfold(la.position_nft_account, s1);
    let s2 = s1.subrange(1, 3);
    lemma_location_unfold(la.position_nft_account, s2);
    let s3 = s2.subrange(1, 2);
    lemma_location_unfold(la.position_nft_account, s3);
    lemma_location_unfold(la.escrow_nft_account, s3.subrange(1, 1));

    let u = unlock_steps(d, ua, rec, unlock_delta, user_nft_account_exists);
    let tail = if user_nft_account_exists {
        u
    } else {
        lemma_location_unfold(ua.escrow_nft_account, u);
        u.subrange(1, u.len() as int)
    };
    assert(tail.len() == 2);
    lemma_location_unfold(ua.escrow_nft_account, tail);
    let t1 = tail.subrange(1, 2);
    lemma_location_unfold(ua.user_nft_account, t1);
    lemma_location_unfold(ua.user_nft_account, t1.subrange(1, 1));
}

proof fn lemma_location_unfold(at: Address, steps: Seq<Step>)
    ensures
        steps.len() == 0 ==> token_location_after(at, steps) == at,
        steps.len() > 0 ==> token_location_after(at, steps) == token_location_after(
            match steps[0] {
                Step::TransferPositionToken { from, to, .. } => if from@ == at@ {
                    to
                } else {
                    at
                },
                _ => at,
            },
            steps.subrange(1, steps.len() as int),
        ),
{
}

} // verus!
