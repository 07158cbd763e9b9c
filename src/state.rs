use vstd::prelude::*;
use crate::address::Address;

verus! {

/// Why an operation was refused. A refused operation changes no record.
#[derive(Clone, Copy, Debug, PartialEq, Eq, Structural)]
pub enum ErrorCode {
    InvalidDuration,
    InvalidLiquidity,
    PoolDisabled,
    InsufficientFunds,
    InvalidPool,
    InvalidVesting,
    LockNotExpired,
    InvalidUnlockAmount,
    Unauthorized,
    LockNotActive,
    /// The record that the operation would create exists already.
    AccountAlreadyExists,
    /// A supplied account is not the one that its derivation or the
    /// deployment names.
    InvalidAccount,
}

/// The message shown for each error.
pub open spec fn error_message(e: ErrorCode) -> Seq<char> {
    match e {
        ErrorCode::InvalidDuration => "Invalid duration"@,
        ErrorCode::InvalidLiquidity => "Invalid liquidity amount"@,
        ErrorCode::PoolDisabled => "Pool is disabled"@,
        ErrorCode::InsufficientFunds => "Insufficient funds"@,
        ErrorCode::InvalidPool => "Invalid pool configuration"@,
        ErrorCode::InvalidVesting => "Invalid vesting account"@,
        ErrorCode::LockNotExpired => "Lock period not expired"@,
        ErrorCode::InvalidUnlockAmount => "Invalid unlock amount"@,
        ErrorCode::Unauthorized => "Unauthorized access"@,
        ErrorCode::LockNotActive => "Lock is not active"@,
        ErrorCode::AccountAlreadyExists => "Account already exists"@,
        ErrorCode::InvalidAccount => "Invalid account"@,
    }
}

impl ErrorCode {
    /// The message shown for the error.
    pub fn message(&self) -> (r: &'static str)
        ensures
            r@ == error_message(*self),
    {
        match self {
            ErrorCode::InvalidDuration => "Invalid duration",
            ErrorCode::InvalidLiquidity => "Invalid liquidity amount",
            ErrorCode::PoolDisabled => "Pool is disabled",
            ErrorCode::InsufficientFunds => "Insufficient funds",
            ErrorCode::InvalidPool => "Invalid pool configuration",
            ErrorCode::InvalidVesting => "Invalid vesting account",
            ErrorCode::LockNotExpired => "Lock period not expired",
            ErrorCode::InvalidUnlockAmount => "Invalid unlock amount",
            ErrorCode::Unauthorized => "Unauthorized access",
            ErrorCode::LockNotActive => "Lock is not active",
            ErrorCode::AccountAlreadyExists => "Account already exists",
            ErrorCode::InvalidAccount => "Invalid account",
        }
    }
}

/// Lifecycle of a lock record. `Unlocked` is kept in the enumeration but no
/// operation moves a record into it: a partial unlock leaves a record `Active`.
#[derive(Clone, Copy, Debug, PartialEq, Eq, Structural)]
pub enum LockStatus {
    Active,
    Unlocked,
    Claimed,
}

/// One user's lock of one position.
#[derive(Clone, Copy, Debug)]
pub struct LockAccount {
    /// The user who created the lock; the only one who may unlock it.
    pub user: Address,
    /// Mint of the token that controls the engine position.
    pub position_nft_mint: Address,
    /// The engine's position account, derived from the mint.
    pub position_pda: Address,
    pub lock_start: u64,
    pub lock_end: u64,
    /// Liquidity still under lock; it never grows after creation.
    pub liquidity_locked: u128,
    /// Lock duration in months: 3, 6 or 12.
    pub duration_months: u8,
    pub status: LockStatus,
    pub total_rewards_earned: u64,
    pub rewards_claimed: u64,
    pub last_claim_time: u64,
}

/// The deployment's settings, written once by its administrator.
#[derive(Clone, Copy, Debug)]
pub struct Config {
    /// The one pool that locks may use.
    pub pool_id: Address,
    pub admin: Address,
    /// Fee in basis points, reserved for later use.
    pub fee_bps: u16,
    /// Mint of the token used for reward accounting.
    pub reward_mint: Address,
}

/// The program's own identity and that of the pool engine it calls.
#[derive(Clone, Copy, Debug)]
pub struct Deployment {
    pub program_id: Address,
    pub engine_program_id: Address,
}

} // verus!
