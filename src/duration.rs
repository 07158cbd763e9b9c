use vstd::prelude::*;
use crate::engine::VestingParameters;

verus! {

/// Length of a lock month: thirty days.
pub const SECONDS_PER_MONTH: u64 = 2_592_000;

/// Number of vesting periods after the cliff.
pub const VESTING_PERIODS: u16 = 4;

/// The lock durations on offer.
#[derive(Clone, Copy, Debug, PartialEq, Eq, Structural)]
pub enum LockDuration {
    ThreeMonths,
    SixMonths,
    TwelveMonths,
}

/// Whether `months` names one of the lock durations on offer.
pub open spec fn is_offered(months: u8) -> bool {
    months == 3 || months == 6 || months == 12
}

/// Seconds in a lock of `months` months.
pub open spec fn seconds_of(months: nat) -> nat {
    (months * SECONDS_PER_MONTH) as nat
}

/// The vesting schedule for a lock of `months` months: a cliff at the end of
/// the lock, then four periods that each last a quarter of it, with no
/// liquidity released before or between them.
pub open spec fn vesting_of(months: nat) -> VestingParameters {
    VestingParameters {
        cliff_point: Some(seconds_of(months) as u64),
        period_frequency: (seconds_of(months) / 4) as u64,
        cliff_unlock_liquidity: 0,
        liquidity_per_period: 0,
        number_of_period: VESTING_PERIODS,
    }
}

impl LockDuration {
    pub open spec fn months_spec(self) -> u8 {
        match self {
            LockDuration::ThreeMonths => 3,
            LockDuration::SixMonths => 6,
            LockDuration::TwelveMonths => 12,
        }
    }

    /// The duration of `months` months, if one is on offer.
    pub fn from_months(months: u8) -> (r: Option<LockDuration>)
        ensures
            r is Some <==> is_offered(months),
            r matches Some(d) ==> d.months_spec() == months,
    {
        match months {
            3 => Some(LockDuration::ThreeMonths),
            6 => Some(LockDuration::SixMonths),
            12 => Some(LockDuration::TwelveMonths),
            _ => None,
        }
    }

    #[verifier::when_used_as_spec(months_spec)]
    pub fn months(self) -> (r: u8)
        ensures
            r == self.months_spec(),
            is_offered(r),
    {
        match self {
            LockDuration::ThreeMonths => 3,
            LockDuration::SixMonths => 6,
            LockDuration::TwelveMonths => 12,
        }
    }

    /// Seconds from the start of a lock to its end.
    pub fn seconds(self) -> (r: u64)
        ensures
            r == seconds_of(self.months_spec() as nat),
            r <= 31_104_000,
    {
        self.months() as u64 * SECONDS_PER_MONTH
    }

    /// The vesting schedule handed to the engine for this duration. Its
    /// cliff falls where the lock ends.
    pub fn vesting_parameters(self) -> (r: VestingParameters)
        ensures
            r == vesting_of(self.months_spec() as nat),
    {
        let seconds = self.seconds();
        VestingParameters {
            cliff_point: Some(seconds),
            period_frequency: seconds / 4,
            cliff_unlock_liquidity: 0,
            liquidity_per_period: 0,
            number_of_period: VESTING_PERIODS,
        }
    }
}

} // verus!
