//! The data model: stream records, identities, accrual granularities and the
//! creation parameters, together with the well-formedness predicate that
//! every persisted stream satisfies.

use vstd::prelude::*;

verus! {

/// An identity reference: the host resolves authorization and token accounts
/// for it; the ledger itself only stores and compares identities.
#[derive(Clone, Copy, Debug, PartialEq, Eq, Structural)]
pub struct Address {
    pub value: u64,
}

/// The granularity of step-wise ("vesting") accrual.
///
/// Periods are of fixed duration, counted in seconds: a day is 86 400
/// seconds, a week 7 days, a month 30 days and a year 365 days.  Calendar
/// months or weeks would tie settlement to a time zone, which a
/// deterministic ledger cannot afford.
#[derive(Clone, Copy, Debug, PartialEq, Eq, Structural)]
pub enum Rate {
    Daily,
    Weekly,
    Monthly,
    Annually,
}

pub const SECONDS_PER_DAY: u64 = 86400;

pub const SECONDS_PER_WEEK: u64 = 604800;

pub const SECONDS_PER_MONTH: u64 = 2592000;

pub const SECONDS_PER_YEAR: u64 = 31536000;

/// The length in seconds of one accrual period of a given granularity.
pub open spec fn rate_seconds(rate: Rate) -> int {
    match rate {
        Rate::Daily => SECONDS_PER_DAY as int,
        Rate::Weekly => SECONDS_PER_WEEK as int,
        Rate::Monthly => SECONDS_PER_MONTH as int,
        Rate::Annually => SECONDS_PER_YEAR as int,
    }
}

impl Rate {
    /// The length in seconds of one accrual period.
    pub fn seconds(&self) -> (s: u64)
        ensures
            s == rate_seconds(*self),
            0 < s,
    {
        match self {
            Rate::Daily => SECONDS_PER_DAY,
            Rate::Weekly => SECONDS_PER_WEEK,
            Rate::Monthly => SECONDS_PER_MONTH,
            Rate::Annually => SECONDS_PER_YEAR,
        }
    }
}

/// One locked deposit with its vesting schedule, its two stakeholders and
/// its settlement state.
#[derive(Clone, Copy, Debug, PartialEq, Eq, Structural)]
pub struct StreamType {
    pub sender: Address,
    pub receiver: Address,
    pub token: Address,
    /// Total deposited quantity; positive and immutable after creation.
    pub amount: i128,
    pub start_date: u64,
    pub cancellable_date: u64,
    pub cliff_date: u64,
    pub end_date: u64,
    /// Cumulative amount already accounted to the receiver.
    pub withdrawn: i128,
    pub is_cancelled: bool,
    pub cancelled_date: u64,
    /// Selects step-wise accrual when set; continuous linear accrual otherwise.
    pub is_vesting: bool,
    /// Accrual granularity; meaningful only when `is_vesting` is set.
    pub rate: Rate,
}

/// Parameters of a stream creation.  The rate is recorded on the stream
/// either way; it only drives accrual for vesting streams.
#[derive(Clone, Copy, Debug, PartialEq, Eq, Structural)]
pub struct StreamInputType {
    pub sender: Address,
    pub receiver: Address,
    pub token: Address,
    pub amount: i128,
    pub start_date: u64,
    pub cancellable_date: u64,
    pub cliff_date: u64,
    pub end_date: u64,
    pub rate: Rate,
}

/// Parameters of a vesting-stream creation; the same shape as
/// [`StreamInputType`], but the record it produces accrues step-wise.
#[derive(Clone, Copy, Debug, PartialEq, Eq, Structural)]
pub struct VestingInputType {
    pub sender: Address,
    pub receiver: Address,
    pub token: Address,
    pub amount: i128,
    pub start_date: u64,
    pub cancellable_date: u64,
    pub cliff_date: u64,
    pub end_date: u64,
    pub rate: Rate,
}

/// Well-formedness of a persisted stream record.
///
/// Creation establishes it and every mutation preserves it.  The last
/// conjunct is a machine limit, not policy: it keeps every product the
/// accrual functions form inside `i128`.
pub open spec fn valid_stream(s: StreamType) -> bool {
    &&& 0 < s.amount
    &&& s.sender != s.receiver
    &&& s.start_date < s.end_date
    &&& s.start_date <= s.cliff_date <= s.end_date
    &&& s.cancellable_date <= s.end_date
    &&& 0 <= s.withdrawn <= s.amount
    &&& s.amount * (s.end_date - s.start_date) <= i128::MAX
}

/// The two streams agree on every immutable field: stakeholders, deposit,
/// schedule and accrual policy.
pub open spec fn same_schedule(a: StreamType, b: StreamType) -> bool {
    &&& a.sender == b.sender
    &&& a.receiver == b.receiver
    &&& a.token == b.token
    &&& a.amount == b.amount
    &&& a.start_date == b.start_date
    &&& a.cancellable_date == b.cancellable_date
    &&& a.cliff_date == b.cliff_date
    &&& a.end_date == b.end_date
    &&& a.is_vesting == b.is_vesting
    &&& a.rate == b.rate
}

/// The two streams differ at most in `withdrawn`.
pub open spec fn same_but_withdrawn(a: StreamType, b: StreamType) -> bool {
    &&& same_schedule(a, b)
    &&& a.is_cancelled == b.is_cancelled
    &&& a.cancelled_date == b.cancelled_date
}

/// The stream `s` after a further `t` has been accounted to the receiver.
pub open spec fn stream_after_withdraw(s: StreamType, t: int) -> StreamType {
    StreamType { withdrawn: (s.withdrawn + t) as i128, ..s }
}

impl StreamInputType {
    /// The freshly created stream record for these parameters: nothing
    /// withdrawn, not cancelled, continuous linear accrual.
    pub open spec fn stream(self) -> StreamType {
        StreamType {
            sender: self.sender,
            receiver: self.receiver,
            token: self.token,
            amount: self.amount,
            start_date: self.start_date,
            cancellable_date: self.cancellable_date,
            cliff_date: self.cliff_date,
            end_date: self.end_date,
            withdrawn: 0,
            is_cancelled: false,
            cancelled_date: 0,
            is_vesting: false,
            rate: self.rate,
        }
    }

    /// Builds the stream record this creation persists.
    pub fn into_stream(self) -> (s: StreamType)
        ensures
            s == self.stream(),
    {
        StreamType {
            sender: self.sender,
            receiver: self.receiver,
            token: self.token,
            amount: self.amount,
            start_date: self.start_date,
            cancellable_date: self.cancellable_date,
            cliff_date: self.cliff_date,
            end_date: self.end_date,
            withdrawn: 0,
            is_cancelled: false,
            cancelled_date: 0,
            is_vesting: false,
            rate: self.rate,
        }
    }
}

impl VestingInputType {
    /// The freshly created stream record for these parameters: nothing
    /// withdrawn, not cancelled, step-wise accrual at the given rate.
    pub open spec fn stream(self) -> StreamType {
        StreamType {
            sender: self.sender,
            receiver: self.receiver,
            token: self.token,
            amount: self.amount,
            start_date: self.start_date,
            cancellable_date: self.cancellable_date,
            cliff_date: self.cliff_date,
            end_date: self.end_date,
            withdrawn: 0,
            is_cancelled: false,
            cancelled_date: 0,
            is_vesting: true,
            rate: self.rate,
        }
    }

    /// Builds the stream record this creation persists.
    pub fn into_stream(self) -> (s: StreamType)
        ensures
            s == self.stream(),
    {
        StreamType {
            sender: self.sender,
            receiver: self.receiver,
            token: self.token,
            amount: self.amount,
            start_date: self.start_date,
            cancellable_date: self.cancellable_date,
            cliff_date: self.cliff_date,
            end_date: self.end_date,
            withdrawn: 0,
            is_cancelled: false,
            cancelled_date: 0,
            is_vesting: true,
            rate: self.rate,
        }
    }
}

} // verus!
