//! The stream lifecycle engine and its entry surface.
//!
//! [`Fluxity`] owns the record store and implements create, withdraw and
//! cancel as invariant-preserving transitions.  The host around it supplies
//! what only it can know: the current ledger timestamp and the identity it
//! has authorized, both passed in as plain arguments.  Token movements are
//! reported through the results — a successful creation owes the ledger a
//! deposit of `params.amount`, a successful withdrawal pays the returned
//! amount to the receiver, and a successful cancellation pays each returned
//! amount (where positive) to its stakeholder — so a host performs them
//! after, and atomically with, the recorded transition.

use vstd::prelude::*;

use crate::errors::CustomErrors;
use crate::storage::StreamStore;
use crate::types::Address;
use crate::types::StreamInputType;
use crate::types::StreamType;
use crate::types::VestingInputType;
use crate::types::rate_seconds;
use crate::types::same_but_withdrawn;
use crate::types::same_schedule;
use crate::types::stream_after_withdraw;
use crate::types::valid_stream;
use crate::utils::StreamAmounts;
use crate::utils::calculate_stream_amounts;
use crate::utils::calculate_vesting_amounts;
use crate::utils::linear_receiver;
use crate::utils::rate_receiver;

verus! {

/// The receiver's accrued share of the stream's deposit at time `now`,
/// under the stream's own accrual policy.
pub open spec fn receiver_amount_of(s: StreamType, now: int) -> int {
    if s.is_vesting {
        rate_receiver(
            s.start_date as int,
            s.end_date as int,
            now,
            rate_seconds(s.rate),
            s.amount as int,
        )
    } else {
        linear_receiver(s.start_date as int, s.end_date as int, now, s.amount as int)
    }
}

/// The sender's unvested remainder of the stream's deposit at time `now`.
pub open spec fn sender_amount_of(s: StreamType, now: int) -> int {
    s.amount - receiver_amount_of(s, now)
}

/// The validation verdict for a creation with these parameters, in the
/// order the checks are made: no funds move unless it is `None`.
pub open spec fn create_validation_error(
    sender: Address,
    receiver: Address,
    amount: i128,
    start_date: u64,
    cancellable_date: u64,
    cliff_date: u64,
    end_date: u64,
) -> Option<CustomErrors> {
    if amount <= 0 {
        Some(CustomErrors::InvalidAmount)
    } else if sender == receiver {
        Some(CustomErrors::InvalidReceiver)
    } else if start_date >= end_date {
        Some(CustomErrors::InvalidStartDate)
    } else if cancellable_date > end_date {
        Some(CustomErrors::InvalidCancellableDate)
    } else if cliff_date < start_date || cliff_date > end_date {
        Some(CustomErrors::InvalidCliffDate)
    } else {
        None
    }
}

/// The token-streaming ledger: every stream record ever created, keyed by
/// its id.
pub struct Fluxity {
    store: StreamStore,
}

impl View for Fluxity {
    type V = Seq<StreamType>;

    closed spec fn view(&self) -> Seq<StreamType> {
        self.store@
    }
}

impl Fluxity {
    /// Every stored stream record is well formed.
    pub open spec fn wf(&self) -> bool {
        forall|i: int| 0 <= i < self@.len() ==> valid_stream(#[trigger] self@[i])
    }

    /// A fresh ledger with no streams.
    pub fn new() -> (fluxity: Fluxity)
        ensures
            fluxity@.len() == 0,
            fluxity.wf(),
    {
        Fluxity { store: StreamStore::new() }
    }

    /// Returns the latest stream id: the id the next creation will receive.
    pub fn get_latest_stream_id(&self) -> (id: u64)
        ensures
            id == self@.len(),
    {
        self.store.next_id()
    }

    /// Returns the stream stored under `id`, or `StreamNotFound` if that id
    /// has not been assigned yet.
    pub fn get_stream(&self, id: u64) -> (r: Result<StreamType, CustomErrors>)
        ensures
            id < self@.len() ==> r == Ok::<StreamType, CustomErrors>(self@[id as int]),
            id >= self@.len() ==> r == Err::<StreamType, CustomErrors>(
                CustomErrors::StreamNotFound,
            ),
    {
        match self.store.get(id) {
            None => Err(CustomErrors::StreamNotFound),
            Some(stream) => Ok(stream),
        }
    }

    /// Validates the shared creation parameters, in the order stated by
    /// [`create_validation_error`].
    fn validate_creation(
        sender: Address,
        receiver: Address,
        amount: i128,
        start_date: u64,
        cancellable_date: u64,
        cliff_date: u64,
        end_date: u64,
    ) -> (r: Option<CustomErrors>)
        ensures
            r == create_validation_error(
                sender,
                receiver,
                amount,
                start_date,
                cancellable_date,
                cliff_date,
                end_date,
            ),
    {
        if amount <= 0 {
            Some(CustomErrors::InvalidAmount)
        } else if sender == receiver {
            Some(CustomErrors::InvalidReceiver)
        } else if start_date >= end_date {
            Some(CustomErrors::InvalidStartDate)
        } else if cancellable_date > end_date {
            Some(CustomErrors::InvalidCancellableDate)
        } else if cliff_date < start_date || cliff_date > end_date {
            Some(CustomErrors::InvalidCliffDate)
        } else {
            None
        }
    }

    /// Creates a stream with continuous linear accrual.
    ///
    /// Validation failures abort before any record is written, so no funds
    /// move on invalid input.  On success the new record is persisted under
    /// the returned id, the id counter advances, and the host owes the
    /// ledger a deposit of `params.amount` of `params.token`, pulled from
    /// `params.sender`.
    ///
    /// The host must have authorized the sender (`caller`) before entry;
    /// the two machine limits in the `requires` keep the id counter and the
    /// accrual products representable.
    pub fn create_stream(&mut self, params: StreamInputType, caller: Address) -> (r: Result<
        u64,
        CustomErrors,
    >)
        requires
            old(self).wf(),
            caller == params.sender,
            old(self)@.len() < u64::MAX,
            params.amount > 0 && params.start_date < params.end_date ==> params.amount * (
            params.end_date - params.start_date) <= i128::MAX,
        ensures
            final(self).wf(),
            ({
                let err = create_validation_error(
                    params.sender,
                    params.receiver,
                    params.amount,
                    params.start_date,
                    params.cancellable_date,
                    params.cliff_date,
                    params.end_date,
                );
                &&& err is Some ==> r == Err::<u64, CustomErrors>(err->0) && final(self)@ == old(self)@
                &&& err is None ==> r == Ok::<u64, CustomErrors>(old(self)@.len() as u64)
                    && final(self)@ == old(self)@.push(params.stream())
            }),
    {
        let verdict = Self::validate_creation(
            params.sender,
            params.receiver,
            params.amount,
            params.start_date,
            params.cancellable_date,
            params.cliff_date,
            params.end_date,
        );
        match verdict {
            Some(e) => Err(e),
            None => {
                let id = self.store.next_id();
                let stream = params.into_stream();
                self.store.put(id, stream);
                Ok(id)
            },
        }
    }

    /// Creates a stream with step-wise ("vesting") accrual at the given
    /// rate; otherwise exactly as [`Fluxity::create_stream`].
    pub fn create_vesting(&mut self, params: VestingInputType, caller: Address) -> (r: Result<
        u64,
        CustomErrors,
    >)
        requires
            old(self).wf(),
            caller == params.sender,
            old(self)@.len() < u64::MAX,
            params.amount > 0 && params.start_date < params.end_date ==> params.amount * (
            params.end_date - params.start_date) <= i128::MAX,
        ensures
            final(self).wf(),
            ({
                let err = create_validation_error(
                    params.sender,
                    params.receiver,
                    params.amount,
                    params.start_date,
                    params.cancellable_date,
                    params.cliff_date,
                    params.end_date,
                );
                &&& err is Some ==> r == Err::<u64, CustomErrors>(err->0) && final(self)@ == old(self)@
                &&& err is None ==> r == Ok::<u64, CustomErrors>(old(self)@.len() as u64)
                    && final(self)@ == old(self)@.push(params.stream())
            }),
    {
        let verdict = Self::validate_creation(
            params.sender,
            params.receiver,
            params.amount,
            params.start_date,
            params.cancellable_date,
            params.cliff_date,
            params.end_date,
        );
        match verdict {
            Some(e) => Err(e),
            None => {
                let id = self.store.next_id();
                let stream = params.into_stream();
                self.store.put(id, stream);
                Ok(id)
            },
        }
    }

    /// Withdraws from the stream stored under `id`.
    ///
    /// A requested amount of zero means "withdraw everything currently
    /// withdrawable".  Between the start date and the cliff the call is a
    /// no-op success returning zero: vesting exists but is locked.  On a
    /// successful non-zero result the host pays that amount of the
    /// stream's token to its receiver.
    ///
    /// The record must exist and the host must have authorized the
    /// receiver (`caller`) before entry.
    pub fn withdraw_stream(&mut self, id: u64, amount: i128, caller: Address, now: u64) -> (r:
        Result<i128, CustomErrors>)
        requires
            old(self).wf(),
            id < old(self)@.len(),
            caller == old(self)@[id as int].receiver,
        ensures
            final(self).wf(),
            final(self)@.len() == old(self)@.len(),
            forall|j: int|
                0 <= j < old(self)@.len() && j != id ==> final(self)@[j] == old(self)@[j],
            ({
                let s = old(self)@[id as int];
                let withdrawable = receiver_amount_of(s, now as int) - s.withdrawn;
                &&& amount < 0 ==> r == Err::<i128, CustomErrors>(CustomErrors::AmountUnderflows)
                    && final(self)@ == old(self)@
                &&& amount >= 0 && s.is_cancelled ==> r == Err::<i128, CustomErrors>(
                    CustomErrors::StreamIsCanceled,
                ) && final(self)@ == old(self)@
                &&& amount >= 0 && !s.is_cancelled && now <= s.start_date ==> r == Err::<
                    i128,
                    CustomErrors,
                >(CustomErrors::StreamNotStartedYet) && final(self)@ == old(self)@
                &&& amount >= 0 && !s.is_cancelled && s.start_date < now <= s.cliff_date ==> r
                    == Ok::<i128, CustomErrors>(0) && final(self)@ == old(self)@
                &&& amount >= 0 && !s.is_cancelled && now > s.start_date && now > s.cliff_date
                    && withdrawable < amount ==> r == Err::<i128, CustomErrors>(
                    CustomErrors::SpecifiedAmountIsGreaterThanWithdrawable,
                ) && final(self)@ == old(self)@
                &&& amount >= 0 && !s.is_cancelled && now > s.start_date && now > s.cliff_date
                    && withdrawable >= amount ==> ({
                    let transferred: int = if amount == 0 {
                        withdrawable
                    } else {
                        amount as int
                    };
                    &&& r is Ok
                    &&& r->Ok_0 == transferred
                    &&& final(self)@[id as int].withdrawn == s.withdrawn + transferred
                    &&& same_but_withdrawn(s, final(self)@[id as int])
                })
            }),
    {
        let mut stream = self.store.get(id).unwrap();
        proof {
            assert(valid_stream(old(self)@[id as int]));
        }

        if amount < 0 {
            return Err(CustomErrors::AmountUnderflows);
        }
        if stream.is_cancelled {
            return Err(CustomErrors::StreamIsCanceled);
        }
        if now <= stream.start_date {
            return Err(CustomErrors::StreamNotStartedYet);
        }
        if now <= stream.cliff_date {
            return Ok(0);
        }

        let amounts = self.accrued_amounts(&stream, now);

        let withdrawable: i128 = amounts.receiver_amount - stream.withdrawn;

        if withdrawable < amount {
            return Err(CustomErrors::SpecifiedAmountIsGreaterThanWithdrawable);
        }

        let amount_to_transfer: i128 = if amount == 0 {
            withdrawable
        } else {
            amount
        };

        stream.withdrawn = stream.withdrawn + amount_to_transfer;

        self.store.put(id, stream);

        Ok(amount_to_transfer)
    }

    /// Cancels the stream stored under `id`.
    ///
    /// Settlement takes the accrual at `now` as it stands — the cliff gates
    /// only withdrawal, not cancellation.  On success the returned pair is
    /// `(sender_amount, receiver_amount)`: what the host pays back to the
    /// sender and additionally to the receiver, each only where positive,
    /// and the record is marked cancelled with its vested side fully
    /// accounted in `withdrawn`.
    ///
    /// The record must exist and the host must have authorized the sender
    /// (`caller`) before entry.
    pub fn cancel_stream(&mut self, id: u64, caller: Address, now: u64) -> (r: Result<
        (i128, i128),
        CustomErrors,
    >)
        requires
            old(self).wf(),
            id < old(self)@.len(),
            caller == old(self)@[id as int].sender,
        ensures
            final(self).wf(),
            final(self)@.len() == old(self)@.len(),
            forall|j: int|
                0 <= j < old(self)@.len() && j != id ==> final(self)@[j] == old(self)@[j],
            ({
                let s = old(self)@[id as int];
                let recv = receiver_amount_of(s, now as int);
                &&& s.is_cancelled ==> r == Err::<(i128, i128), CustomErrors>(
                    CustomErrors::StreamAlreadyCanceled,
                ) && final(self)@ == old(self)@
                &&& !s.is_cancelled && s.end_date <= now ==> r == Err::<(i128, i128), CustomErrors>(
                    CustomErrors::StreamAlreadySettled,
                ) && final(self)@ == old(self)@
                &&& !s.is_cancelled && now < s.end_date && s.cancellable_date > now ==> r == Err::<
                    (i128, i128),
                    CustomErrors,
                >(CustomErrors::StreamNotCancellableYet) && final(self)@ == old(self)@
                &&& !s.is_cancelled && now < s.end_date && s.cancellable_date <= now ==> ({
                    &&& r is Ok
                    &&& r->Ok_0.0 == sender_amount_of(s, now as int)
                    &&& r->Ok_0.1 == recv - s.withdrawn
                    &&& same_schedule(s, final(self)@[id as int])
                    &&& final(self)@[id as int].is_cancelled
                    &&& final(self)@[id as int].cancelled_date == now
                    &&& final(self)@[id as int].withdrawn == recv
                })
            }),
    {
        let mut stream = self.store.get(id).unwrap();
        proof {
            assert(valid_stream(old(self)@[id as int]));
        }

        if stream.is_cancelled {
            return Err(CustomErrors::StreamAlreadyCanceled);
        }
        if stream.end_date <= now {
            return Err(CustomErrors::StreamAlreadySettled);
        }
        if stream.cancellable_date > now {
            return Err(CustomErrors::StreamNotCancellableYet);
        }

        let amounts = self.accrued_amounts(&stream, now);

        let sender_amount: i128 = amounts.sender_amount;
        let receiver_amount: i128 = amounts.receiver_amount - stream.withdrawn;

        stream.is_cancelled = true;
        stream.cancelled_date = now;
        stream.withdrawn = amounts.receiver_amount;

        self.store.put(id, stream);

        Ok((sender_amount, receiver_amount))
    }

    /// The receiver's accrued share of a well-formed stream never leaves
    /// `[0, amount]`, whichever accrual policy the stream uses.
    pub proof fn lemma_receiver_amount_in_range(s: StreamType, now: int)
        requires
            valid_stream(s),
        ensures
            0 <= receiver_amount_of(s, now) <= s.amount,
    {
        if s.is_vesting {
            crate::utils::lemma_rate_receiver_in_range(
                s.start_date as int,
                s.end_date as int,
                now,
                rate_seconds(s.rate),
                s.amount as int,
            );
        } else {
            crate::utils::lemma_linear_receiver_in_range(
                s.start_date as int,
                s.end_date as int,
                now,
                s.amount as int,
            );
        }
    }

    /// Withdrawing in two increments and withdrawing their sum at once end
    /// at the same `withdrawn` total: no amount is counted twice.
    ///
    /// The preconditions are exactly what makes all three withdrawals
    /// succeed at time `now`: the stream is live, past its start and cliff,
    /// and the increments together do not exceed what is withdrawable.  The
    /// conclusion speaks of the record each succeeding withdrawal leaves
    /// behind, as [`Fluxity::withdraw_stream`] describes it.
    pub proof fn lemma_withdraw_in_increments_matches_single(
        s: StreamType,
        a: i128,
        b: i128,
        now: u64,
    )
        requires
            valid_stream(s),
            !s.is_cancelled,
            s.start_date < now,
            s.cliff_date < now,
            0 < a,
            0 < b,
            a + b <= receiver_amount_of(s, now as int) - s.withdrawn,
        ensures
            ({
                let first = stream_after_withdraw(s, a as int);
                &&& b <= receiver_amount_of(first, now as int) - first.withdrawn
                &&& stream_after_withdraw(first, b as int) == stream_after_withdraw(s, a + b)
                &&& stream_after_withdraw(first, b as int).withdrawn == s.withdrawn + a + b
            }),
    {
        Self::lemma_receiver_amount_in_range(s, now as int);
        let first = stream_after_withdraw(s, a as int);
        assert(receiver_amount_of(first, now as int) == receiver_amount_of(s, now as int));
        assert(first.withdrawn == s.withdrawn + a);
        assert(stream_after_withdraw(first, b as int).withdrawn == s.withdrawn + a + b);
    }

    /// Cancelling immediately — at `now == start_date`, with the
    /// cancellation window open from the start and nothing withdrawn, on a
    /// linear stream — settles the whole deposit back to the sender and
    /// nothing to the receiver, and is indeed accepted.
    pub proof fn lemma_cancel_at_start_returns_deposit(s: StreamType, now: u64)
        requires
            valid_stream(s),
            !s.is_vesting,
            !s.is_cancelled,
            s.withdrawn == 0,
            s.cancellable_date == s.start_date,
            now == s.start_date,
        ensures
            now < s.end_date && s.cancellable_date <= now,
            sender_amount_of(s, now as int) == s.amount,
            receiver_amount_of(s, now as int) - s.withdrawn == 0,
    {
    }

    /// The vested/unvested split of `stream` at `now`, under the stream's
    /// own accrual policy.
    fn accrued_amounts(&self, stream: &StreamType, now: u64) -> (r: StreamAmounts)
        requires
            valid_stream(*stream),
        ensures
            r.receiver_amount == receiver_amount_of(*stream, now as int),
            r.sender_amount == sender_amount_of(*stream, now as int),
            0 <= r.receiver_amount <= stream.amount,
    {
        if stream.is_vesting {
            calculate_vesting_amounts(
                stream.start_date,
                stream.end_date,
                stream.cliff_date,
                now,
                stream.rate,
                stream.amount,
            )
        } else {
            calculate_stream_amounts(
                stream.start_date,
                stream.end_date,
                stream.cliff_date,
                now,
                stream.amount,
            )
        }
    }
}

} // verus!
