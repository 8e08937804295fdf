//! The error taxonomy of the ledger.
//!
//! Input-validation errors are detected before any funds move; state-conflict
//! errors are detected before any mutation.  Every failure leaves the
//! persisted state unchanged, which the contracts in [`crate::contract`]
//! state explicitly.

use vstd::prelude::*;

verus! {

/// Every way an entry operation can fail.
#[derive(Clone, Copy, Debug, PartialEq, Eq, Structural)]
pub enum CustomErrors {
    /// No stream is stored under the requested id.
    StreamNotFound,
    /// A creation was attempted with a non-positive deposit.
    InvalidAmount,
    /// A creation was attempted with the sender as its own receiver.
    InvalidReceiver,
    /// A creation was attempted with a start date at or after the end date.
    InvalidStartDate,
    /// A creation was attempted with a cancellable date after the end date.
    InvalidCancellableDate,
    /// A creation was attempted with a cliff date outside the schedule.
    InvalidCliffDate,
    /// A cancellation was attempted on a stream already cancelled.
    StreamAlreadyCanceled,
    /// A cancellation was attempted at or after the end date.
    StreamAlreadySettled,
    /// A cancellation was attempted before the cancellation window opened.
    StreamNotCancellableYet,
    /// A withdrawal was requested with a negative amount.
    AmountUnderflows,
    /// A withdrawal was attempted on a cancelled stream.
    StreamIsCanceled,
    /// A withdrawal was attempted at or before the start date.
    StreamNotStartedYet,
    /// A withdrawal was requested for more than is currently withdrawable.
    SpecifiedAmountIsGreaterThanWithdrawable,
}

impl CustomErrors {
    /// A short description of the error, for hosts that render messages.
    pub fn message(&self) -> &'static str {
        match self {
            CustomErrors::StreamNotFound => "stream not found",
            CustomErrors::InvalidAmount => "amount must be positive",
            CustomErrors::InvalidReceiver => "receiver must differ from sender",
            CustomErrors::InvalidStartDate => "start date must be before end date",
            CustomErrors::InvalidCancellableDate => "cancellable date must not be after end date",
            CustomErrors::InvalidCliffDate => "cliff date must lie between start and end dates",
            CustomErrors::StreamAlreadyCanceled => "stream is already canceled",
            CustomErrors::StreamAlreadySettled => "stream is already settled",
            CustomErrors::StreamNotCancellableYet => "stream is not cancellable yet",
            CustomErrors::AmountUnderflows => "amount underflows",
            CustomErrors::StreamIsCanceled => "stream is canceled",
            CustomErrors::StreamNotStartedYet => "stream has not started yet",
            CustomErrors::SpecifiedAmountIsGreaterThanWithdrawable => {
                "specified amount is greater than withdrawable"
            },
        }
    }
}

} // verus!
