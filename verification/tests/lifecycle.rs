use fluxity::contract::Fluxity;
use fluxity::errors::CustomErrors;
use fluxity::types::Address;
use fluxity::types::Rate;
use fluxity::types::StreamInputType;
use fluxity::types::VestingInputType;

fn addr(value: u64) -> Address {
    Address { value }
}

/// A linear stream of 1000 over `[0, 1000]` with no cliff, cancellable from
/// the start; sender 1, receiver 2, token 9.
fn linear_params() -> StreamInputType {
    StreamInputType {
        sender: addr(1),
        receiver: addr(2),
        token: addr(9),
        amount: 1000,
        start_date: 0,
        cancellable_date: 0,
        cliff_date: 0,
        end_date: 1000,
        rate: Rate::Daily,
    }
}

fn vesting_params() -> VestingInputType {
    VestingInputType {
        sender: addr(1),
        receiver: addr(2),
        token: addr(9),
        amount: 1000,
        start_date: 0,
        cancellable_date: 0,
        cliff_date: 0,
        end_date: 10 * 86400,
        rate: Rate::Daily,
    }
}

#[test]
fn create_assigns_sequential_ids() {
    let mut ledger = Fluxity::new();
    assert_eq!(ledger.get_latest_stream_id(), 0);
    assert_eq!(ledger.create_stream(linear_params(), addr(1)), Ok(0));
    assert_eq!(ledger.create_stream(linear_params(), addr(1)), Ok(1));
    assert_eq!(ledger.get_latest_stream_id(), 2);
}

#[test]
fn create_persists_the_record() {
    let mut ledger = Fluxity::new();
    let id = ledger.create_stream(linear_params(), addr(1)).unwrap();
    let stream = ledger.get_stream(id).unwrap();
    assert_eq!(stream.sender, addr(1));
    assert_eq!(stream.receiver, addr(2));
    assert_eq!(stream.token, addr(9));
    assert_eq!(stream.amount, 1000);
    assert_eq!(stream.withdrawn, 0);
    assert!(!stream.is_cancelled);
    assert!(!stream.is_vesting);
}

#[test]
fn create_vesting_flags_the_record() {
    let mut ledger = Fluxity::new();
    let id = ledger.create_vesting(vesting_params(), addr(1)).unwrap();
    let stream = ledger.get_stream(id).unwrap();
    assert!(stream.is_vesting);
    assert_eq!(stream.rate, Rate::Daily);
    assert_eq!(stream.withdrawn, 0);
}

#[test]
fn create_rejects_nonpositive_amount() {
    let mut ledger = Fluxity::new();
    let mut params = linear_params();
    params.amount = 0;
    assert_eq!(ledger.create_stream(params, addr(1)), Err(CustomErrors::InvalidAmount));
    params.amount = -5;
    assert_eq!(ledger.create_stream(params, addr(1)), Err(CustomErrors::InvalidAmount));
    // Nothing was persisted, so no deposit is owed.
    assert_eq!(ledger.get_latest_stream_id(), 0);
}

#[test]
fn create_rejects_receiver_equal_to_sender() {
    let mut ledger = Fluxity::new();
    let mut params = linear_params();
    params.receiver = params.sender;
    assert_eq!(ledger.create_stream(params, addr(1)), Err(CustomErrors::InvalidReceiver));
    assert_eq!(ledger.get_latest_stream_id(), 0);
}

#[test]
fn create_rejects_start_not_before_end() {
    let mut ledger = Fluxity::new();
    let mut params = linear_params();
    params.start_date = 1000;
    assert_eq!(ledger.create_stream(params, addr(1)), Err(CustomErrors::InvalidStartDate));
    params.start_date = 2000;
    assert_eq!(ledger.create_stream(params, addr(1)), Err(CustomErrors::InvalidStartDate));
    assert_eq!(ledger.get_latest_stream_id(), 0);
}

#[test]
fn create_rejects_cancellable_after_end() {
    let mut ledger = Fluxity::new();
    let mut params = linear_params();
    params.cancellable_date = 1001;
    assert_eq!(ledger.create_stream(params, addr(1)), Err(CustomErrors::InvalidCancellableDate));
    assert_eq!(ledger.get_latest_stream_id(), 0);
}

#[test]
fn create_rejects_cliff_outside_schedule() {
    let mut ledger = Fluxity::new();
    let mut params = linear_params();
    params.start_date = 100;
    params.cliff_date = 99;
    assert_eq!(ledger.create_stream(params, addr(1)), Err(CustomErrors::InvalidCliffDate));
    params.cliff_date = 1001;
    assert_eq!(ledger.create_stream(params, addr(1)), Err(CustomErrors::InvalidCliffDate));
    assert_eq!(ledger.get_latest_stream_id(), 0);
}

#[test]
fn create_vesting_validates_like_create_stream() {
    let mut ledger = Fluxity::new();
    let mut params = vesting_params();
    params.amount = -1;
    assert_eq!(ledger.create_vesting(params, addr(1)), Err(CustomErrors::InvalidAmount));
    let mut params = vesting_params();
    params.receiver = params.sender;
    assert_eq!(ledger.create_vesting(params, addr(1)), Err(CustomErrors::InvalidReceiver));
    assert_eq!(ledger.get_latest_stream_id(), 0);
}

#[test]
fn get_stream_fails_for_unknown_id() {
    let ledger = Fluxity::new();
    assert_eq!(ledger.get_stream(0), Err(CustomErrors::StreamNotFound));
    assert_eq!(ledger.get_stream(17), Err(CustomErrors::StreamNotFound));
}

#[test]
fn withdraw_zero_takes_everything_withdrawable() {
    let mut ledger = Fluxity::new();
    let id = ledger.create_stream(linear_params(), addr(1)).unwrap();
    assert_eq!(ledger.withdraw_stream(id, 0, addr(2), 500), Ok(500));
    assert_eq!(ledger.get_stream(id).unwrap().withdrawn, 500);
}

#[test]
fn withdraw_more_than_withdrawable_is_rejected() {
    let mut ledger = Fluxity::new();
    let id = ledger.create_stream(linear_params(), addr(1)).unwrap();
    assert_eq!(
        ledger.withdraw_stream(id, 600, addr(2), 500),
        Err(CustomErrors::SpecifiedAmountIsGreaterThanWithdrawable)
    );
    assert_eq!(ledger.get_stream(id).unwrap().withdrawn, 0);
}

#[test]
fn withdraw_negative_amount_is_rejected() {
    let mut ledger = Fluxity::new();
    let id = ledger.create_stream(linear_params(), addr(1)).unwrap();
    assert_eq!(ledger.withdraw_stream(id, -1, addr(2), 500), Err(CustomErrors::AmountUnderflows));
    assert_eq!(ledger.get_stream(id).unwrap().withdrawn, 0);
}

#[test]
fn withdraw_at_or_before_start_is_rejected() {
    let mut ledger = Fluxity::new();
    let mut params = linear_params();
    params.start_date = 100;
    params.cliff_date = 100;
    params.cancellable_date = 100;
    let id = ledger.create_stream(params, addr(1)).unwrap();
    assert_eq!(
        ledger.withdraw_stream(id, 0, addr(2), 100),
        Err(CustomErrors::StreamNotStartedYet)
    );
    assert_eq!(ledger.withdraw_stream(id, 0, addr(2), 7), Err(CustomErrors::StreamNotStartedYet));
}

#[test]
fn withdraw_before_cliff_is_a_noop_success() {
    let mut ledger = Fluxity::new();
    let mut params = linear_params();
    params.cliff_date = 600;
    let id = ledger.create_stream(params, addr(1)).unwrap();
    assert_eq!(ledger.withdraw_stream(id, 0, addr(2), 500), Ok(0));
    assert_eq!(ledger.get_stream(id).unwrap().withdrawn, 0);
}

#[test]
fn withdraw_on_cancelled_stream_is_rejected() {
    let mut ledger = Fluxity::new();
    let id = ledger.create_stream(linear_params(), addr(1)).unwrap();
    ledger.cancel_stream(id, addr(1), 400).unwrap();
    assert_eq!(ledger.withdraw_stream(id, 0, addr(2), 500), Err(CustomErrors::StreamIsCanceled));
}

#[test]
fn withdrawing_in_increments_matches_withdrawing_once() {
    let mut piecewise = Fluxity::new();
    let id = piecewise.create_stream(linear_params(), addr(1)).unwrap();
    assert_eq!(piecewise.withdraw_stream(id, 200, addr(2), 500), Ok(200));
    assert_eq!(piecewise.withdraw_stream(id, 300, addr(2), 500), Ok(300));

    let mut at_once = Fluxity::new();
    let id2 = at_once.create_stream(linear_params(), addr(1)).unwrap();
    assert_eq!(at_once.withdraw_stream(id2, 500, addr(2), 500), Ok(500));

    assert_eq!(
        piecewise.get_stream(id).unwrap().withdrawn,
        at_once.get_stream(id2).unwrap().withdrawn
    );
    assert_eq!(piecewise.get_stream(id).unwrap().withdrawn, 500);
}

#[test]
fn cancel_at_start_returns_whole_deposit_to_sender() {
    let mut ledger = Fluxity::new();
    let id = ledger.create_stream(linear_params(), addr(1)).unwrap();
    assert_eq!(ledger.cancel_stream(id, addr(1), 0), Ok((1000, 0)));
    let stream = ledger.get_stream(id).unwrap();
    assert!(stream.is_cancelled);
    assert_eq!(stream.cancelled_date, 0);
    assert_eq!(stream.withdrawn, 0);
}

#[test]
fn cancel_midway_splits_by_accrual() {
    let mut ledger = Fluxity::new();
    let id = ledger.create_stream(linear_params(), addr(1)).unwrap();
    assert_eq!(ledger.cancel_stream(id, addr(1), 400), Ok((600, 400)));
    let stream = ledger.get_stream(id).unwrap();
    assert!(stream.is_cancelled);
    assert_eq!(stream.cancelled_date, 400);
    assert_eq!(stream.withdrawn, 400);
}

#[test]
fn cancel_accounts_for_prior_withdrawals() {
    let mut ledger = Fluxity::new();
    let id = ledger.create_stream(linear_params(), addr(1)).unwrap();
    assert_eq!(ledger.withdraw_stream(id, 100, addr(2), 400), Ok(100));
    // At 400, 400 have vested: 100 were already paid, 300 are still owed.
    assert_eq!(ledger.cancel_stream(id, addr(1), 400), Ok((600, 300)));
    assert_eq!(ledger.get_stream(id).unwrap().withdrawn, 400);
}

#[test]
fn cancel_at_or_after_end_is_rejected() {
    let mut ledger = Fluxity::new();
    let id = ledger.create_stream(linear_params(), addr(1)).unwrap();
    let before = ledger.get_stream(id).unwrap();
    assert_eq!(ledger.cancel_stream(id, addr(1), 1000), Err(CustomErrors::StreamAlreadySettled));
    assert_eq!(ledger.cancel_stream(id, addr(1), 5000), Err(CustomErrors::StreamAlreadySettled));
    assert_eq!(ledger.get_stream(id).unwrap(), before);
}

#[test]
fn cancel_twice_is_rejected() {
    let mut ledger = Fluxity::new();
    let id = ledger.create_stream(linear_params(), addr(1)).unwrap();
    ledger.cancel_stream(id, addr(1), 400).unwrap();
    let before = ledger.get_stream(id).unwrap();
    assert_eq!(ledger.cancel_stream(id, addr(1), 450), Err(CustomErrors::StreamAlreadyCanceled));
    assert_eq!(ledger.get_stream(id).unwrap(), before);
}

#[test]
fn cancel_before_window_opens_is_rejected() {
    let mut ledger = Fluxity::new();
    let mut params = linear_params();
    params.cancellable_date = 500;
    let id = ledger.create_stream(params, addr(1)).unwrap();
    let before = ledger.get_stream(id).unwrap();
    assert_eq!(
        ledger.cancel_stream(id, addr(1), 400),
        Err(CustomErrors::StreamNotCancellableYet)
    );
    assert_eq!(ledger.get_stream(id).unwrap(), before);
}

#[test]
fn cancel_settles_ignoring_the_cliff() {
    // The cliff gates withdrawal only: cancellation settles the accrual as
    // it stands, even before the cliff.
    let mut ledger = Fluxity::new();
    let mut params = linear_params();
    params.cliff_date = 600;
    let id = ledger.create_stream(params, addr(1)).unwrap();
    assert_eq!(ledger.cancel_stream(id, addr(1), 400), Ok((600, 400)));
}

#[test]
fn vesting_stream_withdraws_by_whole_periods() {
    let mut ledger = Fluxity::new();
    let id = ledger.create_vesting(vesting_params(), addr(1)).unwrap();
    // Midway through day four, three whole days have vested.
    assert_eq!(ledger.withdraw_stream(id, 0, addr(2), 3 * 86400 + 43200), Ok(300));
    assert_eq!(ledger.get_stream(id).unwrap().withdrawn, 300);
    // Nothing new inside the same period.
    assert_eq!(
        ledger.withdraw_stream(id, 50, addr(2), 3 * 86400 + 43300),
        Err(CustomErrors::SpecifiedAmountIsGreaterThanWithdrawable)
    );
    // After the end everything is withdrawable.
    assert_eq!(ledger.withdraw_stream(id, 0, addr(2), 11 * 86400), Ok(700));
    assert_eq!(ledger.get_stream(id).unwrap().withdrawn, 1000);
}

#[test]
fn vesting_cancel_splits_by_periods() {
    let mut ledger = Fluxity::new();
    let id = ledger.create_vesting(vesting_params(), addr(1)).unwrap();
    // Midway through day four: 300 vested, 700 unvested.
    assert_eq!(ledger.cancel_stream(id, addr(1), 3 * 86400 + 43200), Ok((700, 300)));
    let stream = ledger.get_stream(id).unwrap();
    assert!(stream.is_cancelled);
    assert_eq!(stream.withdrawn, 300);
}

#[test]
fn error_messages_name_the_failure() {
    assert_eq!(CustomErrors::StreamNotFound.message(), "stream not found");
    assert_eq!(
        CustomErrors::SpecifiedAmountIsGreaterThanWithdrawable.message(),
        "specified amount is greater than withdrawable"
    );
}
