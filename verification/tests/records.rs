use solpay::initialize;
use solpay::vested_amount;
use solpay::Address;
use solpay::ErrorCode;
use solpay::Initialize;
use solpay::PaymentStream;

const SENDER: Address = [11u8; 32];
const RECIPIENT: Address = [12u8; 32];

fn stream(amount: u64, start_time: i64, end_time: i64, withdrawn_amount: u64) -> PaymentStream {
    PaymentStream {
        sender: SENDER,
        recipient: RECIPIENT,
        amount,
        start_time,
        end_time,
        withdrawn_amount,
        bump: 255,
    }
}

#[test]
fn initialize_succeeds() {
    assert_eq!(initialize(&Initialize {}), Ok(()));
}

#[test]
fn vested_amount_is_the_linear_share_rounded_down() {
    assert_eq!(vested_amount(1000, 0, 100, 0), Ok(0));
    assert_eq!(vested_amount(1000, 0, 100, 1), Ok(10));
    assert_eq!(vested_amount(1000, 0, 100, 50), Ok(500));
    assert_eq!(vested_amount(1000, 0, 100, 99), Ok(990));
    assert_eq!(vested_amount(1000, 0, 100, 100), Ok(1000));
    assert_eq!(vested_amount(7, 0, 3, 1), Ok(2));
    assert_eq!(vested_amount(7, 0, 3, 2), Ok(4));
    assert_eq!(vested_amount(7, 0, 3, 3), Ok(7));
    assert_eq!(vested_amount(999, 0, 1000, 1), Ok(0));
    assert_eq!(vested_amount(1000, -50, 50, 0), Ok(500));
    assert_eq!(vested_amount(1000, -100, -50, -67), Ok(660));
}

#[test]
fn vested_amount_is_capped_at_the_amount_after_the_end() {
    assert_eq!(vested_amount(1000, 0, 100, 101), Ok(1000));
    assert_eq!(vested_amount(1000, 0, 100, 200), Ok(1000));
    assert_eq!(vested_amount(1000, 0, 100, i64::MAX), Ok(1000));
    assert_eq!(vested_amount(u64::MAX, 0, 1, i64::MAX), Ok(u64::MAX));
}

#[test]
fn vested_amount_keeps_every_bit_of_large_products() {
    assert_eq!(vested_amount(u64::MAX, 0, 3, 1), Ok(6148914691236517205));
    assert_eq!(
        vested_amount(u64::MAX, 0, i64::MAX, i64::MAX - 1),
        Ok(18446744073709551612)
    );
    assert_eq!(
        vested_amount(u64::MAX, i64::MIN, i64::MAX, 0),
        Ok(9223372036854775808)
    );
    assert_eq!(vested_amount(u64::MAX, i64::MIN, i64::MAX, i64::MAX), Ok(u64::MAX));
    assert_eq!(vested_amount(u64::MAX, i64::MIN, i64::MAX, i64::MIN), Ok(0));
}

#[test]
fn vested_amount_before_the_start_is_rejected() {
    assert_eq!(vested_amount(1000, 10, 100, 9), Err(ErrorCode::StreamNotStarted));
    assert_eq!(vested_amount(1000, 10, 100, i64::MIN), Err(ErrorCode::StreamNotStarted));
    assert_eq!(vested_amount(1000, 10, 5, 9), Err(ErrorCode::StreamNotStarted));
}

#[test]
fn vested_amount_of_an_empty_or_reversed_window_is_rejected() {
    assert_eq!(vested_amount(1000, 10, 10, 10), Err(ErrorCode::CalculationError));
    assert_eq!(vested_amount(1000, 10, 10, 50), Err(ErrorCode::CalculationError));
    assert_eq!(vested_amount(1000, 10, 5, 50), Err(ErrorCode::CalculationError));
}

#[test]
fn open_fills_the_record() {
    let opened = PaymentStream::open(SENDER, RECIPIENT, 1000, 100, 42, 253);
    assert_eq!(
        opened,
        Ok(PaymentStream {
            sender: SENDER,
            recipient: RECIPIENT,
            amount: 1000,
            start_time: 42,
            end_time: 142,
            withdrawn_amount: 0,
            bump: 253,
        })
    );
}

#[test]
fn open_rejects_what_breaks_a_rule() {
    assert_eq!(
        PaymentStream::open(SENDER, RECIPIENT, 0, 100, 0, 255),
        Err(ErrorCode::InvalidAmount)
    );
    assert_eq!(
        PaymentStream::open(SENDER, RECIPIENT, 1, 0, 0, 255),
        Err(ErrorCode::InvalidDuration)
    );
    assert_eq!(
        PaymentStream::open(SENDER, RECIPIENT, 1, i64::MIN, 0, 255),
        Err(ErrorCode::InvalidDuration)
    );
    assert_eq!(
        PaymentStream::open(SENDER, RECIPIENT, 1, i64::MAX, 1, 255),
        Err(ErrorCode::Overflow)
    );
    assert_eq!(
        PaymentStream::open(SENDER, RECIPIENT, 1, i64::MAX, 0, 255).map(|s| s.end_time),
        Ok(i64::MAX)
    );
    assert_eq!(
        PaymentStream::open(SENDER, RECIPIENT, 1, i64::MAX, i64::MIN, 255).map(|s| s.end_time),
        Ok(-1)
    );
}

#[test]
fn release_pays_the_newly_vested_part() {
    let mut s = stream(1000, 0, 100, 0);
    assert_eq!(s.release(50), Ok(500));
    assert_eq!(s, stream(1000, 0, 100, 500));
    assert_eq!(s.release(100), Ok(500));
    assert_eq!(s, stream(1000, 0, 100, 1000));
    assert_eq!(s.release(100), Ok(0));
    assert_eq!(s.release(1_000_000), Ok(0));
    assert_eq!(s, stream(1000, 0, 100, 1000));
}

#[test]
fn release_at_the_start_pays_nothing() {
    let mut s = stream(1000, 20, 120, 0);
    assert_eq!(s.release(20), Ok(0));
    assert_eq!(s, stream(1000, 20, 120, 0));
}

#[test]
fn release_before_the_start_is_rejected_and_changes_nothing() {
    let mut s = stream(1000, 20, 120, 0);
    assert_eq!(s.release(19), Err(ErrorCode::StreamNotStarted));
    assert_eq!(s, stream(1000, 20, 120, 0));
}

#[test]
fn release_of_less_than_was_withdrawn_is_rejected_and_changes_nothing() {
    let mut s = stream(1000, 0, 100, 600);
    assert_eq!(s.release(50), Err(ErrorCode::InsufficientFunds));
    assert_eq!(s, stream(1000, 0, 100, 600));
    assert_eq!(s.release(60), Ok(0));
    assert_eq!(s.release(61), Ok(10));
    assert_eq!(s, stream(1000, 0, 100, 610));
}

#[test]
fn release_from_a_record_with_an_empty_window_is_rejected() {
    let mut s = stream(1000, 5, 5, 0);
    assert_eq!(s.release(5), Err(ErrorCode::CalculationError));
    assert_eq!(s, stream(1000, 5, 5, 0));
}

#[test]
fn release_of_the_largest_stream_never_overflows() {
    let mut s = stream(u64::MAX, i64::MIN, i64::MAX, 0);
    assert_eq!(s.release(0), Ok(9223372036854775808));
    assert_eq!(s.release(i64::MAX), Ok(9223372036854775807));
    assert_eq!(s.withdrawn_amount, u64::MAX);
}

#[test]
fn every_rejection_has_its_message() {
    assert_eq!(ErrorCode::InvalidAmount.message(), "Invalid amount");
    assert_eq!(ErrorCode::InvalidDuration.message(), "Invalid duration");
    assert_eq!(ErrorCode::CalculationError.message(), "Calculation error");
    assert_eq!(ErrorCode::InsufficientFunds.message(), "Insufficient funds");
    assert_eq!(ErrorCode::Overflow.message(), "Overflow");
    assert_eq!(ErrorCode::StreamNotStarted.message(), "Stream has not started yet");
    assert_eq!(ErrorCode::StreamAlreadyExists.message(), "Stream already exists");
    assert_eq!(
        ErrorCode::Unauthorized.message(),
        "Caller is not the stream's recipient"
    );
}
