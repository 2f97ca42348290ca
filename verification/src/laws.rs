use vstd::prelude::*;
use crate::address::Address;
use crate::engine::create_outcome;
use crate::engine::withdraw_outcome;
use crate::engine::CreateStream;
use crate::engine::Withdraw;
use crate::error::ErrorCode;
use crate::store::key_of;
use crate::stream::PaymentStream;
use crate::vesting::lemma_vested_bounds;
use crate::vesting::lemma_vested_full;
use crate::vesting::lemma_vested_monotone;

verus! {

/// The record after a withdrawal was attempted at each of `times` in turn. An
/// attempt that is turned down leaves the record as it was.
pub open spec fn after_withdrawals(stream: PaymentStream, times: Seq<i64>) -> PaymentStream
    decreases times.len(),
{
    if times.len() == 0 {
        stream
    } else {
        let before = after_withdrawals(stream, times.drop_last());
        match before.release_outcome(times.last()) {
            Ok((next, _)) => next,
            Err(_) => before,
        }
    }
}

/// The sum of the amounts that the withdrawals attempted at `times` released.
pub open spec fn total_released(stream: PaymentStream, times: Seq<i64>) -> int
    decreases times.len(),
{
    if times.len() == 0 {
        0
    } else {
        let before = after_withdrawals(stream, times.drop_last());
        total_released(stream, times.drop_last()) + match before.release_outcome(times.last()) {
            Ok((_, released)) => released as int,
            Err(_) => 0,
        }
    }
}

/// What the vault of a stream holds after the withdrawals attempted at
/// `times`, given that it held the part of the locked amount that was not yet
/// withdrawn when they began.
pub open spec fn vault_balance(stream: PaymentStream, times: Seq<i64>) -> int {
    stream.amount - stream.withdrawn_amount - total_released(stream, times)
}

/// What the recipient has received from the vault after the withdrawals
/// attempted at `times`, counting what was withdrawn before them.
pub open spec fn recipient_received(stream: PaymentStream, times: Seq<i64>) -> int {
    stream.withdrawn_amount + total_released(stream, times)
}

/// A withdrawal changes nothing of a stream but the withdrawn amount, which
/// does not shrink and stays within the locked amount; a stream that was well
/// formed stays so.
pub proof fn law_release_preserves_stream(stream: PaymentStream, now: i64)
    requires
        stream.well_formed(),
    ensures
        stream.release_outcome(now) matches Ok((next, released)) ==> {
            &&& next.well_formed()
            &&& next.sender == stream.sender
            &&& next.recipient == stream.recipient
            &&& next.amount == stream.amount
            &&& next.start_time == stream.start_time
            &&& next.end_time == stream.end_time
            &&& next.bump == stream.bump
            &&& next.withdrawn_amount == stream.withdrawn_amount + released
            &&& next.withdrawn_amount == stream.vested_at(now)
        },
{
    if stream.start_time <= now {
        lemma_vested_bounds(
            stream.amount as int,
            stream.start_time as int,
            stream.end_time as int,
            now as int,
        );
    }
}

/// Through any sequence of withdrawal attempts the record stays well formed,
/// keeps its identity, and accounts for exactly what was released.
pub proof fn law_withdrawals_preserve_stream(stream: PaymentStream, times: Seq<i64>)
    requires
        stream.well_formed(),
    ensures
        after_withdrawals(stream, times).well_formed(),
        after_withdrawals(stream, times).sender == stream.sender,
        after_withdrawals(stream, times).recipient == stream.recipient,
        after_withdrawals(stream, times).amount == stream.amount,
        after_withdrawals(stream, times).start_time == stream.start_time,
        after_withdrawals(stream, times).end_time == stream.end_time,
        after_withdrawals(stream, times).bump == stream.bump,
        after_withdrawals(stream, times).withdrawn_amount == stream.withdrawn_amount
            + total_released(stream, times),
        0 <= total_released(stream, times),
    decreases times.len(),
{
    if times.len() > 0 {
        law_withdrawals_preserve_stream(stream, times.drop_last());
        law_release_preserves_stream(after_withdrawals(stream, times.drop_last()), times.last());
    }
}

/// Monotonicity: over any sequence of withdrawal attempts, in particular one
/// at times that do not decrease, the withdrawn amount never shrinks from one
/// point of the sequence to a later one, and never exceeds the locked amount.
pub proof fn law_withdrawn_monotone(stream: PaymentStream, times: Seq<i64>, k: int)
    requires
        stream.well_formed(),
        0 <= k <= times.len(),
    ensures
        stream.withdrawn_amount <= after_withdrawals(stream, times.take(k)).withdrawn_amount,
        after_withdrawals(stream, times.take(k)).withdrawn_amount <= after_withdrawals(
            stream,
            times,
        ).withdrawn_amount,
        after_withdrawals(stream, times).withdrawn_amount <= stream.amount,
    decreases times.len(),
{
    law_withdrawals_preserve_stream(stream, times);
    law_withdrawals_preserve_stream(stream, times.take(k));
    if k == times.len() {
        assert(times.take(k) =~= times);
    } else {
        let shorter = times.drop_last();
        assert(shorter.take(k) =~= times.take(k));
        law_withdrawn_monotone(stream, shorter, k);
        law_withdrawals_preserve_stream(stream, shorter);
        law_release_preserves_stream(after_withdrawals(stream, shorter), times.last());
    }
}

/// Once a withdrawal has succeeded, a withdrawal at the same or a later time
/// succeeds too: waiting never turns a recipient away.
pub proof fn law_later_withdrawal_succeeds(stream: PaymentStream, earlier: i64, later: i64)
    requires
        stream.well_formed(),
        earlier <= later,
        stream.release_outcome(earlier) is Ok,
    ensures
        stream.release_outcome(earlier)->Ok_0.0.release_outcome(later) is Ok,
{
    lemma_vested_bounds(
        stream.amount as int,
        stream.start_time as int,
        stream.end_time as int,
        earlier as int,
    );
    lemma_vested_bounds(
        stream.amount as int,
        stream.start_time as int,
        stream.end_time as int,
        later as int,
    );
    lemma_vested_monotone(
        stream.amount as int,
        stream.start_time as int,
        stream.end_time as int,
        earlier as int,
        later as int,
    );
}

/// Conservation: whatever withdrawals are attempted, the vault's balance and
/// what the recipient has received add up to the locked amount, the vault is
/// never asked for more than it holds, and the record's withdrawn amount is
/// what the recipient has received.
pub proof fn law_funds_conserved(stream: PaymentStream, times: Seq<i64>)
    requires
        stream.well_formed(),
    ensures
        vault_balance(stream, times) + recipient_received(stream, times) == stream.amount,
        vault_balance(stream, times) >= 0,
        recipient_received(stream, times) == after_withdrawals(stream, times).withdrawn_amount,
{
    law_withdrawals_preserve_stream(stream, times);
}

/// Full vesting at the end: one withdrawal at or after the end of the window
/// succeeds, releases all that was not yet withdrawn, and leaves the withdrawn
/// amount equal to the locked amount.
pub proof fn law_full_vesting_at_end(stream: PaymentStream, now: i64)
    requires
        stream.well_formed(),
        now >= stream.end_time,
    ensures
        stream.release_outcome(now) matches Ok((next, released)) && next.withdrawn_amount
            == stream.amount && released == stream.amount - stream.withdrawn_amount,
{
    lemma_vested_full(
        stream.amount as int,
        stream.start_time as int,
        stream.end_time as int,
        now as int,
    );
}

/// No premature release: before the start of the window a withdrawal is
/// turned down with `StreamNotStarted`, whatever else holds of the record.
pub proof fn law_no_release_before_start(stream: PaymentStream, now: i64)
    requires
        now < stream.start_time,
    ensures
        stream.release_outcome(now) == Err::<(PaymentStream, u64), ErrorCode>(
            ErrorCode::StreamNotStarted,
        ),
        after_withdrawals(stream, seq![now]) == stream,
        total_released(stream, seq![now]) == 0,
{
    let times = seq![now];
    assert(times.drop_last() =~= Seq::<i64>::empty());
    assert(times.last() == now);
    reveal_with_fuel(after_withdrawals, 2);
    reveal_with_fuel(total_released, 2);
}

/// Repeating a withdrawal is a no-op: after a withdrawal that succeeded, a
/// second one at the same time succeeds, releases nothing and leaves the
/// record as the first left it.
pub proof fn law_repeated_withdrawal_releases_nothing(stream: PaymentStream, now: i64)
    requires
        stream.release_outcome(now) is Ok,
    ensures
        stream.release_outcome(now) matches Ok((next, _)) && next.release_outcome(now) == Ok::<
            (PaymentStream, u64),
            ErrorCode,
        >((next, 0)),
{
}

/// What opening a stream orders into the vault is exactly what the new record
/// counts as locked, and nothing of it is withdrawn yet. The record is well
/// formed and lies under the pair of the request, which had no stream before.
pub proof fn law_deposit_matches_record(
    streams: Map<(Address, Address), PaymentStream>,
    ctx: CreateStream,
    amount: u64,
    duration: i64,
    now: i64,
)
    ensures
        create_outcome(streams, ctx, amount, duration, now) matches Ok((stream, transfer)) ==> {
            &&& transfer.amount == stream.amount
            &&& stream.withdrawn_amount == 0
            &&& stream.well_formed()
            &&& key_of(stream) == (ctx.sender, ctx.recipient)
            &&& !streams.contains_key(key_of(stream))
        },
{
}

/// What a withdrawal orders out of the vault is exactly what the record newly
/// counts as withdrawn, and never more than what is left of the locked
/// amount. The order is signed with the bump that the record has held since
/// the stream was opened, and the record stays under its pair.
pub proof fn law_payout_matches_record(
    streams: Map<(Address, Address), PaymentStream>,
    ctx: Withdraw,
    now: i64,
)
    requires
        streams.contains_key((ctx.sender, ctx.recipient)),
        streams[(ctx.sender, ctx.recipient)].well_formed(),
    ensures
        withdraw_outcome(streams, ctx, now) matches Ok((next, transfer)) ==> {
            let stream = streams[(ctx.sender, ctx.recipient)];
            &&& transfer.amount == next.withdrawn_amount - stream.withdrawn_amount
            &&& transfer.amount <= stream.amount - stream.withdrawn_amount
            &&& transfer.signer_bump == Some(stream.bump)
            &&& next.bump == stream.bump
            &&& key_of(next) == key_of(stream)
            &&& next.well_formed()
        },
{
    law_release_preserves_stream(streams[(ctx.sender, ctx.recipient)], now);
}

} // verus!
