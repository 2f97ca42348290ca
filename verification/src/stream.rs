use vstd::prelude::*;
use crate::address::build_signer_seeds;
use crate::address::seeds_view;
use crate::address::signer_seeds;
use crate::address::Address;
use crate::error::ErrorCode;
use crate::vesting::vested;
use crate::vesting::vested_amount;
use crate::vesting::vesting_outcome;

verus! {

/// The record of one payment stream: a fixed amount that a sender has locked
/// for a recipient and that unlocks linearly between two points in time.
///
/// Only `withdrawn_amount` ever changes after the stream was opened.
#[derive(Clone, Copy, Debug, PartialEq, Eq)]
pub struct PaymentStream {
    /// Who funded the stream.
    pub sender: Address,
    /// Who may withdraw from it.
    pub recipient: Address,
    /// The amount locked when the stream was opened.
    pub amount: u64,
    /// When vesting begins, in seconds.
    pub start_time: i64,
    /// When everything has vested, in seconds.
    pub end_time: i64,
    /// The running total released to the recipient so far.
    pub withdrawn_amount: u64,
    /// The bump found with the stream's address; with the stream's seeds it
    /// lets the engine sign for that address.
    pub bump: u8,
}

impl PaymentStream {
    /// What holds of every stream that the engine has opened, at every point
    /// of its life: something is locked, the window has a positive length, and
    /// no more has been withdrawn than was locked.
    pub open spec fn well_formed(self) -> bool {
        &&& self.amount > 0
        &&& self.start_time < self.end_time
        &&& self.withdrawn_amount <= self.amount
    }

    /// The cumulative entitlement of this stream at `now`.
    pub open spec fn vested_at(self, now: i64) -> int {
        vested(self.amount as int, self.start_time as int, self.end_time as int, now as int)
    }

    /// What opening a stream answers: the first rule that the request breaks,
    /// or the new record, which starts at `now` with nothing withdrawn.
    pub open spec fn open_outcome(
        sender: Address,
        recipient: Address,
        amount: u64,
        duration: i64,
        now: i64,
        bump: u8,
    ) -> Result<PaymentStream, ErrorCode> {
        if amount == 0 {
            Err(ErrorCode::InvalidAmount)
        } else if duration <= 0 {
            Err(ErrorCode::InvalidDuration)
        } else if now + duration > i64::MAX {
            Err(ErrorCode::Overflow)
        } else {
            Ok(
                PaymentStream {
                    sender,
                    recipient,
                    amount,
                    start_time: now,
                    end_time: (now + duration) as i64,
                    withdrawn_amount: 0,
                    bump,
                },
            )
        }
    }

    /// Opens a stream of `amount` units from `sender` to `recipient` that
    /// vests from `now` over `duration` seconds.
    pub fn open(
        sender: Address,
        recipient: Address,
        amount: u64,
        duration: i64,
        now: i64,
        bump: u8,
    ) -> (outcome: Result<PaymentStream, ErrorCode>)
        ensures
            outcome == Self::open_outcome(sender, recipient, amount, duration, now, bump),
            outcome matches Ok(stream) ==> stream.well_formed(),
    {
        if amount == 0 {
            return Err(ErrorCode::InvalidAmount);
        }
        if duration <= 0 {
            return Err(ErrorCode::InvalidDuration);
        }
        let end_time: i64 = match now.checked_add(duration) {
            Some(t) => t,
            None => {
                return Err(ErrorCode::Overflow);
            },
        };
        Ok(
            PaymentStream {
                sender,
                recipient,
                amount,
                start_time: now,
                end_time,
                withdrawn_amount: 0,
                bump,
            },
        )
    }

    /// What a withdrawal at `now` answers: an error of the vesting
    /// calculation, or `InsufficientFunds` where less has vested than was
    /// withdrawn, or else the record with everything vested counted as
    /// withdrawn, together with the newly released amount.
    pub open spec fn release_outcome(self, now: i64) -> Result<(PaymentStream, u64), ErrorCode> {
        match vesting_outcome(self.amount, self.start_time, self.end_time, now) {
            Err(e) => Err(e),
            Ok(entitled) => if entitled < self.withdrawn_amount {
                Err(ErrorCode::InsufficientFunds)
            } else {
                Ok(
                    (
                        PaymentStream { withdrawn_amount: entitled, ..self },
                        (entitled - self.withdrawn_amount) as u64,
                    ),
                )
            },
        }
    }

    /// Releases what has newly vested at `now`: counts it as withdrawn and
    /// returns it. The caller has no say in the amount. On an error the record
    /// stays as it was.
    pub fn release(&mut self, now: i64) -> (outcome: Result<u64, ErrorCode>)
        ensures
            match old(self).release_outcome(now) {
                Ok((next, released)) => {
                    &&& outcome == Ok::<u64, ErrorCode>(released)
                    &&& *final(self) == next
                },
                Err(e) => {
                    &&& outcome == Err::<u64, ErrorCode>(e)
                    &&& *final(self) == *old(self)
                },
            },
    {
        let entitled: u64 = match vested_amount(
            self.amount,
            self.start_time,
            self.end_time,
            now,
        ) {
            Ok(v) => v,
            Err(e) => {
                return Err(e);
            },
        };
        let released: u64 = match entitled.checked_sub(self.withdrawn_amount) {
            Some(d) => d,
            None => {
                return Err(ErrorCode::InsufficientFunds);
            },
        };
        let total: u64 = match self.withdrawn_amount.checked_add(released) {
            Some(t) => t,
            None => {
                return Err(ErrorCode::Overflow);
            },
        };
        self.withdrawn_amount = total;
        Ok(released)
    }

    /// The seeds by which the engine signs for this stream's address when it
    /// moves funds out of the vault.
    pub fn signer_seeds(&self) -> (seeds: Vec<Vec<u8>>)
        ensures
            seeds_view(seeds) == signer_seeds(self.sender, self.recipient, self.bump),
    {
        build_signer_seeds(&self.sender, &self.recipient, self.bump)
    }
}

} // verus!
