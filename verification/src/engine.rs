use vstd::prelude::*;
use crate::address::find_stream_address;
use crate::address::stream_address;
use crate::address::Address;
use crate::error::ErrorCode;
use crate::laws::law_release_preserves_stream;
use crate::store::key_of;
use crate::store::StreamStore;
use crate::stream::PaymentStream;

verus! {

/// An order to the ledger to move `amount` units from one account to another.
/// The ledger carries it out whole or not at all.
#[derive(Clone, Copy, Debug, PartialEq, Eq)]
pub struct Transfer {
    /// The account that pays.
    pub from: Address,
    /// The account that receives.
    pub to: Address,
    /// The identity in whose name the funds move.
    pub authority: Address,
    /// How much moves.
    pub amount: u64,
    /// `None` where the authority signs for itself. Where the engine signs
    /// for an address that it derived, the bump that completes the seeds of
    /// that address.
    pub signer_bump: Option<u8>,
}

/// The accounts of a request to set the engine up. It names none.
#[derive(Clone, Copy, Debug, PartialEq, Eq)]
pub struct Initialize {}

/// The accounts of a request to open a stream.
#[derive(Clone, Copy, Debug, PartialEq, Eq)]
pub struct CreateStream {
    /// Who funds the stream, and signs the request.
    pub sender: Address,
    /// Who is to receive the funds.
    pub recipient: Address,
    /// The address derived for the stream's record.
    pub stream: Address,
    /// The sender's account, which pays into the vault.
    pub sender_token: Address,
    /// The account that holds the locked funds.
    pub vault: Address,
    /// The bump found with the stream's address.
    pub bump: u8,
}

/// The accounts of a request to withdraw from a stream.
#[derive(Clone, Copy, Debug, PartialEq, Eq)]
pub struct Withdraw {
    /// Who funded the stream.
    pub sender: Address,
    /// Who asks for the funds, and signs the request.
    pub recipient: Address,
    /// The address derived for the stream's record, in whose name the vault
    /// pays out.
    pub stream: Address,
    /// The account that holds the locked funds.
    pub vault: Address,
    /// The recipient's account, which the vault pays into.
    pub recipient_token: Address,
}

impl CreateStream {
    /// The accounts for a stream from `sender` to `recipient` under the
    /// program `program_id`, with the address and the bump that the ledger
    /// derives for the stream. `None` where it derives no address.
    pub fn new(
        program_id: &Address,
        sender: Address,
        recipient: Address,
        sender_token: Address,
        vault: Address,
    ) -> (accounts: Option<CreateStream>)
        ensures
            accounts == match stream_address(*program_id, sender, recipient) {
                Some((stream, bump)) => Some(
                    CreateStream { sender, recipient, stream, sender_token, vault, bump },
                ),
                None => None,
            },
    {
        match find_stream_address(program_id, &sender, &recipient) {
            Some((stream, bump)) => Some(
                CreateStream { sender, recipient, stream, sender_token, vault, bump },
            ),
            None => None,
        }
    }
}

impl Withdraw {
    /// The accounts for a withdrawal by `recipient` from the stream that
    /// `sender` funded under the program `program_id`, with the address that
    /// the ledger derives for the stream. `None` where it derives no address.
    pub fn new(
        program_id: &Address,
        sender: Address,
        recipient: Address,
        vault: Address,
        recipient_token: Address,
    ) -> (accounts: Option<Withdraw>)
        ensures
            accounts == match stream_address(*program_id, sender, recipient) {
                Some((stream, _)) => Some(
                    Withdraw { sender, recipient, stream, vault, recipient_token },
                ),
                None => None,
            },
    {
        match find_stream_address(program_id, &sender, &recipient) {
            Some((stream, _)) => Some(Withdraw { sender, recipient, stream, vault, recipient_token }),
            None => None,
        }
    }
}

/// What a request to open a stream answers, given the streams recorded so
/// far: the first rule that the request breaks, in the order amount,
/// duration, end of the window, one stream per pair; or else the new record
/// and the order that moves the whole amount from the sender's account into
/// the vault, in the sender's name.
pub open spec fn create_outcome(
    streams: Map<(Address, Address), PaymentStream>,
    ctx: CreateStream,
    amount: u64,
    duration: i64,
    now: i64,
) -> Result<(PaymentStream, Transfer), ErrorCode> {
    match PaymentStream::open_outcome(ctx.sender, ctx.recipient, amount, duration, now, ctx.bump) {
        Err(e) => Err(e),
        Ok(stream) => if streams.contains_key((ctx.sender, ctx.recipient)) {
            Err(ErrorCode::StreamAlreadyExists)
        } else {
            Ok(
                (
                    stream,
                    Transfer {
                        from: ctx.sender_token,
                        to: ctx.vault,
                        authority: ctx.sender,
                        amount,
                        signer_bump: None,
                    },
                ),
            )
        },
    }
}

/// What a request to withdraw answers, given the streams recorded so far:
/// `Unauthorized` where no stream from the sender names the caller as its
/// recipient; else what the release from that stream answers, and with a
/// release the order that moves exactly the released amount from the vault to
/// the recipient's account, in the name of the stream's own address.
pub open spec fn withdraw_outcome(
    streams: Map<(Address, Address), PaymentStream>,
    ctx: Withdraw,
    now: i64,
) -> Result<(PaymentStream, Transfer), ErrorCode> {
    if !streams.contains_key((ctx.sender, ctx.recipient)) {
        Err(ErrorCode::Unauthorized)
    } else {
        match streams[(ctx.sender, ctx.recipient)].release_outcome(now) {
            Err(e) => Err(e),
            Ok((next, released)) => Ok(
                (
                    next,
                    Transfer {
                        from: ctx.vault,
                        to: ctx.recipient_token,
                        authority: ctx.stream,
                        amount: released,
                        signer_bump: Some(next.bump),
                    },
                ),
            ),
        }
    }
}

/// Sets the engine up. There is nothing to set up: the request always
/// succeeds.
pub fn initialize(_ctx: &Initialize) -> (outcome: Result<(), ErrorCode>)
    ensures
        outcome == Ok::<(), ErrorCode>(()),
{
    Ok(())
}

/// Opens a stream of `amount` units from `ctx.sender` to `ctx.recipient`
/// that vests from `now` over `duration` seconds, and returns the order that
/// locks the amount in the vault. The record and the order stand or fall
/// together: on an error the store is left as it was and nothing is to move.
pub fn create_stream(
    store: &mut StreamStore,
    ctx: &CreateStream,
    amount: u64,
    duration: i64,
    now: i64,
) -> (outcome: Result<Transfer, ErrorCode>)
    requires
        old(store).well_formed(),
    ensures
        final(store).well_formed(),
        match create_outcome(old(store)@, *ctx, amount, duration, now) {
            Ok((stream, transfer)) => {
                &&& outcome == Ok::<Transfer, ErrorCode>(transfer)
                &&& final(store)@ == old(store)@.insert(key_of(stream), stream)
            },
            Err(e) => {
                &&& outcome == Err::<Transfer, ErrorCode>(e)
                &&& final(store)@ == old(store)@
            },
        },
{
    let stream: PaymentStream = match PaymentStream::open(
        ctx.sender,
        ctx.recipient,
        amount,
        duration,
        now,
        ctx.bump,
    ) {
        Ok(s) => s,
        Err(e) => {
            return Err(e);
        },
    };
    if store.get(&ctx.sender, &ctx.recipient).is_some() {
        return Err(ErrorCode::StreamAlreadyExists);
    }
    store.put(stream);
    Ok(
        Transfer {
            from: ctx.sender_token,
            to: ctx.vault,
            authority: ctx.sender,
            amount,
            signer_bump: None,
        },
    )
}

/// Releases to `ctx.recipient` what has newly vested at `now` of the stream
/// that `ctx.sender` opened for them, and returns the order that pays it out
/// of the vault. On an error the store is left as it was and nothing is to
/// move.
pub fn withdraw(store: &mut StreamStore, ctx: &Withdraw, now: i64) -> (outcome: Result<
    Transfer,
    ErrorCode,
>)
    requires
        old(store).well_formed(),
    ensures
        final(store).well_formed(),
        match withdraw_outcome(old(store)@, *ctx, now) {
            Ok((stream, transfer)) => {
                &&& outcome == Ok::<Transfer, ErrorCode>(transfer)
                &&& final(store)@ == old(store)@.insert(key_of(stream), stream)
            },
            Err(e) => {
                &&& outcome == Err::<Transfer, ErrorCode>(e)
                &&& final(store)@ == old(store)@
            },
        },
{
    let mut stream: PaymentStream = match store.get(&ctx.sender, &ctx.recipient) {
        Some(s) => s,
        None => {
            return Err(ErrorCode::Unauthorized);
        },
    };
    proof {
        store.lemma_entries((ctx.sender, ctx.recipient));
        law_release_preserves_stream(stream, now);
    }
    let released: u64 = match stream.release(now) {
        Ok(r) => r,
        Err(e) => {
            return Err(e);
        },
    };
    store.put(stream);
    Ok(
        Transfer {
            from: ctx.vault,
            to: ctx.recipient_token,
            authority: ctx.stream,
            amount: released,
            signer_bump: Some(stream.bump),
        },
    )
}

} // verus!
