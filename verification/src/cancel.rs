//! Cancellation: the escrow is split between the parties and the stream
//! ends for good.

use vstd::prelude::*;
use crate::address::Address;
use crate::associated::associated_token_address;
use crate::associated::derive_associated_token_address;
use crate::auth::allowed;
use crate::contexts::CancelStream;
use crate::contexts::CancelStreamToken;
use crate::error::MyError;
use crate::history::Action;
use crate::stream::StreamAccount;
use crate::stream::Transfers;
use crate::stream::settles;

verus! {

impl StreamAccount {
    /// The recipient's share of the escrow at a cancellation at `now`, once
    /// the caller and the accounts have been accepted: nothing before the
    /// start or while paused, else the accrual, which must be payable.
    pub open spec fn cancellable(self, now: u64) -> Result<u64, MyError> {
        if now < self.start_time || self.is_paused {
            Ok(0)
        } else if !self.payable(now as int) {
            Err(MyError::AccrualOutOfBounds)
        } else {
            Ok(self.accrual(now as int) as u64)
        }
    }

    /// The record after a cancellation that gave `share` to the recipient
    /// and the rest of the escrow to the sender.
    pub open spec fn after_cancel(self, share: u64) -> StreamAccount {
        StreamAccount {
            remaining_balance: 0,
            withdrawn: (self.withdrawn + share) as u64,
            is_paused: false,
            is_cancelled: true,
            ..self
        }
    }

    /// What the custodian is asked to do for a cancellation that gives
    /// `share` to the recipient.
    pub open spec fn cancel_transfers(self, share: u64) -> Transfers {
        Transfers {
            to_escrow: 0,
            to_recipient: share,
            to_sender: (self.remaining_balance - share) as u64,
        }
    }

    /// Decides the recipient's share at a cancellation at `now`.
    pub fn cancellable_at(&self, now: u64) -> (r: Result<u64, MyError>)
        requires
            self.wf(),
        ensures
            r == self.cancellable(now),
    {
        if now < self.start_time || self.is_paused {
            return Ok(0);
        }
        self.releasable(now)
    }

    /// Books a cancellation that gives `share` to the recipient, and says
    /// what is to be moved.
    fn settle(&mut self, share: u64) -> (moved: Transfers)
        requires
            old(self).wf(),
            !old(self).is_cancelled,
            share <= old(self).remaining_balance,
        ensures
            *final(self) == old(self).after_cancel(share),
            moved == old(self).cancel_transfers(share),
    {
        let refund: u64 = self.remaining_balance - share;
        self.withdrawn = self.withdrawn + share;
        self.remaining_balance = 0;
        self.is_paused = false;
        self.is_cancelled = true;
        Transfers { to_escrow: 0, to_recipient: share, to_sender: refund }
    }
}

/// The outcome of a cancellation of a stream of the native currency: the
/// recipient's share, or the first check that fails, in this order.
pub open spec fn cancel_outcome(
    s: StreamAccount,
    authority: Seq<u8>,
    sender: Seq<u8>,
    recipient: Seq<u8>,
    stream_id: Seq<char>,
    now: u64,
) -> Result<u64, MyError> {
    if !allowed(s.cancel_by, authority, s.sender@, s.recipient@) {
        Err(MyError::NotAuthorized)
    } else if s.stream_id@ != stream_id {
        Err(MyError::IncorrectStreamId)
    } else if recipient != s.recipient@ {
        Err(MyError::IncorrectRecipient)
    } else if sender != s.sender@ {
        Err(MyError::IncorrectSender)
    } else if s.is_cancelled {
        Err(MyError::StreamAlreadyCancelled)
    } else {
        s.cancellable(now)
    }
}

/// The outcome of a cancellation of a stream of a token, given the token
/// account `expected_tokens` that the recipient must present. The shares go
/// to the recorded parties only: the recipient presented is the recorded
/// one, and the token account that takes the refund is the recorded
/// sender's.
pub open spec fn cancel_token_outcome(
    c: CancelStreamToken,
    stream_id: Seq<char>,
    now: u64,
    expected_tokens: Seq<u8>,
) -> Result<u64, MyError> {
    let s = c.stream;
    if !allowed(s.cancel_by, c.authority@, s.sender@, s.recipient@) {
        Err(MyError::NotAuthorized)
    } else if s.stream_id@ != stream_id {
        Err(MyError::IncorrectStreamId)
    } else if c.recipient@ != s.recipient@ {
        Err(MyError::IncorrectRecipient)
    } else if c.sender_tokens_owner@ != s.sender@ {
        Err(MyError::IncorrectSender)
    } else if c.token_address@ != s.token_address@ {
        Err(MyError::IncorrectTokenAddress)
    } else if s.is_cancelled {
        Err(MyError::StreamAlreadyCancelled)
    } else if c.recipient_tokens@ != expected_tokens {
        Err(MyError::AssociatedTokenAccountIncorrect)
    } else {
        s.cancellable(now)
    }
}

/// Ends the stream at `now`: the recipient gets what has accrued, the sender
/// the rest of the escrow. Or refuses and changes nothing.
pub fn cancel_stream(ctx: &mut CancelStream, stream_id: String, now: u64) -> (res: Result<
    Transfers,
    MyError,
>)
    requires
        old(ctx).stream.wf(),
    ensures
        final(ctx).stream.wf(),
        *final(ctx) == (CancelStream { stream: final(ctx).stream, ..*old(ctx) }),
        match cancel_outcome(
            old(ctx).stream,
            old(ctx).authority@,
            old(ctx).sender@,
            old(ctx).recipient@,
            stream_id@,
            now,
        ) {
            Ok(share) => res == Ok::<Transfers, MyError>(old(ctx).stream.cancel_transfers(share))
                && final(ctx).stream == old(ctx).stream.after_cancel(share),
            Err(e) => res == Err::<Transfers, MyError>(e) && final(ctx).stream == old(ctx).stream,
        },
        res matches Ok(moved) ==> settles(old(ctx).stream, final(ctx).stream, moved),
        res is Ok ==> final(ctx).stream == old(ctx).stream.after(Action::Cancel { now }),
        final(ctx).stream.withdrawn >= old(ctx).stream.withdrawn,
        res is Ok ==> final(ctx).stream.funded(),
{
    if !ctx.stream.cancel_by.is_allowed(&ctx.authority, &ctx.stream.sender, &ctx.stream.recipient) {
        return Err(MyError::NotAuthorized);
    }
    if ctx.stream.stream_id != stream_id {
        return Err(MyError::IncorrectStreamId);
    }
    if !ctx.recipient.same(&ctx.stream.recipient) {
        return Err(MyError::IncorrectRecipient);
    }
    if !ctx.sender.same(&ctx.stream.sender) {
        return Err(MyError::IncorrectSender);
    }
    if ctx.stream.is_cancelled {
        return Err(MyError::StreamAlreadyCancelled);
    }
    match ctx.stream.cancellable_at(now) {
        Err(e) => Err(e),
        Ok(share) => Ok(ctx.stream.settle(share)),
    }
}

/// Ends a stream of a token at `now`, given the token account
/// `expected_tokens` that the recipient must present: the recipient gets
/// what has accrued, the sender the rest of the escrow. Or refuses and
/// changes nothing.
pub fn cancel_token_checked(
    ctx: &mut CancelStreamToken,
    stream_id: String,
    now: u64,
    expected_tokens: &Address,
) -> (res: Result<Transfers, MyError>)
    requires
        old(ctx).stream.wf(),
    ensures
        final(ctx).stream.wf(),
        *final(ctx) == (CancelStreamToken { stream: final(ctx).stream, ..*old(ctx) }),
        match cancel_token_outcome(*old(ctx), stream_id@, now, expected_tokens@) {
            Ok(share) => res == Ok::<Transfers, MyError>(old(ctx).stream.cancel_transfers(share))
                && final(ctx).stream == old(ctx).stream.after_cancel(share),
            Err(e) => res == Err::<Transfers, MyError>(e) && final(ctx).stream == old(ctx).stream,
        },
        res matches Ok(moved) ==> settles(old(ctx).stream, final(ctx).stream, moved),
        res is Ok ==> final(ctx).stream == old(ctx).stream.after(Action::Cancel { now }),
        final(ctx).stream.withdrawn >= old(ctx).stream.withdrawn,
        res is Ok ==> final(ctx).stream.funded(),
{
    if !ctx.stream.cancel_by.is_allowed(&ctx.authority, &ctx.stream.sender, &ctx.stream.recipient) {
        return Err(MyError::NotAuthorized);
    }
    if ctx.stream.stream_id != stream_id {
        return Err(MyError::IncorrectStreamId);
    }
    if !ctx.recipient.same(&ctx.stream.recipient) {
        return Err(MyError::IncorrectRecipient);
    }
    if !ctx.sender_tokens_owner.same(&ctx.stream.sender) {
        return Err(MyError::IncorrectSender);
    }
    if !ctx.token_address.same(&ctx.stream.token_address) {
        return Err(MyError::IncorrectTokenAddress);
    }
    if ctx.stream.is_cancelled {
        return Err(MyError::StreamAlreadyCancelled);
    }
    if !ctx.recipient_tokens.same(expected_tokens) {
        return Err(MyError::AssociatedTokenAccountIncorrect);
    }
    match ctx.stream.cancellable_at(now) {
        Err(e) => Err(e),
        Ok(share) => Ok(ctx.stream.settle(share)),
    }
}

/// Ends a stream of a token at `now`: the recipient gets what has accrued,
/// the sender the rest of the escrow. Or refuses and changes nothing. The
/// recipient must present the token account associated with it for the
/// token that the caller names.
pub fn cancel_stream_token(ctx: &mut CancelStreamToken, stream_id: String, now: u64) -> (res: Result<
    Transfers,
    MyError,
>)
    requires
        old(ctx).stream.wf(),
    ensures
        final(ctx).stream.wf(),
        *final(ctx) == (CancelStreamToken { stream: final(ctx).stream, ..*old(ctx) }),
        match cancel_token_outcome(
            *old(ctx),
            stream_id@,
            now,
            associated_token_address(old(ctx).recipient@, old(ctx).token_address@),
        ) {
            Ok(share) => res == Ok::<Transfers, MyError>(old(ctx).stream.cancel_transfers(share))
                && final(ctx).stream == old(ctx).stream.after_cancel(share),
            Err(e) => res == Err::<Transfers, MyError>(e) && final(ctx).stream == old(ctx).stream,
        },
        res matches Ok(moved) ==> settles(old(ctx).stream, final(ctx).stream, moved),
        res is Ok ==> final(ctx).stream == old(ctx).stream.after(Action::Cancel { now }),
        final(ctx).stream.withdrawn >= old(ctx).stream.withdrawn,
        res is Ok ==> final(ctx).stream.funded(),
{
    let expected = derive_associated_token_address(&ctx.recipient, &ctx.token_address);
    cancel_token_checked(ctx, stream_id, now, &expected)
}

} // verus!
