//! Withdrawal: the recipient is paid what has accrued.

use vstd::prelude::*;
use crate::address::Address;
use crate::associated::associated_token_address;
use crate::associated::derive_associated_token_address;
use crate::auth::allowed;
use crate::contexts::WithdrawFromStream;
use crate::contexts::WithdrawFromStreamToken;
use crate::error::MyError;
use crate::history::Action;
use crate::stream::StreamAccount;
use crate::stream::Transfers;
use crate::stream::settles;

verus! {

impl StreamAccount {
    /// The record after `amount` has left the escrow for the recipient.
    pub open spec fn after_release(self, amount: u64) -> StreamAccount {
        StreamAccount {
            remaining_balance: (self.remaining_balance - amount) as u64,
            withdrawn: (self.withdrawn + amount) as u64,
            ..self
        }
    }

    /// What a withdrawal at `now` pays, once the caller and the accounts
    /// have been accepted: nothing before the start; nothing within the first
    /// interval of a stream without a cliff; else the accrual, which must be
    /// payable and more than zero.
    pub open spec fn withdrawable(self, now: u64) -> Result<u64, MyError> {
        if now < self.start_time {
            Err(MyError::StreamNotStarted)
        } else if now < self.stop_time && self.cliff_amount == 0 && now - self.start_time
            < self.interval {
            Err(MyError::NothingToWithdraw)
        } else if !self.payable(now as int) {
            Err(MyError::AccrualOutOfBounds)
        } else if self.accrual(now as int) == 0 {
            Err(MyError::NothingToWithdraw)
        } else {
            Ok(self.accrual(now as int) as u64)
        }
    }

    /// Moves `amount` from the escrow's books to the recipient's.
    fn release(&mut self, amount: u64)
        requires
            old(self).wf(),
            !old(self).is_cancelled,
            amount <= old(self).remaining_balance,
        ensures
            *final(self) == old(self).after_release(amount),
    {
        self.remaining_balance = self.remaining_balance - amount;
        self.withdrawn = self.withdrawn + amount;
    }

    /// Decides what a withdrawal at `now` pays.
    pub fn withdrawable_at(&self, now: u64) -> (r: Result<u64, MyError>)
        requires
            self.wf(),
        ensures
            r == self.withdrawable(now),
    {
        if now < self.start_time {
            return Err(MyError::StreamNotStarted);
        }
        if now < self.stop_time && self.cliff_amount == 0 && now - self.start_time
            < self.interval {
            return Err(MyError::NothingToWithdraw);
        }
        match self.releasable(now) {
            Err(e) => Err(e),
            Ok(amount) => {
                if amount == 0 {
                    Err(MyError::NothingToWithdraw)
                } else {
                    Ok(amount)
                }
            },
        }
    }
}

/// The outcome of a withdrawal in the native currency: the amount paid, or
/// the first check that fails, in this order. A cancelled stream refuses
/// whoever calls.
pub open spec fn withdraw_outcome(
    s: StreamAccount,
    authority: Seq<u8>,
    recipient: Seq<u8>,
    stream_id: Seq<char>,
    now: u64,
) -> Result<u64, MyError> {
    if s.is_cancelled {
        Err(MyError::StreamAlreadyCancelled)
    } else if !allowed(s.withdraw_by, authority, s.sender@, s.recipient@) {
        Err(MyError::NotAuthorized)
    } else if s.stream_id@ != stream_id {
        Err(MyError::IncorrectStreamId)
    } else if s.is_paused {
        Err(MyError::StreamIsPaused)
    } else if recipient != s.recipient@ {
        Err(MyError::IncorrectRecipient)
    } else {
        s.withdrawable(now)
    }
}

/// The outcome of a withdrawal in a token, given the token account
/// `expected_tokens` that the recipient must present.
pub open spec fn withdraw_token_outcome(
    c: WithdrawFromStreamToken,
    stream_id: Seq<char>,
    now: u64,
    expected_tokens: Seq<u8>,
) -> Result<u64, MyError> {
    let s = c.stream;
    if s.is_cancelled {
        Err(MyError::StreamAlreadyCancelled)
    } else if !allowed(s.withdraw_by, c.authority@, s.sender@, s.recipient@) {
        Err(MyError::NotAuthorized)
    } else if s.stream_id@ != stream_id {
        Err(MyError::IncorrectStreamId)
    } else if s.is_paused {
        Err(MyError::StreamIsPaused)
    } else if c.recipient@ != s.recipient@ {
        Err(MyError::IncorrectRecipient)
    } else if c.token_address@ != s.token_address@ {
        Err(MyError::IncorrectTokenAddress)
    } else if c.sender@ != s.sender@ {
        Err(MyError::IncorrectSender)
    } else if c.recipient_tokens@ != expected_tokens {
        Err(MyError::AssociatedTokenAccountIncorrect)
    } else {
        s.withdrawable(now)
    }
}

/// What the custodian is asked to do for a withdrawal of `amount`.
pub open spec fn release_transfers(amount: u64) -> Transfers {
    Transfers { to_escrow: 0, to_recipient: amount, to_sender: 0 }
}

/// Pays the recipient what has accrued at `now`, or refuses and changes
/// nothing.
pub fn withdraw_from_stream(ctx: &mut WithdrawFromStream, stream_id: String, now: u64) -> (res:
    Result<Transfers, MyError>)
    requires
        old(ctx).stream.wf(),
    ensures
        final(ctx).stream.wf(),
        final(ctx).authority == old(ctx).authority,
        final(ctx).recipient == old(ctx).recipient,
        match withdraw_outcome(
            old(ctx).stream,
            old(ctx).authority@,
            old(ctx).recipient@,
            stream_id@,
            now,
        ) {
            Ok(amount) => res == Ok::<Transfers, MyError>(release_transfers(amount))
                && final(ctx).stream == old(ctx).stream.after_release(amount),
            Err(e) => res == Err::<Transfers, MyError>(e) && final(ctx).stream == old(ctx).stream,
        },
        res matches Ok(moved) ==> settles(old(ctx).stream, final(ctx).stream, moved),
        res is Ok ==> final(ctx).stream == old(ctx).stream.after(Action::Withdraw { now }),
        res is Ok ==> final(ctx).stream.settled_at(now as int),
        final(ctx).stream.withdrawn >= old(ctx).stream.withdrawn,
        old(ctx).stream.funded() ==> final(ctx).stream.funded(),
{
    if ctx.stream.is_cancelled {
        return Err(MyError::StreamAlreadyCancelled);
    }
    if !ctx.stream.withdraw_by.is_allowed(&ctx.authority, &ctx.stream.sender, &ctx.stream.recipient) {
        return Err(MyError::NotAuthorized);
    }
    if ctx.stream.stream_id != stream_id {
        return Err(MyError::IncorrectStreamId);
    }
    if ctx.stream.is_paused {
        return Err(MyError::StreamIsPaused);
    }
    if !ctx.recipient.same(&ctx.stream.recipient) {
        return Err(MyError::IncorrectRecipient);
    }
    match ctx.stream.withdrawable_at(now) {
        Err(e) => Err(e),
        Ok(amount) => {
            ctx.stream.release(amount);
            Ok(Transfers { to_escrow: 0, to_recipient: amount, to_sender: 0 })
        },
    }
}

/// Pays the recipient, in a token, what has accrued at `now`, given the
/// token account `expected_tokens` that the recipient must present; or
/// refuses and changes nothing.
pub fn withdraw_token_checked(
    ctx: &mut WithdrawFromStreamToken,
    stream_id: String,
    now: u64,
    expected_tokens: &Address,
) -> (res: Result<Transfers, MyError>)
    requires
        old(ctx).stream.wf(),
    ensures
        final(ctx).stream.wf(),
        *final(ctx) == (WithdrawFromStreamToken { stream: final(ctx).stream, ..*old(ctx) }),
        match withdraw_token_outcome(*old(ctx), stream_id@, now, expected_tokens@) {
            Ok(amount) => res == Ok::<Transfers, MyError>(release_transfers(amount))
                && final(ctx).stream == old(ctx).stream.after_release(amount),
            Err(e) => res == Err::<Transfers, MyError>(e) && final(ctx).stream == old(ctx).stream,
        },
        res matches Ok(moved) ==> settles(old(ctx).stream, final(ctx).stream, moved),
        res is Ok ==> final(ctx).stream == old(ctx).stream.after(Action::Withdraw { now }),
        res is Ok ==> final(ctx).stream.settled_at(now as int),
        final(ctx).stream.withdrawn >= old(ctx).stream.withdrawn,
        old(ctx).stream.funded() ==> final(ctx).stream.funded(),
{
    if ctx.stream.is_cancelled {
        return Err(MyError::StreamAlreadyCancelled);
    }
    if !ctx.stream.withdraw_by.is_allowed(&ctx.authority, &ctx.stream.sender, &ctx.stream.recipient) {
        return Err(MyError::NotAuthorized);
    }
    if ctx.stream.stream_id != stream_id {
        return Err(MyError::IncorrectStreamId);
    }
    if ctx.stream.is_paused {
        return Err(MyError::StreamIsPaused);
    }
    if !ctx.recipient.same(&ctx.stream.recipient) {
        return Err(MyError::IncorrectRecipient);
    }
    if !ctx.token_address.same(&ctx.stream.token_address) {
        return Err(MyError::IncorrectTokenAddress);
    }
    if !ctx.sender.same(&ctx.stream.sender) {
        return Err(MyError::IncorrectSender);
    }
    if !ctx.recipient_tokens.same(expected_tokens) {
        return Err(MyError::AssociatedTokenAccountIncorrect);
    }
    match ctx.stream.withdrawable_at(now) {
        Err(e) => Err(e),
        Ok(amount) => {
            ctx.stream.release(amount);
            Ok(Transfers { to_escrow: 0, to_recipient: amount, to_sender: 0 })
        },
    }
}

/// Pays the recipient, in a token, what has accrued at `now`, or refuses and
/// changes nothing. The recipient must present the token account associated
/// with it for the stream's token.
pub fn withdraw_from_stream_token(ctx: &mut WithdrawFromStreamToken, stream_id: String, now: u64) -> (res:
    Result<Transfers, MyError>)
    requires
        old(ctx).stream.wf(),
    ensures
        final(ctx).stream.wf(),
        *final(ctx) == (WithdrawFromStreamToken { stream: final(ctx).stream, ..*old(ctx) }),
        match withdraw_token_outcome(
            *old(ctx),
            stream_id@,
            now,
            associated_token_address(old(ctx).recipient@, old(ctx).stream.token_address@),
        ) {
            Ok(amount) => res == Ok::<Transfers, MyError>(release_transfers(amount))
                && final(ctx).stream == old(ctx).stream.after_release(amount),
            Err(e) => res == Err::<Transfers, MyError>(e) && final(ctx).stream == old(ctx).stream,
        },
        res matches Ok(moved) ==> settles(old(ctx).stream, final(ctx).stream, moved),
        res is Ok ==> final(ctx).stream == old(ctx).stream.after(Action::Withdraw { now }),
        res is Ok ==> final(ctx).stream.settled_at(now as int),
        final(ctx).stream.withdrawn >= old(ctx).stream.withdrawn,
        old(ctx).stream.funded() ==> final(ctx).stream.funded(),
{
    let expected = derive_associated_token_address(&ctx.recipient, &ctx.stream.token_address);
    withdraw_token_checked(ctx, stream_id, now, &expected)
}

} // verus!
