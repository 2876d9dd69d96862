//! Pausing and resuming the schedule.

use vstd::prelude::*;
use crate::address::Address;
use crate::associated::associated_token_address;
use crate::associated::derive_associated_token_address;
use crate::auth::allowed;
use crate::contexts::PauseStream;
use crate::contexts::PauseStreamToken;
use crate::contexts::ResumeStream;
use crate::error::MyError;
use crate::history::Action;
use crate::history::lemma_action_keeps_funded;
use crate::history::no_transfers;
use crate::stream::StreamAccount;
use crate::stream::Transfers;
use crate::stream::settles;
use crate::withdraw::release_transfers;

verus! {

impl StreamAccount {
    /// The record after a pause at `now` that released `amount`: the time
    /// left is kept for the resumption, and what has been released by now
    /// takes the place of the cliff in every later accrual.
    pub open spec fn after_pause(self, amount: u64, now: u64) -> StreamAccount {
        StreamAccount {
            is_paused: true,
            time_left: (self.stop_time - now) as u64,
            remaining_balance: (self.remaining_balance - amount) as u64,
            withdrawn: (self.withdrawn + amount) as u64,
            paused_amount: (self.withdrawn + amount) as u64,
            ..self
        }
    }

    /// What a pause at `now` releases, once the caller and the accounts have
    /// been accepted: the accrual, which may be zero, of a stream that has
    /// started and not ended.
    pub open spec fn pausable(self, now: u64) -> Result<u64, MyError> {
        if now >= self.stop_time {
            Err(MyError::StreamAlreadyEnded)
        } else if now < self.start_time {
            Err(MyError::StreamNotStarted)
        } else if !self.payable(now as int) {
            Err(MyError::AccrualOutOfBounds)
        } else {
            Ok(self.accrual(now as int) as u64)
        }
    }

    /// The record after a resumption at `now`: the schedule starts anew and
    /// runs for the time that was left.
    pub open spec fn after_resume(self, now: u64) -> StreamAccount {
        StreamAccount {
            start_time: now,
            stop_time: (now + self.time_left) as u64,
            is_paused: false,
            ..self
        }
    }

    /// Decides what a pause at `now` releases.
    pub fn pausable_at(&self, now: u64) -> (r: Result<u64, MyError>)
        requires
            self.wf(),
        ensures
            r == self.pausable(now),
    {
        if now >= self.stop_time {
            return Err(MyError::StreamAlreadyEnded);
        }
        self.releasable(now)
    }

    /// Books a pause at `now` that releases `amount`.
    fn halt(&mut self, amount: u64, now: u64)
        requires
            old(self).wf(),
            !old(self).is_cancelled,
            amount <= old(self).remaining_balance,
            now <= old(self).stop_time,
        ensures
            *final(self) == old(self).after_pause(amount, now),
    {
        self.is_paused = true;
        self.time_left = self.stop_time - now;
        self.remaining_balance = self.remaining_balance - amount;
        self.withdrawn = self.withdrawn + amount;
        self.paused_amount = self.withdrawn;
    }
}

/// The outcome of a pause of a stream of the native currency: the amount
/// released, or the first check that fails, in this order. A cancelled
/// stream refuses whoever calls, and what is released goes to the recorded
/// recipient only.
pub open spec fn pause_outcome(
    s: StreamAccount,
    authority: Seq<u8>,
    recipient: Seq<u8>,
    stream_id: Seq<char>,
    now: u64,
) -> Result<u64, MyError> {
    if s.is_cancelled {
        Err(MyError::StreamAlreadyCancelled)
    } else if !allowed(s.pause_by, authority, s.sender@, s.recipient@) {
        Err(MyError::NotAuthorized)
    } else if s.stream_id@ != stream_id {
        Err(MyError::IncorrectStreamId)
    } else if recipient != s.recipient@ {
        Err(MyError::IncorrectRecipient)
    } else if s.is_paused {
        Err(MyError::StreamAlreadyPaused)
    } else {
        s.pausable(now)
    }
}

/// The outcome of a pause of a stream of a token, given the token account
/// `expected_tokens` that the recipient must present.
pub open spec fn pause_token_outcome(
    c: PauseStreamToken,
    stream_id: Seq<char>,
    now: u64,
    expected_tokens: Seq<u8>,
) -> Result<u64, MyError> {
    let s = c.stream;
    if s.is_cancelled {
        Err(MyError::StreamAlreadyEnded)
    } else if !allowed(s.pause_by, c.authority@, s.sender@, s.recipient@) {
        Err(MyError::NotAuthorized)
    } else if s.stream_id@ != stream_id {
        Err(MyError::IncorrectStreamId)
    } else if c.recipient@ != s.recipient@ {
        Err(MyError::IncorrectRecipient)
    } else if c.token_address@ != s.token_address@ {
        Err(MyError::IncorrectTokenAddress)
    } else if c.sender@ != s.sender@ {
        Err(MyError::IncorrectSender)
    } else if s.is_paused {
        Err(MyError::StreamAlreadyPaused)
    } else if c.recipient_tokens@ != expected_tokens {
        Err(MyError::AssociatedTokenAccountIncorrect)
    } else {
        s.pausable(now)
    }
}

/// The outcome of a resumption: the first check that fails, in this order,
/// the last of them that the new stop time fits in 64 bits. A cancelled
/// stream refuses whoever calls.
pub open spec fn resume_outcome(s: StreamAccount, authority: Seq<u8>, stream_id: Seq<char>, now: u64) -> Result<
    (),
    MyError,
> {
    if s.is_cancelled {
        Err(MyError::StreamAlreadyCancelled)
    } else if !allowed(s.resume_by, authority, s.sender@, s.recipient@) {
        Err(MyError::NotAuthorized)
    } else if s.stream_id@ != stream_id {
        Err(MyError::IncorrectStreamId)
    } else if now < s.start_time {
        Err(MyError::StreamNotStarted)
    } else if !s.is_paused {
        Err(MyError::StreamNotPaused)
    } else if now + s.time_left > u64::MAX {
        Err(MyError::ArithmeticOverflow)
    } else {
        Ok(())
    }
}

/// Halts the schedule at `now` and pays the recipient what has accrued by
/// then, or refuses and changes nothing.
pub fn pause_stream(ctx: &mut PauseStream, stream_id: String, now: u64) -> (res: Result<
    Transfers,
    MyError,
>)
    requires
        old(ctx).stream.wf(),
    ensures
        final(ctx).stream.wf(),
        final(ctx).authority == old(ctx).authority,
        final(ctx).recipient == old(ctx).recipient,
        match pause_outcome(
            old(ctx).stream,
            old(ctx).authority@,
            old(ctx).recipient@,
            stream_id@,
            now,
        ) {
            Ok(amount) => res == Ok::<Transfers, MyError>(release_transfers(amount))
                && final(ctx).stream == old(ctx).stream.after_pause(amount, now),
            Err(e) => res == Err::<Transfers, MyError>(e) && final(ctx).stream == old(ctx).stream,
        },
        res matches Ok(moved) ==> settles(old(ctx).stream, final(ctx).stream, moved),
        res is Ok ==> final(ctx).stream == old(ctx).stream.after(Action::Pause { now }),
        old(ctx).stream.funded() ==> final(ctx).stream.funded(),
        final(ctx).stream.withdrawn >= old(ctx).stream.withdrawn,
{
    if ctx.stream.is_cancelled {
        return Err(MyError::StreamAlreadyCancelled);
    }
    if !ctx.stream.pause_by.is_allowed(&ctx.authority, &ctx.stream.sender, &ctx.stream.recipient) {
        return Err(MyError::NotAuthorized);
    }
    if ctx.stream.stream_id != stream_id {
        return Err(MyError::IncorrectStreamId);
    }
    if !ctx.recipient.same(&ctx.stream.recipient) {
        return Err(MyError::IncorrectRecipient);
    }
    if ctx.stream.is_paused {
        return Err(MyError::StreamAlreadyPaused);
    }
    match ctx.stream.pausable_at(now) {
        Err(e) => Err(e),
        Ok(amount) => {
            proof {
                if ctx.stream.funded() {
                    lemma_action_keeps_funded(ctx.stream, Action::Pause { now });
                }
            }
            ctx.stream.halt(amount, now);
            Ok(Transfers { to_escrow: 0, to_recipient: amount, to_sender: 0 })
        },
    }
}

/// Halts the schedule of a stream of a token at `now`, given the token
/// account `expected_tokens` that the recipient must present, and pays the
/// recipient what has accrued by then; or refuses and changes nothing.
pub fn pause_token_checked(
    ctx: &mut PauseStreamToken,
    stream_id: String,
    now: u64,
    expected_tokens: &Address,
) -> (res: Result<Transfers, MyError>)
    requires
        old(ctx).stream.wf(),
    ensures
        final(ctx).stream.wf(),
        *final(ctx) == (PauseStreamToken { stream: final(ctx).stream, ..*old(ctx) }),
        match pause_token_outcome(*old(ctx), stream_id@, now, expected_tokens@) {
            Ok(amount) => res == Ok::<Transfers, MyError>(release_transfers(amount))
                && final(ctx).stream == old(ctx).stream.after_pause(amount, now),
            Err(e) => res == Err::<Transfers, MyError>(e) && final(ctx).stream == old(ctx).stream,
        },
        res matches Ok(moved) ==> settles(old(ctx).stream, final(ctx).stream, moved),
        res is Ok ==> final(ctx).stream == old(ctx).stream.after(Action::Pause { now }),
        old(ctx).stream.funded() ==> final(ctx).stream.funded(),
        final(ctx).stream.withdrawn >= old(ctx).stream.withdrawn,
{
    if ctx.stream.is_cancelled {
        return Err(MyError::StreamAlreadyEnded);
    }
    if !ctx.stream.pause_by.is_allowed(&ctx.authority, &ctx.stream.sender, &ctx.stream.recipient) {
        return Err(MyError::NotAuthorized);
    }
    if ctx.stream.stream_id != stream_id {
        return Err(MyError::IncorrectStreamId);
    }
    if !ctx.recipient.same(&ctx.stream.recipient) {
        return Err(MyError::IncorrectRecipient);
    }
    if !ctx.token_address.same(&ctx.stream.token_address) {
        return Err(MyError::IncorrectTokenAddress);
    }
    if !ctx.sender.same(&ctx.stream.sender) {
        return Err(MyError::IncorrectSender);
    }
    if ctx.stream.is_paused {
        return Err(MyError::StreamAlreadyPaused);
    }
    if !ctx.recipient_tokens.same(expected_tokens) {
        return Err(MyError::AssociatedTokenAccountIncorrect);
    }
    match ctx.stream.pausable_at(now) {
        Err(e) => Err(e),
        Ok(amount) => {
            proof {
                if ctx.stream.funded() {
                    lemma_action_keeps_funded(ctx.stream, Action::Pause { now });
                }
            }
            ctx.stream.halt(amount, now);
            Ok(Transfers { to_escrow: 0, to_recipient: amount, to_sender: 0 })
        },
    }
}

/// Halts the schedule of a stream of a token at `now` and pays the recipient
/// what has accrued by then, or refuses and changes nothing. The recipient
/// must present the token account associated with it for the token that the
/// caller names.
pub fn pause_stream_token(ctx: &mut PauseStreamToken, stream_id: String, now: u64) -> (res: Result<
    Transfers,
    MyError,
>)
    requires
        old(ctx).stream.wf(),
    ensures
        final(ctx).stream.wf(),
        *final(ctx) == (PauseStreamToken { stream: final(ctx).stream, ..*old(ctx) }),
        match pause_token_outcome(
            *old(ctx),
            stream_id@,
            now,
            associated_token_address(old(ctx).recipient@, old(ctx).token_address@),
        ) {
            Ok(amount) => res == Ok::<Transfers, MyError>(release_transfers(amount))
                && final(ctx).stream == old(ctx).stream.after_pause(amount, now),
            Err(e) => res == Err::<Transfers, MyError>(e) && final(ctx).stream == old(ctx).stream,
        },
        res matches Ok(moved) ==> settles(old(ctx).stream, final(ctx).stream, moved),
        res is Ok ==> final(ctx).stream == old(ctx).stream.after(Action::Pause { now }),
        old(ctx).stream.funded() ==> final(ctx).stream.funded(),
        final(ctx).stream.withdrawn >= old(ctx).stream.withdrawn,
{
    let expected = derive_associated_token_address(&ctx.recipient, &ctx.token_address);
    pause_token_checked(ctx, stream_id, now, &expected)
}

/// Takes up a paused schedule at `now` for the time that was left, or
/// refuses and changes nothing. No funds move.
pub fn resume_stream(ctx: &mut ResumeStream, stream_id: String, now: u64) -> (res: Result<(), MyError>)
    requires
        old(ctx).stream.wf(),
    ensures
        final(ctx).stream.wf(),
        final(ctx).authority == old(ctx).authority,
        res == resume_outcome(old(ctx).stream, old(ctx).authority@, stream_id@, now),
        res is Ok ==> final(ctx).stream == old(ctx).stream.after_resume(now),
        res is Err ==> final(ctx).stream == old(ctx).stream,
        res is Ok ==> final(ctx).stream == old(ctx).stream.after(Action::Resume { now }),
        old(ctx).stream.funded() ==> final(ctx).stream.funded(),
        res is Ok ==> final(ctx).stream.settled_at(now as int),
        settles(old(ctx).stream, final(ctx).stream, no_transfers()),
{
    if ctx.stream.is_cancelled {
        return Err(MyError::StreamAlreadyCancelled);
    }
    if !ctx.stream.resume_by.is_allowed(&ctx.authority, &ctx.stream.sender, &ctx.stream.recipient) {
        return Err(MyError::NotAuthorized);
    }
    if ctx.stream.stream_id != stream_id {
        return Err(MyError::IncorrectStreamId);
    }
    if now < ctx.stream.start_time {
        return Err(MyError::StreamNotStarted);
    }
    if !ctx.stream.is_paused {
        return Err(MyError::StreamNotPaused);
    }
    match now.checked_add(ctx.stream.time_left) {
        None => Err(MyError::ArithmeticOverflow),
        Some(stop) => {
            ctx.stream.start_time = now;
            ctx.stream.stop_time = stop;
            ctx.stream.is_paused = false;
            proof {
                let t = ctx.stream;
                assert(t.steps_at(now as int) == 0);
                assert(t.unlocked_at(now as int) == t.floor_amount()) by (nonlinear_arith)
                    requires
                        t.unlocked_at(now as int) == t.steps_at(now as int) * t.rate_of_stream
                            + t.floor_amount(),
                        t.steps_at(now as int) == 0,
                ;
            }
            Ok(())
        },
    }
}

} // verus!
