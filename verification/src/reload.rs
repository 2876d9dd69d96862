//! Reloading an open-ended stream, and giving up the record of a drained
//! one.

use vstd::prelude::*;
use crate::contexts::DeleteStream;
use crate::contexts::ReloadStream;
use crate::contexts::ReloadStreamToken;
use crate::error::MyError;
use crate::history::Action;
use crate::history::lemma_reload_keeps_funded;
use crate::schedule::round_duration;
use crate::schedule::rounded_duration;
use crate::stream::StreamAccount;
use crate::stream::Transfers;
use crate::stream::settles;

verus! {

impl StreamAccount {
    /// The time by which `amount` more lengthens the schedule.
    pub open spec fn extra_duration(self, amount: u64) -> int {
        rounded_duration(amount as int, self.interval as int, self.rate_of_stream as int)
    }

    /// The end that a reload moves: the time left while paused, else the
    /// stop time.
    pub open spec fn schedule_end(self) -> u64 {
        if self.is_paused {
            self.time_left
        } else {
            self.stop_time
        }
    }

    /// The outcome of a reload with `amount`: the time by which the
    /// schedule grows, or the first check that fails, in this order, the
    /// last of them that the new end and the new deposit fit in 64 bits. A
    /// cancelled stream refuses whatever is offered.
    pub open spec fn reload_outcome(self, stream_id: Seq<char>, amount: u64) -> Result<
        u64,
        MyError,
    > {
        if self.is_cancelled {
            Err(MyError::StreamAlreadyCancelled)
        } else if !self.is_infinite {
            Err(MyError::NotInfiniteStream)
        } else if self.stream_id@ != stream_id {
            Err(MyError::IncorrectStreamId)
        } else if amount == 0 {
            Err(MyError::DepositIsZero)
        } else if amount < self.rate_of_stream {
            Err(MyError::DepositSmallerThanTime)
        } else if self.schedule_end() + self.extra_duration(amount) > u64::MAX || self.deposit
            + amount > u64::MAX {
            Err(MyError::ArithmeticOverflow)
        } else {
            Ok(self.extra_duration(amount) as u64)
        }
    }

    /// The record after a reload with `amount` that lengthens the schedule
    /// by `extra`: at once where the stream runs, on resumption where it is
    /// paused.
    pub open spec fn after_reload(self, amount: u64, extra: u64) -> StreamAccount {
        StreamAccount {
            time_left: if self.is_paused {
                (self.time_left + extra) as u64
            } else {
                self.time_left
            },
            stop_time: if self.is_paused {
                self.stop_time
            } else {
                (self.stop_time + extra) as u64
            },
            remaining_balance: (self.remaining_balance + amount) as u64,
            deposit: (self.deposit + amount) as u64,
            ..self
        }
    }

    /// Adds `amount` to the escrow of an open-ended stream and lengthens its
    /// schedule to match, or refuses and changes nothing.
    pub fn top_up(&mut self, stream_id: &String, amount: u64) -> (res: Result<Transfers, MyError>)
        requires
            old(self).wf(),
        ensures
            final(self).wf(),
            match old(self).reload_outcome(stream_id@, amount) {
                Ok(extra) => res == Ok::<Transfers, MyError>(reload_transfers(amount))
                    && *final(self) == old(self).after_reload(amount, extra),
                Err(e) => res == Err::<Transfers, MyError>(e) && *final(self) == *old(self),
            },
            res matches Ok(moved) ==> settles(*old(self), *final(self), moved),
            stream_id@ == old(self).stream_id@ ==> *final(self) == old(self).after(
                Action::Reload { amount },
            ),
            old(self).funded() && amount % old(self).rate_of_stream == 0 ==> final(self).funded(),
    {
        if self.is_cancelled {
            return Err(MyError::StreamAlreadyCancelled);
        }
        if !self.is_infinite {
            return Err(MyError::NotInfiniteStream);
        }
        if self.stream_id != *stream_id {
            return Err(MyError::IncorrectStreamId);
        }
        if amount == 0 {
            return Err(MyError::DepositIsZero);
        }
        if amount < self.rate_of_stream {
            return Err(MyError::DepositSmallerThanTime);
        }
        let extra: u128 = round_duration(amount, self.interval, self.rate_of_stream);
        let end: u64 = if self.is_paused {
            self.time_left
        } else {
            self.stop_time
        };
        if extra > (u64::MAX - end) as u128 || amount > u64::MAX - self.deposit {
            return Err(MyError::ArithmeticOverflow);
        }
        proof {
            if self.funded() && amount % self.rate_of_stream == 0 {
                lemma_reload_keeps_funded(*self, amount);
            }
        }
        if self.is_paused {
            self.time_left = self.time_left + (extra as u64);
        } else {
            self.stop_time = self.stop_time + (extra as u64);
        }
        self.remaining_balance = self.remaining_balance + amount;
        self.deposit = self.deposit + amount;
        Ok(Transfers { to_escrow: amount, to_recipient: 0, to_sender: 0 })
    }
}

/// What the custodian is asked to do for a reload with `amount`.
pub open spec fn reload_transfers(amount: u64) -> Transfers {
    Transfers { to_escrow: amount, to_recipient: 0, to_sender: 0 }
}

/// The outcome of giving up a record: the first check that fails, in this
/// order. The record must be drained, and only its sender may give it up.
pub open spec fn delete_outcome(s: StreamAccount, sender: Seq<u8>, stream_id: Seq<char>) -> Result<
    (),
    MyError,
> {
    if s.stream_id@ != stream_id {
        Err(MyError::IncorrectStreamId)
    } else if s.remaining_balance != 0 {
        Err(MyError::StreamNotEmpty)
    } else if s.sender@ != sender {
        Err(MyError::NotAuthorized)
    } else {
        Ok(())
    }
}

/// Adds `amount` of the native currency to an open-ended stream, or refuses
/// and changes nothing.
pub fn reload_stream(ctx: &mut ReloadStream, stream_id: String, amount: u64) -> (res: Result<
    Transfers,
    MyError,
>)
    requires
        old(ctx).stream.wf(),
    ensures
        final(ctx).stream.wf(),
        match old(ctx).stream.reload_outcome(stream_id@, amount) {
            Ok(extra) => res == Ok::<Transfers, MyError>(reload_transfers(amount))
                && final(ctx).stream == old(ctx).stream.after_reload(amount, extra),
            Err(e) => res == Err::<Transfers, MyError>(e) && final(ctx).stream == old(ctx).stream,
        },
        res matches Ok(moved) ==> settles(old(ctx).stream, final(ctx).stream, moved),
        stream_id@ == old(ctx).stream.stream_id@ ==> final(ctx).stream == old(ctx).stream.after(
            Action::Reload { amount },
        ),
        final(ctx).stream.withdrawn == old(ctx).stream.withdrawn,
        old(ctx).stream.funded() && amount % old(ctx).stream.rate_of_stream == 0
            ==> final(ctx).stream.funded(),
{
    ctx.stream.top_up(&stream_id, amount)
}

/// Adds `amount` of the stream's token to an open-ended stream, or refuses
/// and changes nothing.
pub fn reload_stream_token(ctx: &mut ReloadStreamToken, stream_id: String, amount: u64) -> (res:
    Result<Transfers, MyError>)
    requires
        old(ctx).stream.wf(),
    ensures
        final(ctx).stream.wf(),
        match old(ctx).stream.reload_outcome(stream_id@, amount) {
            Ok(extra) => res == Ok::<Transfers, MyError>(reload_transfers(amount))
                && final(ctx).stream == old(ctx).stream.after_reload(amount, extra),
            Err(e) => res == Err::<Transfers, MyError>(e) && final(ctx).stream == old(ctx).stream,
        },
        res matches Ok(moved) ==> settles(old(ctx).stream, final(ctx).stream, moved),
        stream_id@ == old(ctx).stream.stream_id@ ==> final(ctx).stream == old(ctx).stream.after(
            Action::Reload { amount },
        ),
        final(ctx).stream.withdrawn == old(ctx).stream.withdrawn,
        old(ctx).stream.funded() && amount % old(ctx).stream.rate_of_stream == 0
            ==> final(ctx).stream.funded(),
{
    ctx.stream.top_up(&stream_id, amount)
}

/// Decides whether the record may be given up. The record itself is left as
/// it is: whoever stores it reclaims the slot.
pub fn delete_stream(ctx: &DeleteStream, stream_id: String) -> (res: Result<(), MyError>)
    ensures
        res == delete_outcome(ctx.stream, ctx.sender@, stream_id@),
{
    if ctx.stream.stream_id != stream_id {
        return Err(MyError::IncorrectStreamId);
    }
    if ctx.stream.remaining_balance != 0 {
        return Err(MyError::StreamNotEmpty);
    }
    if !ctx.stream.sender.same(&ctx.sender) {
        return Err(MyError::NotAuthorized);
    }
    Ok(())
}

} // verus!
