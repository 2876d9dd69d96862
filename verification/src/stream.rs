//! The stream record and the accrual function that every payout goes by.

use vstd::prelude::*;
use crate::address::Address;
use crate::auth::StateChangeAuth;
use crate::error::MyError;
use crate::schedule::max_steps;
use crate::schedule::lemma_steps_within_span;
use crate::schedule::lemma_steps_monotone;

verus! {

/// One escrowed stream from a sender to a recipient.
#[derive(Clone, Debug)]
pub struct StreamAccount {
    pub stream_id: String,
    pub stream_title: String,
    pub recipient: Address,
    pub sender: Address,
    pub token_address: Address,
    pub create_time: u64,
    pub start_time: u64,
    pub stop_time: u64,
    /// What the escrow still holds for this stream.
    pub remaining_balance: u64,
    /// All that was ever escrowed.
    pub deposit: u64,
    /// All that was ever released to the recipient.
    pub withdrawn: u64,
    pub cliff_amount: u64,
    pub interval: u64,
    pub rate_of_stream: u64,
    /// While paused: the time that was left of the schedule at the pause.
    pub time_left: u64,
    /// `withdrawn` as it stood after the latest pause.
    pub paused_amount: u64,
    pub bump: u8,
    pub cancel_by: StateChangeAuth,
    pub pause_by: StateChangeAuth,
    pub resume_by: StateChangeAuth,
    pub withdraw_by: StateChangeAuth,
    pub edit_by: StateChangeAuth,
    pub is_cliff_percent: bool,
    pub is_paused: bool,
    pub is_cancelled: bool,
    pub is_infinite: bool,
}

/// The amounts that an accepted operation asks the custodian to move.
#[derive(Clone, Copy, Debug, PartialEq, Eq, Structural)]
pub struct Transfers {
    /// From the sender into the escrow.
    pub to_escrow: u64,
    /// From the escrow to the recipient.
    pub to_recipient: u64,
    /// From the escrow back to the sender.
    pub to_sender: u64,
}

/// No value is made or lost: the record's balances change by exactly what
/// the transfers move.
pub open spec fn settles(before: StreamAccount, after: StreamAccount, moved: Transfers) -> bool {
    &&& after.remaining_balance == before.remaining_balance + moved.to_escrow - moved.to_recipient
        - moved.to_sender
    &&& after.withdrawn == before.withdrawn + moved.to_recipient
    &&& after.withdrawn + after.remaining_balance == before.withdrawn + before.remaining_balance
        + moved.to_escrow - moved.to_sender
}

impl StreamAccount {
    /// The bytes that a stored record may take.
    pub const MAX_SIZE: usize = (4 + (6 * 4)) + (4 + (50 * 4)) + 32 + 32 + 32 + 8 + 8 + 8 + 8 + 8
        + 8 + 8 + 8 + 8 + 8 + 8 + 1 + (1 + 1) + (1 + 1) + (1 + 1) + (1 + 1) + (1 + 1) + 1 + 1 + 1
        + 1;

    /// What every record of the ledger satisfies, before and after each
    /// operation.
    pub open spec fn wf(&self) -> bool {
        &&& self.interval > 0
        &&& self.rate_of_stream > 0
        &&& self.create_time <= self.start_time <= self.stop_time
        &&& self.withdrawn + self.remaining_balance <= self.deposit
        &&& !self.is_cancelled ==> self.withdrawn + self.remaining_balance == self.deposit
        &&& self.is_cancelled ==> !self.is_paused && self.remaining_balance == 0
        &&& self.is_paused ==> self.paused_amount == self.withdrawn
        &&& self.paused_amount <= self.withdrawn
        &&& self.sender@ != self.recipient@
        &&& self.stream_title@.len() <= 50
        &&& self.withdraw_by != StateChangeAuth::Neither
        &&& self.edit_by != StateChangeAuth::Neither
    }

    /// Decides whether the record is valid.
    pub fn is_valid(&self) -> (r: bool)
        ensures
            r == self.wf(),
    {
        if self.interval == 0 || self.rate_of_stream == 0 {
            return false;
        }
        if self.create_time > self.start_time || self.start_time > self.stop_time {
            return false;
        }
        if self.withdrawn > self.deposit || self.remaining_balance > self.deposit
            - self.withdrawn {
            return false;
        }
        if self.is_cancelled {
            if self.is_paused || self.remaining_balance != 0 {
                return false;
            }
        } else if self.remaining_balance != self.deposit - self.withdrawn {
            return false;
        }
        if self.paused_amount > self.withdrawn {
            return false;
        }
        if self.is_paused && self.paused_amount != self.withdrawn {
            return false;
        }
        if self.sender.same(&self.recipient) {
            return false;
        }
        if self.stream_title.as_str().unicode_len() > 50 {
            return false;
        }
        match (self.withdraw_by, self.edit_by) {
            (StateChangeAuth::Neither, _) => false,
            (_, StateChangeAuth::Neither) => false,
            _ => true,
        }
    }

    /// The amount that unlocks apart from the rate steps: the cliff, until a
    /// pause has recorded what was released by then.
    pub open spec fn floor_amount(&self) -> int {
        if self.paused_amount > 0 {
            self.paused_amount as int
        } else {
            self.cliff_amount as int
        }
    }

    /// The whole intervals elapsed at `now`.
    pub open spec fn steps_at(&self, now: int) -> int
        recommends
            self.interval > 0,
            self.start_time <= now,
    {
        (now - self.start_time) / (self.interval as int)
    }

    /// All that the schedule has unlocked at `now`, released or not.
    pub open spec fn unlocked_at(&self, now: int) -> int
        recommends
            self.interval > 0,
            self.start_time <= now,
    {
        self.steps_at(now) * self.rate_of_stream + self.floor_amount()
    }

    /// The accrual function: what is owed to the recipient at `now` and not
    /// yet released. From the stop time on it is all that remains.
    pub open spec fn accrual(&self, now: int) -> int
        recommends
            self.interval > 0,
            self.start_time <= now,
    {
        if now >= self.stop_time {
            self.remaining_balance as int
        } else {
            self.unlocked_at(now) - self.withdrawn
        }
    }

    /// The accrual at `now` can be paid: it is not negative and the escrow
    /// holds it.
    pub open spec fn payable(&self, now: int) -> bool {
        0 <= self.accrual(now) <= self.remaining_balance
    }

    /// The time that the schedule still spans: what is left while paused,
    /// else from start to stop.
    pub open spec fn span(&self) -> int {
        if self.is_paused {
            self.time_left as int
        } else {
            self.stop_time - self.start_time
        }
    }

    /// The deposit covers all that the schedule can unlock before its end.
    /// A cancelled record has no schedule left to cover.
    pub open spec fn funded(&self) -> bool {
        self.is_cancelled || self.floor_amount() + self.rate_of_stream * max_steps(
            self.span(),
            self.interval as int,
        ) <= self.deposit
    }

    /// Nothing has been released at `at` beyond what the schedule had
    /// unlocked by then.
    pub open spec fn released_within(&self, at: int) -> bool {
        self.withdrawn <= self.unlocked_at(at)
    }

    /// Evaluates the accrual function, refusing a time before the start and
    /// an amount that cannot be paid.
    pub fn releasable(&self, now: u64) -> (r: Result<u64, MyError>)
        requires
            self.wf(),
        ensures
            r == (if now < self.start_time {
                Err::<u64, MyError>(MyError::StreamNotStarted)
            } else if !self.payable(now as int) {
                Err(MyError::AccrualOutOfBounds)
            } else {
                Ok(self.accrual(now as int) as u64)
            }),
    {
        if now < self.start_time {
            return Err(MyError::StreamNotStarted);
        }
        if now >= self.stop_time {
            return Ok(self.remaining_balance);
        }
        let steps: u64 = (now - self.start_time) / self.interval;
        proof {
            assert(0 <= (steps as int) * (self.rate_of_stream as int) <= 0xffff_ffff_ffff_ffff
                * 0xffff_ffff_ffff_ffff) by (nonlinear_arith)
                requires
                    0 <= steps <= 0xffff_ffff_ffff_ffff,
                    0 <= self.rate_of_stream <= 0xffff_ffff_ffff_ffff,
            ;
        }
        let stepped: u128 = (steps as u128) * (self.rate_of_stream as u128);
        let floor: u64 = if self.paused_amount > 0 {
            self.paused_amount
        } else {
            self.cliff_amount
        };
        let unlocked: u128 = stepped + (floor as u128);
        assert(unlocked == self.unlocked_at(now as int));
        if unlocked < self.withdrawn as u128 {
            return Err(MyError::AccrualOutOfBounds);
        }
        let owed: u128 = unlocked - (self.withdrawn as u128);
        if owed > self.remaining_balance as u128 {
            return Err(MyError::AccrualOutOfBounds);
        }
        Ok(owed as u64)
    }
}

/// By a later time the schedule has unlocked no less.
pub proof fn lemma_unlocked_monotone(s: StreamAccount, earlier: int, later: int)
    requires
        s.interval > 0,
        s.start_time <= earlier <= later,
    ensures
        s.unlocked_at(earlier) <= s.unlocked_at(later),
{
    lemma_steps_monotone(earlier - s.start_time, later - s.start_time, s.interval as int);
    let a = s.steps_at(earlier);
    let b = s.steps_at(later);
    assert(a * s.rate_of_stream <= b * s.rate_of_stream) by (nonlinear_arith)
        requires
            a <= b,
            s.rate_of_stream >= 0,
    ;
}

/// While a running stream is funded, nothing is owed at any time beyond
/// what the escrow holds, provided that nothing was released ahead of the
/// schedule.
pub proof fn lemma_funded_is_payable(s: StreamAccount, at: int, now: int)
    requires
        s.wf(),
        s.funded(),
        !s.is_cancelled,
        !s.is_paused,
        s.start_time <= at <= now,
        s.released_within(at),
    ensures
        s.payable(now),
{
    if now < s.stop_time {
        lemma_unlocked_monotone(s, at, now);
        lemma_steps_within_span(now - s.start_time, s.stop_time - s.start_time, s.interval as int);
        let k = s.steps_at(now);
        let m = max_steps(s.span(), s.interval as int);
        assert(k * s.rate_of_stream <= s.rate_of_stream * m) by (nonlinear_arith)
            requires
                0 <= k <= m,
                s.rate_of_stream >= 0,
        ;
    }
}

} // verus!
