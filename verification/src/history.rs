//! The ledger as a state machine: what each accepted action does to a
//! record, and what holds of every record along any sequence of actions.

use vstd::prelude::*;
use vstd::arithmetic::div_mod::lemma_fundamental_div_mod;
use vstd::arithmetic::div_mod::lemma_fundamental_div_mod_converse;
use crate::schedule::lemma_max_steps_of_whole;
use crate::schedule::lemma_rounded_duration_exact;
use crate::schedule::lemma_steps_monotone;
use crate::schedule::lemma_steps_split;
use crate::schedule::max_steps;
use crate::stream::StreamAccount;
use crate::stream::lemma_funded_is_payable;
use crate::stream::lemma_unlocked_monotone;
use crate::stream::Transfers;
use crate::stream::settles;
use crate::withdraw::release_transfers;
use crate::reload::reload_transfers;

verus! {

/// An action on a stream whose caller and accounts the ledger has accepted.
pub enum Action {
    Withdraw { now: u64 },
    Pause { now: u64 },
    Resume { now: u64 },
    Cancel { now: u64 },
    Reload { amount: u64 },
}

/// Nothing to move.
pub open spec fn no_transfers() -> Transfers {
    Transfers { to_escrow: 0, to_recipient: 0, to_sender: 0 }
}

impl StreamAccount {
    /// Whether the record takes the action: its state allows it and its
    /// amounts and times work out.
    pub open spec fn takes(self, action: Action) -> bool {
        match action {
            Action::Withdraw { now } => !self.is_paused && !self.is_cancelled && self.withdrawable(
                now,
            ) is Ok,
            Action::Pause { now } => !self.is_paused && !self.is_cancelled && self.pausable(
                now,
            ) is Ok,
            Action::Resume { now } => self.is_paused && self.start_time <= now && now
                + self.time_left <= u64::MAX,
            Action::Cancel { now } => !self.is_cancelled && self.cancellable(now) is Ok,
            Action::Reload { amount } => self.reload_outcome(self.stream_id@, amount) is Ok,
        }
    }

    /// The record after the action, where the record takes it; else the
    /// record as it is.
    pub open spec fn after(self, action: Action) -> StreamAccount {
        if !self.takes(action) {
            self
        } else {
            match action {
                Action::Withdraw { now } => self.after_release(self.withdrawable(now).unwrap()),
                Action::Pause { now } => self.after_pause(self.pausable(now).unwrap(), now),
                Action::Resume { now } => self.after_resume(now),
                Action::Cancel { now } => self.after_cancel(self.cancellable(now).unwrap()),
                Action::Reload { amount } => self.after_reload(
                    amount,
                    self.reload_outcome(self.stream_id@, amount).unwrap(),
                ),
            }
        }
    }

    /// What the action moves, where the record takes it; else nothing.
    pub open spec fn moved_by(self, action: Action) -> Transfers {
        if !self.takes(action) {
            no_transfers()
        } else {
            match action {
                Action::Withdraw { now } => release_transfers(self.withdrawable(now).unwrap()),
                Action::Pause { now } => release_transfers(self.pausable(now).unwrap()),
                Action::Resume { now } => no_transfers(),
                Action::Cancel { now } => self.cancel_transfers(self.cancellable(now).unwrap()),
                Action::Reload { amount } => reload_transfers(amount),
            }
        }
    }

    /// The record after a sequence of actions, the first of them first.
    pub open spec fn after_all(self, actions: Seq<Action>) -> StreamAccount
        decreases actions.len(),
    {
        if actions.len() == 0 {
            self
        } else {
            self.after_all(actions.drop_last()).after(actions.last())
        }
    }
}

/// Every action leaves a valid record valid.
pub proof fn lemma_action_keeps_valid(s: StreamAccount, action: Action)
    requires
        s.wf(),
    ensures
        s.after(action).wf(),
{
}

/// Whatever the action, the balances of the record change by exactly what
/// is moved. Released and remaining together grow by what enters the escrow
/// and shrink by what is refunded to the sender, and by nothing else.
pub proof fn lemma_conservation(s: StreamAccount, action: Action)
    requires
        s.wf(),
    ensures
        settles(s, s.after(action), s.moved_by(action)),
{
}

impl StreamAccount {
    /// All that a sequence of actions moves into the escrow.
    pub open spec fn paid_in(self, actions: Seq<Action>) -> int
        decreases actions.len(),
    {
        if actions.len() == 0 {
            0
        } else {
            self.paid_in(actions.drop_last()) + self.after_all(actions.drop_last()).moved_by(
                actions.last(),
            ).to_escrow
        }
    }

    /// All that a sequence of actions releases to the recipient.
    pub open spec fn paid_out(self, actions: Seq<Action>) -> int
        decreases actions.len(),
    {
        if actions.len() == 0 {
            0
        } else {
            self.paid_out(actions.drop_last()) + self.after_all(actions.drop_last()).moved_by(
                actions.last(),
            ).to_recipient
        }
    }

    /// All that a sequence of actions refunds to the sender.
    pub open spec fn refunded(self, actions: Seq<Action>) -> int
        decreases actions.len(),
    {
        if actions.len() == 0 {
            0
        } else {
            self.refunded(actions.drop_last()) + self.after_all(actions.drop_last()).moved_by(
                actions.last(),
            ).to_sender
        }
    }
}

/// Along any sequence of actions no value is made or lost: what was
/// released is what was paid out, and what remains in escrow is what was
/// there, plus what was paid in, less what was paid out and refunded.
pub proof fn lemma_conservation_history(s: StreamAccount, actions: Seq<Action>)
    requires
        s.wf(),
    ensures
        s.after_all(actions).withdrawn == s.withdrawn + s.paid_out(actions),
        s.after_all(actions).remaining_balance == s.remaining_balance + s.paid_in(actions)
            - s.paid_out(actions) - s.refunded(actions),
    decreases actions.len(),
{
    if actions.len() > 0 {
        lemma_conservation_history(s, actions.drop_last());
        lemma_history(s, actions.drop_last());
        lemma_conservation(s.after_all(actions.drop_last()), actions.last());
    }
}

/// No action makes the released total decrease.
pub proof fn lemma_withdrawn_grows(s: StreamAccount, action: Action)
    requires
        s.wf(),
    ensures
        s.after(action).withdrawn >= s.withdrawn,
{
}

/// Along any sequence of actions a valid record stays valid, and its
/// released total never decreases.
pub proof fn lemma_history(s: StreamAccount, actions: Seq<Action>)
    requires
        s.wf(),
    ensures
        s.after_all(actions).wf(),
        s.after_all(actions).withdrawn >= s.withdrawn,
        s.after_all(actions).remaining_balance <= s.after_all(actions).deposit,
    decreases actions.len(),
{
    if actions.len() > 0 {
        lemma_history(s, actions.drop_last());
        let before = s.after_all(actions.drop_last());
        lemma_action_keeps_valid(before, actions.last());
        lemma_withdrawn_grows(before, actions.last());
    }
}

/// Cancellation is for good: a cancelled record takes no action, so no
/// sequence of actions changes it.
pub proof fn lemma_cancelled_is_final(s: StreamAccount, actions: Seq<Action>)
    requires
        s.wf(),
        s.is_cancelled,
    ensures
        forall|action: Action| !s.takes(action),
        s.after_all(actions) == s,
    decreases actions.len(),
{
    if actions.len() > 0 {
        lemma_cancelled_is_final(s, actions.drop_last());
    }
}

/// While a record is paused nothing accrues: no action releases anything
/// to the recipient.
pub proof fn lemma_paused_accrues_nothing(s: StreamAccount, action: Action)
    requires
        s.wf(),
        s.is_paused,
    ensures
        s.after(action).withdrawn == s.withdrawn,
        s.moved_by(action).to_recipient == 0,
{
}

/// An accepted cancellation empties the escrow and marks the record.
pub proof fn lemma_cancel_ends(s: StreamAccount, now: u64)
    requires
        s.wf(),
        s.takes(Action::Cancel { now }),
    ensures
        s.after(Action::Cancel { now }).is_cancelled,
        s.after(Action::Cancel { now }).remaining_balance == 0,
        s.moved_by(Action::Cancel { now }).to_recipient + s.moved_by(
            Action::Cancel { now },
        ).to_sender == s.remaining_balance,
{
}

impl StreamAccount {
    /// The cliff no longer counts: every accrual adds what a pause recorded
    /// in its place.
    pub open spec fn cliff_spent(self) -> bool {
        self.floor_amount() == self.paused_amount
    }

    /// Nothing was released ahead of the schedule as of `at`: the record is
    /// paused or cancelled, or its schedule has ended by then, or what it
    /// released is within what the schedule had unlocked by then (by its
    /// start, where `at` is earlier).
    pub open spec fn settled_at(self, at: int) -> bool {
        ||| self.is_paused
        ||| self.is_cancelled
        ||| at >= self.stop_time
        ||| self.released_within(
            if at >= self.start_time {
                at
            } else {
                self.start_time as int
            },
        )
    }
}

/// The time of an action, where it has one.
pub open spec fn time_of(action: Action) -> Option<u64> {
    match action {
        Action::Withdraw { now } => Some(now),
        Action::Pause { now } => Some(now),
        Action::Resume { now } => Some(now),
        Action::Cancel { now } => Some(now),
        Action::Reload { amount } => None,
    }
}

/// An accepted pause spends the cliff, in that every later accrual adds the
/// amount recorded at the pause, which is all that was released by then, and
/// never the cliff again.
pub proof fn lemma_pause_spends_cliff(s: StreamAccount, now: u64, later: int)
    requires
        s.wf(),
        s.takes(Action::Pause { now }),
    ensures
        s.after(Action::Pause { now }).cliff_spent(),
        s.after(Action::Pause { now }).paused_amount == s.after(Action::Pause { now }).withdrawn,
        s.after(Action::Pause { now }).unlocked_at(later) == s.after(Action::Pause { now }).steps_at(
            later,
        ) * s.rate_of_stream + s.after(Action::Pause { now }).paused_amount,
{
}

/// Once the cliff is spent, it stays spent along any sequence of actions.
pub proof fn lemma_cliff_stays_spent(s: StreamAccount, actions: Seq<Action>)
    requires
        s.wf(),
        s.cliff_spent(),
    ensures
        s.after_all(actions).cliff_spent(),
    decreases actions.len(),
{
    if actions.len() > 0 {
        lemma_cliff_stays_spent(s, actions.drop_last());
        lemma_history(s, actions.drop_last());
    }
}

/// Had nothing been released ahead of the schedule as of some time, then
/// nothing has as of any later time.
pub proof fn lemma_settled_later(s: StreamAccount, at: int, later: int)
    requires
        s.wf(),
        s.settled_at(at),
        at <= later,
    ensures
        s.settled_at(later),
{
    if !s.is_paused && !s.is_cancelled && later < s.stop_time {
        let from = if at >= s.start_time {
            at
        } else {
            s.start_time as int
        };
        let to = if later >= s.start_time {
            later
        } else {
            s.start_time as int
        };
        lemma_unlocked_monotone(s, from, to);
    }
}

/// Every action but a reload leaves a funded record funded: a withdrawal
/// and a resumption leave the schedule as it is, and a pause hands on to the
/// time left no more steps than the schedule had.
pub proof fn lemma_action_keeps_funded(s: StreamAccount, action: Action)
    requires
        s.wf(),
        s.funded(),
        action !is Reload,
    ensures
        s.after(action).funded(),
{
    if s.takes(action) {
        match action {
            Action::Pause { now } => {
                let k = s.steps_at(now as int);
                let rest = max_steps(s.stop_time - now, s.interval as int);
                let all = max_steps(s.stop_time - s.start_time, s.interval as int);
                lemma_steps_split(
                    now - s.start_time,
                    s.stop_time - s.start_time,
                    s.interval as int,
                );
                assert(k * s.rate_of_stream + s.rate_of_stream * rest <= s.rate_of_stream * all)
                    by (nonlinear_arith)
                    requires
                        k + rest <= all,
                        s.rate_of_stream >= 0,
                ;
                lemma_steps_monotone(0, now - s.start_time, s.interval as int);
                assert(k * s.rate_of_stream >= 0) by (nonlinear_arith)
                    requires
                        k >= 0,
                        s.rate_of_stream >= 0,
                ;
            },
            _ => {},
        }
    }
}

/// On a funded record from which nothing was released ahead of the
/// schedule, the accrual at any later time is payable, so that no action at
/// such a time fails for its amount; and the action, unless it is a reload,
/// leaves the record funded and settled as of its own time.
pub proof fn lemma_bounded_step(s: StreamAccount, action: Action, at: int)
    requires
        s.wf(),
        s.funded(),
        s.settled_at(at),
        action !is Reload,
        at <= time_of(action).unwrap(),
    ensures
        !s.is_paused && !s.is_cancelled && s.start_time <= time_of(action).unwrap() ==> s.payable(
            time_of(action).unwrap() as int,
        ),
        s.after(action).funded(),
        s.after(action).settled_at(time_of(action).unwrap() as int),
{
    let now = time_of(action).unwrap();
    lemma_settled_later(s, at, now as int);
    lemma_action_keeps_funded(s, action);
    if !s.is_paused && !s.is_cancelled && s.start_time <= now && now < s.stop_time {
        lemma_funded_is_payable(s, now as int, now as int);
    }
    if s.takes(action) {
        match action {
            Action::Resume { now } => {
                let t = s.after(action);
                assert(t.steps_at(now as int) == 0);
                assert(t.unlocked_at(now as int) == t.floor_amount()) by (nonlinear_arith)
                    requires
                        t.unlocked_at(now as int) == t.steps_at(now as int) * t.rate_of_stream
                            + t.floor_amount(),
                        t.steps_at(now as int) == 0,
                ;
            },
            _ => {},
        }
    }
}

/// Whether the actions come in the order of a clock that never runs back,
/// none of them earlier than `from`, and none of them a reload.
pub open spec fn in_order(actions: Seq<Action>, from: int) -> bool
    decreases actions.len(),
{
    actions.len() == 0 || (in_order(actions.drop_last(), from) && actions.last() !is Reload
        && last_time(actions.drop_last(), from) <= time_of(actions.last()).unwrap())
}

/// The time of the last of the actions; `from`, where there is none.
pub open spec fn last_time(actions: Seq<Action>, from: int) -> int {
    if actions.len() == 0 {
        from
    } else {
        match time_of(actions.last()) {
            Some(now) => now as int,
            None => from,
        }
    }
}

/// A funded record from which nothing was released ahead of the schedule
/// stays so along any sequence of withdrawals, pauses, resumptions and
/// cancellations in the order of time. So at every later time what has
/// accrued is payable: not negative, and no more than remains in escrow.
pub proof fn lemma_bounded_history(s: StreamAccount, actions: Seq<Action>, from: int, now: int)
    requires
        s.wf(),
        s.funded(),
        s.settled_at(from),
        in_order(actions, from),
        last_time(actions, from) <= now,
    ensures
        s.after_all(actions).wf(),
        s.after_all(actions).funded(),
        s.after_all(actions).settled_at(last_time(actions, from)),
        !s.after_all(actions).is_paused && !s.after_all(actions).is_cancelled && s.after_all(
            actions,
        ).start_time <= now ==> s.after_all(actions).payable(now),
    decreases actions.len(),
{
    lemma_history(s, actions);
    if actions.len() > 0 {
        let earlier = actions.drop_last();
        let at = last_time(earlier, from);
        lemma_bounded_history(s, earlier, from, at);
        lemma_bounded_step(s.after_all(earlier), actions.last(), at);
    }
    let t = s.after_all(actions);
    lemma_settled_later(t, last_time(actions, from), now);
    if !t.is_paused && !t.is_cancelled && t.start_time <= now && now < t.stop_time {
        lemma_funded_is_payable(t, now, now);
    }
}

/// A reload with a whole number of rate steps keeps a funded record funded.
pub proof fn lemma_reload_keeps_funded(s: StreamAccount, amount: u64)
    requires
        s.wf(),
        s.funded(),
        s.takes(Action::Reload { amount }),
        amount % s.rate_of_stream == 0,
    ensures
        s.after(Action::Reload { amount }).funded(),
{
    let rate = s.rate_of_stream as int;
    let interval = s.interval as int;
    let n = (amount as int) / rate;
    lemma_rounded_duration_exact(amount as int, interval, rate);
    lemma_fundamental_div_mod(amount as int, rate);
    assert(amount == rate * n);
    assert(n >= 1) by (nonlinear_arith)
        requires
            amount == rate * n,
            amount >= rate,
            rate > 0,
    ;
    let span = s.span();
    let extra = n * interval;
    assert(extra >= 1) by (nonlinear_arith)
        requires
            extra == n * interval,
            n >= 1,
            interval >= 1,
    ;
    let t = s.after(Action::Reload { amount });
    assert(t.span() == span + extra);
    if span > 0 {
        let m = (span - 1) / interval;
        let r = (span - 1) % interval;
        lemma_fundamental_div_mod(span - 1, interval);
        assert(span + extra - 1 == (m + n) * interval + r) by (nonlinear_arith)
            requires
                span - 1 == interval * m + r,
                extra == n * interval,
        ;
        lemma_fundamental_div_mod_converse(span + extra - 1, interval, m + n, r);
        assert(rate * (m + n) == rate * m + amount) by (nonlinear_arith)
            requires
                amount == rate * n,
        ;
    } else {
        assert(n * interval == interval * n) by (nonlinear_arith);
        lemma_max_steps_of_whole(n, interval);
        assert(rate * (n - 1) <= amount) by (nonlinear_arith)
            requires
                amount == rate * n,
                rate >= 0,
        ;
        assert(rate * 0 == 0);
    }
}

} // verus!
