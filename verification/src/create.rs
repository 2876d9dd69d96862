//! Opening a stream: the terms are checked, the schedule is derived, and
//! the record is written in one step.

use vstd::prelude::*;
use vstd::arithmetic::div_mod::lemma_fundamental_div_mod;
use crate::address::Address;
use crate::address::blank_bytes;
use crate::auth::StateChangeAuth;
use crate::auth::decoded3;
use crate::auth::decoded4;
use crate::contexts::CreateStream;
use crate::contexts::CreateStreamToken;
use crate::error::MyError;
use crate::reload::reload_transfers;
use crate::schedule::effective_duration;
use crate::schedule::lemma_max_steps_of_whole;
use crate::schedule::lemma_rounded_duration_exact;
use crate::schedule::max_steps;
use crate::schedule::round_duration;
use crate::schedule::rounded_duration;
use crate::stream::StreamAccount;
use crate::stream::Transfers;

verus! {

/// The five policies of a stream.
#[derive(Clone, Copy, Debug, PartialEq, Eq, Structural)]
pub struct Policies {
    pub cancel_by: StateChangeAuth,
    pub pause_by: StateChangeAuth,
    pub resume_by: StateChangeAuth,
    pub withdraw_by: StateChangeAuth,
    pub edit_by: StateChangeAuth,
}

/// The first of the terms of a new stream that is not acceptable, in the
/// order in which they are checked, if there is one. An amount that does not
/// exceed the cliff by a full rate step is too small.
pub open spec fn terms_fault(
    title: Seq<char>,
    sender: Seq<u8>,
    recipient: Seq<u8>,
    amount: u64,
    cliff_amount: u64,
    start_time: u64,
    now: u64,
    interval: u64,
    rate: u64,
) -> Option<MyError> {
    if title.len() > 50 {
        Some(MyError::TitleTooLong)
    } else if recipient == sender {
        Some(MyError::SenderIsRecipient)
    } else if amount == 0 {
        Some(MyError::DepositIsZero)
    } else if start_time < now {
        Some(MyError::PastStartTime)
    } else if interval == 0 {
        Some(MyError::IntervalIsZero)
    } else if amount - cliff_amount < rate {
        Some(MyError::DepositSmallerThanTime)
    } else {
        None
    }
}

/// The policies that five selectors stand for, or the first that is out of
/// range, in the order in which a stream of the native currency checks
/// them.
pub open spec fn native_policies(cancel_by: u8, pause_by: u8, resume_by: u8, withdraw_by: u8, edit_by: u8) -> Result<
    Policies,
    MyError,
> {
    if decoded4(cancel_by) is None {
        Err(MyError::InvalidCancelBy)
    } else if decoded3(withdraw_by) is None {
        Err(MyError::InvalidWithdrawBy)
    } else if decoded3(edit_by) is None {
        Err(MyError::InvalidEditBy)
    } else if decoded4(pause_by) is None {
        Err(MyError::InvalidPauseBy)
    } else if decoded4(resume_by) is None {
        Err(MyError::InvalidResumeBy)
    } else {
        Ok(
            Policies {
                cancel_by: decoded4(cancel_by).unwrap(),
                pause_by: decoded4(pause_by).unwrap(),
                resume_by: decoded4(resume_by).unwrap(),
                withdraw_by: decoded3(withdraw_by).unwrap(),
                edit_by: decoded3(edit_by).unwrap(),
            },
        )
    }
}

/// The policies that five selectors stand for, or the first that is out of
/// range, in the order in which a stream of a token checks them.
pub open spec fn token_policies(cancel_by: u8, pause_by: u8, resume_by: u8, withdraw_by: u8, edit_by: u8) -> Result<
    Policies,
    MyError,
> {
    if decoded4(cancel_by) is None {
        Err(MyError::InvalidCancelBy)
    } else if decoded4(pause_by) is None {
        Err(MyError::InvalidPauseBy)
    } else if decoded3(withdraw_by) is None {
        Err(MyError::InvalidWithdrawBy)
    } else if decoded4(resume_by) is None {
        Err(MyError::InvalidResumeBy)
    } else if decoded3(edit_by) is None {
        Err(MyError::InvalidEditBy)
    } else {
        Ok(
            Policies {
                cancel_by: decoded4(cancel_by).unwrap(),
                pause_by: decoded4(pause_by).unwrap(),
                resume_by: decoded4(resume_by).unwrap(),
                withdraw_by: decoded3(withdraw_by).unwrap(),
                edit_by: decoded3(edit_by).unwrap(),
            },
        )
    }
}

/// The stop time of a new stream of `net` beyond its cliff. The declared
/// duration must be the time that `net` lasts at the rate, and the stop time
/// must fit in 64 bits.
pub open spec fn stop_outcome(net: int, start_time: u64, interval: u64, rate: u64, duration: u64) -> Result<
    u64,
    MyError,
> {
    if rate == 0 || duration != rounded_duration(net, interval as int, rate as int) {
        Err(MyError::IncorrectDuration)
    } else if start_time + effective_duration(net, rate as int, interval as int, duration as int)
        > u64::MAX {
        Err(MyError::ArithmeticOverflow)
    } else {
        Ok((start_time + effective_duration(net, rate as int, interval as int, duration as int)) as u64)
    }
}

/// The outcome of opening a stream, from the outcomes of its three groups
/// of checks: the terms first, then the selectors, then the schedule.
pub open spec fn create_outcome(
    fault: Option<MyError>,
    policies: Result<Policies, MyError>,
    stop: Result<u64, MyError>,
) -> Result<(Policies, u64), MyError> {
    match fault {
        Some(e) => Err(e),
        None => match policies {
            Err(e) => Err(e),
            Ok(p) => match stop {
                Err(e) => Err(e),
                Ok(t) => Ok((p, t)),
            },
        },
    }
}

/// The record of a stream that has just been opened: all of `amount` is in
/// escrow, nothing is released, and the schedule runs from `start_time` to
/// `stop_time`.
pub open spec fn opened(
    stream_id: String,
    stream_title: String,
    sender: Address,
    recipient: Address,
    token_address: Address,
    bump: u8,
    amount: u64,
    cliff_amount: u64,
    is_cliff_percent: bool,
    start_time: u64,
    stop_time: u64,
    now: u64,
    interval: u64,
    rate: u64,
    is_infinite: bool,
    policies: Policies,
) -> StreamAccount {
    StreamAccount {
        stream_id,
        stream_title,
        recipient,
        sender,
        token_address,
        create_time: now,
        start_time,
        stop_time,
        remaining_balance: amount,
        deposit: amount,
        withdrawn: 0,
        cliff_amount,
        interval,
        rate_of_stream: rate,
        time_left: 0,
        paused_amount: 0,
        bump,
        cancel_by: policies.cancel_by,
        pause_by: policies.pause_by,
        resume_by: policies.resume_by,
        withdraw_by: policies.withdraw_by,
        edit_by: policies.edit_by,
        is_cliff_percent,
        is_paused: false,
        is_cancelled: false,
        is_infinite,
    }
}

/// A schedule that passes the checks spans a whole number of intervals, one
/// for each rate step that the net amount starts, so the steps that can
/// elapse before its end unlock less than the net amount.
pub proof fn lemma_new_schedule_is_covered(net: int, start_time: u64, interval: u64, rate: u64, duration: u64)
    requires
        interval > 0,
        net >= rate,
        stop_outcome(net, start_time, interval, rate, duration) is Ok,
    ensures
        effective_duration(net, rate as int, interval as int, duration as int) >= 1,
        rate * max_steps(
            effective_duration(net, rate as int, interval as int, duration as int),
            interval as int,
        ) <= net,
{
    let n = net / (rate as int);
    let r = net % (rate as int);
    lemma_fundamental_div_mod(net, rate as int);
    assert(n >= 1) by (nonlinear_arith)
        requires
            net == rate * n + r,
            0 <= r < rate,
            net >= rate,
    ;
    if r > 0 {
        lemma_max_steps_of_whole(n + 1, interval as int);
        assert(rate * n <= net) by (nonlinear_arith)
            requires
                net == rate * n + r,
                r >= 0,
        ;
    } else {
        lemma_rounded_duration_exact(net, interval as int, rate as int);
        assert(n * interval == interval * n) by (nonlinear_arith);
        lemma_max_steps_of_whole(n, interval as int);
        assert(rate * (n - 1) <= net) by (nonlinear_arith)
            requires
                net == rate * n + r,
                r >= 0,
                rate >= 0,
        ;
    }
}

/// Checks the terms of a new stream.
pub fn check_terms(
    title: &String,
    sender: &Address,
    recipient: &Address,
    amount: u64,
    cliff_amount: u64,
    start_time: u64,
    now: u64,
    interval: u64,
    rate: u64,
) -> (r: Option<MyError>)
    ensures
        r == terms_fault(
            title@,
            sender@,
            recipient@,
            amount,
            cliff_amount,
            start_time,
            now,
            interval,
            rate,
        ),
{
    if title.as_str().unicode_len() > 50 {
        return Some(MyError::TitleTooLong);
    }
    if recipient.same(sender) {
        return Some(MyError::SenderIsRecipient);
    }
    if amount == 0 {
        return Some(MyError::DepositIsZero);
    }
    if start_time < now {
        return Some(MyError::PastStartTime);
    }
    if interval == 0 {
        return Some(MyError::IntervalIsZero);
    }
    if amount < cliff_amount || amount - cliff_amount < rate {
        return Some(MyError::DepositSmallerThanTime);
    }
    None
}

/// Reads the five selectors of a stream of the native currency.
pub fn read_native_policies(cancel_by: u8, pause_by: u8, resume_by: u8, withdraw_by: u8, edit_by: u8) -> (r:
    Result<Policies, MyError>)
    ensures
        r == native_policies(cancel_by, pause_by, resume_by, withdraw_by, edit_by),
{
    let cancel = match StateChangeAuth::from_selector(cancel_by) {
        None => { return Err(MyError::InvalidCancelBy); },
        Some(p) => p,
    };
    let withdraw = match StateChangeAuth::from_open_selector(withdraw_by) {
        None => { return Err(MyError::InvalidWithdrawBy); },
        Some(p) => p,
    };
    let edit = match StateChangeAuth::from_open_selector(edit_by) {
        None => { return Err(MyError::InvalidEditBy); },
        Some(p) => p,
    };
    let pause = match StateChangeAuth::from_selector(pause_by) {
        None => { return Err(MyError::InvalidPauseBy); },
        Some(p) => p,
    };
    let resume = match StateChangeAuth::from_selector(resume_by) {
        None => { return Err(MyError::InvalidResumeBy); },
        Some(p) => p,
    };
    Ok(
        Policies {
            cancel_by: cancel,
            pause_by: pause,
            resume_by: resume,
            withdraw_by: withdraw,
            edit_by: edit,
        },
    )
}

/// Reads the five selectors of a stream of a token.
pub fn read_token_policies(cancel_by: u8, pause_by: u8, resume_by: u8, withdraw_by: u8, edit_by: u8) -> (r:
    Result<Policies, MyError>)
    ensures
        r == token_policies(cancel_by, pause_by, resume_by, withdraw_by, edit_by),
{
    let cancel = match StateChangeAuth::from_selector(cancel_by) {
        None => { return Err(MyError::InvalidCancelBy); },
        Some(p) => p,
    };
    let pause = match StateChangeAuth::from_selector(pause_by) {
        None => { return Err(MyError::InvalidPauseBy); },
        Some(p) => p,
    };
    let withdraw = match StateChangeAuth::from_open_selector(withdraw_by) {
        None => { return Err(MyError::InvalidWithdrawBy); },
        Some(p) => p,
    };
    let resume = match StateChangeAuth::from_selector(resume_by) {
        None => { return Err(MyError::InvalidResumeBy); },
        Some(p) => p,
    };
    let edit = match StateChangeAuth::from_open_selector(edit_by) {
        None => { return Err(MyError::InvalidEditBy); },
        Some(p) => p,
    };
    Ok(
        Policies {
            cancel_by: cancel,
            pause_by: pause,
            resume_by: resume,
            withdraw_by: withdraw,
            edit_by: edit,
        },
    )
}

/// Derives the stop time of a new stream of `net` beyond its cliff.
pub fn stop_time_for(net: u64, start_time: u64, interval: u64, rate: u64, duration: u64) -> (r: Result<
    u64,
    MyError,
>)
    ensures
        r == stop_outcome(net as int, start_time, interval, rate, duration),
{
    if rate == 0 {
        return Err(MyError::IncorrectDuration);
    }
    let expected: u128 = round_duration(net, interval, rate);
    if expected != duration as u128 {
        return Err(MyError::IncorrectDuration);
    }
    let steps: u64 = net / rate;
    let effective: u128 = if net % rate > 0 {
        proof {
            assert(0 <= (interval as int) * (steps + 1) <= 0xffff_ffff_ffff_ffff
                * 0x1_0000_0000_0000_0000) by (nonlinear_arith)
                requires
                    0 <= interval <= 0xffff_ffff_ffff_ffff,
                    0 <= steps <= 0xffff_ffff_ffff_ffff,
            ;
        }
        (interval as u128) * ((steps as u128) + 1)
    } else {
        duration as u128
    };
    if effective > (u64::MAX - start_time) as u128 {
        return Err(MyError::ArithmeticOverflow);
    }
    Ok(start_time + (effective as u64))
}

/// Opens a stream of the native currency from `ctx.sender` to
/// `ctx.recipient` and writes its record, or refuses and changes nothing.
/// The stream starts at `now` where `start_now` is set, else at `start`.
/// On success all of `amount` is to be moved into escrow.
pub fn create_stream(
    ctx: &mut CreateStream,
    stream_id: String,
    stream_title: String,
    bump: u8,
    amount: u64,
    cliff_amount: u64,
    is_cliff_percent: bool,
    start: u64,
    interval: u64,
    rate: u64,
    duration: u64,
    is_infinite: bool,
    cancel_by: u8,
    pause_by: u8,
    resume_by: u8,
    withdraw_by: u8,
    edit_by: u8,
    start_now: bool,
    now: u64,
) -> (res: Result<Transfers, MyError>)
    ensures
        final(ctx).sender == old(ctx).sender,
        final(ctx).recipient == old(ctx).recipient,
        ({
            let start_time = if start_now {
                now
            } else {
                start
            };
            match create_outcome(
                terms_fault(
                    stream_title@,
                    old(ctx).sender@,
                    old(ctx).recipient@,
                    amount,
                    cliff_amount,
                    start_time,
                    now,
                    interval,
                    rate,
                ),
                native_policies(cancel_by, pause_by, resume_by, withdraw_by, edit_by),
                stop_outcome(amount - cliff_amount, start_time, interval, rate, duration),
            ) {
                Ok((policies, stop_time)) => res == Ok::<Transfers, MyError>(
                    reload_transfers(amount),
                ) && final(ctx).stream == opened(
                    stream_id,
                    stream_title,
                    old(ctx).sender,
                    old(ctx).recipient,
                    final(ctx).stream.token_address,
                    bump,
                    amount,
                    cliff_amount,
                    is_cliff_percent,
                    start_time,
                    stop_time,
                    now,
                    interval,
                    rate,
                    is_infinite,
                    policies,
                ),
                Err(e) => res == Err::<Transfers, MyError>(e) && final(ctx).stream == old(
                    ctx,
                ).stream,
            }
        }),
        res is Ok ==> final(ctx).stream.token_address@ == blank_bytes(),
        res is Ok ==> final(ctx).stream.wf() && final(ctx).stream.funded(),
        res is Ok ==> final(ctx).stream.settled_at(now as int),
{
    let start_time: u64 = if start_now {
        now
    } else {
        start
    };
    if let Some(e) = check_terms(
        &stream_title,
        &ctx.sender,
        &ctx.recipient,
        amount,
        cliff_amount,
        start_time,
        now,
        interval,
        rate,
    ) {
        return Err(e);
    }
    let net: u64 = amount - cliff_amount;
    let policies = match read_native_policies(cancel_by, pause_by, resume_by, withdraw_by, edit_by) {
        Err(e) => { return Err(e); },
        Ok(p) => p,
    };
    let stop_time: u64 = match stop_time_for(net, start_time, interval, rate, duration) {
        Err(e) => { return Err(e); },
        Ok(t) => t,
    };
    proof {
        lemma_new_schedule_is_covered(net as int, start_time, interval, rate, duration);
    }
    ctx.stream = StreamAccount {
        stream_id,
        stream_title,
        recipient: ctx.recipient,
        sender: ctx.sender,
        token_address: Address::blank(),
        create_time: now,
        start_time,
        stop_time,
        remaining_balance: amount,
        deposit: amount,
        withdrawn: 0,
        cliff_amount,
        interval,
        rate_of_stream: rate,
        time_left: 0,
        paused_amount: 0,
        bump,
        cancel_by: policies.cancel_by,
        pause_by: policies.pause_by,
        resume_by: policies.resume_by,
        withdraw_by: policies.withdraw_by,
        edit_by: policies.edit_by,
        is_cliff_percent,
        is_paused: false,
        is_cancelled: false,
        is_infinite,
    };
    Ok(Transfers { to_escrow: amount, to_recipient: 0, to_sender: 0 })
}

/// Opens a stream of the token `ctx.token_address` from `ctx.sender` to
/// `ctx.recipient` and writes its record, or refuses and changes nothing.
/// `values` holds, in this order, the amount, the cliff amount, the start
/// time, the interval, the rate and the declared duration. The stream starts
/// at `now` where `start_now` is set. On success all of the amount is to be
/// moved into escrow.
pub fn create_stream_token(
    ctx: &mut CreateStreamToken,
    stream_id: String,
    stream_title: String,
    values: Vec<u64>,
    is_cliff_percent: bool,
    is_infinite: bool,
    cancel_by: u8,
    pause_by: u8,
    resume_by: u8,
    withdraw_by: u8,
    edit_by: u8,
    start_now: bool,
    bump: u8,
    now: u64,
) -> (res: Result<Transfers, MyError>)
    requires
        values@.len() >= 6,
    ensures
        final(ctx).sender == old(ctx).sender,
        final(ctx).recipient == old(ctx).recipient,
        final(ctx).token_address == old(ctx).token_address,
        ({
            let amount = values@[0];
            let cliff_amount = values@[1];
            let interval = values@[3];
            let rate = values@[4];
            let duration = values@[5];
            let start_time = if start_now {
                now
            } else {
                values@[2]
            };
            match create_outcome(
                terms_fault(
                    stream_title@,
                    old(ctx).sender@,
                    old(ctx).recipient@,
                    amount,
                    cliff_amount,
                    start_time,
                    now,
                    interval,
                    rate,
                ),
                token_policies(cancel_by, pause_by, resume_by, withdraw_by, edit_by),
                stop_outcome(amount - cliff_amount, start_time, interval, rate, duration),
            ) {
                Ok((policies, stop_time)) => res == Ok::<Transfers, MyError>(
                    reload_transfers(amount),
                ) && final(ctx).stream == opened(
                    stream_id,
                    stream_title,
                    old(ctx).sender,
                    old(ctx).recipient,
                    old(ctx).token_address,
                    bump,
                    amount,
                    cliff_amount,
                    is_cliff_percent,
                    start_time,
                    stop_time,
                    now,
                    interval,
                    rate,
                    is_infinite,
                    policies,
                ),
                Err(e) => res == Err::<Transfers, MyError>(e) && final(ctx).stream == old(
                    ctx,
                ).stream,
            }
        }),
        res is Ok ==> final(ctx).stream.wf() && final(ctx).stream.funded(),
        res is Ok ==> final(ctx).stream.settled_at(now as int),
{
    let amount: u64 = values[0];
    let cliff_amount: u64 = values[1];
    let interval: u64 = values[3];
    let rate: u64 = values[4];
    let duration: u64 = values[5];
    let start_time: u64 = if start_now {
        now
    } else {
        values[2]
    };
    if let Some(e) = check_terms(
        &stream_title,
        &ctx.sender,
        &ctx.recipient,
        amount,
        cliff_amount,
        start_time,
        now,
        interval,
        rate,
    ) {
        return Err(e);
    }
    let net: u64 = amount - cliff_amount;
    let policies = match read_token_policies(cancel_by, pause_by, resume_by, withdraw_by, edit_by) {
        Err(e) => { return Err(e); },
        Ok(p) => p,
    };
    let stop_time: u64 = match stop_time_for(net, start_time, interval, rate, duration) {
        Err(e) => { return Err(e); },
        Ok(t) => t,
    };
    proof {
        lemma_new_schedule_is_covered(net as int, start_time, interval, rate, duration);
    }
    ctx.stream = StreamAccount {
        stream_id,
        stream_title,
        recipient: ctx.recipient,
        sender: ctx.sender,
        token_address: ctx.token_address,
        create_time: now,
        start_time,
        stop_time,
        remaining_balance: amount,
        deposit: amount,
        withdrawn: 0,
        cliff_amount,
        interval,
        rate_of_stream: rate,
        time_left: 0,
        paused_amount: 0,
        bump,
        cancel_by: policies.cancel_by,
        pause_by: policies.pause_by,
        resume_by: policies.resume_by,
        withdraw_by: policies.withdraw_by,
        edit_by: policies.edit_by,
        is_cliff_percent,
        is_paused: false,
        is_cancelled: false,
        is_infinite,
    };
    Ok(Transfers { to_escrow: amount, to_recipient: 0, to_sender: 0 })
}

} // verus!
