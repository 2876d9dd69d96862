//! What callers can rely on across calls: how the outcomes of the
//! operations relate to each other and to the state machine.

use vstd::prelude::*;
use crate::cancel::cancel_outcome;
use crate::cancel::cancel_token_outcome;
use crate::contexts::CancelStreamToken;
use crate::contexts::PauseStreamToken;
use crate::contexts::WithdrawFromStreamToken;
use crate::error::ErrorKind;
use crate::error::MyError;
use crate::history::Action;
use crate::pause::pause_outcome;
use crate::pause::pause_token_outcome;
use crate::pause::resume_outcome;
use crate::stream::StreamAccount;
use crate::withdraw::withdraw_outcome;
use crate::withdraw::withdraw_token_outcome;

verus! {

/// Every operation that is accepted is an action that the record takes,
/// whichever the currency: the checks of the caller and of the accounts
/// come on top of what the state machine asks.
pub proof fn lemma_accepted_is_taken(
    s: StreamAccount,
    authority: Seq<u8>,
    sender: Seq<u8>,
    recipient: Seq<u8>,
    stream_id: Seq<char>,
    now: u64,
)
    requires
        s.wf(),
    ensures
        withdraw_outcome(s, authority, recipient, stream_id, now) is Ok ==> s.takes(
            Action::Withdraw { now },
        ),
        pause_outcome(s, authority, recipient, stream_id, now) is Ok ==> s.takes(
            Action::Pause { now },
        ),
        resume_outcome(s, authority, stream_id, now) is Ok ==> s.takes(Action::Resume { now }),
        cancel_outcome(s, authority, sender, recipient, stream_id, now) is Ok ==> s.takes(
            Action::Cancel { now },
        ),
{
}

/// The same for the operations on a stream of a token.
pub proof fn lemma_accepted_token_is_taken(
    w: WithdrawFromStreamToken,
    p: PauseStreamToken,
    c: CancelStreamToken,
    stream_id: Seq<char>,
    now: u64,
    expected_tokens: Seq<u8>,
)
    requires
        w.stream.wf(),
        p.stream.wf(),
        c.stream.wf(),
    ensures
        withdraw_token_outcome(w, stream_id, now, expected_tokens) is Ok ==> w.stream.takes(
            Action::Withdraw { now },
        ),
        pause_token_outcome(p, stream_id, now, expected_tokens) is Ok ==> p.stream.takes(
            Action::Pause { now },
        ),
        cancel_token_outcome(c, stream_id, now, expected_tokens) is Ok ==> c.stream.takes(
            Action::Cancel { now },
        ),
{
}

/// A withdrawal at or after the stop time pays all that remains, and the
/// same withdrawal at any later time finds nothing to withdraw.
pub proof fn lemma_matured_withdraw_once(
    s: StreamAccount,
    authority: Seq<u8>,
    recipient: Seq<u8>,
    stream_id: Seq<char>,
    now: u64,
    later: u64,
)
    requires
        s.wf(),
        s.stop_time <= now <= later,
        withdraw_outcome(s, authority, recipient, stream_id, now) is Ok,
    ensures
        withdraw_outcome(s, authority, recipient, stream_id, now) == Ok::<u64, MyError>(
            s.remaining_balance,
        ),
        withdraw_outcome(
            s.after_release(s.remaining_balance),
            authority,
            recipient,
            stream_id,
            later,
        ) == Err::<u64, MyError>(MyError::NothingToWithdraw),
{
}

/// The same for a stream of a token: a matured withdrawal pays once.
pub proof fn lemma_matured_withdraw_token_once(
    c: WithdrawFromStreamToken,
    stream_id: Seq<char>,
    now: u64,
    later: u64,
    expected_tokens: Seq<u8>,
)
    requires
        c.stream.wf(),
        c.stream.stop_time <= now <= later,
        withdraw_token_outcome(c, stream_id, now, expected_tokens) is Ok,
    ensures
        withdraw_token_outcome(c, stream_id, now, expected_tokens) == Ok::<u64, MyError>(
            c.stream.remaining_balance,
        ),
        withdraw_token_outcome(
            WithdrawFromStreamToken {
                stream: c.stream.after_release(c.stream.remaining_balance),
                ..c
            },
            stream_id,
            later,
            expected_tokens,
        ) == Err::<u64, MyError>(MyError::NothingToWithdraw),
{
}

/// Cancellation is for good: on a cancelled stream every withdrawal, pause,
/// resumption and reload is refused for the state of the stream, whoever
/// calls, whichever stream is named, whatever the time and whatever amount
/// is offered.
pub proof fn lemma_cancelled_refuses(
    s: StreamAccount,
    authority: Seq<u8>,
    recipient: Seq<u8>,
    stream_id: Seq<char>,
    now: u64,
    amount: u64,
)
    requires
        s.is_cancelled,
    ensures
        withdraw_outcome(s, authority, recipient, stream_id, now) == Err::<u64, MyError>(
            MyError::StreamAlreadyCancelled,
        ),
        pause_outcome(s, authority, recipient, stream_id, now) == Err::<u64, MyError>(
            MyError::StreamAlreadyCancelled,
        ),
        resume_outcome(s, authority, stream_id, now) == Err::<(), MyError>(
            MyError::StreamAlreadyCancelled,
        ),
        s.reload_outcome(stream_id, amount) == Err::<u64, MyError>(
            MyError::StreamAlreadyCancelled,
        ),
        MyError::StreamAlreadyCancelled.spec_kind() == ErrorKind::InvalidState,
{
}

/// The same for a stream of a token: every withdrawal and pause of a
/// cancelled stream is refused for the state of the stream, whoever calls
/// and whichever accounts are presented.
pub proof fn lemma_cancelled_refuses_token(
    w: WithdrawFromStreamToken,
    p: PauseStreamToken,
    stream_id: Seq<char>,
    now: u64,
    expected_tokens: Seq<u8>,
)
    requires
        w.stream.is_cancelled,
        p.stream.is_cancelled,
    ensures
        withdraw_token_outcome(w, stream_id, now, expected_tokens) == Err::<u64, MyError>(
            MyError::StreamAlreadyCancelled,
        ),
        pause_token_outcome(p, stream_id, now, expected_tokens) == Err::<u64, MyError>(
            MyError::StreamAlreadyEnded,
        ),
        MyError::StreamAlreadyEnded.spec_kind() == ErrorKind::InvalidState,
{
}

} // verus!
