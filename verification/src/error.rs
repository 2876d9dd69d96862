//! Why an operation was refused. A refused operation changes nothing.

use vstd::prelude::*;

verus! {

/// The reasons for which the ledger refuses an operation.
#[derive(Clone, Copy, Debug, PartialEq, Eq, Structural)]
pub enum MyError {
    SenderIsRecipient,
    DepositIsZero,
    IntervalIsZero,
    AmountIsZero,
    PastStartTime,
    FutureStartTime,
    DepositSmallerThanTime,
    DepositNotMultipleOfTime,
    IncorrectStreamId,
    TitleTooLong,
    NothingToWithdraw,
    IncorrectRecipient,
    IncorrectSender,
    IncorrectTokenAddress,
    StreamNotStarted,
    StreamIsPaused,
    StreamAlreadyPaused,
    StreamNotPaused,
    StreamAlreadyEnded,
    StreamAlreadyCancelled,
    StreamNotEmpty,
    NotInfiniteStream,
    NotAuthorized,
    InvalidCancelBy,
    InvalidPauseBy,
    InvalidWithdrawBy,
    InvalidResumeBy,
    InvalidEditBy,
    IncorrectDuration,
    AssociatedTokenAccountIncorrect,
    /// A time or an amount that the operation would have to store does not
    /// fit in 64 bits.
    ArithmeticOverflow,
    /// The schedule asks for less than was already released, or for more
    /// than the escrow holds.
    AccrualOutOfBounds,
}

/// The broad classes into which the reasons fall.
#[derive(Clone, Copy, Debug, PartialEq, Eq, Structural)]
pub enum ErrorKind {
    InvalidArgument,
    IdentityMismatch,
    NotAuthorized,
    InvalidState,
    NothingToWithdraw,
}

impl MyError {
    /// The class of this reason.
    pub open spec fn spec_kind(self) -> ErrorKind {
        match self {
            MyError::DepositIsZero
            | MyError::IntervalIsZero
            | MyError::AmountIsZero
            | MyError::PastStartTime
            | MyError::FutureStartTime
            | MyError::DepositSmallerThanTime
            | MyError::DepositNotMultipleOfTime
            | MyError::TitleTooLong
            | MyError::InvalidCancelBy
            | MyError::InvalidPauseBy
            | MyError::InvalidWithdrawBy
            | MyError::InvalidResumeBy
            | MyError::InvalidEditBy
            | MyError::IncorrectDuration
            | MyError::ArithmeticOverflow => ErrorKind::InvalidArgument,
            MyError::SenderIsRecipient
            | MyError::IncorrectStreamId
            | MyError::IncorrectRecipient
            | MyError::IncorrectSender
            | MyError::IncorrectTokenAddress
            | MyError::AssociatedTokenAccountIncorrect => ErrorKind::IdentityMismatch,
            MyError::NotAuthorized => ErrorKind::NotAuthorized,
            MyError::StreamNotStarted
            | MyError::StreamIsPaused
            | MyError::StreamAlreadyPaused
            | MyError::StreamNotPaused
            | MyError::StreamAlreadyEnded
            | MyError::StreamAlreadyCancelled
            | MyError::StreamNotEmpty
            | MyError::NotInfiniteStream
            | MyError::AccrualOutOfBounds => ErrorKind::InvalidState,
            MyError::NothingToWithdraw => ErrorKind::NothingToWithdraw,
        }
    }

    /// The class of this reason.
    #[verifier::when_used_as_spec(spec_kind)]
    pub fn kind(self) -> (k: ErrorKind)
        ensures
            k == self.spec_kind(),
    {
        match self {
            MyError::DepositIsZero
            | MyError::IntervalIsZero
            | MyError::AmountIsZero
            | MyError::PastStartTime
            | MyError::FutureStartTime
            | MyError::DepositSmallerThanTime
            | MyError::DepositNotMultipleOfTime
            | MyError::TitleTooLong
            | MyError::InvalidCancelBy
            | MyError::InvalidPauseBy
            | MyError::InvalidWithdrawBy
            | MyError::InvalidResumeBy
            | MyError::InvalidEditBy
            | MyError::IncorrectDuration
            | MyError::ArithmeticOverflow => ErrorKind::InvalidArgument,
            MyError::SenderIsRecipient
            | MyError::IncorrectStreamId
            | MyError::IncorrectRecipient
            | MyError::IncorrectSender
            | MyError::IncorrectTokenAddress
            | MyError::AssociatedTokenAccountIncorrect => ErrorKind::IdentityMismatch,
            MyError::NotAuthorized => ErrorKind::NotAuthorized,
            MyError::StreamNotStarted
            | MyError::StreamIsPaused
            | MyError::StreamAlreadyPaused
            | MyError::StreamNotPaused
            | MyError::StreamAlreadyEnded
            | MyError::StreamAlreadyCancelled
            | MyError::StreamNotEmpty
            | MyError::NotInfiniteStream
            | MyError::AccrualOutOfBounds => ErrorKind::InvalidState,
            MyError::NothingToWithdraw => ErrorKind::NothingToWithdraw,
        }
    }
}

} // verus!
