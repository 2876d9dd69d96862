//! What each operation is handed: the stream record and the addresses of
//! the accounts that take part, as the caller presented them.

use vstd::prelude::*;
use crate::address::Address;
use crate::stream::StreamAccount;

verus! {

/// Opening a stream of the native currency.
#[derive(Clone, Debug)]
pub struct CreateStream {
    pub stream: StreamAccount,
    pub sender: Address,
    pub recipient: Address,
}

/// Opening a stream of a token.
#[derive(Clone, Debug)]
pub struct CreateStreamToken {
    pub stream: StreamAccount,
    pub sender: Address,
    pub recipient: Address,
    pub token_address: Address,
}

/// Releasing what has accrued, in the native currency.
#[derive(Clone, Debug)]
pub struct WithdrawFromStream {
    pub stream: StreamAccount,
    pub authority: Address,
    pub recipient: Address,
}

/// Releasing what has accrued, in a token.
#[derive(Clone, Debug)]
pub struct WithdrawFromStreamToken {
    pub stream: StreamAccount,
    pub authority: Address,
    pub sender: Address,
    pub recipient: Address,
    pub recipient_tokens: Address,
    pub token_address: Address,
}

/// Ending a stream of the native currency for good.
#[derive(Clone, Debug)]
pub struct CancelStream {
    pub stream: StreamAccount,
    pub authority: Address,
    pub sender: Address,
    pub recipient: Address,
}

/// Ending a stream of a token for good.
#[derive(Clone, Debug)]
pub struct CancelStreamToken {
    pub stream: StreamAccount,
    pub authority: Address,
    pub recipient: Address,
    pub recipient_tokens: Address,
    /// The owner of the token account that is to take the refund.
    pub sender_tokens_owner: Address,
    pub token_address: Address,
}

/// Halting the schedule of a stream of the native currency.
#[derive(Clone, Debug)]
pub struct PauseStream {
    pub stream: StreamAccount,
    pub authority: Address,
    pub recipient: Address,
}

/// Halting the schedule of a stream of a token.
#[derive(Clone, Debug)]
pub struct PauseStreamToken {
    pub stream: StreamAccount,
    pub authority: Address,
    pub sender: Address,
    pub recipient: Address,
    pub recipient_tokens: Address,
    pub token_address: Address,
}

/// Taking up a halted schedule again.
#[derive(Clone, Debug)]
pub struct ResumeStream {
    pub stream: StreamAccount,
    pub authority: Address,
}

/// Adding funds to an open-ended stream of the native currency.
#[derive(Clone, Debug)]
pub struct ReloadStream {
    pub stream: StreamAccount,
}

/// Adding funds to an open-ended stream of a token.
#[derive(Clone, Debug)]
pub struct ReloadStreamToken {
    pub stream: StreamAccount,
}

/// Giving up the record of a drained stream.
#[derive(Clone, Debug)]
pub struct DeleteStream {
    pub stream: StreamAccount,
    pub sender: Address,
}

} // verus!
