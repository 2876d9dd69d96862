//! A payment-streaming ledger: escrowed funds unlock to a recipient in whole
//! intervals, and every balance change is decided here, in verified code.
//!
//! The ledger moves no funds and reads no clock. Each operation takes the
//! record of a stream, the addresses of the accounts that the caller
//! presented and the current time, decides whether the operation is
//! accepted, updates the record, and says what is to be moved. A refused
//! operation leaves the record as it was.

pub mod address;
pub mod associated;
pub mod auth;
pub mod cancel;
pub mod contexts;
pub mod create;
pub mod error;
pub mod history;
pub mod laws;
pub mod pause;
pub mod reload;
pub mod schedule;
pub mod stream;
pub mod withdraw;

pub use address::Address;
pub use auth::StateChangeAuth;
pub use cancel::cancel_stream;
pub use cancel::cancel_stream_token;
pub use contexts::CancelStream;
pub use contexts::CancelStreamToken;
pub use contexts::CreateStream;
pub use contexts::CreateStreamToken;
pub use contexts::DeleteStream;
pub use contexts::PauseStream;
pub use contexts::PauseStreamToken;
pub use contexts::ReloadStream;
pub use contexts::ReloadStreamToken;
pub use contexts::ResumeStream;
pub use contexts::WithdrawFromStream;
pub use contexts::WithdrawFromStreamToken;
pub use create::create_stream;
pub use create::create_stream_token;
pub use error::ErrorKind;
pub use error::MyError;
pub use pause::pause_stream;
pub use pause::pause_stream_token;
pub use pause::resume_stream;
pub use reload::delete_stream;
pub use reload::reload_stream;
pub use reload::reload_stream_token;
pub use stream::StreamAccount;
pub use stream::Transfers;
pub use withdraw::withdraw_from_stream;
pub use withdraw::withdraw_from_stream_token;
