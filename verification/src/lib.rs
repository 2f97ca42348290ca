//! A token-streaming escrow: a sender locks an amount that unlocks linearly
//! over a window of time, and the recipient withdraws what has vested, as
//! often as they like, until the stream is drained.

pub mod address;
pub mod engine;
pub mod error;
pub mod laws;
pub mod store;
pub mod stream;
pub mod vesting;

pub use address::build_signer_seeds;
pub use address::build_stream_seeds;
pub use address::find_stream_address;
pub use address::same_address;
pub use address::Address;
pub use engine::create_stream;
pub use engine::initialize;
pub use engine::withdraw;
pub use engine::CreateStream;
pub use engine::Initialize;
pub use engine::Transfer;
pub use engine::Withdraw;
pub use error::ErrorCode;
pub use store::StreamStore;
pub use stream::PaymentStream;
pub use vesting::vested_amount;
