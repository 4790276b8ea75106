//! The transactional core of a minimal proof-of-work ledger: transactions
//! built over an unspent-output model, and blocks that commit to them by a
//! nonce search over SHA-256 digests.

pub mod error;
pub mod tx;
pub mod digest;
pub mod encoding;
pub mod transaction;
pub mod clock;
pub mod block;
