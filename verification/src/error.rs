//! The failures that building a transaction or a block can report.

use vstd::prelude::*;

verus! {

/// Why a transaction or a block could not be built.
#[derive(Debug, Clone, Copy, PartialEq, Eq, Structural)]
pub enum Error {
    /// The system clock reports a time before the Unix epoch.
    Clock,
    /// The canonical encoding of a payload failed, or the payload is too long
    /// to be hashed.
    Encoding,
    /// The spendable outputs of the spender sum to less than the requested
    /// amount; `available` is that sum.
    InsufficientBalance { available: i32 },
    /// The all-zero prefix that a digest is compared with could not be built.
    /// The prefix is compared character by character, so no function of this
    /// crate returns this variant.
    DegenerateEncoding,
    /// Every nonce was tried and none gave a digest that meets the target.
    NonceSpaceExhausted,
}

} // verus!
