//! SHA-256 digests, rendered as lower-case hexadecimal strings.

use vstd::prelude::*;
use crypto::digest::Digest;
use crypto::sha2::Sha256;

verus! {

/// Number of leading hexadecimal zeros that the digest of a block must have.
pub const TARGET_HEXT: usize = 4;

/// Number of bytes from which on a message is too long to be hashed: its
/// length in bits no longer fits in 64 bits.
pub const DIGEST_INPUT_LIMIT: u64 = 0x2000_0000_0000_0000;

/// The SHA-256 digest of `data`, as the hexadecimal string that the hasher
/// renders.
pub uninterp spec fn sha256_hex(data: Seq<u8>) -> Seq<char>;

/// Whether a character is a hexadecimal digit in lower case.
pub open spec fn is_lower_hex(c: char) -> bool {
    ('0' <= c && c <= '9') || ('a' <= c && c <= 'f')
}

/// Whether a string has the form of a digest: 64 hexadecimal digits in lower
/// case.
pub open spec fn is_hex_digest(s: Seq<char>) -> bool {
    &&& s.len() == 64
    &&& forall|i: int| 0 <= i < 64 ==> is_lower_hex(#[trigger] s[i])
}

/// Whether a message is short enough to be hashed.
pub open spec fn digestible(data: Seq<u8>) -> bool {
    data.len() < DIGEST_INPUT_LIMIT
}

/// The digest of a message, where it has one.
pub open spec fn hex_digest_of(data: Seq<u8>) -> Option<Seq<char>> {
    if digestible(data) {
        Some(sha256_hex(data))
    } else {
        None
    }
}

/// Whether a digest starts with `TARGET_HEXT` characters `'0'`.
pub open spec fn meets_target(hash: Seq<char>) -> bool {
    &&& hash.len() >= TARGET_HEXT
    &&& forall|i: int| 0 <= i < TARGET_HEXT ==> hash[i] == '0'
}

/// Calls `Sha256::new`, `Digest::input` and `Digest::result_str` of the
/// `crypto` crate on a fresh hasher. The result is a function of the message
/// alone and is named `sha256_hex`; it renders the 32 bytes of the digest as
/// 64 hexadecimal digits in lower case. The hasher refuses a message whose
/// length in bits overflows 64 bits, which the precondition leaves out.
#[verifier::external_body]
pub(crate) fn sha256_hex_of(data: &[u8]) -> (res: String)
    requires
        digestible(data@),
    ensures
        res@ == sha256_hex(data@),
        is_hex_digest(res@),
{
    let mut hasher = Sha256::new();
    hasher.input(data);
    hasher.result_str()
}

/// Hashes a message, unless it is too long to be hashed.
pub fn hex_digest(data: &[u8]) -> (res: Option<String>)
    ensures
        match res {
            Some(h) => hex_digest_of(data@) == Some(h@) && is_hex_digest(h@),
            None => hex_digest_of(data@).is_none(),
        },
{
    if data.len() as u64 >= DIGEST_INPUT_LIMIT {
        None
    } else {
        Some(sha256_hex_of(data))
    }
}

/// Tells whether a digest starts with `TARGET_HEXT` characters `'0'`.
pub fn has_zero_prefix(hash: &str) -> (res: bool)
    ensures
        res == meets_target(hash@),
{
    if hash.unicode_len() < TARGET_HEXT {
        return false;
    }
    let mut i: usize = 0;
    while i < TARGET_HEXT
        invariant
            i <= TARGET_HEXT <= hash@.len(),
            forall|j: int| 0 <= j < i ==> hash@[j] == '0',
        decreases TARGET_HEXT - i,
    {
        if hash.get_char(i) != '0' {
            return false;
        }
        i += 1;
    }
    true
}

/// A digest that meets the target starts with the four characters `0000`.
pub proof fn lemma_target_prefix(hash: Seq<char>)
    requires
        meets_target(hash),
    ensures
        hash.len() >= 4,
        hash.subrange(0, 4) == "0000"@,
{
    reveal_strlit("0000");
    assert(hash.subrange(0, 4) =~= "0000"@);
}

} // verus!
