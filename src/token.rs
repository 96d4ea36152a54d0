use vstd::prelude::*;
use vstd::utf8::encode_utf8;

verus! {

/// The 64-bit SeaHash digest of a byte sequence.
pub uninterp spec fn seahash_of(bytes: Seq<u8>) -> u64;

/// The token that a secret maps to: the SeaHash of its UTF-8 encoding.
pub open spec fn token_spec(secret: Seq<char>) -> u64 {
    seahash_of(encode_utf8(secret))
}

/// Relies on `seahash::hash`: a pure function of the bytes it is given,
/// with fixed seeds, so equal inputs give equal digests.
pub assume_specification[ seahash::hash ](buf: &[u8]) -> (r: u64)
    ensures
        r == seahash_of(buf@),
;

/// Hashes a user-supplied secret into the 64-bit authentication token.
pub fn hash_token(secret: &str) -> (r: u64)
    ensures
        r == token_spec(secret@),
{
    seahash::hash(secret.as_bytes())
}

} // verus!
