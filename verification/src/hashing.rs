use vstd::prelude::*;
use blake2::{Blake2b, Digest, digest::consts::U16};

use crate::text::push_char;

verus! {

/// The 16-byte BLAKE2b digest (BLAKE2b with a 128-bit output) of `data`.
pub uninterp spec fn blake2b_128(data: Seq<u8>) -> Seq<u8>;

/// Computes BLAKE2b-128 of `data`.
///
/// Calls `Digest::digest` of `blake2::Blake2b<U16>` (a fresh hasher that
/// takes `data` and is finalized). The contract claims that the digest is the
/// named function of the input bytes and that it is 16 bytes long (the output
/// type is a `GenericArray` of length `U16`).
#[verifier::external_body]
fn blake2b_128_digest(data: &[u8]) -> (digest: Vec<u8>)
    ensures
        digest@ == blake2b_128(data@),
        digest@.len() == 16,
{
    Blake2b::<U16>::digest(data).to_vec()
}

/// The lower-case hexadecimal digit for a value below 16.
pub open spec fn hex_digit(n: int) -> char {
    if n < 10 {
        (n + 48) as char
    } else {
        (n + 87) as char
    }
}

/// Lower-case hexadecimal text of a byte sequence: two digits per byte,
/// high nibble first (what `format!("{:02x}", b)` gives for each byte).
pub open spec fn hex_lower(bytes: Seq<u8>) -> Seq<char>
    decreases bytes.len(),
{
    if bytes.len() == 0 {
        seq![]
    } else {
        hex_lower(bytes.drop_last()) + seq![
            hex_digit(bytes.last() as int / 16),
            hex_digit(bytes.last() as int % 16),
        ]
    }
}

/// The hash of an intent: the hex text of BLAKE2b-128 over its UTF-8 bytes.
pub open spec fn intent_hash(intent: Seq<char>) -> Seq<char> {
    hex_lower(blake2b_128(vstd::utf8::encode_utf8(intent)))
}

fn hex_digit_exec(n: u8) -> (c: char)
    requires
        n < 16,
    ensures
        c == hex_digit(n as int),
{
    if n < 10 {
        (n + 48) as char
    } else {
        (n + 87) as char
    }
}

/// Lower-case hex text of `bytes`.
pub fn to_hex_lower(bytes: &[u8]) -> (text: String)
    ensures
        text@ == hex_lower(bytes@),
{
    let mut text = String::new();
    let mut i: usize = 0;
    while i < bytes.len()
        invariant
            i <= bytes@.len(),
            text@ == hex_lower(bytes@.take(i as int)),
        decreases bytes@.len() - i,
    {
        let b = bytes[i];
        push_char(&mut text, hex_digit_exec(b / 16));
        push_char(&mut text, hex_digit_exec(b % 16));
        assert(bytes@.take(i + 1).drop_last() == bytes@.take(i as int));
        i = i + 1;
    }
    assert(bytes@.take(i as int) == bytes@);
    text
}

/// Hashes an intent string with BLAKE2b-128 and returns the 32-character
/// lower-case hex text of the digest.
pub fn hash_intent(intent: &str) -> (hash: String)
    ensures
        hash@ == intent_hash(intent@),
        hash@.len() == 32,
{
    let digest = blake2b_128_digest(intent.as_bytes());
    let hash = to_hex_lower(digest.as_slice());
    proof {
        lemma_hex_lower_len(digest@);
    }
    hash
}

/// Hex text has two digits per byte.
pub proof fn lemma_hex_lower_len(bytes: Seq<u8>)
    ensures
        hex_lower(bytes).len() == 2 * bytes.len(),
    decreases bytes.len(),
{
    if bytes.len() > 0 {
        lemma_hex_lower_len(bytes.drop_last());
    }
}

/// Value of a lower-case hexadecimal digit character.
pub open spec fn hex_value(c: char) -> int {
    if '0' <= c <= '9' {
        c as u32 - 48
    } else {
        c as u32 - 87
    }
}

/// Hex text round-trips: it has two characters per byte, every character is
/// one of `0`..`9` or `a`..`f`, and byte `k` is `16 * high + low` of the
/// digit values at positions `2k` and `2k + 1`.
pub proof fn lemma_hex_lower_round_trip(bytes: Seq<u8>)
    ensures
        hex_lower(bytes).len() == 2 * bytes.len(),
        forall|i: int|
            0 <= i < hex_lower(bytes).len() ==> ('0' <= #[trigger] hex_lower(bytes)[i] <= '9' || 'a'
                <= hex_lower(bytes)[i] <= 'f'),
        forall|k: int|
            0 <= k < bytes.len() ==> #[trigger] bytes[k] == 16 * hex_value(hex_lower(bytes)[2 * k])
                + hex_value(hex_lower(bytes)[2 * k + 1]),
    decreases bytes.len(),
{
    lemma_hex_lower_len(bytes);
    if bytes.len() > 0 {
        let init = bytes.drop_last();
        lemma_hex_lower_round_trip(init);
        let b = bytes.last();
        let hi = hex_digit(b as int / 16);
        let lo = hex_digit(b as int % 16);
        assert(hex_lower(bytes) == hex_lower(init) + seq![hi, lo]);
        assert forall|n: int| 0 <= n < 16 implies ('0' <= #[trigger] hex_digit(n) <= '9' || 'a'
            <= hex_digit(n) <= 'f') && hex_value(hex_digit(n)) == n by {
            vstd::utf8::char_u32_cast(hex_digit(n), hex_digit(n) as u32);
        }
        assert(hex_value(hi) == b as int / 16);
        assert(hex_value(lo) == b as int % 16);
        assert forall|k: int| 0 <= k < bytes.len() implies #[trigger] bytes[k] == 16 * hex_value(
            hex_lower(bytes)[2 * k],
        ) + hex_value(hex_lower(bytes)[2 * k + 1]) by {
            if k < init.len() {
                assert(bytes[k] == init[k]);
                assert(hex_lower(bytes)[2 * k] == hex_lower(init)[2 * k]);
                assert(hex_lower(bytes)[2 * k + 1] == hex_lower(init)[2 * k + 1]);
            } else {
                assert(k == init.len());
                assert(hex_lower(bytes)[2 * k] == hi);
                assert(hex_lower(bytes)[2 * k + 1] == lo);
            }
        }
    }
}

} // verus!
