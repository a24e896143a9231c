//! Opaque long-lived API keys.
//!
//! A key is the lowercase hexadecimal form of the SHA-256 digest of 32
//! random bytes: 64 hexadecimal characters.

use vstd::prelude::*;
use sha2::Digest;
use rand::Rng;
use crate::ids::{hex_char, is_hex_digit};

verus! {

/// The digest that SHA-256 assigns to `data`.  It is a function of the
/// input bytes alone; its value is not stated here.
pub uninterp spec fn sha256_of(data: Seq<u8>) -> Seq<u8>;

/// The lowercase hexadecimal encoding of `bytes`: two digits per byte,
/// high nibble first.
pub open spec fn spec_hex_encode(bytes: Seq<u8>) -> Seq<char> {
    Seq::new(
        bytes.len() * 2,
        |i: int| if i % 2 == 0 { hex_char(bytes[i / 2] as int / 16) } else { hex_char(bytes[i / 2] as int % 16) },
    )
}

/// Draws the random material a fresh key is derived from.
///
/// Relies on `rand::thread_rng` and `rand::Rng::gen`: 32 bytes from the
/// thread-local generator.  Nothing is promised of their values.
#[verifier::external_body]
fn random_seed_bytes() -> (r: [u8; 32]) {
    rand::thread_rng().gen()
}

/// Computes a SHA-256 digest.
///
/// Relies on `sha2::Sha256` (`Digest::update`, `Digest::finalize`): the
/// digest depends on the input bytes alone and is 32 bytes long.
#[verifier::external_body]
fn sha256(data: &[u8]) -> (r: Vec<u8>)
    ensures
        r@ == sha256_of(data@),
        r@.len() == 32,
{
    let mut hasher = sha2::Sha256::new();
    hasher.update(data);
    hasher.finalize().to_vec()
}

/// Encodes bytes as lowercase hexadecimal text.
///
/// Relies on `hex::encode`: two lowercase hexadecimal digits per byte,
/// high nibble first.
#[verifier::external_body]
fn hex_encode(data: &[u8]) -> (r: String)
    ensures
        r@ == spec_hex_encode(data@),
{
    hex::encode(data)
}

/// The shape of every key this module hands out: 64 hexadecimal
/// characters.
pub open spec fn spec_is_api_key(s: Seq<char>) -> bool {
    &&& s.len() == 64
    &&& forall|i: int| 0 <= i < 64 ==> is_hex_digit(#[trigger] s[i])
}

/// Every lowercase hexadecimal encoding consists of hexadecimal digits.
proof fn lemma_hex_encode_is_hex(bytes: Seq<u8>)
    ensures
        spec_hex_encode(bytes).len() == bytes.len() * 2,
        forall|i: int| 0 <= i < bytes.len() * 2 ==> is_hex_digit(#[trigger] spec_hex_encode(bytes)[i]),
{
    assert forall|i: int| 0 <= i < bytes.len() * 2 implies is_hex_digit(
        #[trigger] spec_hex_encode(bytes)[i],
    ) by {
        let b = bytes[i / 2] as int;
        assert(0 <= b / 16 < 16 && 0 <= b % 16 < 16);
        if i % 2 == 0 {
            crate::ids::lemma_hex_val_of_hex_char(b / 16);
        } else {
            crate::ids::lemma_hex_val_of_hex_char(b % 16);
        }
    }
}

/// Derives a fresh opaque key: the hexadecimal digest of random bytes.
pub(crate) fn generate_api_key() -> (k: String)
    ensures
        spec_is_api_key(k@),
{
    let seed = random_seed_bytes();
    let digest = sha256(seed.as_slice());
    let k = hex_encode(digest.as_slice());
    proof {
        lemma_hex_encode_is_hex(digest@);
    }
    k
}

} // verus!
