//! The commitment: the accepted hash algorithms, and the hash of a secret
//! as the escrow stores and compares it.

use crate::text::str_eq;
use sha3::Digest;
use vstd::prelude::*;
use vstd::utf8::encode_utf8;

verus! {

/// The SHA3-256 digest of `data`, 32 bytes.
pub uninterp spec fn sha3_256_digest(data: Seq<u8>) -> Seq<u8>;

/// The SHA3-512 digest of `data`, 64 bytes.
pub uninterp spec fn sha3_512_digest(data: Seq<u8>) -> Seq<u8>;

/// The Keccak-256 digest of `data`, 32 bytes.
pub uninterp spec fn keccak256_digest(data: Seq<u8>) -> Seq<u8>;

/// The Keccak-512 digest of `data`, 64 bytes.
pub uninterp spec fn keccak512_digest(data: Seq<u8>) -> Seq<u8>;

/// The BLAKE2b digest of `data` at a length of 32 bytes.
pub uninterp spec fn blake2b_digest(data: Seq<u8>) -> Seq<u8>;

/// The sixteen digits of lower-case hexadecimal.
pub open spec fn hex_digit(nibble: int) -> char {
    seq!['0', '1', '2', '3', '4', '5', '6', '7', '8', '9', 'a', 'b', 'c', 'd', 'e', 'f'][nibble]
}

/// Bytes written in lower-case hexadecimal: two digits for each byte, the
/// high half of the byte first.
pub open spec fn hex_lower(bytes: Seq<u8>) -> Seq<char> {
    Seq::new(
        2 * bytes.len(),
        |i: int|
            if i % 2 == 0 {
                hex_digit(bytes[i / 2] as int / 16)
            } else {
                hex_digit(bytes[i / 2] as int % 16)
            },
    )
}

/// Whether `hash_type` names one of the accepted hash algorithms.
pub open spec fn spec_check_hash_type(hash_type: Seq<char>) -> bool {
    ||| hash_type == "sha3-256"@
    ||| hash_type == "sha3-512"@
    ||| hash_type == "Keccak256"@
    ||| hash_type == "Keccak512"@
    ||| hash_type == "blake2b"@
}

/// The digest of `data` under the algorithm that `hash_type` names; under
/// a name that is not accepted, no bytes at all.
pub open spec fn spec_digest(hash_type: Seq<char>, data: Seq<u8>) -> Seq<u8> {
    if hash_type == "sha3-256"@ {
        sha3_256_digest(data)
    } else if hash_type == "sha3-512"@ {
        sha3_512_digest(data)
    } else if hash_type == "Keccak256"@ {
        keccak256_digest(data)
    } else if hash_type == "Keccak512"@ {
        keccak512_digest(data)
    } else if hash_type == "blake2b"@ {
        blake2b_digest(data)
    } else {
        Seq::empty()
    }
}

/// The hash of a secret as the escrow stores it: the digest of the secret's
/// UTF-8 bytes, in lower-case hexadecimal. Under a name that is not accepted
/// it is the empty string.
pub open spec fn spec_generate_hash(hash_type: Seq<char>, secret: Seq<char>) -> Seq<char> {
    hex_lower(spec_digest(hash_type, encode_utf8(secret)))
}

/// Calls `Sha3_256::digest` of the crate `sha3`: the SHA3-256 digest of the
/// bytes, which is 32 bytes long.
#[verifier::external_body]
fn sha3_256(data: &[u8]) -> (digest: Vec<u8>)
    ensures
        digest@ == sha3_256_digest(data@),
        digest@.len() == 32,
{
    sha3::Sha3_256::digest(data).to_vec()
}

/// Calls `Sha3_512::digest` of the crate `sha3`: the SHA3-512 digest of the
/// bytes, which is 64 bytes long.
#[verifier::external_body]
fn sha3_512(data: &[u8]) -> (digest: Vec<u8>)
    ensures
        digest@ == sha3_512_digest(data@),
        digest@.len() == 64,
{
    sha3::Sha3_512::digest(data).to_vec()
}

/// Calls `Keccak256::digest` of the crate `sha3`: the Keccak-256 digest of
/// the bytes, which is 32 bytes long.
#[verifier::external_body]
fn keccak256(data: &[u8]) -> (digest: Vec<u8>)
    ensures
        digest@ == keccak256_digest(data@),
        digest@.len() == 32,
{
    sha3::Keccak256::digest(data).to_vec()
}

/// Calls `Keccak512::digest` of the crate `sha3`: the Keccak-512 digest of
/// the bytes, which is 64 bytes long.
#[verifier::external_body]
fn keccak512(data: &[u8]) -> (digest: Vec<u8>)
    ensures
        digest@ == keccak512_digest(data@),
        digest@.len() == 64,
{
    sha3::Keccak512::digest(data).to_vec()
}

/// Calls `casper_types::crypto::blake2b`: the BLAKE2b digest of the bytes at
/// a length of 32 bytes.
#[verifier::external_body]
fn blake2b(data: &[u8]) -> (digest: Vec<u8>)
    ensures
        digest@ == blake2b_digest(data@),
        digest@.len() == 32,
{
    casper_types::crypto::blake2b(data).to_vec()
}

/// Calls `hex::encode`: two lower-case hexadecimal digits for each byte, in
/// the order of the bytes, the high half of each byte first.
#[verifier::external_body]
fn hex_encode(data: &Vec<u8>) -> (text: String)
    ensures
        text@ == hex_lower(data@),
{
    hex::encode(data)
}

/// Whether `hash_type` names one of the accepted hash algorithms. Any other
/// name is refused.
pub fn check_hash_type(hash_type: &str) -> (supported: bool)
    ensures
        supported == spec_check_hash_type(hash_type@),
{
    if str_eq(hash_type, "sha3-256") || str_eq(hash_type, "sha3-512") || str_eq(
        hash_type,
        "Keccak256",
    ) || str_eq(hash_type, "Keccak512") || str_eq(hash_type, "blake2b") {
        return true;
    }
    false
}

/// The hash of `secret` under the algorithm that `hash_type` names, as the
/// escrow stores and compares it. The same algorithm and secret always give
/// the same hash.
pub fn generate_hash(hash_type: &str, secret: &str) -> (hash: String)
    ensures
        hash@ == spec_generate_hash(hash_type@, secret@),
        spec_check_hash_type(hash_type@) ==> hash@.len() == 64 || hash@.len() == 128,
        !spec_check_hash_type(hash_type@) ==> hash@.len() == 0,
{
    let data = secret.as_bytes();
    if str_eq(hash_type, "sha3-256") {
        hex_encode(&sha3_256(data))
    } else if str_eq(hash_type, "sha3-512") {
        hex_encode(&sha3_512(data))
    } else if str_eq(hash_type, "Keccak256") {
        hex_encode(&keccak256(data))
    } else if str_eq(hash_type, "Keccak512") {
        hex_encode(&keccak512(data))
    } else if str_eq(hash_type, "blake2b") {
        hex_encode(&blake2b(data))
    } else {
        String::new()
    }
}

} // verus!
