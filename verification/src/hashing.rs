//! Credential hashing.  A registration secret is never stored; the registry
//! keeps the SHA-256 digest of it, in lowercase hex, and compares digests.

use vstd::prelude::*;
use sha_rs::Sha;
use sha_rs::Sha256;

verus! {

/// The SHA-256 digest of `data`, written as lowercase hex.  The digest is a
/// pure function of the input bytes alone; its value is not axiomatized here.
pub uninterp spec fn sha256_hex_of(data: Seq<u8>) -> Seq<u8>;

/// Relies on `sha_rs::Sha256::digest`: it returns the SHA-256 of the input
/// as a lowercase-hex string, computed from the input bytes alone.  Its
/// source hex-encodes the 32-byte digest, so the result has 64 bytes.
#[verifier::external_body]
pub fn sha256_hex(data: &[u8]) -> (r: Vec<u8>)
    ensures
        r@ == sha256_hex_of(data@),
        r@.len() == 64,
{
    Sha256::new().digest(data).into_bytes()
}

} // verus!
