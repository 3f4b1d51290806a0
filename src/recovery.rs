//! Signer recovery: the Keccak-256 digest of a message, and the secp256k1
//! public key that produced a recoverable signature over that digest.
use solana_program::secp256k1_recover::{secp256k1_recover, Secp256k1RecoverError};
use vstd::prelude::*;

use crate::error::ErrorCode;

verus! {

#[verifier::external_type_specification]
#[verifier::external_body]
pub struct ExSecp256k1RecoverError(Secp256k1RecoverError);

/// The Keccak-256 digest of a byte string.
pub uninterp spec fn keccak256(m: Seq<u8>) -> Seq<u8>;

/// The uncompressed public key (x then y, 64 bytes) that secp256k1 recovery
/// yields for a digest, a recovery id and an r-then-s signature, or `None` where
/// the three do not determine a point on the curve.
pub uninterp spec fn secp256k1_recovered(
    hash: Seq<u8>,
    recovery_id: u8,
    signature: Seq<u8>,
) -> Option<Seq<u8>>;

/// Relies on solana_program's keccak::hash: the Keccak-256 digest of the bytes.
#[verifier::external_body]
#[allow(deprecated)]
fn keccak_digest(m: &[u8]) -> (r: [u8; 32])
    ensures
        r@ == keccak256(m@),
{
    solana_program::keccak::hash(m).to_bytes()
}

/// Relies on solana_program's secp256k1_recover: the recovered key's 64 bytes
/// on success; an error for a recovery id above 3, and wherever recovery fails.
#[verifier::external_body]
fn recover_key(hash: &[u8; 32], recovery_id: u8, signature: &[u8; 64]) -> (r: Result<
    [u8; 64],
    Secp256k1RecoverError,
>)
    ensures
        match r {
            Ok(k) => secp256k1_recovered(hash@, recovery_id, signature@) == Some(k@),
            Err(_) => secp256k1_recovered(hash@, recovery_id, signature@) is None,
        },
        recovery_id > 3 ==> r is Err,
{
    secp256k1_recover(hash.as_slice(), recovery_id, signature.as_slice()).map(|k| k.0)
}

/// The key that signed the Keccak-256 digest of `message`, if one can be recovered.
pub open spec fn spec_recover_signer(message: Seq<u8>, signature: Seq<u8>, recovery_id: u8) -> Option<
    Seq<u8>,
> {
    secp256k1_recovered(keccak256(message), recovery_id, signature)
}

/// Hashes the exact message bytes with Keccak-256 and recovers the public key
/// that signed the digest.
pub fn recover_signer(message: &[u8], signature: &[u8; 64], recovery_id: u8) -> (r: Result<
    [u8; 64],
    ErrorCode,
>)
    ensures
        match r {
            Ok(k) => spec_recover_signer(message@, signature@, recovery_id) == Some(k@),
            Err(e) => e == ErrorCode::RecoveryNotOk && spec_recover_signer(
                message@,
                signature@,
                recovery_id,
            ) is None,
        },
        recovery_id > 3 ==> r == Err::<[u8; 64], ErrorCode>(ErrorCode::RecoveryNotOk),
{
    let digest = keccak_digest(message);
    match recover_key(&digest, recovery_id, signature) {
        Ok(k) => Ok(k),
        Err(_) => Err(ErrorCode::RecoveryNotOk),
    }
}

} // verus!
