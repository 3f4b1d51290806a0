//! Verification of issuer-signed credential assertions: a binary payload codec,
//! Keccak-256 / secp256k1 signer recovery, and the ordered policy checks that
//! decide whether a presented credential is accepted.

pub mod error;
pub mod payload;
pub mod recovery;
pub mod validator;

pub use error::ErrorCode;
pub use payload::{
    decode_v1, decode_v2, encode_v2, CredentialAssertion, SUBJECT_LEN, V1_HEADER_LEN,
    V2_HEADER_LEN,
};
pub use recovery::recover_signer;
pub use validator::{
    check_claims, check_signer, initialize, validate, verify, CredentialFormat, Initialize,
    Verify, KYC_SCHEMA, TRUSTED_ISSUER_KEY,
};
