//! The credential validator: the ordered policy checks over a decoded payload,
//! then the check that the trusted issuer signed the whole message.
use vstd::prelude::*;
use vstd::string::StringSliceAdditionalSpecFns;

use crate::error::ErrorCode;
use crate::payload::{decode_v1, decode_v2, spec_decode_v1, spec_decode_v2, Claims};
use crate::recovery::{recover_signer, spec_recover_signer};

verus! {

/// The one schema that schema-aware credentials are accepted under.
pub const KYC_SCHEMA: &'static str = "centre.io/credentials/kyc";

/// The public key (64 bytes, uncompressed, without the prefix byte) of the
/// issuer whose credentials `verify` accepts.
pub const TRUSTED_ISSUER_KEY: [u8; 64] = [
    132, 13, 245, 117, 107, 89, 226, 100, 189, 117,
    164, 237, 253, 81, 149, 203, 12, 190, 180, 209,
    204, 79, 154, 35, 109, 129, 227, 187, 234, 225,
    127, 113, 115, 58, 238, 247, 53, 140, 186, 122,
    166, 74, 243, 30, 169, 216, 133, 198, 86, 249,
    202, 166, 3, 100, 188, 127, 136, 15, 119, 187,
    214, 19, 33, 12,
];

/// How a message is laid out, and so which checks apply to it.
#[derive(Clone, Copy, Debug, PartialEq, Eq, Structural)]
pub enum CredentialFormat {
    /// Subject and expiration; the caller must have signed, its identity is not compared.
    V1,
    /// Subject, expiration and schema; every check applies.
    V2,
    /// A free-form message: only the signer is checked.
    V3,
}

/// What the host has established about the call, which the validator trusts.
pub struct Verify {
    /// The identity of the party presenting the credential.
    pub subject: [u8; 32],
    /// Whether that party authorized the call.
    pub subject_is_signer: bool,
    /// The current time, in seconds since the Unix epoch.
    pub unix_timestamp: i64,
}

/// The (empty) context of `initialize`.
pub struct Initialize {}

/// The UTF-8 bytes of the accepted schema.
pub open spec fn accepted_schema() -> Seq<u8> {
    KYC_SCHEMA.spec_bytes()
}

/// The claims a message carries in the given format; `None` for a free-form one
/// and for one that does not decode.
pub open spec fn decoded_claims(format: CredentialFormat, message: Seq<u8>) -> Option<Claims> {
    match format {
        CredentialFormat::V1 => spec_decode_v1(message),
        CredentialFormat::V2 => spec_decode_v2(message),
        CredentialFormat::V3 => None,
    }
}

/// The outcome of the checks on the payload, in their order: decoding, subject
/// identity (schema-aware form only), authorization, expiration, schema
/// (schema-aware form only). A free-form message passes them all.
pub open spec fn claims_verdict(format: CredentialFormat, message: Seq<u8>, host: Verify) -> Result<
    (),
    ErrorCode,
> {
    if format == CredentialFormat::V3 {
        Ok(())
    } else {
        match decoded_claims(format, message) {
            None => Err(ErrorCode::MalformedPayload),
            Some(c) => if format == CredentialFormat::V2 && host.subject@ != c.subject {
                Err(ErrorCode::SubjectMismatch)
            } else if !host.subject_is_signer {
                Err(ErrorCode::SubjectIsNotSigner)
            } else if !(host.unix_timestamp < c.expiration) {
                Err(ErrorCode::Expired)
            } else if format == CredentialFormat::V2 && c.schema != Some(accepted_schema()) {
                Err(ErrorCode::InvalidSchema)
            } else {
                Ok(())
            },
        }
    }
}

/// The outcome of the signer check, given what recovery produced.
pub open spec fn signer_verdict(issuer: Seq<u8>, recovered: Option<Seq<u8>>) -> Result<(), ErrorCode> {
    match recovered {
        None => Err(ErrorCode::RecoveryNotOk),
        Some(k) => if k == issuer {
            Ok(())
        } else {
            Err(ErrorCode::UntrustedSigner)
        },
    }
}

/// The verdict on a credential: the payload checks, then the signer of the
/// whole message must be the issuer.
pub open spec fn verdict(
    format: CredentialFormat,
    issuer: Seq<u8>,
    signature: Seq<u8>,
    recovery_id: u8,
    message: Seq<u8>,
    host: Verify,
) -> Result<(), ErrorCode> {
    match claims_verdict(format, message, host) {
        Err(e) => Err(e),
        Ok(_) => signer_verdict(issuer, spec_recover_signer(message, signature, recovery_id)),
    }
}

fn bytes_equal(a: &[u8], b: &[u8]) -> (r: bool)
    ensures
        r == (a@ == b@),
{
    if a.len() != b.len() {
        return false;
    }
    let mut i: usize = 0;
    while i < a.len()
        invariant
            a@.len() == b@.len(),
            i <= a@.len(),
            forall|j: int| 0 <= j < i ==> a@[j] == b@[j],
        decreases a@.len() - i,
    {
        if a[i] != b[i] {
            return false;
        }
        i = i + 1;
    }
    assert(a@ =~= b@);
    true
}

/// Runs the payload checks of the given format, in order, and reports the
/// first that fails.
pub fn check_claims(format: CredentialFormat, message: &[u8], host: &Verify) -> (r: Result<
    (),
    ErrorCode,
>)
    ensures
        r == claims_verdict(format, message@, *host),
{
    let decoded = match format {
        CredentialFormat::V1 => decode_v1(message),
        CredentialFormat::V2 => decode_v2(message),
        CredentialFormat::V3 => {
            return Ok(());
        },
    };
    let claims = match decoded {
        Ok(c) => c,
        Err(e) => {
            return Err(e);
        },
    };
    if format == CredentialFormat::V2 && !bytes_equal(host.subject.as_slice(), claims.subject.as_slice()) {
        return Err(ErrorCode::SubjectMismatch);
    }
    if !host.subject_is_signer {
        return Err(ErrorCode::SubjectIsNotSigner);
    }
    if !(host.unix_timestamp < claims.expiration) {
        return Err(ErrorCode::Expired);
    }
    if format == CredentialFormat::V2 {
        let accepted = match &claims.schema {
            Some(s) => bytes_equal(s.as_slice(), KYC_SCHEMA.as_bytes()),
            None => false,
        };
        if !accepted {
            return Err(ErrorCode::InvalidSchema);
        }
    }
    Ok(())
}

/// Accepts a recovered key only if it is the issuer's; a failed recovery is
/// reported as such.
pub fn check_signer(issuer: &[u8; 64], recovered: &Result<[u8; 64], ErrorCode>) -> (r: Result<
    (),
    ErrorCode,
>)
    ensures
        r == signer_verdict(
            issuer@,
            match recovered {
                Ok(k) => Some(k@),
                Err(_) => None,
            },
        ),
{
    match recovered {
        Ok(k) => if bytes_equal(k.as_slice(), issuer.as_slice()) {
            Ok(())
        } else {
            Err(ErrorCode::UntrustedSigner)
        },
        Err(_) => Err(ErrorCode::RecoveryNotOk),
    }
}

/// Validates a credential message against the given issuer key: the payload
/// checks of its format in order, then recovery of the signer over the whole
/// message and comparison with the issuer. The first failure is the reason.
pub fn validate(
    format: CredentialFormat,
    issuer: &[u8; 64],
    signature: &[u8; 64],
    recovery_id: u8,
    message: &[u8],
    host: &Verify,
) -> (r: Result<(), ErrorCode>)
    ensures
        r == verdict(format, issuer@, signature@, recovery_id, message@, *host),
{
    match check_claims(format, message, host) {
        Ok(()) => {},
        Err(e) => {
            return Err(e);
        },
    }
    let recovered = recover_signer(message, signature, recovery_id);
    check_signer(issuer, &recovered)
}

/// Verifies a schema-aware credential against the trusted issuer key.
pub fn verify(ctx: &Verify, signature: [u8; 64], recovery_id: u8, message: &[u8]) -> (r: Result<
    (),
    ErrorCode,
>)
    ensures
        r == verdict(
            CredentialFormat::V2,
            TRUSTED_ISSUER_KEY@,
            signature@,
            recovery_id,
            message@,
            *ctx,
        ),
{
    validate(CredentialFormat::V2, &TRUSTED_ISSUER_KEY, &signature, recovery_id, message, ctx)
}

/// Nothing needs setting up: always succeeds.
pub fn initialize(_ctx: &Initialize) -> (r: Result<(), ErrorCode>)
    ensures
        r is Ok,
{
    Ok(())
}

/// A credential whose expiration equals the current time is rejected as
/// expired; one that expires a second later is accepted, when every other check
/// passes.
pub proof fn lemma_expiration_boundary(
    format: CredentialFormat,
    issuer: Seq<u8>,
    signature: Seq<u8>,
    recovery_id: u8,
    message: Seq<u8>,
    host: Verify,
)
    requires
        format != CredentialFormat::V3,
        decoded_claims(format, message) is Some,
        host.subject_is_signer,
        format == CredentialFormat::V2 ==> host.subject@ == decoded_claims(format, message)->Some_0.subject
            && decoded_claims(format, message)->Some_0.schema == Some(accepted_schema()),
        spec_recover_signer(message, signature, recovery_id) == Some(issuer),
    ensures
        decoded_claims(format, message)->Some_0.expiration == host.unix_timestamp ==> verdict(
            format,
            issuer,
            signature,
            recovery_id,
            message,
            host,
        ) == Err::<(), ErrorCode>(ErrorCode::Expired),
        decoded_claims(format, message)->Some_0.expiration == host.unix_timestamp + 1 ==> verdict(
            format,
            issuer,
            signature,
            recovery_id,
            message,
            host,
        ) == Ok::<(), ErrorCode>(()),
{
}

/// A schema-aware credential that passes every other check is accepted exactly
/// when its schema is the accepted one, byte for byte; any other schema, a
/// prefix or an extension of it included, is rejected as an invalid schema.
pub proof fn lemma_schema_boundary(
    issuer: Seq<u8>,
    signature: Seq<u8>,
    recovery_id: u8,
    message: Seq<u8>,
    host: Verify,
)
    requires
        spec_decode_v2(message) is Some,
        host.subject@ == spec_decode_v2(message)->Some_0.subject,
        host.subject_is_signer,
        host.unix_timestamp < spec_decode_v2(message)->Some_0.expiration,
        spec_recover_signer(message, signature, recovery_id) == Some(issuer),
    ensures
        spec_decode_v2(message)->Some_0.schema == Some(accepted_schema()) ==> verdict(
            CredentialFormat::V2,
            issuer,
            signature,
            recovery_id,
            message,
            host,
        ) == Ok::<(), ErrorCode>(()),
        spec_decode_v2(message)->Some_0.schema != Some(accepted_schema()) ==> verdict(
            CredentialFormat::V2,
            issuer,
            signature,
            recovery_id,
            message,
            host,
        ) == Err::<(), ErrorCode>(ErrorCode::InvalidSchema),
{
}

/// The subject checks come before the expiration check: an expired
/// schema-aware credential presented by another party is reported as a subject
/// mismatch, and one presented by its subject without authorization (in either
/// structured format) as such.
pub proof fn lemma_subject_checks_precede_expiration(
    format: CredentialFormat,
    issuer: Seq<u8>,
    signature: Seq<u8>,
    recovery_id: u8,
    message: Seq<u8>,
    host: Verify,
)
    requires
        format != CredentialFormat::V3,
        decoded_claims(format, message) is Some,
        decoded_claims(format, message)->Some_0.expiration <= host.unix_timestamp,
    ensures
        format == CredentialFormat::V2 && host.subject@ != decoded_claims(
            format,
            message,
        )->Some_0.subject ==> verdict(format, issuer, signature, recovery_id, message, host)
            == Err::<(), ErrorCode>(ErrorCode::SubjectMismatch),
        (format == CredentialFormat::V1 || host.subject@ == decoded_claims(
            format,
            message,
        )->Some_0.subject) && !host.subject_is_signer ==> verdict(
            format,
            issuer,
            signature,
            recovery_id,
            message,
            host,
        ) == Err::<(), ErrorCode>(ErrorCode::SubjectIsNotSigner),
        verdict(format, issuer, signature, recovery_id, message, host) != Ok::<(), ErrorCode>(()),
{
}

} // verus!
