//! The credential payload codec.
//!
//! A payload starts with the 32-byte subject identity and the expiration as an
//! 8-byte little-endian signed integer. The short form stops there (any bytes
//! after it are carried along but not read); the schema-aware form goes on with
//! the schema, a UTF-8 string framed by a 4-byte little-endian length.
use vstd::bytes::{
    lemma_auto_spec_u32_to_from_le_bytes, lemma_auto_spec_u64_to_from_le_bytes,
    spec_u32_from_le_bytes, spec_u32_to_le_bytes, spec_u64_from_le_bytes,
    spec_u64_to_le_bytes, u32_from_le_bytes, u32_to_le_bytes, u64_from_le_bytes,
    u64_to_le_bytes,
};
use vstd::prelude::*;
use vstd::slice::{slice_subrange, slice_to_vec};
use vstd::utf8::valid_utf8;

use crate::error::ErrorCode;

verus! {

/// Width of the subject identity.
pub const SUBJECT_LEN: usize = 32;

/// Subject and expiration: everything the short form reads.
pub const V1_HEADER_LEN: usize = 40;

/// Subject, expiration and the schema's length prefix.
pub const V2_HEADER_LEN: usize = 44;

/// A decoded credential assertion.
pub struct CredentialAssertion {
    pub subject: [u8; 32],
    pub expiration: i64,
    /// The schema's UTF-8 bytes, in the formats that carry one.
    pub schema: Option<Vec<u8>>,
}

/// The mathematical content of a `CredentialAssertion`.
pub struct Claims {
    pub subject: Seq<u8>,
    pub expiration: i64,
    pub schema: Option<Seq<u8>>,
}

impl View for CredentialAssertion {
    type V = Claims;

    open spec fn view(&self) -> Claims {
        Claims {
            subject: self.subject@,
            expiration: self.expiration,
            schema: match self.schema {
                Some(s) => Some(s@),
                None => None,
            },
        }
    }
}

/// The signed 64-bit integer stored little-endian in eight bytes.
pub open spec fn le_i64(b: Seq<u8>) -> i64 {
    spec_u64_from_le_bytes(b) as i64
}

/// The eight little-endian bytes of a signed 64-bit integer.
pub open spec fn i64_le_bytes(x: i64) -> Seq<u8> {
    spec_u64_to_le_bytes(x as u64)
}

/// The short form: subject and expiration read from the first 40 bytes.
pub open spec fn spec_decode_v1(b: Seq<u8>) -> Option<Claims> {
    if b.len() < 40 {
        None
    } else {
        Some(
            Claims {
                subject: b.subrange(0, 32),
                expiration: le_i64(b.subrange(32, 40)),
                schema: None,
            },
        )
    }
}

/// The schema length that a schema-aware payload declares.
pub open spec fn declared_schema_len(b: Seq<u8>) -> int {
    spec_u32_from_le_bytes(b.subrange(40, 44)) as int
}

/// Where a schema-aware payload's frame ends.
pub open spec fn v2_frame_end(b: Seq<u8>) -> int {
    44 + declared_schema_len(b)
}

/// The schema-aware form: the header, then as many schema bytes as the prefix
/// declares, which must be valid UTF-8. Bytes after the frame are not read.
pub open spec fn spec_decode_v2(b: Seq<u8>) -> Option<Claims> {
    if b.len() < 44 || b.len() < v2_frame_end(b) || !valid_utf8(
        b.subrange(44, v2_frame_end(b)),
    ) {
        None
    } else {
        Some(
            Claims {
                subject: b.subrange(0, 32),
                expiration: le_i64(b.subrange(32, 40)),
                schema: Some(b.subrange(44, v2_frame_end(b))),
            },
        )
    }
}

/// The schema-aware encoding of subject, expiration and schema.
pub open spec fn spec_encode_v2(subject: Seq<u8>, expiration: i64, schema: Seq<u8>) -> Seq<u8> {
    subject + i64_le_bytes(expiration) + spec_u32_to_le_bytes(schema.len() as u32) + schema
}

fn read_subject(b: &[u8]) -> (r: [u8; 32])
    requires
        b@.len() >= 32,
    ensures
        r@ == b@.subrange(0, 32),
{
    let mut subject = [0u8; 32];
    let mut i: usize = 0;
    while i < SUBJECT_LEN
        invariant
            i <= 32,
            b@.len() >= 32,
            subject@.len() == 32,
            forall|j: int| 0 <= j < i ==> subject@[j] == b@[j],
        decreases 32 - i,
    {
        subject[i] = b[i];
        i = i + 1;
    }
    assert(subject@ =~= b@.subrange(0, 32));
    subject
}

fn read_expiration(b: &[u8]) -> (r: i64)
    requires
        b@.len() >= 40,
    ensures
        r == le_i64(b@.subrange(32, 40)),
{
    let raw = u64_from_le_bytes(slice_subrange(b, 32, 40));
    raw as i64
}

/// Decodes the short form.
pub fn decode_v1(b: &[u8]) -> (r: Result<CredentialAssertion, ErrorCode>)
    ensures
        match r {
            Ok(a) => spec_decode_v1(b@) == Some(a@),
            Err(e) => e == ErrorCode::MalformedPayload && spec_decode_v1(b@) is None,
        },
{
    if b.len() < V1_HEADER_LEN {
        return Err(ErrorCode::MalformedPayload);
    }
    let subject = read_subject(b);
    let expiration = read_expiration(b);
    Ok(CredentialAssertion { subject, expiration, schema: None })
}

/// Relies on std::str::from_utf8: it succeeds exactly when the bytes are
/// well-formed UTF-8.
#[verifier::external_body]
fn is_utf8(b: &[u8]) -> (r: bool)
    ensures
        r == valid_utf8(b@),
{
    std::str::from_utf8(b).is_ok()
}

/// Decodes the schema-aware form.
pub fn decode_v2(b: &[u8]) -> (r: Result<CredentialAssertion, ErrorCode>)
    ensures
        match r {
            Ok(a) => spec_decode_v2(b@) == Some(a@),
            Err(e) => e == ErrorCode::MalformedPayload && spec_decode_v2(b@) is None,
        },
{
    if b.len() < V2_HEADER_LEN {
        return Err(ErrorCode::MalformedPayload);
    }
    let declared = u32_from_le_bytes(slice_subrange(b, 40, 44));
    if declared as usize > b.len() - V2_HEADER_LEN {
        return Err(ErrorCode::MalformedPayload);
    }
    let end = V2_HEADER_LEN + declared as usize;
    let schema = slice_subrange(b, V2_HEADER_LEN, end);
    if !is_utf8(schema) {
        return Err(ErrorCode::MalformedPayload);
    }
    let subject = read_subject(b);
    let expiration = read_expiration(b);
    Ok(CredentialAssertion { subject, expiration, schema: Some(slice_to_vec(schema)) })
}

/// Encodes subject, expiration and schema in the schema-aware form.
pub fn encode_v2(subject: &[u8; 32], expiration: i64, schema: &[u8]) -> (r: Vec<u8>)
    requires
        schema@.len() <= u32::MAX,
    ensures
        r@ == spec_encode_v2(subject@, expiration, schema@),
{
    let mut out = slice_to_vec(subject.as_slice());
    let mut expiration_bytes = u64_to_le_bytes(expiration as u64);
    out.append(&mut expiration_bytes);
    let mut length_bytes = u32_to_le_bytes(schema.len() as u32);
    out.append(&mut length_bytes);
    let mut schema_bytes = slice_to_vec(schema);
    out.append(&mut schema_bytes);
    out
}

proof fn lemma_i64_u64_casts(x: i64, u: u64)
    ensures
        (x as u64) as i64 == x,
        (u as i64) as u64 == u,
{
    assert((x as u64) as i64 == x) by (bit_vector);
    assert((u as i64) as u64 == u) by (bit_vector);
}

/// Decoding a schema-aware payload whose frame spans all of its bytes, then
/// encoding the decoded fields again, reproduces those bytes exactly.
pub proof fn lemma_v2_decode_encode(b: Seq<u8>)
    requires
        spec_decode_v2(b) is Some,
        b.len() == v2_frame_end(b),
    ensures
        ({
            let c = spec_decode_v2(b)->Some_0;
            spec_encode_v2(c.subject, c.expiration, c.schema->Some_0) == b
        }),
{
    lemma_auto_spec_u64_to_from_le_bytes();
    lemma_auto_spec_u32_to_from_le_bytes();
    let c = spec_decode_v2(b)->Some_0;
    let raw = spec_u64_from_le_bytes(b.subrange(32, 40));
    lemma_i64_u64_casts(c.expiration, raw);
    assert(spec_u64_to_le_bytes(raw) == b.subrange(32, 40));
    assert(spec_u32_to_le_bytes(spec_u32_from_le_bytes(b.subrange(40, 44))) == b.subrange(40, 44));
    assert(spec_encode_v2(c.subject, c.expiration, c.schema->Some_0) =~= b);
}

/// Encoding subject, expiration and a UTF-8 schema, then decoding the bytes,
/// gives back the same fields.
pub proof fn lemma_v2_encode_decode(subject: Seq<u8>, expiration: i64, schema: Seq<u8>)
    requires
        subject.len() == 32,
        schema.len() <= u32::MAX,
        valid_utf8(schema),
    ensures
        spec_decode_v2(spec_encode_v2(subject, expiration, schema)) == Some(
            Claims { subject, expiration, schema: Some(schema) },
        ),
        spec_encode_v2(subject, expiration, schema).len() == 44 + schema.len(),
{
    lemma_auto_spec_u64_to_from_le_bytes();
    lemma_auto_spec_u32_to_from_le_bytes();
    let b = spec_encode_v2(subject, expiration, schema);
    let eb = i64_le_bytes(expiration);
    let lb = spec_u32_to_le_bytes(schema.len() as u32);
    assert(eb.len() == 8);
    assert(lb.len() == 4);
    assert(b.subrange(0, 32) =~= subject);
    assert(b.subrange(32, 40) =~= eb);
    assert(b.subrange(40, 44) =~= lb);
    lemma_i64_u64_casts(expiration, expiration as u64);
    assert(declared_schema_len(b) == schema.len());
    assert(b.subrange(44, v2_frame_end(b)) =~= schema);
}

} // verus!
