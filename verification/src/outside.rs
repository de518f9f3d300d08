//! The calls into other crates, each behind a contract that is taken on trust.

use alloy_consensus::Header;
use alloy_rlp::Decodable;
use ark_ff::BigInteger;
use op_alloy_rpc_types_engine::OpPayloadAttributes;
use vstd::prelude::*;

use crate::bytes::B256;

verus! {

/// The error that RLP decoding reports, carried through unread.
#[verifier::external_type_specification]
#[verifier::external_body]
pub struct ExRlpError(alloy_rlp::Error);

/// The error that JSON parsing reports, carried through unread.
#[verifier::external_type_specification]
#[verifier::external_body]
pub struct ExJsonError(serde_json::Error);

/// The payload attributes of an L2 block, carried through unread.
#[verifier::external_type_specification]
#[verifier::external_body]
pub struct ExOpPayloadAttributes(OpPayloadAttributes);

/// The Keccak-256 digest of `data`.
pub uninterp spec fn keccak256_digest(data: Seq<u8>) -> Seq<u8>;

/// What `Header::decode` makes of `raw`: the state root of the block header at its front, or
/// the decoding error.
pub uninterp spec fn header_state_root(raw: Seq<u8>) -> Result<Seq<u8>, alloy_rlp::Error>;

/// What `serde_json::from_slice` makes of `json`: the payload attributes it spells, or the
/// parsing error.
pub uninterp spec fn parsed_payload_attributes(json: Seq<u8>) -> Result<
    OpPayloadAttributes,
    serde_json::Error,
>;

/// The number whose little-endian 64-bit limbs are `limbs`.
pub open spec fn limbs_value(limbs: Seq<u64>) -> nat
    decreases limbs.len(),
{
    if limbs.len() == 0 {
        0
    } else {
        limbs.first() as nat + 0x1_0000_0000_0000_0000 * limbs_value(limbs.drop_first())
    }
}

/// Calls `alloy_primitives::keccak256`. Trusted: the digest depends on the bytes alone.
#[verifier::external_body]
pub(crate) fn keccak256(data: &[u8]) -> (digest: B256)
    ensures
        digest@ == keccak256_digest(data@),
{
    alloy_primitives::keccak256(data).0
}

/// Calls `Header::decode` of `alloy_consensus` and keeps the header's state root. Trusted:
/// the outcome, be it root or error, depends on the bytes alone.
#[verifier::external_body]
pub(crate) fn decode_state_root(raw: &[u8]) -> (root: Result<B256, alloy_rlp::Error>)
    ensures
        match root {
            Ok(bytes) => header_state_root(raw@) == Ok::<Seq<u8>, alloy_rlp::Error>(bytes@),
            Err(e) => header_state_root(raw@) == Err::<Seq<u8>, alloy_rlp::Error>(e),
        },
{
    let mut rest: &[u8] = raw;
    Header::decode(&mut rest).map(|header| header.state_root.0)
}

/// Calls `serde_json::from_slice` for `OpPayloadAttributes`. Trusted: the outcome, be it
/// attributes or error, depends on the bytes alone.
#[verifier::external_body]
pub(crate) fn parse_payload_attributes(json: &[u8]) -> (attributes: Result<
    OpPayloadAttributes,
    serde_json::Error,
>)
    ensures
        attributes == parsed_payload_attributes(json@),
{
    serde_json::from_slice(json)
}

/// Calls `to_bytes_be` of a four-limb `ark_ff::BigInt`. Trusted: the result is the 32-byte
/// big-endian form of the number whose little-endian limbs are `limbs`.
#[verifier::external_body]
pub(crate) fn big_int_to_bytes_be(limbs: &[u64; 4]) -> (bytes: Vec<u8>)
    ensures
        bytes@ == crate::bytes::be_bytes(limbs_value(limbs@), 32),
{
    ark_ff::BigInt::<4>::new(*limbs).to_bytes_be()
}

} // verus!
