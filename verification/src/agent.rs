//! The agent path: a signature by the drop's gatekeeper over the pair
//! (identifier, receiver), checked by recovering the signer.

use vstd::prelude::*;
use crate::types::{answer_bytes, Address, Error, U256};

verus! {

/// The Keccak-256 hash of a byte string. It has no definition here: it
/// stands for what the hash function of the outside crate returns.
pub uninterp spec fn keccak256(data: Seq<u8>) -> Seq<u8>;

/// Calls `stylus_sdk::crypto::keccak`, which hashes the bytes with
/// Keccak-256 and returns the 32-byte digest. That the result is the hash
/// of the argument is taken on trust.
#[verifier::external_body]
fn keccak(data: &Vec<u8>) -> (out: [u8; 32])
    ensures
        out@ == keccak256(data@),
{
    stylus_sdk::crypto::keccak(data).0
}

/// Calls `alloy_sol_types::SolValue::abi_encode_packed` on the pair of a
/// 256-bit unsigned integer, made of the identifier's bytes by
/// `U256::from_be_bytes`, and an address. Packed encoding writes the
/// integer as its 32 big-endian bytes and the address as its 20 bytes, one
/// after the other, with no padding. This is taken on trust.
#[verifier::external_body]
fn encode_packed(drop_id: &U256, receiver: &Address) -> (out: Vec<u8>)
    ensures
        out@ == drop_id@ + receiver@,
{
    let id = stylus_sdk::alloy_primitives::U256::from_be_bytes(drop_id.bytes);
    let to = stylus_sdk::alloy_primitives::Address::from(receiver.bytes);
    alloy_sol_types::SolValue::abi_encode_packed(&(id, to))
}

/// The bytes `"\x19Ethereum Signed Message:\n32"`, which a wallet puts in
/// front of a 32-byte message before it signs.
pub const SIGNED_MESSAGE_PREFIX: [u8; 28] = [
    0x19, 0x45, 0x74, 0x68, 0x65, 0x72, 0x65, 0x75, 0x6d, 0x20, 0x53, 0x69, 0x67, 0x6e,
    0x65, 0x64, 0x20, 0x4d, 0x65, 0x73, 0x73, 0x61, 0x67, 0x65, 0x3a, 0x0a, 0x33, 0x32,
];

/// The digest that the gatekeeper signs: the hash of the prefix followed by
/// the hash of the identifier's 32 bytes and the receiver's 20 bytes.
pub open spec fn spec_agent_digest(drop_id: U256, receiver: Address) -> Seq<u8> {
    keccak256(SIGNED_MESSAGE_PREFIX@ + keccak256(drop_id@ + receiver@))
}

/// Computes the digest that the gatekeeper signs for this drop and
/// receiver.
pub fn agent_digest(drop_id: &U256, receiver: &Address) -> (digest: [u8; 32])
    ensures
        digest@ == spec_agent_digest(*drop_id, *receiver),
{
    let packed = encode_packed(drop_id, receiver);
    let inner = keccak(&packed);
    let mut message: Vec<u8> = Vec::with_capacity(60);
    message.extend_from_slice(&SIGNED_MESSAGE_PREFIX);
    message.extend_from_slice(&inner);
    assert(message@ =~= SIGNED_MESSAGE_PREFIX@ + inner@);
    keccak(&message)
}

/// The 128 bytes handed to the recovery service: the digest, 31 zero bytes
/// and the recovery id (the signature's last byte), then the signature's
/// `r` and `s`.
pub open spec fn spec_recovery_input(digest: Seq<u8>, signature: Seq<u8>) -> Seq<u8> {
    digest + Seq::new(31, |i: int| 0u8) + seq![signature[64]] + signature.subrange(0, 32)
        + signature.subrange(32, 64)
}

/// Lays out the call to the recovery service for a 65-byte signature
/// (`r`, `s`, recovery id). A signature of any other length is malformed.
pub fn recovery_input(digest: &[u8; 32], signature: &Vec<u8>) -> (r: Result<Vec<u8>, Error>)
    ensures
        match r {
            Ok(input) => signature@.len() == 65 && input@ == spec_recovery_input(
                digest@,
                signature@,
            ),
            Err(e) => signature@.len() != 65 && e == Error::MalformedAgentSignature,
        },
{
    if signature.len() != 65 {
        return Err(Error::MalformedAgentSignature);
    }
    let zeros = [0u8; 31];
    let sig = signature.as_slice();
    let mut input: Vec<u8> = Vec::with_capacity(128);
    input.extend_from_slice(digest);
    input.extend_from_slice(&zeros);
    input.push(sig[64]);
    input.extend_from_slice(&sig[0..32]);
    input.extend_from_slice(&sig[32..64]);
    assert(input@ =~= spec_recovery_input(digest@, signature@));
    Ok(input)
}

/// Whether the recovery service's answer authorizes the claim: the call
/// came back with exactly 32 bytes, and the last 20 of them are the
/// gatekeeper's address. `None` stands for a call that failed.
pub open spec fn spec_recovery_authorizes(response: Option<Seq<u8>>, gatekeeper: Address) -> bool {
    response matches Some(bytes) && bytes.len() == 32 && bytes.subrange(12, 32) == gatekeeper@
}

/// Tells whether the recovery service's answer names the gatekeeper.
pub fn recovery_authorizes(response: &Option<Vec<u8>>, gatekeeper: &Address) -> (ok: bool)
    ensures
        ok == spec_recovery_authorizes(answer_bytes(*response), *gatekeeper),
{
    match response {
        None => false,
        Some(bytes) => {
            if bytes.len() != 32 {
                return false;
            }
            let mut i: usize = 0;
            while i < 20
                invariant
                    i <= 20,
                    *response == Some(*bytes),
                    bytes@.len() == 32,
                    forall|j: int| 0 <= j < i ==> bytes@[12 + j] == gatekeeper.bytes[j],
                decreases 20 - i,
            {
                if bytes[12 + i] != gatekeeper.bytes[i] {
                    assert(bytes@.subrange(12, 32)[i as int] != gatekeeper@[i as int]);
                    return false;
                }
                i += 1;
            }
            assert(bytes@.subrange(12, 32) =~= gatekeeper@);
            true
        },
    }
}

} // verus!
