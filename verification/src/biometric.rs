//! The biometric path: a P-256 signature over a digest that the claimant
//! supplies, checked by the verification service against the public key
//! bound to the drop.

use vstd::prelude::*;
use crate::types::Error;

verus! {

/// The lengths that the verification service's input needs: 32 bytes for
/// each key coordinate and for the digest, 64 for the signature.
pub open spec fn spec_lengths_valid(
    pub_x: Seq<u8>,
    pub_y: Seq<u8>,
    signature: Seq<u8>,
    message_hash: Seq<u8>,
) -> bool {
    pub_x.len() == 32 && pub_y.len() == 32 && message_hash.len() == 32 && signature.len() == 64
}

/// The 160 bytes handed to the verification service: the digest, the
/// signature (`r`, then `s`) and the key's two coordinates.
pub open spec fn spec_verification_input(
    pub_x: Seq<u8>,
    pub_y: Seq<u8>,
    signature: Seq<u8>,
    message_hash: Seq<u8>,
) -> Seq<u8> {
    message_hash + signature.subrange(0, 32) + signature.subrange(32, 64) + pub_x + pub_y
}

/// Checks the lengths and lays out the call to the verification service.
pub fn verification_input(
    pub_x: &Vec<u8>,
    pub_y: &Vec<u8>,
    signature: &Vec<u8>,
    message_hash: &Vec<u8>,
) -> (r: Result<Vec<u8>, Error>)
    ensures
        match r {
            Ok(input) => spec_lengths_valid(pub_x@, pub_y@, signature@, message_hash@) && input@
                == spec_verification_input(pub_x@, pub_y@, signature@, message_hash@),
            Err(e) => !spec_lengths_valid(pub_x@, pub_y@, signature@, message_hash@) && e
                == Error::BiometricLengthInvalid,
        },
{
    if pub_x.len() != 32 || pub_y.len() != 32 || message_hash.len() != 32 {
        return Err(Error::BiometricLengthInvalid);
    }
    if signature.len() != 64 {
        return Err(Error::BiometricLengthInvalid);
    }
    let sig = signature.as_slice();
    let mut input: Vec<u8> = Vec::with_capacity(160);
    input.extend_from_slice(message_hash.as_slice());
    input.extend_from_slice(&sig[0..32]);
    input.extend_from_slice(&sig[32..64]);
    input.extend_from_slice(pub_x.as_slice());
    input.extend_from_slice(pub_y.as_slice());
    assert(input@ =~= spec_verification_input(pub_x@, pub_y@, signature@, message_hash@));
    Ok(input)
}

/// Whether the verification service's answer says "valid": exactly 32
/// bytes, the last of them 1.
pub open spec fn spec_signature_valid(response: Seq<u8>) -> bool {
    response.len() == 32 && response[31] == 1
}

/// Tells whether the verification service's answer says "valid".
pub fn signature_valid(response: &Vec<u8>) -> (ok: bool)
    ensures
        ok == spec_signature_valid(response@),
{
    response.len() == 32 && response[31] == 1
}

} // verus!
