//! Plain values that the escrow works on: addresses, 256-bit words and the
//! errors an operation can end in.

use vstd::prelude::*;

verus! {

/// Tells whether two byte arrays of one length hold the same bytes.
pub fn bytes_equal<const N: usize>(a: &[u8; N], b: &[u8; N]) -> (r: bool)
    ensures
        r == (*a == *b),
{
    let mut i: usize = 0;
    while i < N
        invariant
            i <= N,
            forall|j: int| 0 <= j < i ==> a[j] == b[j],
        decreases N - i,
    {
        if a[i] != b[i] {
            return false;
        }
        i += 1;
    }
    assert(*a =~= *b);
    true
}

/// A 20-byte account address. The all-zero address stands for "nobody".
#[derive(Clone, Copy, Debug)]
pub struct Address {
    pub bytes: [u8; 20],
}

impl View for Address {
    type V = Seq<u8>;

    open spec fn view(&self) -> Seq<u8> {
        self.bytes@
    }
}

impl PartialEq for Address {
    fn eq(&self, other: &Address) -> (r: bool) {
        bytes_equal(&self.bytes, &other.bytes)
    }
}

impl Eq for Address {

}

impl vstd::std_specs::cmp::PartialEqSpecImpl for Address {
    open spec fn obeys_eq_spec() -> bool {
        true
    }

    open spec fn eq_spec(&self, other: &Address) -> bool {
        *self == *other
    }
}

impl Address {
    /// The address whose twenty bytes are all zero.
    pub open spec fn spec_zero() -> Address {
        Address { bytes: vstd::array::spec_array_fill_for_copy_type::<u8, 20>(0u8) }
    }

    /// The zero address.
    #[verifier::when_used_as_spec(spec_zero)]
    pub fn zero() -> (a: Address)
        ensures
            a == Address::zero(),
    {
        Address { bytes: [0u8; 20] }
    }

    /// Whether this is the zero address.
    pub open spec fn spec_is_zero(&self) -> bool {
        *self == Address::zero()
    }

    /// Tells whether this is the zero address.
    #[verifier::when_used_as_spec(spec_is_zero)]
    pub fn is_zero(&self) -> (r: bool)
        ensures
            r == self.is_zero(),
    {
        let z = Address::zero();
        bytes_equal(&self.bytes, &z.bytes)
    }
}

/// An unsigned 256-bit word, held as 32 big-endian bytes. Drop identifiers
/// and amounts are such words.
#[derive(Clone, Copy, Debug)]
pub struct U256 {
    pub bytes: [u8; 32],
}

impl View for U256 {
    type V = Seq<u8>;

    open spec fn view(&self) -> Seq<u8> {
        self.bytes@
    }
}

impl PartialEq for U256 {
    fn eq(&self, other: &U256) -> (r: bool) {
        bytes_equal(&self.bytes, &other.bytes)
    }
}

impl Eq for U256 {

}

impl vstd::std_specs::cmp::PartialEqSpecImpl for U256 {
    open spec fn obeys_eq_spec() -> bool {
        true
    }

    open spec fn eq_spec(&self, other: &U256) -> bool {
        *self == *other
    }
}

impl U256 {
    /// The word whose 32 bytes are all zero.
    pub open spec fn spec_zero() -> U256 {
        U256 { bytes: vstd::array::spec_array_fill_for_copy_type::<u8, 32>(0u8) }
    }

    /// The zero word.
    #[verifier::when_used_as_spec(spec_zero)]
    pub fn zero() -> (w: U256)
        ensures
            w == U256::zero(),
    {
        U256 { bytes: [0u8; 32] }
    }
}

/// A service's answer as a sequence of bytes; `None` where the call failed.
pub open spec fn answer_bytes(response: Option<Vec<u8>>) -> Option<Seq<u8>> {
    match response {
        Some(bytes) => Some(bytes@),
        None => None,
    }
}

/// Why an operation on the escrow was refused.
#[derive(Clone, Copy, Debug, PartialEq, Eq, Structural)]
pub enum Error {
    /// The identifier already holds a drop.
    DropExists,
    /// The drop was never created, or was claimed or reclaimed before.
    DropInactive,
    /// The claim came after the drop's deadline.
    DropExpired,
    /// An agent signature was given and is not 65 bytes long.
    MalformedAgentSignature,
    /// The recovery service could not be called. The tag is kept for those
    /// who read it off the wire; no claim ends in it, since a recovery
    /// call that fails leaves the decision to the biometric path.
    RecoveryCallError,
    /// The agent path gave no authorization and no biometric signature was given.
    BiometricMissing,
    /// A key coordinate, the message digest or the biometric signature has the wrong length.
    BiometricLengthInvalid,
    /// The verification service answered that the biometric signature is not valid.
    BiometricSignatureInvalid,
    /// The verification service could not be called.
    VerificationCallError,
    /// Settlement was asked for without an authorization.
    Unauthorized,
    /// The value transfer failed.
    SettlementError,
    /// Someone other than the drop's sender asked to reclaim it.
    NotSender,
    /// A reclaim came at or before the drop's deadline.
    NotYetExpired,
}

impl Error {
    /// The short tag under which the error goes over the wire.
    pub open spec fn tag(self) -> Seq<char> {
        match self {
            Error::DropExists => "E1"@,
            Error::DropInactive => "E2"@,
            Error::DropExpired => "E3"@,
            Error::MalformedAgentSignature => "E4"@,
            Error::RecoveryCallError => "E5"@,
            Error::BiometricMissing => "E15"@,
            Error::BiometricLengthInvalid => "E14"@,
            Error::BiometricSignatureInvalid => "E8"@,
            Error::VerificationCallError => "E16"@,
            Error::Unauthorized => "E7"@,
            Error::SettlementError => "E9"@,
            Error::NotSender => "E10"@,
            Error::NotYetExpired => "E11"@,
        }
    }

    /// The error's tag.
    pub fn code(&self) -> (s: &'static str)
        ensures
            s@ == self.tag(),
    {
        match self {
            Error::DropExists => "E1",
            Error::DropInactive => "E2",
            Error::DropExpired => "E3",
            Error::MalformedAgentSignature => "E4",
            Error::RecoveryCallError => "E5",
            Error::BiometricMissing => "E15",
            Error::BiometricLengthInvalid => "E14",
            Error::BiometricSignatureInvalid => "E8",
            Error::VerificationCallError => "E16",
            Error::Unauthorized => "E7",
            Error::SettlementError => "E9",
            Error::NotSender => "E10",
            Error::NotYetExpired => "E11",
        }
    }

    /// Two different errors never share a tag.
    pub proof fn tags_are_distinct(a: Error, b: Error)
        requires
            a != b,
        ensures
            a.tag() != b.tag(),
    {
        reveal_strlit("E1");
        reveal_strlit("E2");
        reveal_strlit("E3");
        reveal_strlit("E4");
        reveal_strlit("E5");
        reveal_strlit("E15");
        reveal_strlit("E14");
        reveal_strlit("E8");
        reveal_strlit("E16");
        reveal_strlit("E7");
        reveal_strlit("E9");
        reveal_strlit("E10");
        reveal_strlit("E11");
        if a.tag().len() == b.tag().len() {
            let last = a.tag().len() - 1;
            assert(a.tag()[last] != b.tag()[last]);
        }
    }
}

} // verus!
