//! The record kept for each drop.

use vstd::prelude::*;
use crate::types::{Address, U256};

verus! {

/// An escrowed value: what the sender locked, until when, and who may
/// release it.
#[derive(Debug, PartialEq, Eq)]
pub struct Drop {
    /// Who created the drop, and the only one who may reclaim it.
    pub sender: Address,
    /// The value locked at creation.
    pub amount: U256,
    /// True while the drop can be claimed or reclaimed.
    pub active: bool,
    /// The last moment at which a claim is accepted.
    pub expires_at: u64,
    /// The key that signs for the agent path; zero closes that path.
    pub gatekeeper: Address,
    /// The P-256 public key of the biometric path, first coordinate.
    pub signer_pub_key_x: Vec<u8>,
    /// The P-256 public key of the biometric path, second coordinate.
    pub signer_pub_key_y: Vec<u8>,
}

/// What a `Drop` holds, with byte strings as sequences.
pub struct DropView {
    pub sender: Address,
    pub amount: U256,
    pub active: bool,
    pub expires_at: u64,
    pub gatekeeper: Address,
    pub signer_pub_key_x: Seq<u8>,
    pub signer_pub_key_y: Seq<u8>,
}

impl DropView {
    /// The record of an identifier that holds no drop: every field zero.
    pub open spec fn zero() -> DropView {
        DropView {
            sender: Address::zero(),
            amount: U256::zero(),
            active: false,
            expires_at: 0,
            gatekeeper: Address::zero(),
            signer_pub_key_x: Seq::empty(),
            signer_pub_key_y: Seq::empty(),
        }
    }

    /// The same record with `active` set as given.
    pub open spec fn with_active(self, active: bool) -> DropView {
        DropView { active, ..self }
    }
}

/// The record that creation stores: active, with the given fields.
pub open spec fn new_drop(
    sender: Address,
    value: U256,
    expires_at: u64,
    gatekeeper: Address,
    pub_x: Seq<u8>,
    pub_y: Seq<u8>,
) -> DropView {
    DropView {
        sender,
        amount: value,
        active: true,
        expires_at,
        gatekeeper,
        signer_pub_key_x: pub_x,
        signer_pub_key_y: pub_y,
    }
}

impl View for Drop {
    type V = DropView;

    open spec fn view(&self) -> DropView {
        DropView {
            sender: self.sender,
            amount: self.amount,
            active: self.active,
            expires_at: self.expires_at,
            gatekeeper: self.gatekeeper,
            signer_pub_key_x: self.signer_pub_key_x@,
            signer_pub_key_y: self.signer_pub_key_y@,
        }
    }
}

impl Clone for Drop {
    fn clone(&self) -> (copy: Drop)
        ensures
            copy@ == self@,
    {
        Drop {
            sender: self.sender,
            amount: self.amount,
            active: self.active,
            expires_at: self.expires_at,
            gatekeeper: self.gatekeeper,
            signer_pub_key_x: self.signer_pub_key_x.clone(),
            signer_pub_key_y: self.signer_pub_key_y.clone(),
        }
    }
}

impl Drop {
    /// The record read at an identifier that holds no drop.
    pub fn zero() -> (d: Drop)
        ensures
            d@ == DropView::zero(),
    {
        Drop {
            sender: Address::zero(),
            amount: U256::zero(),
            active: false,
            expires_at: 0,
            gatekeeper: Address::zero(),
            signer_pub_key_x: Vec::new(),
            signer_pub_key_y: Vec::new(),
        }
    }
}

} // verus!
