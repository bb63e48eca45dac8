//! The escrow itself: the store of drops and the four operations on it.

use vstd::prelude::*;
use crate::engine::{Action, Claim, Event, Reclaim};
use crate::record::{new_drop, Drop, DropView};
use crate::registry::{after_creation, record_at, taken, DropRegistry};
use crate::rules::{claim_step, reclaim_step};
use crate::types::{Address, Error, U256};

verus! {

/// An escrow of drops.
pub struct StylusLink {
    drops: DropRegistry,
}

impl View for StylusLink {
    type V = Map<U256, DropView>;

    closed spec fn view(&self) -> Map<U256, DropView> {
        self.drops@
    }
}

impl StylusLink {
    /// An escrow that holds no drop.
    pub fn new() -> (vault: StylusLink)
        ensures
            vault@ == Map::<U256, DropView>::empty(),
    {
        StylusLink { drops: DropRegistry::new() }
    }

    /// An escrow that holds one drop, as it was read from elsewhere.
    pub fn holding(drop_id: U256, drop: Drop) -> (vault: StylusLink)
        ensures
            vault@ == Map::<U256, DropView>::empty().insert(drop_id, drop@),
    {
        StylusLink { drops: DropRegistry::holding(drop_id, drop) }
    }

    /// The record at an identifier, zero where nothing is stored.
    pub open spec fn record(&self, id: U256) -> DropView {
        record_at(self@, id)
    }

    /// Reads the drop at an identifier: sender, amount, whether it is
    /// active, deadline, gatekeeper and the two key coordinates. Where
    /// nothing is stored every field is zero. The read never fails.
    pub fn drops(&self, drop_id: U256) -> (r: Result<
        (Address, U256, bool, u64, Address, Vec<u8>, Vec<u8>),
        Error,
    >)
        ensures
            r matches Ok(fields) && ({
                let drop = self.record(drop_id);
                &&& fields.0 == drop.sender
                &&& fields.1 == drop.amount
                &&& fields.2 == drop.active
                &&& fields.3 == drop.expires_at
                &&& fields.4 == drop.gatekeeper
                &&& fields.5@ == drop.signer_pub_key_x
                &&& fields.6@ == drop.signer_pub_key_y
            }),
    {
        let drop = self.drops.get(&drop_id);
        Ok(
            (
                drop.sender,
                drop.amount,
                drop.active,
                drop.expires_at,
                drop.gatekeeper,
                drop.signer_pub_key_x,
                drop.signer_pub_key_y,
            ),
        )
    }

    /// Locks `value`, sent by `sender`, as a new active drop. An
    /// identifier whose record has a sender other than zero is taken.
    pub fn create_drop(
        &mut self,
        drop_id: U256,
        pub_x: Vec<u8>,
        pub_y: Vec<u8>,
        gatekeeper: Address,
        expires_at: u64,
        sender: Address,
        value: U256,
    ) -> (r: Result<(), Error>)
        ensures
            r == if taken(old(self)@, drop_id) {
                Err::<(), Error>(Error::DropExists)
            } else {
                Ok(())
            },
            final(self)@ == after_creation(
                old(self)@,
                drop_id,
                new_drop(sender, value, expires_at, gatekeeper, pub_x@, pub_y@),
            ),
    {
        let drop = Drop {
            sender,
            amount: value,
            active: true,
            expires_at,
            gatekeeper,
            signer_pub_key_x: pub_x,
            signer_pub_key_y: pub_y,
        };
        self.drops.create(drop_id, drop)
    }

    /// Takes a claim one step further on what the caller reports, and
    /// says what is to be done next.
    pub fn claim_drop(&mut self, claim: &mut Claim, event: Event) -> (action: Action)
        ensures
            final(self)@ == claim_step(old(self)@, old(claim)@, event@).drops,
            final(claim)@ == old(claim)@.at(claim_step(old(self)@, old(claim)@, event@).stage),
            action@ == claim_step(old(self)@, old(claim)@, event@).action,
    {
        claim.advance(&mut self.drops, event)
    }

    /// Takes a reclaim one step further on what the caller reports, and
    /// says what is to be done next.
    pub fn reclaim_drop(&mut self, reclaim: &mut Reclaim, event: Event) -> (action: Action)
        ensures
            final(self)@ == reclaim_step(old(self)@, old(reclaim)@, event@).drops,
            final(reclaim)@ == old(reclaim)@.at(
                reclaim_step(old(self)@, old(reclaim)@, event@).stage,
            ),
            action@ == reclaim_step(old(self)@, old(reclaim)@, event@).action,
    {
        reclaim.advance(&mut self.drops, event)
    }
}

} // verus!
