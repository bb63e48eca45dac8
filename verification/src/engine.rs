//! Claims and reclaims as the caller drives them. The calls to the
//! recovery service, to the verification service and the value transfer
//! are made by the caller, who reports each outcome as an `Event` and is
//! told what to do next by an `Action`.

use vstd::prelude::*;
use crate::agent::{agent_digest, recovery_authorizes, recovery_input};
use crate::biometric::{signature_valid, verification_input};
use crate::registry::DropRegistry;
use crate::rules;
use crate::rules::{ActionView, ClaimView, EventView, ReclaimView, Stage, Step};
use crate::types::{answer_bytes, Address, Error, U256};

verus! {

/// What the caller reports to an attempt.
#[derive(Debug, PartialEq, Eq)]
pub enum Event {
    /// The attempt begins, at this time.
    Begin { now: u64 },
    /// The recovery service's answer; `None` where the call failed.
    Recovered(Option<Vec<u8>>),
    /// The verification service's answer; `None` where the call failed.
    Verified(Option<Vec<u8>>),
    /// Whether the value transfer went through.
    Transferred(bool),
}

impl View for Event {
    type V = EventView;

    open spec fn view(&self) -> EventView {
        match *self {
            Event::Begin { now } => EventView::Begin { now },
            Event::Recovered(response) => EventView::Recovered(answer_bytes(response)),
            Event::Verified(response) => EventView::Verified(answer_bytes(response)),
            Event::Transferred(ok) => EventView::Transferred(ok),
        }
    }
}

/// What the caller is to do next.
#[derive(Debug, PartialEq, Eq)]
pub enum Action {
    /// Call the recovery service with these 128 bytes, then report `Recovered`.
    Recover(Vec<u8>),
    /// Call the verification service with these 160 bytes, then report `Verified`.
    Verify(Vec<u8>),
    /// Transfer the amount to the address, then report `Transferred`.
    Transfer { to: Address, amount: U256 },
    /// The attempt is over, with this result.
    Finish(Result<(), Error>),
}

impl View for Action {
    type V = ActionView;

    open spec fn view(&self) -> ActionView {
        match *self {
            Action::Recover(input) => ActionView::Recover(input@),
            Action::Verify(input) => ActionView::Verify(input@),
            Action::Transfer { to, amount } => ActionView::Transfer { to, amount },
            Action::Finish(result) => ActionView::Finish(result),
        }
    }
}

/// A claim: who asks for which drop, and with which proofs.
#[derive(Debug)]
pub struct Claim {
    drop_id: U256,
    receiver: Address,
    agent_signature: Vec<u8>,
    biometric_signature: Vec<u8>,
    message_hash: Vec<u8>,
    stage: Stage,
}

impl View for Claim {
    type V = ClaimView;

    closed spec fn view(&self) -> ClaimView {
        ClaimView {
            drop_id: self.drop_id,
            receiver: self.receiver,
            agent_signature: self.agent_signature@,
            biometric_signature: self.biometric_signature@,
            message_hash: self.message_hash@,
            stage: self.stage,
        }
    }
}

/// A reclaim: who asks for which drop back.
#[derive(Debug)]
pub struct Reclaim {
    drop_id: U256,
    caller: Address,
    stage: Stage,
}

impl View for Reclaim {
    type V = ReclaimView;

    closed spec fn view(&self) -> ReclaimView {
        ReclaimView { drop_id: self.drop_id, caller: self.caller, stage: self.stage }
    }
}

impl Claim {
    /// A claim that has not begun.
    pub fn new(
        drop_id: U256,
        receiver: Address,
        agent_signature: Vec<u8>,
        biometric_signature: Vec<u8>,
        message_hash: Vec<u8>,
    ) -> (claim: Claim)
        ensures
            claim@ == (ClaimView {
                drop_id,
                receiver,
                agent_signature: agent_signature@,
                biometric_signature: biometric_signature@,
                message_hash: message_hash@,
                stage: Stage::Start,
            }),
    {
        Claim {
            drop_id,
            receiver,
            agent_signature,
            biometric_signature,
            message_hash,
            stage: Stage::Start,
        }
    }

    /// Where the claim stands.
    pub fn stage(&self) -> (stage: Stage)
        ensures
            stage == self@.stage,
    {
        self.stage
    }
}

impl Reclaim {
    /// A reclaim that has not begun.
    pub fn new(drop_id: U256, caller: Address) -> (reclaim: Reclaim)
        ensures
            reclaim@ == (ReclaimView { drop_id, caller, stage: Stage::Start }),
    {
        Reclaim { drop_id, caller, stage: Stage::Start }
    }

    /// Where the reclaim stands.
    pub fn stage(&self) -> (stage: Stage)
        ensures
            stage == self@.stage,
    {
        self.stage
    }
}

/// Whether a stage and an action are those of a step.
spec fn agrees(stage: Stage, action: Action, step: Step) -> bool {
    stage == step.stage && action@ == step.action
}

fn reject(error: Error) -> (r: (Stage, Action))
    ensures
        r.0 == Stage::Rejected(error),
        r.1@ == ActionView::Finish(Err(error)),
{
    (Stage::Rejected(error), Action::Finish(Err(error)))
}

fn settle(drops: &mut DropRegistry, drop_id: &U256, to: Address) -> (r: (Stage, Action))
    ensures
        final(drops)@ == rules::settle(old(drops)@, *drop_id, to).drops,
        agrees(r.0, r.1, rules::settle(old(drops)@, *drop_id, to)),
{
    let drop = drops.get(drop_id);
    if !drop.active {
        return reject(Error::DropInactive);
    }
    drops.set_inactive(drop_id);
    (Stage::Authorized, Action::Transfer { to, amount: drop.amount })
}

fn conclude(drops: &mut DropRegistry, drop_id: &U256, event: &Event) -> (r: (Stage, Action))
    ensures
        final(drops)@ == rules::conclude(old(drops)@, *drop_id, event@).drops,
        agrees(r.0, r.1, rules::conclude(old(drops)@, *drop_id, event@)),
{
    match event {
        Event::Transferred(true) => (Stage::Settled, Action::Finish(Ok(()))),
        Event::Transferred(false) => {
            drops.set_active(drop_id, true);
            reject(Error::SettlementError)
        },
        _ => {
            drops.set_active(drop_id, true);
            reject(Error::Unauthorized)
        },
    }
}

impl Claim {
    fn try_biometric(&self, drops: &DropRegistry) -> (r: (Stage, Action))
        ensures
            agrees(r.0, r.1, rules::try_biometric(drops@, self@)),
    {
        if self.biometric_signature.len() == 0 {
            return reject(Error::BiometricMissing);
        }
        let drop = drops.get(&self.drop_id);
        match verification_input(
            &drop.signer_pub_key_x,
            &drop.signer_pub_key_y,
            &self.biometric_signature,
            &self.message_hash,
        ) {
            Ok(input) => (Stage::TryBiometricPath, Action::Verify(input)),
            Err(error) => reject(error),
        }
    }

    fn begin(&self, drops: &DropRegistry, now: u64) -> (r: (Stage, Action))
        ensures
            agrees(r.0, r.1, rules::claim_begin(drops@, self@, now)),
    {
        let drop = drops.get(&self.drop_id);
        if !drop.active {
            return reject(Error::DropInactive);
        }
        if now > drop.expires_at {
            return reject(Error::DropExpired);
        }
        if !drop.gatekeeper.is_zero() && self.agent_signature.len() > 0 {
            if self.agent_signature.len() != 65 {
                return reject(Error::MalformedAgentSignature);
            }
            let digest = agent_digest(&self.drop_id, &self.receiver);
            match recovery_input(&digest, &self.agent_signature) {
                Ok(input) => (Stage::TryAgentPath, Action::Recover(input)),
                Err(error) => reject(error),
            }
        } else {
            self.try_biometric(drops)
        }
    }

    fn recovered(&self, drops: &mut DropRegistry, response: &Option<Vec<u8>>) -> (r: (
        Stage,
        Action,
    ))
        ensures
            final(drops)@ == rules::claim_recovered(
                old(drops)@,
                self@,
                answer_bytes(*response),
            ).drops,
            agrees(r.0, r.1, rules::claim_recovered(old(drops)@, self@, answer_bytes(*response))),
    {
        let drop = drops.get(&self.drop_id);
        if !drop.gatekeeper.is_zero() && self.agent_signature.len() > 0 && recovery_authorizes(
            response,
            &drop.gatekeeper,
        ) {
            settle(drops, &self.drop_id, self.receiver)
        } else {
            self.try_biometric(drops)
        }
    }

    fn verified(&self, drops: &mut DropRegistry, response: &Option<Vec<u8>>) -> (r: (
        Stage,
        Action,
    ))
        ensures
            final(drops)@ == rules::claim_verified(
                old(drops)@,
                self@,
                answer_bytes(*response),
            ).drops,
            agrees(r.0, r.1, rules::claim_verified(old(drops)@, self@, answer_bytes(*response))),
    {
        match response {
            None => reject(Error::VerificationCallError),
            Some(bytes) => {
                if signature_valid(bytes) {
                    settle(drops, &self.drop_id, self.receiver)
                } else {
                    reject(Error::BiometricSignatureInvalid)
                }
            },
        }
    }

    /// Takes the claim one step further on what the caller reports, and
    /// says what is to be done next.
    pub(crate) fn advance(&mut self, drops: &mut DropRegistry, event: Event) -> (action: Action)
        ensures
            final(drops)@ == rules::claim_step(old(drops)@, old(self)@, event@).drops,
            final(self)@ == old(self)@.at(rules::claim_step(old(drops)@, old(self)@, event@).stage),
            action@ == rules::claim_step(old(drops)@, old(self)@, event@).action,
    {
        let (stage, action) = match self.stage {
            Stage::Start => match event {
                Event::Begin { now } => self.begin(drops, now),
                _ => reject(Error::Unauthorized),
            },
            Stage::TryAgentPath => match event {
                Event::Recovered(response) => self.recovered(drops, &response),
                _ => reject(Error::Unauthorized),
            },
            Stage::TryBiometricPath => match event {
                Event::Verified(response) => self.verified(drops, &response),
                _ => reject(Error::Unauthorized),
            },
            Stage::Authorized => conclude(drops, &self.drop_id, &event),
            Stage::Settled => (Stage::Settled, Action::Finish(Ok(()))),
            Stage::Rejected(error) => reject(error),
        };
        self.stage = stage;
        action
    }
}

impl Reclaim {
    fn begin(&self, drops: &mut DropRegistry, now: u64) -> (r: (Stage, Action))
        ensures
            final(drops)@ == rules::reclaim_begin(old(drops)@, self@, now).drops,
            agrees(r.0, r.1, rules::reclaim_begin(old(drops)@, self@, now)),
    {
        let drop = drops.get(&self.drop_id);
        if self.caller != drop.sender {
            return reject(Error::NotSender);
        }
        if now <= drop.expires_at {
            return reject(Error::NotYetExpired);
        }
        settle(drops, &self.drop_id, drop.sender)
    }

    /// Takes the reclaim one step further on what the caller reports,
    /// and says what is to be done next.
    pub(crate) fn advance(&mut self, drops: &mut DropRegistry, event: Event) -> (action: Action)
        ensures
            final(drops)@ == rules::reclaim_step(old(drops)@, old(self)@, event@).drops,
            final(self)@ == old(self)@.at(
                rules::reclaim_step(old(drops)@, old(self)@, event@).stage,
            ),
            action@ == rules::reclaim_step(old(drops)@, old(self)@, event@).action,
    {
        let (stage, action) = match self.stage {
            Stage::Start => match event {
                Event::Begin { now } => self.begin(drops, now),
                _ => reject(Error::Unauthorized),
            },
            Stage::Authorized => conclude(drops, &self.drop_id, &event),
            Stage::Settled => (Stage::Settled, Action::Finish(Ok(()))),
            Stage::Rejected(error) => reject(error),
            _ => reject(Error::Unauthorized),
        };
        self.stage = stage;
        action
    }
}

} // verus!
