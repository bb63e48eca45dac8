//! The rules by which a claim or a reclaim advances: from the store, where
//! the attempt stands and what has just happened, to the store and the
//! stage after it and what is to be done next.

use vstd::prelude::*;
use crate::agent::{spec_agent_digest, spec_recovery_authorizes, spec_recovery_input};
use crate::biometric::{spec_lengths_valid, spec_signature_valid, spec_verification_input};
use crate::record::DropView;
use crate::registry::{record_at, with_active};
use crate::types::{Address, Error, U256};

verus! {

/// Where a claim or a reclaim stands.
#[derive(Clone, Copy, Debug, PartialEq, Eq, Structural)]
pub enum Stage {
    /// Nothing has been checked yet.
    Start,
    /// The recovery service has been asked who signed the agent signature.
    TryAgentPath,
    /// The verification service has been asked about the biometric signature.
    TryBiometricPath,
    /// The drop has been marked inactive and the transfer is under way.
    Authorized,
    /// The transfer went through. Final.
    Settled,
    /// The attempt failed, and the store is as it was before it. Final.
    Rejected(Error),
}

/// What the caller reports, with byte strings as sequences.
pub enum EventView {
    Begin { now: u64 },
    Recovered(Option<Seq<u8>>),
    Verified(Option<Seq<u8>>),
    Transferred(bool),
}

/// What the caller is to do next, with byte strings as sequences.
pub enum ActionView {
    Recover(Seq<u8>),
    Verify(Seq<u8>),
    Transfer { to: Address, amount: U256 },
    Finish(Result<(), Error>),
}

/// One step of an attempt: the store, the stage and the action after it.
pub struct Step {
    pub drops: Map<U256, DropView>,
    pub stage: Stage,
    pub action: ActionView,
}

/// What a claim holds, with byte strings as sequences.
pub struct ClaimView {
    pub drop_id: U256,
    pub receiver: Address,
    pub agent_signature: Seq<u8>,
    pub biometric_signature: Seq<u8>,
    pub message_hash: Seq<u8>,
    pub stage: Stage,
}

impl ClaimView {
    /// The same claim at another stage.
    pub open spec fn at(self, stage: Stage) -> ClaimView {
        ClaimView { stage, ..self }
    }
}

/// What a reclaim holds.
pub struct ReclaimView {
    pub drop_id: U256,
    pub caller: Address,
    pub stage: Stage,
}

impl ReclaimView {
    /// The same reclaim at another stage.
    pub open spec fn at(self, stage: Stage) -> ReclaimView {
        ReclaimView { stage, ..self }
    }
}

/// The attempt ends in an error and leaves the store as it is.
pub open spec fn reject(drops: Map<U256, DropView>, error: Error) -> Step {
    Step { drops, stage: Stage::Rejected(error), action: ActionView::Finish(Err(error)) }
}

/// An authorized attempt goes on to settlement: the drop, which must
/// still be active, is marked inactive before the transfer is asked for.
pub open spec fn settle(drops: Map<U256, DropView>, drop_id: U256, to: Address) -> Step {
    let drop = record_at(drops, drop_id);
    if !drop.active {
        reject(drops, Error::DropInactive)
    } else {
        Step {
            drops: with_active(drops, drop_id, false),
            stage: Stage::Authorized,
            action: ActionView::Transfer { to, amount: drop.amount },
        }
    }
}

/// The caller reports how the transfer of an attempt under settlement
/// went. A transfer that failed, or any other report, undoes the marking.
pub open spec fn conclude(drops: Map<U256, DropView>, drop_id: U256, event: EventView) -> Step {
    match event {
        EventView::Transferred(true) => Step {
            drops,
            stage: Stage::Settled,
            action: ActionView::Finish(Ok(())),
        },
        EventView::Transferred(false) => reject(
            with_active(drops, drop_id, true),
            Error::SettlementError,
        ),
        _ => reject(with_active(drops, drop_id, true), Error::Unauthorized),
    }
}

/// The agent path is open where the drop names a gatekeeper and the
/// claim carries an agent signature.
pub open spec fn agent_path_open(drop: DropView, claim: ClaimView) -> bool {
    !drop.gatekeeper.is_zero() && claim.agent_signature.len() > 0
}

/// The biometric path, taken where the agent path is closed or gave no
/// authorization.
pub open spec fn try_biometric(drops: Map<U256, DropView>, claim: ClaimView) -> Step {
    let drop = record_at(drops, claim.drop_id);
    if claim.biometric_signature.len() == 0 {
        reject(drops, Error::BiometricMissing)
    } else if !spec_lengths_valid(
        drop.signer_pub_key_x,
        drop.signer_pub_key_y,
        claim.biometric_signature,
        claim.message_hash,
    ) {
        reject(drops, Error::BiometricLengthInvalid)
    } else {
        Step {
            drops,
            stage: Stage::TryBiometricPath,
            action: ActionView::Verify(
                spec_verification_input(
                    drop.signer_pub_key_x,
                    drop.signer_pub_key_y,
                    claim.biometric_signature,
                    claim.message_hash,
                ),
            ),
        }
    }
}

/// The first step of a claim, at time `now`.
pub open spec fn claim_begin(drops: Map<U256, DropView>, claim: ClaimView, now: u64) -> Step {
    let drop = record_at(drops, claim.drop_id);
    if !drop.active {
        reject(drops, Error::DropInactive)
    } else if now > drop.expires_at {
        reject(drops, Error::DropExpired)
    } else if agent_path_open(drop, claim) {
        if claim.agent_signature.len() != 65 {
            reject(drops, Error::MalformedAgentSignature)
        } else {
            Step {
                drops,
                stage: Stage::TryAgentPath,
                action: ActionView::Recover(
                    spec_recovery_input(
                        spec_agent_digest(claim.drop_id, claim.receiver),
                        claim.agent_signature,
                    ),
                ),
            }
        }
    } else {
        try_biometric(drops, claim)
    }
}

/// The step of a claim that waits for the recovery service.
pub open spec fn claim_recovered(
    drops: Map<U256, DropView>,
    claim: ClaimView,
    response: Option<Seq<u8>>,
) -> Step {
    let drop = record_at(drops, claim.drop_id);
    if agent_path_open(drop, claim) && spec_recovery_authorizes(response, drop.gatekeeper) {
        settle(drops, claim.drop_id, claim.receiver)
    } else {
        try_biometric(drops, claim)
    }
}

/// The step of a claim that waits for the verification service.
pub open spec fn claim_verified(
    drops: Map<U256, DropView>,
    claim: ClaimView,
    response: Option<Seq<u8>>,
) -> Step {
    match response {
        None => reject(drops, Error::VerificationCallError),
        Some(bytes) => if spec_signature_valid(bytes) {
            settle(drops, claim.drop_id, claim.receiver)
        } else {
            reject(drops, Error::BiometricSignatureInvalid)
        },
    }
}

/// One step of a claim. A report that the stage does not wait for ends
/// the claim as unauthorized; a claim that is over stays as it is.
pub open spec fn claim_step(drops: Map<U256, DropView>, claim: ClaimView, event: EventView) -> Step {
    match claim.stage {
        Stage::Start => match event {
            EventView::Begin { now } => claim_begin(drops, claim, now),
            _ => reject(drops, Error::Unauthorized),
        },
        Stage::TryAgentPath => match event {
            EventView::Recovered(response) => claim_recovered(drops, claim, response),
            _ => reject(drops, Error::Unauthorized),
        },
        Stage::TryBiometricPath => match event {
            EventView::Verified(response) => claim_verified(drops, claim, response),
            _ => reject(drops, Error::Unauthorized),
        },
        Stage::Authorized => conclude(drops, claim.drop_id, event),
        Stage::Settled => Step { drops, stage: Stage::Settled, action: ActionView::Finish(Ok(())) },
        Stage::Rejected(error) => reject(drops, error),
    }
}

/// The first step of a reclaim, at time `now`: only the sender, only
/// after the deadline, only while the drop is active.
pub open spec fn reclaim_begin(drops: Map<U256, DropView>, reclaim: ReclaimView, now: u64) -> Step {
    let drop = record_at(drops, reclaim.drop_id);
    if reclaim.caller != drop.sender {
        reject(drops, Error::NotSender)
    } else if now <= drop.expires_at {
        reject(drops, Error::NotYetExpired)
    } else {
        settle(drops, reclaim.drop_id, drop.sender)
    }
}

/// One step of a reclaim.
pub open spec fn reclaim_step(
    drops: Map<U256, DropView>,
    reclaim: ReclaimView,
    event: EventView,
) -> Step {
    match reclaim.stage {
        Stage::Start => match event {
            EventView::Begin { now } => reclaim_begin(drops, reclaim, now),
            _ => reject(drops, Error::Unauthorized),
        },
        Stage::Authorized => conclude(drops, reclaim.drop_id, event),
        Stage::Settled => Step { drops, stage: Stage::Settled, action: ActionView::Finish(Ok(())) },
        Stage::Rejected(error) => reject(drops, error),
        _ => reject(drops, Error::Unauthorized),
    }
}

/// What the outside answers to an attempt: the two services, each `None`
/// where the call fails, and whether the transfer goes through.
pub struct Answers {
    pub recovery: Option<Seq<u8>>,
    pub verification: Option<Seq<u8>>,
    pub transferred: bool,
}

/// The report by which the caller answers an action.
pub open spec fn report(action: ActionView, answers: Answers) -> EventView {
    match action {
        ActionView::Recover(_) => EventView::Recovered(answers.recovery),
        ActionView::Verify(_) => EventView::Verified(answers.verification),
        _ => EventView::Transferred(answers.transferred),
    }
}

/// The step that follows a step of a claim; none where the claim is over.
pub open spec fn claim_follow(step: Step, claim: ClaimView, answers: Answers) -> Step {
    if step.action is Finish {
        step
    } else {
        claim_step(step.drops, claim.at(step.stage), report(step.action, answers))
    }
}

/// A whole claim: it begins at time `now`, and each action is carried out
/// and reported until the claim is over.
pub open spec fn claim_run(
    drops: Map<U256, DropView>,
    claim: ClaimView,
    now: u64,
    answers: Answers,
) -> Step {
    let begun = claim_step(drops, claim.at(Stage::Start), EventView::Begin { now });
    claim_follow(claim_follow(claim_follow(begun, claim, answers), claim, answers), claim, answers)
}

/// The step that follows a step of a reclaim; none where it is over.
pub open spec fn reclaim_follow(step: Step, reclaim: ReclaimView, answers: Answers) -> Step {
    if step.action is Finish {
        step
    } else {
        reclaim_step(step.drops, reclaim.at(step.stage), report(step.action, answers))
    }
}

/// A whole reclaim, from its beginning at time `now` to its end.
pub open spec fn reclaim_run(
    drops: Map<U256, DropView>,
    reclaim: ReclaimView,
    now: u64,
    answers: Answers,
) -> Step {
    let begun = reclaim_step(drops, reclaim.at(Stage::Start), EventView::Begin { now });
    reclaim_follow(begun, reclaim, answers)
}

/// How the transfer ends an attempt that was authorized.
pub open spec fn settlement(answers: Answers) -> Result<(), Error> {
    if answers.transferred {
        Ok(())
    } else {
        Err(Error::SettlementError)
    }
}

/// Whether the proofs of a claim authorize it. The agent path comes first:
/// a malformed agent signature ends the claim, a signature that does not
/// recover to the gatekeeper leaves the biometric path to decide.
pub open spec fn authorization(drop: DropView, claim: ClaimView, answers: Answers) -> Result<
    (),
    Error,
> {
    if agent_path_open(drop, claim) && claim.agent_signature.len() != 65 {
        Err(Error::MalformedAgentSignature)
    } else if agent_path_open(drop, claim) && spec_recovery_authorizes(
        answers.recovery,
        drop.gatekeeper,
    ) {
        Ok(())
    } else if claim.biometric_signature.len() == 0 {
        Err(Error::BiometricMissing)
    } else if !spec_lengths_valid(
        drop.signer_pub_key_x,
        drop.signer_pub_key_y,
        claim.biometric_signature,
        claim.message_hash,
    ) {
        Err(Error::BiometricLengthInvalid)
    } else {
        match answers.verification {
            None => Err(Error::VerificationCallError),
            Some(bytes) => if spec_signature_valid(bytes) {
                Ok(())
            } else {
                Err(Error::BiometricSignatureInvalid)
            },
        }
    }
}

/// The result of a whole claim against a drop at time `now`.
pub open spec fn claim_outcome(drop: DropView, claim: ClaimView, now: u64, answers: Answers) -> Result<
    (),
    Error,
> {
    if !drop.active {
        Err(Error::DropInactive)
    } else if now > drop.expires_at {
        Err(Error::DropExpired)
    } else {
        match authorization(drop, claim, answers) {
            Err(error) => Err(error),
            Ok(()) => settlement(answers),
        }
    }
}

/// The result of a whole reclaim of a drop at time `now`.
pub open spec fn reclaim_outcome(
    drop: DropView,
    reclaim: ReclaimView,
    now: u64,
    answers: Answers,
) -> Result<(), Error> {
    if reclaim.caller != drop.sender {
        Err(Error::NotSender)
    } else if now <= drop.expires_at {
        Err(Error::NotYetExpired)
    } else if !drop.active {
        Err(Error::DropInactive)
    } else {
        settlement(answers)
    }
}

/// How an attempt on a drop ends, given its result: a success leaves the
/// drop inactive, a failure leaves the store as it was.
pub open spec fn ending(drops: Map<U256, DropView>, drop_id: U256, outcome: Result<(), Error>) -> Step {
    match outcome {
        Ok(()) => Step {
            drops: with_active(drops, drop_id, false),
            stage: Stage::Settled,
            action: ActionView::Finish(Ok(())),
        },
        Err(error) => reject(drops, error),
    }
}

} // verus!
