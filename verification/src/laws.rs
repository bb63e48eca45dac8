//! What holds of the escrow whatever is asked of it.

use vstd::prelude::*;
use crate::agent::{spec_recovery_authorizes, spec_recovery_input};
use crate::biometric::{spec_lengths_valid, spec_signature_valid};
use crate::record::DropView;
use crate::registry::{after_creation, record_at, taken, with_active};
use crate::agent::{keccak256, SIGNED_MESSAGE_PREFIX};
use crate::rules::{
    agent_path_open, authorization, claim_outcome, claim_run, claim_step, conclude, ending,
    reclaim_outcome, reclaim_run, reclaim_step, reject, settle, ActionView, Answers,
    ClaimView, EventView, ReclaimView, Stage,
};
use crate::types::{Address, Error, U256};

verus! {

/// Marking a drop inactive and then active again gives back the store in
/// which the drop was active.
pub proof fn deactivation_undone(drops: Map<U256, DropView>, drop_id: U256)
    requires
        record_at(drops, drop_id).active,
    ensures
        with_active(with_active(drops, drop_id, false), drop_id, true) == drops,
{
    assert(drops.contains_key(drop_id));
    assert(drops[drop_id].with_active(false).with_active(true) == drops[drop_id]);
    assert(with_active(with_active(drops, drop_id, false), drop_id, true) =~= drops);
}

/// A whole claim ends as its outcome says: with success the drop is left
/// inactive, with any failure the store is as it was before the claim.
pub proof fn claim_run_ends_as_outcome(
    drops: Map<U256, DropView>,
    claim: ClaimView,
    now: u64,
    answers: Answers,
)
    ensures
        claim_run(drops, claim, now, answers) == ending(
            drops,
            claim.drop_id,
            claim_outcome(record_at(drops, claim.drop_id), claim, now, answers),
        ),
{
    let drop = record_at(drops, claim.drop_id);
    if drop.active {
        deactivation_undone(drops, claim.drop_id);
        let inactive = with_active(drops, claim.drop_id, false);
        assert(!record_at(inactive, claim.drop_id).active);
    }
}

/// A whole reclaim ends as its outcome says: with success the drop is
/// left inactive, with any failure the store is as it was before.
pub proof fn reclaim_run_ends_as_outcome(
    drops: Map<U256, DropView>,
    reclaim: ReclaimView,
    now: u64,
    answers: Answers,
)
    ensures
        reclaim_run(drops, reclaim, now, answers) == ending(
            drops,
            reclaim.drop_id,
            reclaim_outcome(record_at(drops, reclaim.drop_id), reclaim, now, answers),
        ),
{
    let drop = record_at(drops, reclaim.drop_id);
    if drop.active {
        deactivation_undone(drops, reclaim.drop_id);
    }
}

/// Creation at an identifier that a sender other than zero holds is
/// refused and changes nothing; so is, after a creation by a sender
/// other than zero, every further creation at the same identifier.
pub proof fn second_creation_is_refused(
    drops: Map<U256, DropView>,
    drop_id: U256,
    first: DropView,
    second: DropView,
)
    ensures
        taken(drops, drop_id) ==> after_creation(drops, drop_id, second) == drops,
        !first.sender.is_zero() ==> taken(after_creation(drops, drop_id, first), drop_id),
        !first.sender.is_zero() ==> after_creation(
            after_creation(drops, drop_id, first),
            drop_id,
            second,
        ) == after_creation(drops, drop_id, first),
{
}

/// A creation, at whichever identifier, leaves every taken identifier
/// with the record it has.
pub proof fn creation_keeps_taken_records(
    drops: Map<U256, DropView>,
    drop_id: U256,
    drop: DropView,
    other: U256,
)
    requires
        taken(drops, other),
    ensures
        record_at(after_creation(drops, drop_id, drop), other) == record_at(drops, other),
{
}

/// An identifier that is taken stays taken through every step of every
/// claim and reclaim, on whichever drop.
pub proof fn taken_identifier_stays_taken(
    drops: Map<U256, DropView>,
    claim: ClaimView,
    reclaim: ReclaimView,
    event: EventView,
    drop_id: U256,
)
    requires
        taken(drops, drop_id),
    ensures
        taken(claim_step(drops, claim, event).drops, drop_id),
        taken(reclaim_step(drops, reclaim, event).drops, drop_id),
{
}

/// A step of a claim changes nothing in the store but the `active` flag
/// of the claim's own drop.
pub proof fn claim_step_changes_only_the_flag(
    drops: Map<U256, DropView>,
    claim: ClaimView,
    event: EventView,
)
    ensures
        ({
            let after = claim_step(drops, claim, event).drops;
            after == drops || after == with_active(drops, claim.drop_id, false) || after
                == with_active(drops, claim.drop_id, true)
        }),
{
}

/// A step of a reclaim changes nothing in the store but the `active`
/// flag of the reclaim's own drop.
pub proof fn reclaim_step_changes_only_the_flag(
    drops: Map<U256, DropView>,
    reclaim: ReclaimView,
    event: EventView,
)
    ensures
        ({
            let after = reclaim_step(drops, reclaim, event).drops;
            after == drops || after == with_active(drops, reclaim.drop_id, false) || after
                == with_active(drops, reclaim.drop_id, true)
        }),
{
}

/// No record is ever removed: what the store holds at an identifier, it
/// holds after every creation and after every step of a claim or a
/// reclaim.
pub proof fn stored_records_stay(
    drops: Map<U256, DropView>,
    claim: ClaimView,
    reclaim: ReclaimView,
    event: EventView,
    drop_id: U256,
    drop: DropView,
    other: U256,
)
    requires
        drops.contains_key(other),
    ensures
        after_creation(drops, drop_id, drop).contains_key(other),
        claim_step(drops, claim, event).drops.contains_key(other),
        reclaim_step(drops, reclaim, event).drops.contains_key(other),
{
}

/// A step asks for a transfer only as it marks an active drop inactive,
/// and the transfer is of that drop's amount.
pub proof fn transfer_follows_deactivation(
    drops: Map<U256, DropView>,
    claim: ClaimView,
    reclaim: ReclaimView,
    event: EventView,
)
    ensures
        claim_step(drops, claim, event).action is Transfer ==> {
            &&& record_at(drops, claim.drop_id).active
            &&& claim_step(drops, claim, event) == settle(drops, claim.drop_id, claim.receiver)
            &&& !record_at(claim_step(drops, claim, event).drops, claim.drop_id).active
        },
        reclaim_step(drops, reclaim, event).action is Transfer ==> {
            &&& record_at(drops, reclaim.drop_id).active
            &&& reclaim_step(drops, reclaim, event) == settle(
                drops,
                reclaim.drop_id,
                record_at(drops, reclaim.drop_id).sender,
            )
            &&& !record_at(reclaim_step(drops, reclaim, event).drops, reclaim.drop_id).active
        },
{
}

/// A drop that is inactive stays inactive through every step of a claim
/// or a reclaim, but for the step that undoes the attempt's own marking
/// while its transfer is under way.
pub proof fn step_keeps_inactive_drops_inactive(
    drops: Map<U256, DropView>,
    claim: ClaimView,
    reclaim: ReclaimView,
    event: EventView,
    drop_id: U256,
)
    requires
        !record_at(drops, drop_id).active,
    ensures
        !(claim.stage == Stage::Authorized && claim.drop_id == drop_id) ==> !record_at(
            claim_step(drops, claim, event).drops,
            drop_id,
        ).active,
        !(reclaim.stage == Stage::Authorized && reclaim.drop_id == drop_id) ==> !record_at(
            reclaim_step(drops, reclaim, event).drops,
            drop_id,
        ).active,
{
}

/// Once a drop is inactive, no claim and no reclaim, whatever it brings
/// and however it ends, makes it active again.
pub proof fn inactive_drop_stays_inactive(
    drops: Map<U256, DropView>,
    claim: ClaimView,
    reclaim: ReclaimView,
    now: u64,
    answers: Answers,
    drop_id: U256,
)
    requires
        !record_at(drops, drop_id).active,
    ensures
        !record_at(claim_run(drops, claim, now, answers).drops, drop_id).active,
        !record_at(reclaim_run(drops, reclaim, now, answers).drops, drop_id).active,
{
    claim_run_ends_as_outcome(drops, claim, now, answers);
    reclaim_run_ends_as_outcome(drops, reclaim, now, answers);
}

/// A claim made exactly at the deadline is in time: with proofs that
/// authorize it and a transfer that goes through, it settles.
pub proof fn claim_at_deadline_settles(
    drops: Map<U256, DropView>,
    claim: ClaimView,
    answers: Answers,
)
    requires
        record_at(drops, claim.drop_id).active,
        authorization(record_at(drops, claim.drop_id), claim, answers) is Ok,
        answers.transferred,
    ensures
        claim_run(drops, claim, record_at(drops, claim.drop_id).expires_at, answers) == ending(
            drops,
            claim.drop_id,
            Ok(()),
        ),
{
    claim_run_ends_as_outcome(
        drops,
        claim,
        record_at(drops, claim.drop_id).expires_at,
        answers,
    );
}

/// A claim made one moment after the deadline is refused as expired,
/// whatever proofs it brings.
pub proof fn claim_after_deadline_is_expired(
    drops: Map<U256, DropView>,
    claim: ClaimView,
    now: u64,
    answers: Answers,
)
    requires
        record_at(drops, claim.drop_id).active,
        now == record_at(drops, claim.drop_id).expires_at + 1,
    ensures
        claim_run(drops, claim, now, answers) == reject(drops, Error::DropExpired),
{
    claim_run_ends_as_outcome(drops, claim, now, answers);
}

/// A reclaim by the sender exactly at the deadline is too early.
pub proof fn reclaim_at_deadline_is_too_early(
    drops: Map<U256, DropView>,
    reclaim: ReclaimView,
    answers: Answers,
)
    requires
        reclaim.caller == record_at(drops, reclaim.drop_id).sender,
    ensures
        reclaim_run(drops, reclaim, record_at(drops, reclaim.drop_id).expires_at, answers)
            == reject(drops, Error::NotYetExpired),
{
    reclaim_run_ends_as_outcome(
        drops,
        reclaim,
        record_at(drops, reclaim.drop_id).expires_at,
        answers,
    );
}

/// A reclaim of an active drop by its sender one moment after the
/// deadline settles, if the transfer goes through.
pub proof fn reclaim_after_deadline_settles(
    drops: Map<U256, DropView>,
    reclaim: ReclaimView,
    now: u64,
    answers: Answers,
)
    requires
        reclaim.caller == record_at(drops, reclaim.drop_id).sender,
        record_at(drops, reclaim.drop_id).active,
        now == record_at(drops, reclaim.drop_id).expires_at + 1,
        answers.transferred,
    ensures
        reclaim_run(drops, reclaim, now, answers) == ending(drops, reclaim.drop_id, Ok(())),
{
    reclaim_run_ends_as_outcome(drops, reclaim, now, answers);
}

/// The agent path: for a 65-byte signature the recovery service is asked
/// about the hash of the prefix and the hash of identifier and receiver,
/// packed tightly. Where it answers with 32 bytes that end in the
/// gatekeeper's address, the claim settles, whatever the biometric
/// inputs are.
pub proof fn gatekeeper_signature_authorizes(
    drops: Map<U256, DropView>,
    claim: ClaimView,
    now: u64,
    answers: Answers,
)
    requires
        record_at(drops, claim.drop_id).active,
        now <= record_at(drops, claim.drop_id).expires_at,
        !record_at(drops, claim.drop_id).gatekeeper.is_zero(),
        claim.agent_signature.len() == 65,
        answers.recovery matches Some(bytes) && bytes.len() == 32 && bytes.subrange(12, 32)
            == record_at(drops, claim.drop_id).gatekeeper@,
        answers.transferred,
    ensures
        claim_step(drops, claim.at(Stage::Start), EventView::Begin { now }).action
            == ActionView::Recover(
            spec_recovery_input(
                keccak256(
                    SIGNED_MESSAGE_PREFIX@ + keccak256(claim.drop_id@ + claim.receiver@),
                ),
                claim.agent_signature,
            ),
        ),
        claim_run(drops, claim, now, answers) == ending(drops, claim.drop_id, Ok(())),
{
    claim_run_ends_as_outcome(drops, claim, now, answers);
}

/// The agent path fails softly: a well-formed agent signature that does
/// not recover to the gatekeeper, be it that the service names another
/// signer, answers with another length or cannot be called, leaves the
/// claim where it would be without an agent signature, and is never
/// reported as a failed call.
pub proof fn other_signer_leaves_biometric_path(
    drops: Map<U256, DropView>,
    claim: ClaimView,
    now: u64,
    answers: Answers,
)
    requires
        claim.agent_signature.len() == 65,
        !spec_recovery_authorizes(answers.recovery, record_at(drops, claim.drop_id).gatekeeper),
    ensures
        claim_run(drops, claim, now, answers) == claim_run(
            drops,
            ClaimView { agent_signature: Seq::empty(), ..claim },
            now,
            answers,
        ),
        claim_run(drops, claim, now, answers).action != ActionView::Finish(
            Err(Error::RecoveryCallError),
        ),
{
    let without = ClaimView { agent_signature: Seq::empty(), ..claim };
    claim_run_ends_as_outcome(drops, claim, now, answers);
    claim_run_ends_as_outcome(drops, without, now, answers);
}

/// The agent path fails hard on length: where the drop names a gatekeeper
/// and the agent signature is neither empty nor 65 bytes long, the claim
/// ends as malformed at its first step, whatever the biometric inputs and
/// the services' answers are.
pub proof fn malformed_agent_signature_ends_claim(
    drops: Map<U256, DropView>,
    claim: ClaimView,
    now: u64,
    answers: Answers,
)
    requires
        record_at(drops, claim.drop_id).active,
        now <= record_at(drops, claim.drop_id).expires_at,
        !record_at(drops, claim.drop_id).gatekeeper.is_zero(),
        claim.agent_signature.len() != 0,
        claim.agent_signature.len() != 65,
    ensures
        claim_step(drops, claim.at(Stage::Start), EventView::Begin { now }) == reject(
            drops,
            Error::MalformedAgentSignature,
        ),
        claim_run(drops, claim, now, answers) == reject(drops, Error::MalformedAgentSignature),
{
    claim_run_ends_as_outcome(drops, claim, now, answers);
}

/// The verification service's answer decides the biometric path: 32
/// bytes that end in 1 take the claim to settlement; 32 bytes that end
/// otherwise, or an answer of any other length, end it as invalid.
pub proof fn verification_answer_decides(
    drops: Map<U256, DropView>,
    claim: ClaimView,
    response: Seq<u8>,
)
    ensures
        response.len() == 32 && response[31] == 1 ==> claim_step(
            drops,
            claim.at(Stage::TryBiometricPath),
            EventView::Verified(Some(response)),
        ) == settle(drops, claim.drop_id, claim.receiver),
        response.len() != 32 || response[31] != 1 ==> claim_step(
            drops,
            claim.at(Stage::TryBiometricPath),
            EventView::Verified(Some(response)),
        ) == reject(drops, Error::BiometricSignatureInvalid),
{
}

/// A whole claim on the biometric path: with the agent path closed, a
/// signature and lengths as they must be, the claim settles where the
/// service answers "valid" and ends as invalid where it answers anything
/// else.
pub proof fn biometric_claim_follows_the_answer(
    drops: Map<U256, DropView>,
    claim: ClaimView,
    now: u64,
    answers: Answers,
)
    requires
        record_at(drops, claim.drop_id).active,
        now <= record_at(drops, claim.drop_id).expires_at,
        !agent_path_open(record_at(drops, claim.drop_id), claim),
        spec_lengths_valid(
            record_at(drops, claim.drop_id).signer_pub_key_x,
            record_at(drops, claim.drop_id).signer_pub_key_y,
            claim.biometric_signature,
            claim.message_hash,
        ),
        answers.verification is Some,
        answers.transferred,
    ensures
        claim_run(drops, claim, now, answers) == ending(
            drops,
            claim.drop_id,
            if spec_signature_valid(answers.verification->0) {
                Ok(())
            } else {
                Err(Error::BiometricSignatureInvalid)
            },
        ),
{
    claim_run_ends_as_outcome(drops, claim, now, answers);
}

/// After a claim has settled, no claim and no reclaim of the same drop
/// settles: every later claim is refused as inactive, and so is every
/// later reclaim that the sender makes after the deadline; a reclaim by
/// anyone else or before the deadline is refused for that.
pub proof fn nothing_settles_after_a_claim(
    drops: Map<U256, DropView>,
    first: ClaimView,
    first_now: u64,
    first_answers: Answers,
    claim: ClaimView,
    reclaim: ReclaimView,
    now: u64,
    answers: Answers,
)
    requires
        claim_run(drops, first, first_now, first_answers).stage == Stage::Settled,
        claim.drop_id == first.drop_id,
        reclaim.drop_id == first.drop_id,
    ensures
        ({
            let after = claim_run(drops, first, first_now, first_answers).drops;
            let drop = record_at(after, first.drop_id);
            &&& claim_run(after, claim, now, answers) == reject(after, Error::DropInactive)
            &&& reclaim_run(after, reclaim, now, answers).stage is Rejected
            &&& reclaim_run(after, reclaim, now, answers).drops == after
            &&& reclaim.caller == drop.sender && now > drop.expires_at ==> reclaim_run(
                after,
                reclaim,
                now,
                answers,
            ) == reject(after, Error::DropInactive)
        }),
{
    let after = claim_run(drops, first, first_now, first_answers).drops;
    claim_run_ends_as_outcome(drops, first, first_now, first_answers);
    claim_run_ends_as_outcome(after, claim, now, answers);
    reclaim_run_ends_as_outcome(after, reclaim, now, answers);
}

/// After a reclaim has settled, no claim and no reclaim of the same drop
/// settles: every later claim is refused as inactive, and so is every
/// later reclaim that the sender makes after the deadline; a reclaim by
/// anyone else or before the deadline is refused for that.
pub proof fn nothing_settles_after_a_reclaim(
    drops: Map<U256, DropView>,
    first: ReclaimView,
    first_now: u64,
    first_answers: Answers,
    claim: ClaimView,
    reclaim: ReclaimView,
    now: u64,
    answers: Answers,
)
    requires
        reclaim_run(drops, first, first_now, first_answers).stage == Stage::Settled,
        claim.drop_id == first.drop_id,
        reclaim.drop_id == first.drop_id,
    ensures
        ({
            let after = reclaim_run(drops, first, first_now, first_answers).drops;
            let drop = record_at(after, first.drop_id);
            &&& claim_run(after, claim, now, answers) == reject(after, Error::DropInactive)
            &&& reclaim_run(after, reclaim, now, answers).stage is Rejected
            &&& reclaim_run(after, reclaim, now, answers).drops == after
            &&& reclaim.caller == drop.sender && now > drop.expires_at ==> reclaim_run(
                after,
                reclaim,
                now,
                answers,
            ) == reject(after, Error::DropInactive)
        }),
{
    let after = reclaim_run(drops, first, first_now, first_answers).drops;
    reclaim_run_ends_as_outcome(drops, first, first_now, first_answers);
    claim_run_ends_as_outcome(after, claim, now, answers);
    reclaim_run_ends_as_outcome(after, reclaim, now, answers);
}

/// A transfer that fails leaves nothing behind: the step that reports it
/// gives back the store in which the drop was still active, and the
/// whole attempt ends with the store as it was before it began.
pub proof fn failed_transfer_changes_nothing(
    drops: Map<U256, DropView>,
    claim: ClaimView,
    reclaim: ReclaimView,
    now: u64,
    answers: Answers,
)
    requires
        !answers.transferred,
    ensures
        record_at(drops, claim.drop_id).active ==> conclude(
            settle(drops, claim.drop_id, claim.receiver).drops,
            claim.drop_id,
            EventView::Transferred(false),
        ) == reject(drops, Error::SettlementError),
        claim_run(drops, claim, now, answers).drops == drops,
        claim_run(drops, claim, now, answers).stage is Rejected,
        reclaim_run(drops, reclaim, now, answers).drops == drops,
        reclaim_run(drops, reclaim, now, answers).stage is Rejected,
{
    if record_at(drops, claim.drop_id).active {
        deactivation_undone(drops, claim.drop_id);
    }
    claim_run_ends_as_outcome(drops, claim, now, answers);
    reclaim_run_ends_as_outcome(drops, reclaim, now, answers);
}

} // verus!
