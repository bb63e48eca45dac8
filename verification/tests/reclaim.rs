use stylus_link_vault::engine::{Action, Claim, Event, Reclaim};
use stylus_link_vault::rules::Stage;
use stylus_link_vault::types::{Address, Error, U256};
use stylus_link_vault::vault::StylusLink;

fn word(n: u64) -> U256 {
    let mut bytes = [0u8; 32];
    bytes[24..].copy_from_slice(&n.to_be_bytes());
    U256 { bytes }
}

fn addr(byte: u8) -> Address {
    Address { bytes: [byte; 20] }
}

const ID: u64 = 42;
const SENDER: u8 = 0x51;
const RECEIVER: u8 = 0x52;

fn vault() -> StylusLink {
    let mut vault = StylusLink::new();
    vault
        .create_drop(word(ID), vec![0x0a; 32], vec![0x0b; 32], Address::zero(), 1000, addr(SENDER), word(100))
        .unwrap();
    vault
}

fn active(vault: &StylusLink) -> bool {
    vault.drops(word(ID)).unwrap().2
}

fn reclaim(vault: &mut StylusLink, caller: Address, now: u64, transfer: bool) -> (Result<(), Error>, Vec<(Address, U256)>) {
    let mut attempt = Reclaim::new(word(ID), caller);
    let mut transfers = Vec::new();
    let mut action = vault.reclaim_drop(&mut attempt, Event::Begin { now });
    for _ in 0..4 {
        match action {
            Action::Transfer { to, amount } => {
                transfers.push((to, amount));
                assert!(!vault.drops(word(ID)).unwrap().2);
                action = vault.reclaim_drop(&mut attempt, Event::Transferred(transfer));
            }
            Action::Finish(result) => {
                let stage = match result {
                    Ok(()) => Stage::Settled,
                    Err(error) => Stage::Rejected(error),
                };
                assert_eq!(attempt.stage(), stage);
                return (result, transfers);
            }
            other => panic!("a reclaim asks for no service: {:?}", other),
        }
    }
    panic!("the reclaim did not come to an end");
}

fn claim_by_biometric(vault: &mut StylusLink, now: u64, transfer: bool) -> Result<(), Error> {
    let mut claim = Claim::new(word(ID), addr(RECEIVER), Vec::new(), vec![0x0d; 64], vec![0x0e; 32]);
    let mut valid = vec![0u8; 31];
    valid.push(1);
    let mut action = vault.claim_drop(&mut claim, Event::Begin { now });
    for _ in 0..4 {
        let event = match action {
            Action::Verify(_) => Event::Verified(Some(valid.clone())),
            Action::Transfer { .. } => Event::Transferred(transfer),
            Action::Finish(result) => return result,
            other => panic!("not expected: {:?}", other),
        };
        action = vault.claim_drop(&mut claim, event);
    }
    panic!("the claim did not come to an end");
}

#[test]
fn reclaim_after_deadline_returns_the_amount_to_the_sender() {
    let mut vault = vault();
    let (result, transfers) = reclaim(&mut vault, addr(SENDER), 1001, true);
    assert_eq!(result, Ok(()));
    assert_eq!(transfers, vec![(addr(SENDER), word(100))]);
    assert!(!active(&vault));
}

#[test]
fn reclaim_at_deadline_is_too_early() {
    let mut vault = vault();
    for now in [0u64, 999, 1000] {
        let (result, transfers) = reclaim(&mut vault, addr(SENDER), now, true);
        assert_eq!(result, Err(Error::NotYetExpired));
        assert!(transfers.is_empty());
        assert!(active(&vault));
    }
}

#[test]
fn reclaim_by_another_caller_is_refused() {
    let mut vault = vault();
    for caller in [addr(RECEIVER), Address::zero()] {
        for now in [0u64, 1000, 1001, u64::MAX] {
            let (result, transfers) = reclaim(&mut vault, caller, now, true);
            assert_eq!(result, Err(Error::NotSender));
            assert!(transfers.is_empty());
        }
    }
    assert!(active(&vault));
}

#[test]
fn reclaim_checks_the_caller_before_the_time_and_the_time_before_the_flag() {
    let mut vault = vault();
    assert_eq!(claim_by_biometric(&mut vault, 1000, true), Ok(()));
    assert!(!active(&vault));
    assert_eq!(reclaim(&mut vault, addr(RECEIVER), 500, true).0, Err(Error::NotSender));
    assert_eq!(reclaim(&mut vault, addr(SENDER), 500, true).0, Err(Error::NotYetExpired));
    assert_eq!(reclaim(&mut vault, addr(SENDER), 1001, true).0, Err(Error::DropInactive));
}

#[test]
fn reclaim_of_unknown_drop() {
    let mut vault = StylusLink::new();
    assert_eq!(reclaim(&mut vault, addr(SENDER), 5, true).0, Err(Error::NotSender));
    assert_eq!(reclaim(&mut vault, Address::zero(), 0, true).0, Err(Error::NotYetExpired));
    assert_eq!(reclaim(&mut vault, Address::zero(), 1, true).0, Err(Error::DropInactive));
}

#[test]
fn second_reclaim_is_inactive() {
    let mut vault = vault();
    assert_eq!(reclaim(&mut vault, addr(SENDER), 1001, true).0, Ok(()));
    let (result, transfers) = reclaim(&mut vault, addr(SENDER), 1002, true);
    assert_eq!(result, Err(Error::DropInactive));
    assert!(transfers.is_empty());
    assert!(!active(&vault));
}

#[test]
fn claim_after_reclaim_is_inactive() {
    let mut vault = vault();
    assert_eq!(reclaim(&mut vault, addr(SENDER), 1001, true).0, Ok(()));
    for now in [0u64, 1000, 1001] {
        assert_eq!(claim_by_biometric(&mut vault, now, true), Err(Error::DropInactive));
    }
    assert!(!active(&vault));
}

#[test]
fn reclaim_after_claim_is_inactive() {
    let mut vault = vault();
    assert_eq!(claim_by_biometric(&mut vault, 1000, true), Ok(()));
    let (result, transfers) = reclaim(&mut vault, addr(SENDER), 1001, true);
    assert_eq!(result, Err(Error::DropInactive));
    assert!(transfers.is_empty());
}

#[test]
fn failed_reclaim_transfer_leaves_the_drop_active() {
    let mut vault = vault();
    let before = vault.drops(word(ID)).unwrap();
    let (result, transfers) = reclaim(&mut vault, addr(SENDER), 1001, false);
    assert_eq!(result, Err(Error::SettlementError));
    assert_eq!(transfers.len(), 1);
    assert_eq!(vault.drops(word(ID)).unwrap(), before);
    assert_eq!(reclaim(&mut vault, addr(SENDER), 1001, true).0, Ok(()));
}

#[test]
fn failed_claim_transfer_leaves_the_drop_to_be_reclaimed() {
    let mut vault = vault();
    assert_eq!(claim_by_biometric(&mut vault, 1000, false), Err(Error::SettlementError));
    assert!(active(&vault));
    assert_eq!(reclaim(&mut vault, addr(SENDER), 1001, true).0, Ok(()));
}

#[test]
fn reclaim_report_that_was_not_asked_for_is_unauthorized() {
    let mut vault = vault();
    let mut attempt = Reclaim::new(word(ID), addr(SENDER));
    assert_eq!(
        vault.reclaim_drop(&mut attempt, Event::Transferred(true)),
        Action::Finish(Err(Error::Unauthorized))
    );
    assert!(active(&vault));

    let mut attempt = Reclaim::new(word(ID), addr(SENDER));
    assert_eq!(
        vault.reclaim_drop(&mut attempt, Event::Begin { now: 2000 }),
        Action::Transfer { to: addr(SENDER), amount: word(100) }
    );
    assert_eq!(attempt.stage(), Stage::Authorized);
    assert_eq!(
        vault.reclaim_drop(&mut attempt, Event::Verified(None)),
        Action::Finish(Err(Error::Unauthorized))
    );
    assert!(active(&vault));
    assert_eq!(
        vault.reclaim_drop(&mut attempt, Event::Transferred(true)),
        Action::Finish(Err(Error::Unauthorized))
    );
    assert!(active(&vault));
}

#[test]
fn reclaim_at_latest_deadline_is_never_possible() {
    let mut vault = StylusLink::new();
    vault
        .create_drop(word(ID), Vec::new(), Vec::new(), Address::zero(), u64::MAX, addr(SENDER), word(1))
        .unwrap();
    assert_eq!(
        reclaim(&mut vault, addr(SENDER), u64::MAX, true).0,
        Err(Error::NotYetExpired)
    );
}
