use stylus_link_vault::record::Drop;
use stylus_link_vault::registry::DropRegistry;
use stylus_link_vault::types::{Address, Error, U256};
use stylus_link_vault::vault::StylusLink;

fn word(n: u64) -> U256 {
    let mut bytes = [0u8; 32];
    bytes[24..].copy_from_slice(&n.to_be_bytes());
    U256 { bytes }
}

fn addr(byte: u8) -> Address {
    Address { bytes: [byte; 20] }
}

fn sample(sender: Address, active: bool) -> Drop {
    Drop {
        sender,
        amount: word(100),
        active,
        expires_at: 1000,
        gatekeeper: addr(3),
        signer_pub_key_x: vec![1, 2, 3],
        signer_pub_key_y: vec![4, 5],
    }
}

#[test]
fn unknown_identifier_reads_as_zero() {
    let vault = StylusLink::new();
    let read = vault.drops(word(1)).unwrap();
    assert_eq!(
        read,
        (Address::zero(), U256::zero(), false, 0, Address::zero(), Vec::new(), Vec::new())
    );
    assert_eq!(DropRegistry::new().get(&word(1)), Drop::zero());
}

#[test]
fn created_drop_reads_back() {
    let mut vault = StylusLink::new();
    assert_eq!(
        vault.create_drop(word(1), vec![7; 32], vec![8; 32], addr(3), 1000, addr(2), word(100)),
        Ok(())
    );
    assert_eq!(
        vault.drops(word(1)).unwrap(),
        (addr(2), word(100), true, 1000, addr(3), vec![7; 32], vec![8; 32])
    );
    assert_eq!(vault.drops(word(2)).unwrap().0, Address::zero());
}

#[test]
fn second_creation_at_an_identifier_fails() {
    let mut vault = StylusLink::new();
    vault
        .create_drop(word(1), vec![7; 32], vec![8; 32], addr(3), 1000, addr(2), word(100))
        .unwrap();
    let before = vault.drops(word(1)).unwrap();
    assert_eq!(
        vault.create_drop(word(1), vec![9; 32], vec![9; 32], addr(9), 9, addr(9), word(9)),
        Err(Error::DropExists)
    );
    assert_eq!(
        vault.create_drop(word(1), Vec::new(), Vec::new(), Address::zero(), 0, addr(2), word(0)),
        Err(Error::DropExists)
    );
    assert_eq!(vault.drops(word(1)).unwrap(), before);
}

#[test]
fn creation_at_other_identifiers_is_independent() {
    let mut vault = StylusLink::new();
    for n in 0..20u64 {
        assert_eq!(
            vault.create_drop(word(n), vec![n as u8], Vec::new(), addr(3), n, addr(2), word(n * 10)),
            Ok(())
        );
    }
    for n in 0..20u64 {
        assert_eq!(
            vault.drops(word(n)).unwrap(),
            (addr(2), word(n * 10), true, n, addr(3), vec![n as u8], Vec::new())
        );
        assert_eq!(
            vault.create_drop(word(n), Vec::new(), Vec::new(), addr(3), n, addr(2), word(1)),
            Err(Error::DropExists)
        );
    }
}

#[test]
fn identifiers_differ_in_any_byte() {
    let mut vault = StylusLink::new();
    let mut high = [0u8; 32];
    high[0] = 1;
    vault
        .create_drop(U256 { bytes: high }, Vec::new(), Vec::new(), addr(3), 1, addr(2), word(1))
        .unwrap();
    assert_eq!(vault.drops(word(1)).unwrap().0, Address::zero());
    assert_eq!(vault.drops(U256::zero()).unwrap().0, Address::zero());
    assert_eq!(vault.drops(U256 { bytes: high }).unwrap().0, addr(2));
}

#[test]
fn creation_after_settlement_still_fails() {
    let mut registry = DropRegistry::new();
    registry.create(word(1), sample(addr(2), true)).unwrap();
    registry.set_inactive(&word(1));
    assert!(!registry.get(&word(1)).active);
    assert_eq!(
        registry.create(word(1), sample(addr(2), true)),
        Err(Error::DropExists)
    );
    assert!(!registry.get(&word(1)).active);
}

#[test]
fn record_of_a_zero_sender_does_not_hold_its_identifier() {
    let mut vault = StylusLink::new();
    vault
        .create_drop(word(1), Vec::new(), Vec::new(), addr(3), 5, Address::zero(), word(7))
        .unwrap();
    assert_eq!(vault.drops(word(1)).unwrap().1, word(7));
    assert_eq!(
        vault.create_drop(word(1), vec![1], vec![2], addr(4), 6, addr(2), word(8)),
        Ok(())
    );
    assert_eq!(
        vault.drops(word(1)).unwrap(),
        (addr(2), word(8), true, 6, addr(4), vec![1], vec![2])
    );
}

#[test]
fn registry_set_inactive_flips_only_the_flag() {
    let mut registry = DropRegistry::new();
    registry.create(word(1), sample(addr(2), true)).unwrap();
    registry.create(word(2), sample(addr(5), true)).unwrap();
    registry.set_inactive(&word(1));
    assert_eq!(registry.get(&word(1)), sample(addr(2), false));
    assert_eq!(registry.get(&word(2)), sample(addr(5), true));
    registry.set_inactive(&word(1));
    assert_eq!(registry.get(&word(1)), sample(addr(2), false));
}

#[test]
fn registry_set_inactive_on_unknown_identifier_stores_nothing() {
    let mut registry = DropRegistry::new();
    registry.set_inactive(&word(1));
    assert_eq!(registry.get(&word(1)), Drop::zero());
    assert_eq!(registry.create(word(1), sample(addr(2), true)), Ok(()));
    assert_eq!(registry.get(&word(1)), sample(addr(2), true));
}

#[test]
fn holding_gives_a_store_of_one_record() {
    let vault = StylusLink::holding(word(9), sample(addr(2), false));
    assert_eq!(
        vault.drops(word(9)).unwrap(),
        (addr(2), word(100), false, 1000, addr(3), vec![1, 2, 3], vec![4, 5])
    );
    assert_eq!(vault.drops(word(8)).unwrap().0, Address::zero());
    let registry = DropRegistry::holding(word(9), sample(addr(2), true));
    assert_eq!(registry.get(&word(9)), sample(addr(2), true));
}

#[test]
fn drop_clone_is_equal() {
    let drop = sample(addr(2), true);
    assert_eq!(drop.clone(), drop);
}
