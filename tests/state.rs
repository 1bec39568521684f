use psyguard::{ContractId, Cstate, ParthTransfer, PsyGuardError, Ucon, UserId};

#[test]
fn test_ucon_update() {
    let user_id = UserId("alice".to_string());
    let mut ucon = Ucon::new(user_id);

    let contract_id = ContractId("contract1".to_string());
    let state_root = [1u8; 32];

    ucon.update_contract_state(contract_id.clone(), state_root);

    assert_eq!(ucon.get_contract_state(&contract_id), Some(&state_root));
}

#[test]
fn test_cstate_operations() {
    let contract_id = ContractId("contract1".to_string());
    let mut cstate = Cstate::new(contract_id);

    cstate.write_slot(0, vec![1, 2, 3]);
    assert_eq!(cstate.read_slot(0), Some(&vec![1, 2, 3]));
}

#[test]
fn cstate_unwritten_slot_is_absent() {
    let mut c = Cstate::new(ContractId("c".to_string()));
    assert_eq!(c.read_slot(7), None);
    assert_eq!(c.root, [0u8; 32]);
    c.write_slot(3, vec![9]);
    assert_eq!(c.read_slot(7), None);
    assert_ne!(c.root, [0u8; 32]);
}

#[test]
fn cstate_root_independent_of_write_order() {
    let mut a = Cstate::new(ContractId("c".to_string()));
    a.write_slot(5, vec![1]);
    a.write_slot(2, vec![2, 2]);
    a.write_slot(9, vec![3]);
    let mut b = Cstate::new(ContractId("c".to_string()));
    b.write_slot(9, vec![3]);
    b.write_slot(5, vec![0]);
    b.write_slot(2, vec![2, 2]);
    b.write_slot(5, vec![1]);
    assert_eq!(a.root, b.root);
    assert_eq!(a.read_slot(5), Some(&vec![1]));
}

#[test]
fn cstate_rewrite_same_value_keeps_root() {
    let mut a = Cstate::new(ContractId("c".to_string()));
    a.write_slot(1, vec![4, 5]);
    let before = a.root;
    a.write_slot(1, vec![4, 5]);
    assert_eq!(a.root, before);
}

#[test]
fn ucon_root_independent_of_update_order() {
    let mut a = Ucon::new(UserId("u".to_string()));
    a.update_contract_state(ContractId("beta".to_string()), [2u8; 32]);
    a.update_contract_state(ContractId("alpha".to_string()), [1u8; 32]);
    a.update_contract_state(ContractId("alp".to_string()), [3u8; 32]);
    let mut b = Ucon::new(UserId("u".to_string()));
    b.update_contract_state(ContractId("alp".to_string()), [3u8; 32]);
    b.update_contract_state(ContractId("alpha".to_string()), [7u8; 32]);
    b.update_contract_state(ContractId("beta".to_string()), [2u8; 32]);
    b.update_contract_state(ContractId("alpha".to_string()), [1u8; 32]);
    assert_eq!(a.root, b.root);
    assert_eq!(a.get_contract_state(&ContractId("zeta".to_string())), None);
}

#[test]
fn cstate_delta_proof_lists_slots_in_order() {
    let mut c = Cstate::new(ContractId("c".to_string()));
    c.write_slot(8, vec![1]);
    c.write_slot(3, vec![2]);
    let p = c.generate_delta_proof([0u8; 32]);
    assert_eq!(p.old_root, [0u8; 32]);
    assert_eq!(p.new_root, c.root);
    assert!(p.merkle_path.is_empty());
    let slots: Vec<u64> = p.modified_leaves.iter().map(|x| x.0).collect();
    assert_eq!(slots, vec![3, 8]);
    assert_ne!(p.modified_leaves[0].1, p.modified_leaves[1].1);
}

#[test]
fn parth_transfer_writes_inbox_slots() {
    let t = ParthTransfer {
        from: UserId("alice".to_string()),
        to: UserId("bob".to_string()),
        amount: 5,
        timestamp: 42,
    };
    let mut sender = Cstate::new(ContractId("token".to_string()));
    ParthTransfer::send(&mut sender, &t, vec![1, 2]).unwrap();
    assert_eq!(sender.read_slot(1042), Some(&vec![1, 2]));
    let mut receiver = Cstate::new(ContractId("token".to_string()));
    ParthTransfer::claim(&mut receiver, &t, vec![1, 2]).unwrap();
    assert_eq!(receiver.read_slot(2042), Some(&vec![1, 2]));
    let late = ParthTransfer { timestamp: u64::MAX - 10, ..t };
    assert!(matches!(ParthTransfer::send(&mut sender, &late, vec![0]), Err(PsyGuardError::InvalidInput(_))));
}
