use psyguard::{
    CfcId, ContractId, MockNetworkState, PsyGuardError, ReadOnlyPreview, SdkeyPolicy, SdkeyPolicyBuilder, UserId,
    UserLeafCtx,
};

fn leaf(balance: u64) -> UserLeafCtx {
    UserLeafCtx { uleaf_hash: [0u8; 32], ucon_root: [0u8; 32], balance, nonce: 0 }
}

fn cfc(name: &str) -> CfcId {
    CfcId { contract_id: ContractId("token".to_string()), function_name: name.to_string() }
}

#[test]
fn test_preview_transfer() {
    let user_leaf = UserLeafCtx { uleaf_hash: [0u8; 32], ucon_root: [0u8; 32], balance: 1000, nonce: 0 };

    let policy = SdkeyPolicy::default();

    let args = r#"{"to": "bob", "amount": 100}"#;

    let result = ReadOnlyPreview::simulate_json(&cfc("transfer"), args, &user_leaf, &policy).unwrap();

    assert_eq!(result.slots_to_modify.len(), 1);
    assert_eq!(result.balance_changes.len(), 2);
    assert_eq!(result.will_trigger_limit, false);
    assert_eq!(result.requires_2fa, false);
}

#[test]
fn preview_transfer_values() {
    let r = ReadOnlyPreview::simulate_json(&cfc("transfer"), r#"{"to":"bob","amount":100}"#, &leaf(1000), &SdkeyPolicy::default())
        .unwrap();
    assert!(r.success);
    assert_eq!(r.estimated_gas, 21000);
    let m = &r.slots_to_modify[0];
    assert_eq!(m.slot_index, 0);
    assert_eq!(m.old_value, 1000u64.to_le_bytes().to_vec());
    assert_eq!(m.new_value, 900u64.to_le_bytes().to_vec());
    assert_eq!(m.description, "balance slot: 1000 -> 900");
    assert_eq!(r.balance_changes[0].account.0, "sender");
    assert_eq!(r.balance_changes[0].delta, -100);
    assert_eq!(r.balance_changes[0].new_balance, 900);
    assert_eq!(r.balance_changes[1].account.0, "bob");
    assert_eq!(r.balance_changes[1].delta, 100);
    assert_eq!(r.balance_changes[1].new_balance, 100);
}

#[test]
fn preview_transfer_over_limit_requires_2fa() {
    let policy = SdkeyPolicyBuilder::new().with_daily_limit(1000).build();
    let r = ReadOnlyPreview::simulate_json(&cfc("transfer"), r#"{"to":"x","amount":1500}"#, &leaf(10000), &policy).unwrap();
    assert!(r.will_trigger_limit);
    assert!(r.requires_2fa);
}

#[test]
fn preview_transfer_missing_argument() {
    let r = ReadOnlyPreview::simulate_json(&cfc("transfer"), r#"{"amount":5}"#, &leaf(10), &SdkeyPolicy::default());
    assert!(matches!(r, Err(PsyGuardError::InvalidInput(_))));
    let r = ReadOnlyPreview::simulate_json(&cfc("transfer"), r#"{"to":"bob"}"#, &leaf(10), &SdkeyPolicy::default());
    assert!(matches!(r, Err(PsyGuardError::InvalidInput(_))));
}

#[test]
fn preview_bad_json_is_invalid_input() {
    let r = ReadOnlyPreview::simulate_json(&cfc("claim"), "{not json", &leaf(10), &SdkeyPolicy::default());
    assert!(matches!(r, Err(PsyGuardError::InvalidInput(_))));
}

#[test]
fn preview_transfer_beyond_balance_predicts_failure() {
    let r = ReadOnlyPreview::simulate_json(&cfc("transfer"), r#"{"to":"bob","amount":11}"#, &leaf(10), &SdkeyPolicy::default())
        .unwrap();
    assert!(!r.success);
    assert!(r.error_message.is_some());
    assert!(r.slots_to_modify.is_empty());
    assert!(r.balance_changes.is_empty());
}

#[test]
fn preview_approve_and_claim() {
    let policy = SdkeyPolicyBuilder::new().with_2fa().build();
    let a = ReadOnlyPreview::simulate_json(&cfc("approve"), r#"{"amount":7}"#, &leaf(10), &policy).unwrap();
    assert_eq!(a.slots_to_modify[0].slot_index, 1);
    assert_eq!(a.slots_to_modify[0].old_value, vec![0u8; 8]);
    assert_eq!(a.slots_to_modify[0].new_value, 7u64.to_le_bytes().to_vec());
    assert_eq!(a.slots_to_modify[0].description, "allowance slot: 0 -> 7");
    assert!(a.requires_2fa);
    assert!(a.balance_changes.is_empty());

    let c = ReadOnlyPreview::simulate_json(&cfc("claim"), "{}", &leaf(10), &policy).unwrap();
    assert_eq!(c.slots_to_modify[0].new_value, 110u64.to_le_bytes().to_vec());
    assert_eq!(c.balance_changes.len(), 1);
    assert_eq!(c.balance_changes[0].account.0, "recipient");
    assert_eq!(c.balance_changes[0].delta, 100);
    assert!(!c.requires_2fa);
}

#[test]
fn preview_unknown_function_changes_nothing() {
    let r = ReadOnlyPreview::simulate_execution(&"mint".to_string(), Some(5), None, &leaf(10), &SdkeyPolicy::default())
        .unwrap();
    assert!(r.success);
    assert!(r.slots_to_modify.is_empty() && r.balance_changes.is_empty());
    assert!(!r.will_trigger_limit && !r.requires_2fa);
}

#[test]
fn preview_through_network() {
    let mut net = MockNetworkState::new();
    net.add_user(UserId("alice".to_string()), 1000);
    net.add_contract(ContractId("token".to_string()), psyguard::CftRoot([0u8; 32]));
    let r = ReadOnlyPreview::preview_execution(
        &net,
        &UserId("alice".to_string()),
        &cfc("transfer"),
        r#"{"to":"bob","amount":100}"#,
        &SdkeyPolicy::default(),
    )
    .unwrap();
    assert_eq!(r.balance_changes[0].new_balance, 900);
    let missing = ReadOnlyPreview::preview_execution(
        &net,
        &UserId("carol".to_string()),
        &cfc("transfer"),
        "{}",
        &SdkeyPolicy::default(),
    );
    assert!(matches!(missing, Err(PsyGuardError::NotFound(_))));
}

#[test]
fn preview_non_integer_amount_is_missing() {
    let r = ReadOnlyPreview::simulate_json(&cfc("transfer"), r#"{"to":"bob","amount":-5}"#, &leaf(10), &SdkeyPolicy::default());
    assert!(matches!(r, Err(PsyGuardError::InvalidInput(_))));
    let r = ReadOnlyPreview::simulate_json(&cfc("transfer"), r#"{"to":7,"amount":5}"#, &leaf(10), &SdkeyPolicy::default());
    assert!(matches!(r, Err(PsyGuardError::InvalidInput(_))));
    let a = ReadOnlyPreview::simulate_json(&cfc("approve"), r#"{"amount":"9"}"#, &leaf(10), &SdkeyPolicy::default()).unwrap();
    assert_eq!(a.slots_to_modify[0].new_value, vec![0u8; 8]);
}
