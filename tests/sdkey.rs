use psyguard::{ContractId, PsyGuardError, SdkeyPolicy, SdkeyPolicyBuilder, SdkeyPolicyValidator};

#[test]
fn test_daily_limit_validation() {
    let policy = SdkeyPolicyBuilder::new()
        .with_daily_limit(1000)
        .build();

    let contract_id = ContractId("test_contract".to_string());

    let result = SdkeyPolicyValidator::validate_transaction(&policy, 500, &contract_id, 1000000);
    assert!(result.is_ok());

    let result = SdkeyPolicyValidator::validate_transaction(&policy, 1500, &contract_id, 1000000);
    assert!(result.is_err());
}

#[test]
fn daily_limit_violation_names_values() {
    let policy = SdkeyPolicyBuilder::new().with_daily_limit(1000).build();
    let c = ContractId("x".to_string());
    match SdkeyPolicyValidator::validate_transaction(&policy, 1500, &c, 0) {
        Err(PsyGuardError::SdkeyPolicyViolation(m)) => assert_eq!(m, "amount 1500 exceeds daily limit 1000"),
        other => panic!("unexpected {:?}", other),
    }
    let ok = SdkeyPolicyValidator::validate_transaction(&policy, 1000, &c, 0).unwrap();
    assert_eq!(ok, vec!["within daily limit: 1000 <= 1000".to_string()]);
}

#[test]
fn time_lock_scenario() {
    let policy = SdkeyPolicyBuilder::new().with_time_lock(2000).build();
    let c = ContractId("x".to_string());
    match SdkeyPolicyValidator::validate_transaction(&policy, 1, &c, 1000) {
        Err(PsyGuardError::SdkeyPolicyViolation(m)) => assert_eq!(m, "locked: 1000 remaining until 2000"),
        other => panic!("unexpected {:?}", other),
    }
    let ok = SdkeyPolicyValidator::validate_transaction(&policy, 1, &c, 2500).unwrap();
    assert_eq!(ok, vec!["unlocked: 2500 >= 2000".to_string()]);
}

#[test]
fn whitelist_rule() {
    let policy = SdkeyPolicyBuilder::new()
        .with_trusted_contracts(vec![ContractId("good".to_string())])
        .build();
    assert!(SdkeyPolicyValidator::validate_transaction(&policy, 1, &ContractId("good".to_string()), 0).is_ok());
    match SdkeyPolicyValidator::validate_transaction(&policy, 1, &ContractId("bad".to_string()), 0) {
        Err(PsyGuardError::SdkeyPolicyViolation(m)) => assert_eq!(m, "contract bad is not whitelisted"),
        other => panic!("unexpected {:?}", other),
    }
}

#[test]
fn first_violated_rule_is_reported() {
    let policy = SdkeyPolicyBuilder::new()
        .with_daily_limit(10)
        .with_trusted_contracts(vec![])
        .with_time_lock(100)
        .build();
    let c = ContractId("c".to_string());
    match SdkeyPolicyValidator::validate_transaction(&policy, 5, &c, 0) {
        Err(PsyGuardError::SdkeyPolicyViolation(m)) => assert_eq!(m, "contract c is not whitelisted"),
        other => panic!("unexpected {:?}", other),
    }
}

#[test]
fn all_rules_satisfied_lists_each() {
    let policy = SdkeyPolicyBuilder::new()
        .with_daily_limit(10)
        .with_trusted_contracts(vec![ContractId("c".to_string())])
        .with_time_lock(100)
        .with_2fa()
        .build();
    let ok = SdkeyPolicyValidator::validate_transaction(&policy, 5, &ContractId("c".to_string()), 100).unwrap();
    assert_eq!(
        ok,
        vec![
            "within daily limit: 5 <= 10".to_string(),
            "contract c is whitelisted".to_string(),
            "unlocked: 100 >= 100".to_string(),
            "second factor required".to_string(),
        ]
    );
}

#[test]
fn check_constraints_reports_every_rule() {
    let policy = SdkeyPolicyBuilder::new()
        .with_daily_limit(10)
        .with_trusted_contracts(vec![])
        .with_time_lock(100)
        .with_2fa()
        .build();
    let r = SdkeyPolicyValidator::check_constraints(&policy, 50, &ContractId("c".to_string()), 10, false);
    assert!(!r.limit_check.passed);
    assert_eq!(r.limit_check.message, "amount 50 exceeds daily limit 10");
    assert!(!r.whitelist_check.passed);
    assert!(!r.timelock_check.passed);
    assert_eq!(r.timelock_check.message, "locked: 90 remaining until 100");
    assert!(r.twofa_check.required);
    assert!(!r.twofa_check.verified);
    assert_eq!(r.twofa_check.message, "second factor required");

    let none = SdkeyPolicyBuilder::new().build();
    let r = SdkeyPolicyValidator::check_constraints(&none, 50, &ContractId("c".to_string()), 10, false);
    assert!(r.limit_check.passed && r.whitelist_check.passed && r.timelock_check.passed);
    assert_eq!(r.limit_check.message, "no daily limit");
    assert_eq!(r.whitelist_check.message, "no contract whitelist");
    assert_eq!(r.timelock_check.message, "no time lock");
    assert!(!r.twofa_check.required);
    assert!(r.twofa_check.verified);
}

#[test]
fn default_policy_has_limit_only() {
    let p = SdkeyPolicy::default();
    assert_eq!(p.daily_limit, Some(10000));
    assert!(p.trusted_contracts.is_none());
    assert!(p.time_lock_until.is_none());
    assert!(!p.require_2fa);
}

#[test]
fn public_key_hash_mixes_limit_and_lock() {
    let a = SdkeyPolicyBuilder::new().build();
    let b = SdkeyPolicyBuilder::new().with_daily_limit(1).build();
    let c = SdkeyPolicyBuilder::new().with_2fa().build();
    let ha = SdkeyPolicyValidator::compute_public_key_hash(b"vd", &a);
    let hb = SdkeyPolicyValidator::compute_public_key_hash(b"vd", &b);
    let hc = SdkeyPolicyValidator::compute_public_key_hash(b"vd", &c);
    assert_ne!(ha, hb);
    assert_eq!(ha, hc);
}
