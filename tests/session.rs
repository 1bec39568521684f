use std::sync::Arc;

use psyguard::mock::mock_receipt;
use psyguard::{
    CfcId, CfcInputs, CftInclusionProof, CftRoot, ContractId, CstateDelta, EndCapProof, MockNetworkState,
    MockProver, NetworkState, Prover, PsyGuardError, PsyResult, SdkeyPolicy, SubmitReceipt, Submitter, UpsSession, UserId,
};

struct RecordingSubmitter;

impl Submitter for RecordingSubmitter {
    fn submit_endcap(&self, endcap: &EndCapProof, _state_deltas: Vec<CstateDelta>) -> PsyResult<SubmitReceipt> {
        Ok(mock_receipt(endcap, 7))
    }
}

fn network_with(user: &str, balance: u64) -> Arc<MockNetworkState> {
    let mut net = MockNetworkState::new();
    net.add_user(UserId(user.to_string()), balance);
    Arc::new(net)
}

fn call(contract: &str) -> CfcId {
    CfcId { contract_id: ContractId(contract.to_string()), function_name: "transfer".to_string() }
}

fn inputs(user: &str) -> CfcInputs {
    CfcInputs { function_args: vec![], caller: UserId(user.to_string()), contract_state_root: [0u8; 32] }
}

fn no_proof() -> CftInclusionProof {
    CftInclusionProof { merkle_path: vec![], cft_root: CftRoot([0u8; 32]) }
}

#[test]
fn test_ups_session_creation() {
    let session = UpsSession::new(UserId("alice".to_string()), network_with("alice", 10000), Arc::new(MockProver::new()), 1_700_000_000)
        .unwrap();
    assert_eq!(session.current_step().step_number, 0);
    assert_eq!(session.header().user_leaf_ctx.balance, 10000);
    assert_eq!(session.header().session_id, "ups_1700000000");
    assert!(session.state_deltas().is_empty());
}

#[test]
fn session_unknown_user_fails() {
    let r = UpsSession::new(UserId("bob".to_string()), network_with("alice", 1), Arc::new(MockProver::new()), 5);
    assert!(matches!(r, Err(PsyGuardError::NotFound(_))));
}

#[test]
fn session_happy_path() {
    let mut s = UpsSession::new(UserId("alice".to_string()), network_with("alice", 10000), Arc::new(MockProver::new()), 1_700_000_000)
        .unwrap();
    let tx = s.execute_cfc(&call("token"), &inputs("alice"), &no_proof()).unwrap();
    assert!(tx.success);
    assert_eq!(tx.gas_used, 21000);
    assert_ne!(tx.end_contract_state_root, [0u8; 32]);
    assert_eq!(s.current_step().step_number, 1);
    assert_eq!(s.state_deltas().len(), 1);
    assert_eq!(s.get_contract_state_root(&ContractId("token".to_string())), tx.end_contract_state_root);

    let endcap = s.finalize(&SdkeyPolicy::default()).unwrap();
    assert_eq!(endcap.final_step.step_number, 1);
    let receipt = s.submit(&RecordingSubmitter, &SdkeyPolicy::default()).unwrap();
    assert!(!receipt.receipt_id.is_empty());
    assert!(receipt.guta_path.is_some());
}

#[test]
fn session_steps_strictly_increase() {
    let mut s = UpsSession::new(UserId("alice".to_string()), network_with("alice", 1), Arc::new(MockProver::new()), 1_700_000_000)
        .unwrap();
    let mut last = s.current_step().step_number;
    for k in 0..4 {
        let contract = if k % 2 == 0 { "a" } else { "b" };
        let tx = s.execute_cfc(&call(contract), &inputs("alice"), &no_proof()).unwrap();
        let now = s.current_step().step_number;
        assert!(now > last);
        last = now;
        // The second call on a contract starts from the root the first one left.
        if k >= 2 {
            assert_eq!(tx.end_contract_state_root[0], 2);
        }
    }
    assert_eq!(s.state_deltas().len(), 4);
}

#[test]
fn session_message_frames_header_and_step() {
    let s = UpsSession::new(UserId("al".to_string()), network_with("al", 1), Arc::new(MockProver::new()), 5).unwrap();
    let m = s.compute_session_message();
    let sid = s.header().session_id.clone();
    assert_eq!(sid, "ups_5");
    assert_eq!(m.len(), 2 + 32 + 8 + 32 + 32 + 8 + 8 + sid.len() + 32 + 8);
    assert_eq!(&m[0..2], b"al");
    assert_eq!(&m[2..34], &[1u8; 32]);
    assert_eq!(&m[34..42], &1u64.to_le_bytes());
    assert_eq!(&m[42..106], &[0u8; 64]);
    assert_eq!(&m[106..114], &1u64.to_le_bytes());
    assert_eq!(&m[114..122], &0u64.to_le_bytes());
    assert_eq!(&m[122..127], b"ups_5");
}

#[test]
fn test_mock_prover() {
    let prover = MockProver::new();
    let cfc_id = CfcId { contract_id: ContractId("test".to_string()), function_name: "transfer".to_string() };
    let inputs = CfcInputs { function_args: vec![], caller: UserId("alice".to_string()), contract_state_root: [0u8; 32] };

    let result = prover.prove_cfc(&cfc_id, &inputs, [0u8; 32]);
    assert!(result.is_ok());
}

#[test]
fn mock_prover_outputs() {
    let (proof, tx) = MockProver::mock_prove(&call("test"), [255u8; 32]);
    assert_eq!(proof.proof_data, b"mock_cfc_proof_test_transfer".to_vec());
    assert_eq!(tx.end_contract_state_root[0], 0);
    assert_eq!(tx.end_contract_state_root[1], 255);
    let policy = psyguard::SdkeyPolicyBuilder::new().with_daily_limit(1).build();
    let sig = MockProver::mock_sign(b"msg", &policy);
    assert_eq!(sig.policy_satisfied, vec!["mock_signature".to_string(), "daily_limit_checked".to_string()]);
    let receipt = mock_receipt(&MockProver::new().finalize_endcap(&psyguard::UpsStepProof {
        step_number: 3,
        accumulated_proof: vec![],
        current_ucon_root: [0u8; 32],
        current_debts: vec![],
    }, &sig).unwrap(), 9);
    let stamped = MockProver::new().at_time(42);
    let cap = stamped.finalize_endcap(&psyguard::UpsStepProof { step_number: 0, accumulated_proof: vec![], current_ucon_root: [0u8; 32], current_debts: vec![] }, &sig).unwrap();
    assert_eq!(cap.timestamp, 42);
    assert!(receipt.receipt_id.starts_with("receipt_"));
    assert_eq!(receipt.timestamp, 9);
}

#[test]
fn test_mock_network_state() {
    let mut network = MockNetworkState::new();
    let user_id = UserId("alice".to_string());

    network.add_user(user_id.clone(), 1000);

    let chkp = network.latest_finalized_chkp().unwrap();
    let user_leaf = network.fetch_user_leaf(&user_id, &chkp).unwrap();

    assert_eq!(user_leaf.balance, 1000);
}

#[test]
fn session_message_depends_on_leaf_balance() {
    let a = UpsSession::new(UserId("al".to_string()), network_with("al", 1), Arc::new(MockProver::new()), 5).unwrap();
    let b = UpsSession::new(UserId("al".to_string()), network_with("al", 2), Arc::new(MockProver::new()), 5).unwrap();
    assert_ne!(a.compute_session_message(), b.compute_session_message());
}

#[test]
fn session_rejects_step_that_does_not_follow() {
    let mut s = UpsSession::new(UserId("al".to_string()), network_with("al", 1), Arc::new(MockProver::new()), 5).unwrap();
    let bad = psyguard::UpsStepProof {
        step_number: 2,
        accumulated_proof: vec![],
        current_ucon_root: [0u8; 32],
        current_debts: vec![],
    };
    let r = s.apply_step(&ContractId("c".to_string()), [3u8; 32], bad);
    assert!(matches!(r, Err(PsyGuardError::ProofGenerationFailed(_))));
    assert_eq!(s.current_step().step_number, 0);
    assert!(s.state_deltas().is_empty());
    let good = psyguard::UpsStepProof {
        step_number: 1,
        accumulated_proof: vec![7],
        current_ucon_root: [4u8; 32],
        current_debts: vec![],
    };
    s.apply_step(&ContractId("c".to_string()), [3u8; 32], good).unwrap();
    assert_eq!(s.current_step().accumulated_proof, vec![7]);
    assert_eq!(s.get_contract_state_root(&ContractId("c".to_string())), [3u8; 32]);
    assert_eq!(s.copy_state_deltas().len(), 1);
}

#[test]
fn session_deltas_for_fold() {
    let s = UpsSession::new(UserId("al".to_string()), network_with("al", 1), Arc::new(MockProver::new()), 5).unwrap();
    let c = ContractId("c".to_string());
    let next = s.prospective_ucon_root(&c, [3u8; 32]);
    assert_ne!(next, [0u8; 32]);
    let (u, d) = s.build_deltas(&c, [0u8; 32], [3u8; 32], next);
    assert_eq!(u.old_root, s.current_step().current_ucon_root);
    assert_eq!(u.new_root, next);
    assert_eq!(u.contract_id, c);
    assert_eq!(u.cstate_delta.new_root, [3u8; 32]);
    assert!(d.old_debts.is_empty() && d.new_debts.is_empty());
}
