use psyguard::{
    CfcFingerprint, CfcId, CftRoot, CftVerificationResult, ContractId, PsyGuardError, ReadOnlyPreviewResult, UpsQueue,
    UpsQueueItemStatus,
};

fn preview(success: bool) -> ReadOnlyPreviewResult {
    ReadOnlyPreviewResult {
        success,
        slots_to_modify: vec![],
        balance_changes: vec![],
        will_trigger_limit: false,
        requires_2fa: false,
        estimated_gas: 21000,
        error_message: None,
    }
}

fn call() -> CfcId {
    CfcId { contract_id: ContractId("token".to_string()), function_name: "transfer".to_string() }
}

#[test]
fn test_ups_queue() {
    let mut queue = UpsQueue::new([0u8; 32]);

    let index = queue.add_item(
        CfcId { contract_id: ContractId("token".to_string()), function_name: "transfer".to_string() },
        r#"{"to": "bob", "amount": 100}"#.to_string(),
    );

    assert_eq!(index, 0);
    assert_eq!(queue.get_items().len(), 1);

    queue
        .update_preview(
            index,
            ReadOnlyPreviewResult {
                success: true,
                slots_to_modify: vec![],
                balance_changes: vec![],
                will_trigger_limit: false,
                requires_2fa: false,
                estimated_gas: 21000,
                error_message: None,
            },
        )
        .unwrap();

    assert_eq!(queue.get_items()[0].status, UpsQueueItemStatus::PreviewSuccess);

    queue.mark_executing(index).unwrap();
    queue.mark_success(index, 1000).unwrap();

    assert_eq!(queue.get_success_count(), 1);
    assert!(queue.can_submit_endcap());
}

#[test]
fn queue_lifecycle_counters() {
    let mut q = UpsQueue::new([5u8; 32]);
    let i = q.add_item(call(), "{}".to_string());
    q.update_preview(i, preview(true)).unwrap();
    q.mark_executing(i).unwrap();
    q.mark_success(i, 1000).unwrap();
    let info = q.get_accumulated_info();
    assert_eq!(info.total_items, 1);
    assert_eq!(info.total_proving_time_ms, 1000);
    assert_eq!(info.estimated_endcap_size_kb, 10);
    assert_eq!(q.get_failed_count(), 0);
    assert!(q.is_all_completed());
}

#[test]
fn queue_counters_never_decrease() {
    let mut q = UpsQueue::new([0u8; 32]);
    let mut last = (0u32, 0u64, 0u64);
    for k in 0..5u32 {
        let i = q.add_item(call(), "{}".to_string());
        assert_eq!(i, k);
        q.mark_success(i, 7).unwrap();
        let _ = q.mark_failed(99);
        let info = q.get_accumulated_info();
        let now = (info.total_items, info.total_proving_time_ms, info.estimated_endcap_size_kb);
        assert!(now.0 >= last.0 && now.1 >= last.1 && now.2 >= last.2);
        last = now;
    }
    assert_eq!(last, (5, 35, 50));
}

#[test]
fn queue_preview_failure_and_cft_failure() {
    let mut q = UpsQueue::new([0u8; 32]);
    let a = q.add_item(call(), "{}".to_string());
    let b = q.add_item(call(), "{}".to_string());
    q.update_preview(a, preview(false)).unwrap();
    assert_eq!(q.get_items()[0].status, UpsQueueItemStatus::PreviewFailed);
    let v = CftVerificationResult {
        fingerprint: CfcFingerprint("f".to_string()),
        in_cft: false,
        cft_root: CftRoot([0u8; 32]),
        depth: 0,
        merkle_path: None,
        source: "GCON.CLEAF".to_string(),
    };
    q.update_cft_verification(b, v.clone()).unwrap();
    assert_eq!(q.get_items()[1].status, UpsQueueItemStatus::Failed);
    assert!(q.get_items()[1].cft_verification.is_some());
    let ok = CftVerificationResult { in_cft: true, ..v };
    q.update_cft_verification(a, ok).unwrap();
    assert_eq!(q.get_items()[0].status, UpsQueueItemStatus::PreviewFailed);
    assert_eq!(q.get_failed_count(), 1);
    assert!(!q.is_all_completed());
    assert!(!q.can_submit_endcap());
}

#[test]
fn queue_unknown_index_not_found() {
    let mut q = UpsQueue::new([0u8; 32]);
    assert!(matches!(q.mark_executing(0), Err(PsyGuardError::NotFound(_))));
    assert!(matches!(q.update_preview(3, preview(true)), Err(PsyGuardError::NotFound(_))));
}

#[test]
fn queue_cannot_submit_empty_or_all_failed() {
    let mut q = UpsQueue::new([0u8; 32]);
    assert!(!q.can_submit_endcap());
    let i = q.add_item(call(), "{}".to_string());
    q.mark_failed(i).unwrap();
    assert!(q.is_all_completed());
    assert!(!q.can_submit_endcap());
}

#[test]
fn queue_clear_keeps_roots() {
    let mut q = UpsQueue::new([1u8; 32]);
    q.update_ucon_root([2u8; 32]);
    let i = q.add_item(call(), "{}".to_string());
    q.mark_success(i, 5).unwrap();
    q.clear();
    let info = q.get_accumulated_info();
    assert_eq!((info.total_items, info.total_proving_time_ms, info.estimated_endcap_size_kb), (0, 0, 0));
    assert_eq!(info.old_ucon_root, [1u8; 32]);
    assert_eq!(info.new_ucon_root, [2u8; 32]);
    assert!(q.get_items().is_empty());
}
