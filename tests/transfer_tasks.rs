use lantransfer::device::Device;
use lantransfer::transfer_manager::{
    AdvancedTransferManager, ChunkDecision, TransferStatus,
};
use std::collections::HashSet;

fn target() -> Device {
    Device {
        id: "peer".to_string(),
        name: "peer-box".to_string(),
        ip: "192.168.1.20".to_string(),
        device_type: "desktop".to_string(),
        is_online: true,
    }
}

fn status_name(s: &TransferStatus) -> &'static str {
    match s {
        TransferStatus::Pending => "pending",
        TransferStatus::InProgress => "in_progress",
        TransferStatus::Paused => "paused",
        TransferStatus::Completed => "completed",
        TransferStatus::Failed(_) => "failed",
        TransferStatus::Cancelled => "cancelled",
    }
}

fn status_of(m: &AdvancedTransferManager, id: &str) -> &'static str {
    let t = m.get_active_transfers().into_iter().find(|t| t.id == id).unwrap();
    status_name(&t.status)
}

#[test]
fn many_added_transfers_have_distinct_ids() {
    let mut m = AdvancedTransferManager::new();
    let mut ids = HashSet::new();
    for i in 0..200u64 {
        let id = m.add_transfer(format!("/tmp/f{}", i), target(), false, i).unwrap();
        ids.insert(id);
    }
    assert_eq!(ids.len(), 200);
    assert_eq!(m.get_active_transfers().len(), 200);
}

#[test]
fn added_task_is_pending_with_code_iff_encrypted() {
    let mut m = AdvancedTransferManager::new();
    let a = m.add_transfer("/tmp/a".to_string(), target(), true, 42).unwrap();
    let b = m.add_transfer("/tmp/b".to_string(), target(), false, 7).unwrap();
    let tasks = m.get_active_transfers();
    assert_eq!(tasks[0].id, a);
    assert_eq!(tasks[1].id, b);
    assert_eq!(tasks[0].file_size, 42);
    assert_eq!(tasks[0].transferred, 0);
    assert_eq!(status_name(&tasks[0].status), "pending");
    let code = tasks[0].secure_code.clone().unwrap();
    assert_eq!(code.len(), 6);
    assert!(code.chars().all(|c| c.is_ascii_uppercase() || c.is_ascii_digit()));
    assert!(tasks[0].encrypted);
    assert!(tasks[1].secure_code.is_none());
    assert!(!tasks[1].encrypted);
}

#[test]
fn duplicate_id_is_refused() {
    let mut m = AdvancedTransferManager::new();
    let r1 = m.add_transfer_with("t1".to_string(), "/a".to_string(), target(), 1, None, 0);
    assert_eq!(r1, Ok("t1".to_string()));
    let r2 = m.add_transfer_with("t1".to_string(), "/b".to_string(), target(), 2, None, 0);
    assert!(r2.is_err());
    m.start_transfer("t1").unwrap();
    m.finish_transfer("t1", Ok(())).unwrap();
    let r3 = m.add_transfer_with("t1".to_string(), "/c".to_string(), target(), 3, None, 0);
    assert!(r3.is_err());
    assert_eq!(m.get_active_transfers().len(), 0);
}

#[test]
fn unknown_task_is_not_found() {
    let mut m = AdvancedTransferManager::new();
    assert_eq!(m.pause_transfer("nope"), Err("Transfer task not found".to_string()));
    assert_eq!(m.resume_transfer("nope"), Err("Transfer task not found".to_string()));
    assert_eq!(m.cancel_transfer("nope"), Err("Transfer task not found".to_string()));
    assert_eq!(m.start_transfer("nope").unwrap_err(), "Transfer task not found");
    assert_eq!(m.chunk_gate("nope"), ChunkDecision::Abort);
    assert!(m.finish_transfer("nope", Ok(())).is_none());
}

#[test]
fn resume_only_from_paused() {
    let mut m = AdvancedTransferManager::new();
    let id = m.add_transfer_with("t".to_string(), "/a".to_string(), target(), 10, None, 0).unwrap();
    assert!(m.resume_transfer(&id).is_err());
    assert_eq!(status_of(&m, &id), "pending");
    let started = m.start_transfer(&id).unwrap();
    assert_eq!(status_name(&started.status), "in_progress");
    assert!(m.resume_transfer(&id).is_err());
    m.pause_transfer(&id).unwrap();
    assert_eq!(status_of(&m, &id), "paused");
    assert_eq!(m.chunk_gate(&id), ChunkDecision::Wait);
    m.resume_transfer(&id).unwrap();
    assert_eq!(status_of(&m, &id), "in_progress");
    assert_eq!(m.chunk_gate(&id), ChunkDecision::Proceed);
}

#[test]
fn cancel_from_each_live_status_and_not_after() {
    let mut m = AdvancedTransferManager::new();
    for (i, prep) in ["pending", "in_progress", "paused"].iter().enumerate() {
        let id = format!("t{}", i);
        m.add_transfer_with(id.clone(), "/a".to_string(), target(), 5, None, 0).unwrap();
        if *prep != "pending" {
            m.start_transfer(&id).unwrap();
        }
        if *prep == "paused" {
            m.pause_transfer(&id).unwrap();
        }
        m.cancel_transfer(&id).unwrap();
        assert!(m.get_active_transfers().iter().all(|t| t.id != id));
        let h = m.get_transfer_history();
        let last = h.tasks.last().unwrap();
        assert_eq!(last.id, id);
        assert_eq!(status_name(&last.status), "cancelled");
        assert_eq!(m.chunk_gate(&id), ChunkDecision::Abort);
        let not_found = Err("Transfer task not found".to_string());
        assert_eq!(m.cancel_transfer(&id), not_found);
        assert_eq!(m.resume_transfer(&id), not_found);
        assert_eq!(m.pause_transfer(&id), not_found);
        assert!(m.start_transfer(&id).is_err());
        assert!(m.record_progress(&id, 1).is_err());
        assert!(m.finish_transfer(&id, Ok(())).is_none());
        assert_eq!(m.get_transfer_history().tasks.len(), i + 1);
    }
    assert!(m.get_active_transfers().is_empty());
}

#[test]
fn start_twice_is_refused() {
    let mut m = AdvancedTransferManager::new();
    m.add_transfer_with("t".to_string(), "/a".to_string(), target(), 5, None, 0).unwrap();
    m.start_transfer("t").unwrap();
    assert!(m.start_transfer("t").is_err());
}

#[test]
fn pause_then_cancel_ends_cancelled_not_completed() {
    let mut m = AdvancedTransferManager::new();
    let id = m.add_transfer("/tmp/big".to_string(), target(), false, 1000).unwrap();
    m.start_transfer(&id).unwrap();
    m.pause_transfer(&id).unwrap();
    m.cancel_transfer(&id).unwrap();
    assert_eq!(m.chunk_gate(&id), ChunkDecision::Abort);
    assert!(m.finish_transfer(&id, Ok(())).is_none());
    let h = m.get_transfer_history();
    assert_eq!(h.tasks.len(), 1);
    assert_eq!(status_name(&h.tasks[0].status), "cancelled");
    assert_eq!(h.tasks[0].transferred, 0);
    assert!(m.get_active_transfers().is_empty());
}

#[test]
fn successful_run_completes_with_all_bytes() {
    let mut m = AdvancedTransferManager::new();
    let id = m.add_transfer("/tmp/f".to_string(), target(), false, 500).unwrap();
    m.start_transfer(&id).unwrap();
    m.record_progress(&id, 100).unwrap();
    m.record_progress(&id, 50).unwrap();
    assert_eq!(m.get_active_transfers()[0].transferred, 100);
    m.record_progress(&id, 9999).unwrap();
    assert_eq!(m.get_active_transfers()[0].transferred, 500);
    let done = m.finish_transfer(&id, Ok(())).unwrap();
    assert_eq!(status_name(&done.status), "completed");
    assert_eq!(done.transferred, done.file_size);
    assert!(m.finish_transfer(&id, Ok(())).is_none());
    assert_eq!(m.get_transfer_history().tasks.len(), 1);
}

#[test]
fn failed_run_keeps_reason() {
    let mut m = AdvancedTransferManager::new();
    let id = m.add_transfer("/tmp/f".to_string(), target(), false, 500).unwrap();
    m.start_transfer(&id).unwrap();
    let done = m.finish_transfer(&id, Err("connection refused".to_string())).unwrap();
    match done.status {
        TransferStatus::Failed(reason) => assert_eq!(reason, "connection refused"),
        other => panic!("unexpected status {:?}", other),
    }
    assert_eq!(done.transferred, 0);
}

#[test]
fn history_keeps_finishing_order() {
    let mut m = AdvancedTransferManager::new();
    for id in ["a", "b", "c"] {
        m.add_transfer_with(id.to_string(), "/x".to_string(), target(), 1, None, 0).unwrap();
        m.start_transfer(id).unwrap();
    }
    m.finish_transfer("b", Ok(())).unwrap();
    m.finish_transfer("c", Ok(())).unwrap();
    m.finish_transfer("a", Ok(())).unwrap();
    let order: Vec<String> = m.get_transfer_history().tasks.into_iter().map(|t| t.id).collect();
    assert_eq!(order, vec!["b", "c", "a"]);
}

#[test]
fn folder_size_sums_nested_files() {
    assert_eq!(AdvancedTransferManager::calculate_folder_size(&vec![10, 20, 30]), Ok(60));
    assert_eq!(AdvancedTransferManager::calculate_folder_size(&vec![]), Ok(0));
    assert!(AdvancedTransferManager::calculate_folder_size(&vec![u64::MAX, 1]).is_err());
}

#[test]
fn bandwidth_limit_and_throttle_delay() {
    let mut m = AdvancedTransferManager::new();
    assert_eq!(m.bandwidth_limit(), None);
    assert_eq!(m.throttle_delay_ms(1_000_000, 0), 0);
    m.set_bandwidth_limit(Some(1000));
    assert_eq!(m.bandwidth_limit(), Some(1000));
    assert_eq!(m.throttle_delay_ms(2000, 500), 1500);
    assert_eq!(m.throttle_delay_ms(2000, 3000), 0);
    assert_eq!(m.throttle_delay_ms(1, 0), 1);
    m.set_bandwidth_limit(Some(0));
    assert_eq!(m.throttle_delay_ms(5000, 0), 0);
}

#[test]
fn status_finality() {
    assert!(TransferStatus::Completed.is_final());
    assert!(TransferStatus::Failed("x".to_string()).is_final());
    assert!(TransferStatus::Cancelled.is_final());
    assert!(!TransferStatus::Pending.is_final());
    assert!(!TransferStatus::InProgress.is_final());
    assert!(!TransferStatus::Paused.is_final());
}

#[test]
fn added_task_is_stamped_with_current_time() {
    let mut m = AdvancedTransferManager::new();
    m.add_transfer("/tmp/t".to_string(), target(), false, 1).unwrap();
    let t = &m.get_active_transfers()[0];
    assert!(t.created_at > 1_600_000_000);
}
