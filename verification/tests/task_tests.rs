use edp_tui::task::{LatestCompletion, LatestRequest, OperationSlot, TaskSlot};

#[test]
fn critical_operation_slot_is_exclusive_and_ids_do_not_repeat() {
    let mut hub = OperationSlot::new();
    let first = hub.begin_operation().expect("first operation");
    assert_eq!(hub.active_operation(), Some(first));
    assert!(hub.begin_operation().is_err());
    assert!(hub.finish_operation(first));

    let second = hub.begin_operation().expect("second operation");
    assert_ne!(first, second);
}

#[test]
fn refresh_while_scanning_keeps_one_latest_follow_up() {
    let mut slot: TaskSlot<String> = TaskSlot::new();
    assert!(slot.try_begin().is_some());
    let _ = slot.request_latest("first".to_string());
    let _ = slot.request_latest("latest".to_string());
    assert_eq!(slot.pending_request().map(|(_, path)| path.as_str()), Some("latest"));
    assert!(slot.is_running());
}

#[test]
fn verify_keeps_only_the_latest_queued_target() {
    let mut slot: TaskSlot<(String, String)> = TaskSlot::new();
    assert!(slot.try_begin().is_some());
    let _ = slot.request_latest(("one.bin".to_string(), "backups".to_string()));
    let _ = slot.request_latest(("two.bin".to_string(), "backups".to_string()));
    assert!(matches!(slot.pending_request(), Some((_, (path, _))) if path == "two.bin"));
}

#[test]
fn finishing_restarts_the_newest_request_and_drops_stale_results() {
    let mut slot: TaskSlot<u32> = TaskSlot::new();
    let first = match slot.request_latest(1) {
        LatestRequest::Started { generation, request } => {
            assert_eq!(request, 1);
            generation
        }
        LatestRequest::Queued { .. } => panic!("idle slot should start"),
    };
    assert!(matches!(slot.request_latest(2), LatestRequest::Queued { .. }));
    match slot.finish_latest(first) {
        LatestCompletion::Restart { request, .. } => assert_eq!(request, 2),
        LatestCompletion::Deliver(_) => panic!("queued request should restart"),
    }
    assert!(slot.is_running());
    assert!(!slot.finish(first));
}

#[test]
fn operation_finish_ignores_a_stranger() {
    let mut slot = OperationSlot::new();
    let id = slot.begin_operation().unwrap();
    slot.clear();
    assert_eq!(slot.active_operation(), None);
    assert!(!slot.finish_operation(id));
    assert!(id.get() > 0);
}
