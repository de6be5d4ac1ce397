use pool_broker::ops::{Operation, OperationStore};
use pool_broker::status::OperationStatus;

#[test]
fn new_operation_is_pending_with_pending_subscribers() {
    let op = Operation::new(
        "id-1".to_string(),
        "\"x\"".to_string(),
        vec!["sub1".to_string(), "sub2".to_string()],
    );
    assert_eq!(op.id, "id-1");
    assert_eq!(op.item, "\"x\"");
    assert_eq!(op.status, OperationStatus::Pending);
    assert!(op.message.is_none());
    assert_eq!(op.must_succeed.len(), 2);
    assert_eq!(op.subscribers.len(), 2);
    for entry in op.subscribers.iter() {
        assert!(op.must_succeed.contains(&entry.name));
        assert_eq!(entry.status, OperationStatus::Pending);
    }
}

#[test]
fn create_get_and_delete() {
    let mut ops = OperationStore::new();
    ops.create("a".to_string(), "\"x\"".to_string(), Vec::new());
    ops.create("b".to_string(), "\"y\"".to_string(), vec!["s".to_string()]);

    let a = ops.get(&"a".to_string()).expect("a registered");
    assert_eq!(a.item, "\"x\"");
    assert_eq!(a.status, OperationStatus::Pending);

    assert!(ops.get(&"missing".to_string()).is_none());

    assert!(ops.delete(&"a".to_string()));
    assert!(ops.get(&"a".to_string()).is_none());
    assert!(!ops.delete(&"a".to_string()));
    assert!(ops.get(&"b".to_string()).is_some());
}

#[test]
fn status_advances_only_along_the_machine() {
    let mut ops = OperationStore::new();
    let id = "op".to_string();
    ops.create(id.clone(), "\"x\"".to_string(), Vec::new());

    // Pending cannot jump straight to Succeeded.
    ops.set_status(&id, OperationStatus::Succeeded);
    assert_eq!(ops.get(&id).unwrap().status, OperationStatus::Pending);

    ops.set_status(&id, OperationStatus::InProgress);
    assert_eq!(ops.get(&id).unwrap().status, OperationStatus::InProgress);

    // InProgress cannot fall back.
    ops.set_status(&id, OperationStatus::Pending);
    assert_eq!(ops.get(&id).unwrap().status, OperationStatus::InProgress);

    ops.set_status(&id, OperationStatus::Succeeded);
    assert_eq!(ops.get(&id).unwrap().status, OperationStatus::Succeeded);
}

#[test]
fn terminal_status_never_changes() {
    let mut ops = OperationStore::new();
    let id = "op".to_string();
    ops.create(id.clone(), "\"x\"".to_string(), Vec::new());
    ops.set_status(&id, OperationStatus::Failed);
    assert_eq!(ops.get(&id).unwrap().status, OperationStatus::Failed);

    for next in [
        OperationStatus::Pending,
        OperationStatus::InProgress,
        OperationStatus::Succeeded,
        OperationStatus::Failed,
    ] {
        ops.set_status(&id, next);
        assert_eq!(ops.get(&id).unwrap().status, OperationStatus::Failed);
    }
}

#[test]
fn update_message_and_subscriber() {
    let mut ops = OperationStore::new();
    let id = "op".to_string();
    ops.create(id.clone(), "\"x\"".to_string(), vec!["sub1".to_string()]);

    ops.update_message(&id, Some("went wrong".to_string()));
    assert_eq!(ops.get(&id).unwrap().message.as_deref(), Some("went wrong"));

    assert!(ops.update_subscriber(&id, &"sub1".to_string(), OperationStatus::Succeeded));
    assert!(ops.update_subscriber(&id, &"late".to_string(), OperationStatus::InProgress));
    assert!(!ops.update_subscriber(
        &"missing".to_string(),
        &"sub1".to_string(),
        OperationStatus::Failed
    ));

    let op = ops.get(&id).unwrap();
    assert_eq!(op.subscribers.len(), 2);
    // must-succeed names always keep a subscriber entry
    for name in op.must_succeed.iter() {
        assert!(op.subscribers.iter().any(|e| e.name == *name));
    }
}

#[test]
fn counters_follow_statuses() {
    let mut ops = OperationStore::new();
    ops.create("a".to_string(), "\"x\"".to_string(), Vec::new());
    ops.create("b".to_string(), "\"y\"".to_string(), Vec::new());
    ops.create("c".to_string(), "\"z\"".to_string(), Vec::new());

    ops.set_status(&"a".to_string(), OperationStatus::InProgress);
    ops.set_status(&"a".to_string(), OperationStatus::Succeeded);
    ops.set_status(&"b".to_string(), OperationStatus::Failed);

    assert_eq!(ops.count_open(), 1);
    assert_eq!(ops.count_failed(), 1);
    assert_eq!(ops.get_all().len(), 3);
}

#[test]
fn create_replaces_an_existing_record() {
    let mut ops = OperationStore::new();
    let id = "op".to_string();
    ops.create(id.clone(), "\"x\"".to_string(), Vec::new());
    ops.set_status(&id, OperationStatus::InProgress);
    ops.create(id.clone(), "\"y\"".to_string(), Vec::new());
    let op = ops.get(&id).unwrap();
    assert_eq!(op.item, "\"y\"");
    assert_eq!(op.status, OperationStatus::Pending);
    assert_eq!(ops.get_all().len(), 1);
}

#[test]
fn status_names() {
    assert_eq!(OperationStatus::Pending.lowercase_name(), "pending");
    assert_eq!(OperationStatus::InProgress.lowercase_name(), "inprogress");
    assert_eq!(OperationStatus::Succeeded.lowercase_name(), "succeeded");
    assert_eq!(OperationStatus::Failed.lowercase_name(), "failed");
    assert_eq!(OperationStatus::InProgress.name(), "InProgress");
    assert!(OperationStatus::Succeeded.is_terminal());
    assert!(OperationStatus::Failed.is_terminal());
    assert!(!OperationStatus::Pending.is_terminal());
    assert!(!OperationStatus::InProgress.is_terminal());
}

#[test]
fn transition_table() {
    let all = [
        OperationStatus::Pending,
        OperationStatus::InProgress,
        OperationStatus::Succeeded,
        OperationStatus::Failed,
    ];
    for next in all {
        assert_eq!(
            OperationStatus::Pending.advances_to(&next),
            matches!(next, OperationStatus::InProgress | OperationStatus::Failed)
        );
        assert_eq!(
            OperationStatus::InProgress.advances_to(&next),
            matches!(next, OperationStatus::Succeeded | OperationStatus::Failed)
        );
        assert!(!OperationStatus::Succeeded.advances_to(&next));
        assert!(!OperationStatus::Failed.advances_to(&next));
    }
}
