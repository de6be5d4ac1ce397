use pool_broker::api::{
    accepted_ref, delete_borrowed_item, delete_item, delete_operation, force_return, get_stats,
    get_operation_status, list_borrowed, list_items, list_operations, DeleteItemInput,
    ForceReturnInput,
};
use pool_broker::config::{AppConfig, EventKind, OperationSubscribers, SubscriberDef};
use pool_broker::error::ErrorKind;
use pool_broker::ops::{Broadcasters, OperationStore};
use pool_broker::pool::PoolState;
use pool_broker::status::OperationStatus;
use pool_broker::workflow::{
    blocking_on_attempt, blocking_on_wait, borrow_attempt, borrow_settle, flow_after_dispatch,
    flow_after_store, flow_create, remaining_budget, BlockStep, EventMessage, WaitEvent, WaitStep,
};

fn group_with(names: &[(&str, bool)]) -> OperationSubscribers {
    let mut subscribers = Vec::new();
    for (name, must) in names {
        subscribers.push(SubscriberDef {
            name: name.to_string(),
            post: format!("http://host/{}", name),
            must_succeed: *must,
            is_async: false,
        });
    }
    OperationSubscribers { subscribers }
}

#[test]
fn must_succeed_names_filters_the_group() {
    let group = group_with(&[("a", true), ("b", false), ("c", true)]);
    let names = group.must_succeed_names();
    assert_eq!(names, vec!["a".to_string(), "c".to_string()]);
}

#[test]
fn config_groups_default_empty() {
    let cfg = AppConfig::default();
    assert!(cfg.group(EventKind::Borrow).subscribers.is_empty());
    assert!(cfg.group(EventKind::Return).subscribers.is_empty());
    assert!(cfg.group(EventKind::Submit).subscribers.is_empty());
}

#[test]
fn successful_return_flow_emits_created_notifications_ok_completed() {
    let mut pool = PoolState::new();
    let item = "{\"ip\":\"10.0.0.1\"}".to_string();
    pool.return_item(&item);

    // borrow first, so the item is out with a token
    let got = borrow_attempt(&mut pool).expect("item available");
    let out = borrow_settle(&mut pool, got, Ok(())).expect("dispatch ok");

    let mut ops = OperationStore::new();
    let group = group_with(&[("sub1", true)]);

    let (id, ev_created) = flow_create(&mut ops, item.clone(), &group);
    assert!(matches!(ev_created, EventMessage::Created));
    assert_eq!(ev_created.label(), "created");
    assert_eq!(id.len(), 36);
    assert_eq!(ops.get(&id).unwrap().status, OperationStatus::Pending);
    assert_eq!(ops.get(&id).unwrap().must_succeed, vec!["sub1".to_string()]);

    let ev = flow_after_dispatch(&mut ops, &id, Ok(()));
    assert!(matches!(ev, EventMessage::NotificationsOk));
    assert_eq!(ev.label(), "notifications_ok");
    assert_eq!(ops.get(&id).unwrap().status, OperationStatus::InProgress);

    // the store commit: put the item back and clear its record
    pool.force_return(&item);
    let ev = flow_after_store(&mut ops, &id, Ok(()));
    assert!(matches!(ev, EventMessage::Completed));
    assert_eq!(ev.label(), "completed");
    assert_eq!(ops.get(&id).unwrap().status, OperationStatus::Succeeded);

    // round trip: the pool holds exactly the original item again
    assert_eq!(pool.free_count(), 1);
    assert!(pool.contains_item(&item));
    assert_eq!(pool.borrowed_count(), 0);
    assert!(matches!(
        pool.verify_borrow_token(&item, &out.borrow_token),
        pool_broker::pool::TokenCheck::NotFound
    ));
}

#[test]
fn failed_dispatch_marks_operation_failed_and_leaves_pool_alone() {
    let mut pool = PoolState::new();
    let item = "\"x\"".to_string();
    // the item is out with the caller; pool untouched by this flow
    pool.record_borrowed(&item, &"tok".to_string());

    let mut ops = OperationStore::new();
    let group = group_with(&[("sub1", true)]);
    let (id, _) = flow_create(&mut ops, item.clone(), &group);

    let ev = flow_after_dispatch(
        &mut ops,
        &id,
        Err("subscriber `sub1` failed: 500".to_string()),
    );
    match ev {
        EventMessage::Failed(reason) => {
            assert_eq!(reason, "subscriber `sub1` failed: 500");
        }
        _ => panic!("a must-succeed dispatch failure fails the operation"),
    }
    let op = ops.get(&id).unwrap();
    assert_eq!(op.status, OperationStatus::Failed);
    assert_eq!(op.message.as_deref(), Some("subscriber `sub1` failed: 500"));
    assert!(op.message.as_deref().unwrap().contains("sub1"));

    // no pool mutation happened: the item is still out
    assert_eq!(pool.free_count(), 0);
    assert_eq!(pool.borrowed_count(), 1);

    // and the record stays Failed forever
    let ev = flow_after_store(&mut ops, &id, Ok(()));
    assert!(matches!(ev, EventMessage::Completed));
    assert_eq!(ops.get(&id).unwrap().status, OperationStatus::Failed);
}

#[test]
fn failed_store_marks_operation_failed_with_report() {
    let mut ops = OperationStore::new();
    let group = group_with(&[]);
    let (id, _) = flow_create(&mut ops, "\"x\"".to_string(), &group);
    let _ = flow_after_dispatch(&mut ops, &id, Ok(()));

    let ev = flow_after_store(&mut ops, &id, Err("connection lost".to_string()));
    match ev {
        EventMessage::Failed(reason) => assert_eq!(reason, "connection lost"),
        _ => panic!("a store failure fails the operation"),
    }
    let op = ops.get(&id).unwrap();
    assert_eq!(op.status, OperationStatus::Failed);
    assert_eq!(op.message.as_deref(), Some("connection lost"));
}

#[test]
fn blocking_protocol_finishes_and_waits_as_specified() {
    // an available item ends the protocol with it
    match blocking_on_attempt(Ok("\"x\"".to_string())) {
        BlockStep::Finish(Ok(item)) => assert_eq!(item, "\"x\""),
        _ => panic!("an item ends the protocol"),
    }
    // an empty pool waits
    assert!(matches!(
        blocking_on_attempt(Err(ErrorKind::Empty)),
        BlockStep::AwaitNotify
    ));
    // other errors surface at once
    match blocking_on_attempt(Err(ErrorKind::StoreError("io".to_string()))) {
        BlockStep::Finish(Err(ErrorKind::StoreError(m))) => assert_eq!(m, "io"),
        _ => panic!("a store error surfaces at once"),
    }

    // notifications lead to a retry; spurious ones land back in waiting
    assert!(matches!(blocking_on_wait(WaitEvent::Notified), WaitStep::Retry));
    match blocking_on_wait(WaitEvent::WaitTimeout) {
        WaitStep::FinishErr(e) => {
            assert!(matches!(e, ErrorKind::Empty));
            assert_eq!(e.http_status(), 503);
        }
        _ => panic!("a timeout surfaces as an empty pool"),
    }
    match blocking_on_wait(WaitEvent::WaitError("broken pipe".to_string())) {
        WaitStep::FinishErr(ErrorKind::StoreError(m)) => assert_eq!(m, "broken pipe"),
        _ => panic!("a failed wait surfaces the store's report"),
    }
}

#[test]
fn wait_budget_is_exact() {
    assert_eq!(remaining_budget(0, 5000), Some(5000));
    assert_eq!(remaining_budget(1200, 5000), Some(3800));
    assert_eq!(remaining_budget(5000, 5000), None);
    assert_eq!(remaining_budget(6000, 5000), None);
}

#[test]
fn operation_status_endpoint_lowercases() {
    let mut ops = OperationStore::new();
    let group = group_with(&[]);
    let (id, _) = flow_create(&mut ops, "\"x\"".to_string(), &group);
    let out = get_operation_status(&ops, &id).expect("registered");
    assert_eq!(out.operation_id, id);
    assert_eq!(out.status, "pending");
    assert!(out.message.is_none());

    let _ = flow_after_dispatch(&mut ops, &id, Ok(()));
    assert_eq!(get_operation_status(&ops, &id).unwrap().status, "inprogress");
    let _ = flow_after_store(&mut ops, &id, Ok(()));
    assert_eq!(get_operation_status(&ops, &id).unwrap().status, "succeeded");

    match get_operation_status(&ops, &"missing".to_string()) {
        Err(e) => assert_eq!(e.http_status(), 404),
        Ok(_) => panic!("unknown ids answer NotFound"),
    }
    let r = accepted_ref(id.clone());
    assert_eq!(r.operation_id, id);
    assert_eq!(r.status, "accepted");
}

#[test]
fn admin_endpoints_cover_pool_ledger_and_registry() {
    let mut pool = PoolState::new();
    let a = "\"a\"".to_string();
    let b = "\"b\"".to_string();
    pool.return_item(&a);
    pool.record_borrowed(&b, &"tok".to_string());

    let items = list_items(&pool);
    assert_eq!(items.count, 1);
    assert_eq!(items.items, vec![a.clone()]);

    let borrowed = list_borrowed(&pool);
    assert_eq!(borrowed.count, 1);
    assert_eq!(borrowed.borrowed[0].item, b);
    assert_eq!(borrowed.borrowed[0].borrow_token, "tok");

    let mut ops = OperationStore::new();
    ops.create("op1".to_string(), "\"a\"".to_string(), Vec::new());
    ops.set_status(&"op1".to_string(), OperationStatus::InProgress);

    let listing = list_operations(&ops);
    assert_eq!(listing.count, 1);
    assert_eq!(listing.operations[0].id, "op1");
    assert_eq!(listing.operations[0].status, "InProgress");

    let stats = get_stats(&pool, &ops);
    assert_eq!(stats.free_count, 1);
    assert_eq!(stats.borrowed_count, 1);
    assert_eq!(stats.pending_operations, 1);
    assert_eq!(stats.failed_operations, 0);

    // delete the pool item
    let ok = delete_item(&mut pool, &DeleteItemInput { item: a.clone() }).expect("present");
    assert!(ok.success);
    assert_eq!(ok.message, "Item deleted successfully");
    assert!(matches!(
        delete_item(&mut pool, &DeleteItemInput { item: a.clone() }),
        Err(ErrorKind::NotFound)
    ));

    // force-return the borrowed item
    let ok = force_return(&mut pool, &ForceReturnInput { item: b.clone() });
    assert!(ok.success);
    assert_eq!(ok.message, "Item force-returned to freelist");
    assert!(pool.contains_item(&b));
    assert_eq!(pool.borrowed_count(), 0);

    // drop a ledger entry without returning
    pool.record_borrowed(&b, &"tok2".to_string());
    let ok = delete_borrowed_item(&mut pool, &DeleteItemInput { item: b.clone() })
        .expect("entry present");
    assert_eq!(ok.message, "Borrowed item deleted successfully");
    assert!(matches!(
        delete_borrowed_item(&mut pool, &DeleteItemInput { item: b.clone() }),
        Err(ErrorKind::NotFound)
    ));

    // delete the operation record
    let ok = delete_operation(&mut ops, &"op1".to_string()).expect("present");
    assert_eq!(ok.message, "Operation deleted");
    assert!(matches!(
        delete_operation(&mut ops, &"op1".to_string()),
        Err(ErrorKind::NotFound)
    ));
}

#[test]
fn broadcasters_create_channels_on_demand() {
    let mut sse = Broadcasters::new();
    // publishing under an unknown id creates the channel; nobody listens yet
    assert!(!sse.notify(&"op".to_string(), "created".to_string()));
    // a listener then subscribes and later publications are delivered
    let mut rx = sse.subscribe(&"op".to_string());
    assert!(sse.notify(&"op".to_string(), "completed".to_string()));
    assert_eq!(rx.try_recv().ok().as_deref(), Some("completed"));
    // subscribing under a fresh id creates an empty channel
    let _rx2 = sse.subscribe(&"other".to_string());
    assert!(sse.notify(&"other".to_string(), "created".to_string()));
}

#[test]
fn validation_error_maps_to_400() {
    assert_eq!(
        ErrorKind::Validation("bad body".to_string()).http_status(),
        400
    );
    assert_eq!(ErrorKind::Unauthorized.http_status(), 401);
    assert_eq!(ErrorKind::NotFound.http_status(), 404);
    assert_eq!(
        ErrorKind::StoreError("io".to_string()).http_status(),
        500
    );
}
