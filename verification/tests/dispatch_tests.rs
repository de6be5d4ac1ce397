use pool_broker::config::SubscriberDef;
use pool_broker::dispatch::{
    classify_poll_status, failure_message, poll_outcome, poll_timeout_message, status_url,
    subscriber_outcome, AckBody, PollBody, PollClass, PollResponse, PostResult,
    SubscriberVerdict, MAX_POLL_ATTEMPTS, POLL_INTERVAL_SECS,
};

fn def(must_succeed: bool, is_async: bool) -> SubscriberDef {
    SubscriberDef {
        name: "sub1".to_string(),
        post: "http://host:9000/hook/return?v=1".to_string(),
        must_succeed,
        is_async,
    }
}

#[test]
fn best_effort_failures_are_ignored() {
    let d = def(false, false);
    let r = subscriber_outcome(&d, &PostResult::TransportError("refused".to_string()));
    assert!(matches!(r, SubscriberVerdict::Done));
    let r = subscriber_outcome(&d, &PostResult::Delivered(500, None));
    assert!(matches!(r, SubscriberVerdict::Done));
}

#[test]
fn must_succeed_sync_subscriber() {
    let d = def(true, false);
    let r = subscriber_outcome(&d, &PostResult::Delivered(204, None));
    assert!(matches!(r, SubscriberVerdict::Done));

    match subscriber_outcome(&d, &PostResult::Delivered(500, None)) {
        SubscriberVerdict::Abort(msg) => {
            assert!(msg.contains("sub1"));
            assert_eq!(msg, "subscriber `sub1` failed: unexpected http status");
        }
        _ => panic!("a non-success status fails a must-succeed subscriber"),
    }

    match subscriber_outcome(&d, &PostResult::TransportError("connection reset".to_string())) {
        SubscriberVerdict::Abort(msg) => {
            assert_eq!(msg, "subscriber `sub1` failed: connection reset");
        }
        _ => panic!("a transport error fails a must-succeed subscriber"),
    }
}

#[test]
fn async_subscriber_moves_to_polling() {
    let d = def(true, true);
    let ack = AckBody {
        operation_id: "op-9".to_string(),
        status: "accepted".to_string(),
    };
    match subscriber_outcome(&d, &PostResult::Delivered(200, Some(ack))) {
        SubscriberVerdict::Poll(url, opid) => {
            assert_eq!(url, "http://host:9000/operations/status?id=op-9");
            assert_eq!(opid, "op-9");
        }
        _ => panic!("an acknowledged async subscriber is polled"),
    }
}

#[test]
fn async_subscriber_bad_acks_fail() {
    let d = def(true, true);
    match subscriber_outcome(&d, &PostResult::Delivered(200, None)) {
        SubscriberVerdict::Abort(msg) => {
            assert_eq!(msg, "subscriber `sub1` failed: invalid acknowledgment body");
        }
        _ => panic!("a malformed acknowledgment fails the subscriber"),
    }
    let ack = AckBody {
        operation_id: String::new(),
        status: "accepted".to_string(),
    };
    match subscriber_outcome(&d, &PostResult::Delivered(200, Some(ack))) {
        SubscriberVerdict::Abort(msg) => {
            assert_eq!(
                msg,
                "subscriber `sub1` failed: empty operation id in acknowledgment"
            );
        }
        _ => panic!("an empty operation id fails the subscriber"),
    }
}

#[test]
fn status_url_replaces_path_and_query() {
    assert_eq!(
        status_url("http://host:9000/hook/return?v=1", "abc"),
        "http://host:9000/operations/status?id=abc"
    );
    assert_eq!(
        status_url("https://example.org", "op"),
        "https://example.org/operations/status?id=op"
    );
    assert_eq!(
        status_url("host/only-path", "op"),
        "host/operations/status?id=op"
    );
    assert_eq!(
        status_url("http://h#frag", "op"),
        "http://h/operations/status?id=op"
    );
}

#[test]
fn poll_status_classification_ignores_case() {
    for s in ["succeeded", "SUCCEEDED", "Success", "ok", "OK"] {
        assert_eq!(classify_poll_status(&s.to_string()), PollClass::Done);
    }
    for s in ["failed", "FAILED", "Error"] {
        assert_eq!(classify_poll_status(&s.to_string()), PollClass::Failed);
    }
    for s in ["pending", "accepted", "running", "", "okay", "succeeded "] {
        assert_eq!(classify_poll_status(&s.to_string()), PollClass::Pending);
    }
}

#[test]
fn poll_outcomes() {
    let name = "sub1".to_string();

    match poll_outcome(&name, &PollResponse::TransportError("timeout".to_string())) {
        pool_broker::dispatch::PollVerdict::Failure(msg) => {
            assert_eq!(msg, "subscriber `sub1` failed: timeout");
        }
        _ => panic!("a poll transport error aborts"),
    }

    match poll_outcome(&name, &PollResponse::Delivered(502, None)) {
        pool_broker::dispatch::PollVerdict::Failure(msg) => {
            assert_eq!(msg, "subscriber `sub1` failed: unexpected http status while polling");
        }
        _ => panic!("a non-success poll status aborts"),
    }

    match poll_outcome(&name, &PollResponse::Delivered(200, None)) {
        pool_broker::dispatch::PollVerdict::Failure(msg) => {
            assert_eq!(msg, "subscriber `sub1` failed: invalid status body");
        }
        _ => panic!("a malformed poll body aborts"),
    }

    let done = PollBody {
        status: "succeeded".to_string(),
        message: None,
    };
    assert!(matches!(
        poll_outcome(&name, &PollResponse::Delivered(200, Some(done))),
        pool_broker::dispatch::PollVerdict::Completed
    ));

    let failed = PollBody {
        status: "failed".to_string(),
        message: Some("disk full".to_string()),
    };
    match poll_outcome(&name, &PollResponse::Delivered(200, Some(failed))) {
        pool_broker::dispatch::PollVerdict::Failure(msg) => {
            assert_eq!(msg, "subscriber `sub1` failed: disk full");
        }
        _ => panic!("a failed status aborts with the reported message"),
    }

    let failed_bare = PollBody {
        status: "error".to_string(),
        message: None,
    };
    match poll_outcome(&name, &PollResponse::Delivered(200, Some(failed_bare))) {
        pool_broker::dispatch::PollVerdict::Failure(msg) => {
            assert_eq!(msg, "subscriber `sub1` failed: error");
        }
        _ => panic!("a failed status without message aborts with the status text"),
    }

    let waiting = PollBody {
        status: "pending".to_string(),
        message: None,
    };
    assert!(matches!(
        poll_outcome(&name, &PollResponse::Delivered(200, Some(waiting))),
        pool_broker::dispatch::PollVerdict::ContinuePolling
    ));
}

#[test]
fn poll_bounds_and_messages() {
    assert_eq!(POLL_INTERVAL_SECS, 2);
    assert_eq!(MAX_POLL_ATTEMPTS, 1800);
    assert_eq!(
        poll_timeout_message(&"sub1".to_string()),
        "subscriber `sub1` failed: polling timed out"
    );
    assert_eq!(
        failure_message(&"n".to_string(), "d"),
        "subscriber `n` failed: d"
    );
}
