use iroh_ffi::{CallbackError, ConnState, IrohError, Router};

fn two_tag_router() -> Router {
    Router::new(vec![b"blobs".to_vec(), b"gossip".to_vec()]).unwrap()
}

#[test]
fn test_router_rejects_duplicate_tags() {
    let got = Router::new(vec![b"blobs".to_vec(), b"blobs".to_vec()]);
    assert_eq!(got, Err(IrohError::DuplicateTag));
}

#[test]
fn test_router_dispatches_by_tag() {
    let mut router = two_tag_router();
    assert_eq!(router.tag_count(), 2);
    assert_eq!(router.lookup(&b"blobs".to_vec()), Some(0));
    assert_eq!(router.lookup(&b"gossip".to_vec()), Some(1));
    assert_eq!(router.lookup(&b"docs".to_vec()), None);

    let conn = router.accept(&b"gossip".to_vec()).unwrap();
    assert_eq!(conn, 0);
    assert!(matches!(router.conn_state(conn), ConnState::Dispatched { handler: 1 }));
}

#[test]
fn test_unknown_tag_rejected_without_affecting_others() {
    let mut router = two_tag_router();

    // An active gossip connection...
    let gossip_conn = router.accept(&b"gossip".to_vec()).unwrap();

    // ...an inbound connection negotiating an unregistered tag is
    // rejected before any handler is invoked...
    let got = router.accept(&b"docs".to_vec());
    assert_eq!(got, Err(IrohError::UnknownTag));

    // ...and the active connection is exactly as it was, with the
    // router still accepting.
    assert_eq!(router.conn_count(), 1);
    assert!(matches!(
        router.conn_state(gossip_conn),
        ConnState::Dispatched { handler: 1 }
    ));
    let next = router.accept(&b"blobs".to_vec()).unwrap();
    assert_eq!(next, 1);
}

#[test]
fn test_handler_failure_is_isolated() {
    let mut router = two_tag_router();
    let a = router.accept(&b"blobs".to_vec()).unwrap();
    let b = router.accept(&b"gossip".to_vec()).unwrap();

    router.finish(a, &Err(CallbackError { message: "handler broke".to_string() }));

    assert!(matches!(router.conn_state(a), ConnState::Failed { handler: 0 }));
    assert!(matches!(router.conn_state(b), ConnState::Dispatched { handler: 1 }));

    // The router keeps accepting for the same and other tags.
    let c = router.accept(&b"blobs".to_vec()).unwrap();
    router.finish(c, &Ok(()));
    assert!(matches!(router.conn_state(c), ConnState::Completed { handler: 0 }));
}

#[test]
fn test_shutdown_idempotent() {
    let mut router = two_tag_router();
    let conn = router.accept(&b"blobs".to_vec()).unwrap();

    let plan = router.shutdown();
    assert_eq!(plan, vec![0, 1]);
    assert!(router.is_shut_down());
    let after_once = router.clone();

    // A second shutdown changes nothing and requests nothing.
    let plan = router.shutdown();
    assert!(plan.is_empty());
    assert_eq!(router, after_once);

    // Late connections are turned away cleanly; the in-flight one is
    // untouched.
    assert_eq!(router.accept(&b"gossip".to_vec()), Err(IrohError::RouterShutDown));
    assert!(matches!(router.conn_state(conn), ConnState::Dispatched { handler: 0 }));
}
