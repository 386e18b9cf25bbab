use avalanche_types::block::BlockData;
use avalanche_types::choices::Status;
use avalanche_types::database::DatabaseManager;
use avalanche_types::errors::{ErrorKind, TransportCode};
use avalanche_types::ids::Id;
use avalanche_types::message::{
    pump_after_notify, pump_on_receive, PumpAction, PumpDirective, NOTIFY_CHANNEL_CAPACITY,
};
use avalanche_types::rpcdb::{error_to_error_code, ERR_CLOSED, ERR_NOT_FOUND};
use avalanche_types::vm::{
    build_context, create_handlers_response, decide_set_state, get_block_response,
    initialize_response, parse_db_versions, timestamp_from_unix, DbServerEntry, HandlerDescriptor,
};
use avalanche_types::errors::transport_code;

fn sample_block() -> BlockData {
    BlockData {
        id: Id::from_slice(&[1u8; 32]).unwrap(),
        parent_id: Id::from_slice(&[0u8; 32]).unwrap(),
        bytes: vec![9, 9],
        height: 1,
        timestamp: 1_700_000_000,
        status: Status::Accepted,
    }
}

#[test]
fn test_initialize_happy_path() {
    let ctx = build_context(
        1337,
        &[3u8; 32],
        &[4u8; 32],
        &[5u8; 20],
        &[6u8; 32],
        &[7u8; 32],
    )
    .unwrap();
    assert_eq!(ctx.network_id, 1337);
    assert_eq!(ctx.chain_id.to_vec(), vec![4u8; 32]);
    assert_eq!(ctx.node_id.to_vec(), vec![5u8; 20]);

    let dbs = parse_db_versions(&vec![DbServerEntry {
        server_addr: "127.0.0.1:9650".to_string(),
        version: "v0.0.1".to_string(),
    }])
    .unwrap();
    assert_eq!(dbs.len(), 1);
    assert_eq!(dbs[0].version.major, 0);
    assert_eq!(dbs[0].version.minor, 0);
    assert_eq!(dbs[0].version.patch, 1);
    let manager = DatabaseManager::new_from_databases(dbs);
    assert_eq!(manager.len(), 1);

    let block = sample_block();
    let last_accepted = Id::from_slice(&[1u8; 32]).unwrap();
    let resp = initialize_response(&last_accepted, &block);
    assert_eq!(resp.last_accepted_id, vec![1u8; 32]);
    assert_eq!(resp.last_accepted_parent_id, vec![0u8; 32]);
    assert_eq!(resp.bytes, vec![9, 9]);
    assert_eq!(resp.height, 1);
    assert_eq!(resp.timestamp.seconds, 1_700_000_000);
    assert_eq!(resp.timestamp.nanos, 0);
}

#[test]
fn test_initialize_bad_db_version() {
    let r = parse_db_versions(&vec![DbServerEntry {
        server_addr: "127.0.0.1:9650".to_string(),
        version: "xyzzy".to_string(),
    }]);
    let e = r.err().unwrap();
    assert_eq!(e.kind, ErrorKind::Invalid);
    assert_eq!(transport_code(&e), TransportCode::Unknown);
}

#[test]
fn test_get_block_not_found() {
    let r = get_block_response(&Err("not found".to_string())).unwrap();
    assert_eq!(r.err, ERR_NOT_FOUND);
    assert_ne!(r.err, 0);
    assert!(r.parent_id.is_empty());
    assert!(r.bytes.is_empty());
    assert_eq!(r.status, 0);
    assert_eq!(r.height, 0);
    assert_eq!(r.timestamp.seconds, 0);
    assert_eq!(r.timestamp.nanos, 0);
}

#[test]
fn test_get_block_found() {
    let block = sample_block();
    let r = get_block_response(&Ok(block)).unwrap();
    assert_eq!(r.err, 0);
    assert_eq!(r.parent_id, vec![0u8; 32]);
    assert_eq!(r.bytes, vec![9, 9]);
    assert_eq!(r.status, 3);
    assert_eq!(r.height, 1);
    assert_eq!(r.timestamp.seconds, 1_700_000_000);
}

#[test]
fn test_get_block_unrecognized_error() {
    let r = get_block_response(&Err("some other failure".to_string()));
    let e = r.err().unwrap();
    assert_eq!(e.kind, ErrorKind::Invalid);
    assert_eq!(transport_code(&e), TransportCode::Unknown);
}

#[test]
fn test_set_state_out_of_range() {
    let r = decide_set_state(42);
    let e = r.err().unwrap();
    assert_eq!(e.kind, ErrorKind::Invalid);
    assert_eq!(transport_code(&e), TransportCode::Unknown);
}

#[test]
fn test_set_state_known_codes() {
    for code in 0u32..4u32 {
        let s = decide_set_state(code).unwrap();
        assert_eq!(s.to_u32(), code);
    }
}

#[test]
fn test_notification_forwarding() {
    let enqueued: Vec<u32> = vec![1, 2, 3];
    let mut observed: Vec<u32> = Vec::new();
    for m in enqueued.iter() {
        match pump_on_receive(Some(*m)) {
            PumpAction::Notify(code) => {
                observed.push(code);
                assert_eq!(pump_after_notify(true), PumpDirective::Continue);
            }
            PumpAction::StopClosed => panic!("pump stopped on a live sender"),
        }
    }
    assert_eq!(observed, vec![1, 2, 3]);
    assert_eq!(pump_on_receive(None), PumpAction::StopClosed);
    assert_eq!(pump_after_notify(false), PumpDirective::StopFailure);
    assert_eq!(NOTIFY_CHANNEL_CAPACITY, 100);
}

#[test]
fn test_handler_with_empty_router() {
    let descs = vec![
        HandlerDescriptor {
            prefix: "accounts".to_string(),
            lock_option: 0,
            has_router: false,
        },
        HandlerDescriptor {
            prefix: "rpc".to_string(),
            lock_option: 1,
            has_router: true,
        },
    ];
    let addrs = vec![
        "127.0.0.1:10001".to_string(),
        "127.0.0.1:10002".to_string(),
    ];
    let handlers = create_handlers_response(&descs, &addrs);
    assert_eq!(handlers.len(), 1);
    assert_eq!(handlers[0].prefix, "rpc");
    assert_eq!(handlers[0].lock_options, 1);
    assert_eq!(handlers[0].server_addr, "127.0.0.1:10002");
}

#[test]
fn test_error_code_mapping() {
    assert_eq!(error_to_error_code("database closed"), Some(ERR_CLOSED));
    assert_eq!(
        error_to_error_code("shard reported: database closed early"),
        Some(ERR_CLOSED)
    );
    assert_eq!(error_to_error_code("not found"), Some(ERR_NOT_FOUND));
    assert_eq!(
        error_to_error_code("block was not found in store"),
        Some(ERR_NOT_FOUND)
    );
    assert_eq!(error_to_error_code("something else"), None);
    assert_eq!(error_to_error_code(""), None);
}

#[test]
fn test_timestamp_from_unix() {
    let t = timestamp_from_unix(0);
    assert_eq!(t.seconds, 0);
    assert_eq!(t.nanos, 0);
    let t = timestamp_from_unix(1_700_000_000);
    assert_eq!(t.seconds, 1_700_000_000);
    assert_eq!(t.nanos, 0);
}

#[test]
fn test_build_context_wrong_width() {
    let r = build_context(1, &[3u8; 31], &[4u8; 32], &[5u8; 20], &[6u8; 32], &[7u8; 32]);
    assert_eq!(r.err().unwrap().kind, ErrorKind::Invalid);
    let r = build_context(1, &[3u8; 32], &[4u8; 32], &[5u8; 21], &[6u8; 32], &[7u8; 32]);
    assert_eq!(r.err().unwrap().kind, ErrorKind::Invalid);
}
