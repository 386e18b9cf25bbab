use avalanche_types::block::BlockData;
use avalanche_types::choices::{Decidable, Status};
use avalanche_types::database::{DatabaseManager, VersionedDatabase};
use avalanche_types::errors::{transport_code, ErrorKind, RpcError, TransportCode};
use avalanche_types::ids::{Id, NodeId, ID_LEN, NODE_ID_LEN};
use avalanche_types::jsonrpc::{
    Request, RequestWithParamsArray, RequestWithParamsHashMapArray, ResponseError,
};
use avalanche_types::version::{parse_version, Version};
use avalanche_types::vm::{parse_db_versions, DbServerEntry};
use avalanche_types::wallet::Builder;
use avalanche_types::PROTOCOL_VERSION;

#[test]
fn test_id_round_trip() {
    let mut b = [7u8; 32];
    b[0] = 1;
    b[31] = 9;
    let id = Id::from_slice(&b).unwrap();
    assert_eq!(id.to_vec(), b.to_vec());

    let e = Id::from_slice(&[7u8; 33]).err().unwrap();
    assert_eq!(e.expected, ID_LEN);
    assert_eq!(e.actual, 33);
    assert!(Id::from_slice(&[]).is_err());
}

#[test]
fn test_id_equality() {
    let a = Id::from_slice(&[5u8; 32]).unwrap();
    let b = Id::from_slice(&[5u8; 32]).unwrap();
    let c = Id::from_slice(&[6u8; 32]).unwrap();
    assert!(a == b);
    assert!(a != c);
    assert!(a == a.clone());
}

#[test]
fn test_node_id_round_trip() {
    let b = [11u8; 20];
    let id = NodeId::from_slice(&b).unwrap();
    assert_eq!(id.to_vec(), b.to_vec());

    let e = NodeId::from_slice(&[11u8; 32]).err().unwrap();
    assert_eq!(e.expected, NODE_ID_LEN);
    assert_eq!(e.actual, 32);
}

#[test]
fn test_parse_version() {
    assert_eq!(parse_version("1.2.3"), Some(Version::new(1, 2, 3)));
    assert_eq!(parse_version("v1.2.3"), Some(Version::new(1, 2, 3)));
    assert_eq!(parse_version("vv0.10.0"), Some(Version::new(0, 10, 0)));
    assert_eq!(parse_version("v0.0.1"), Some(Version::new(0, 0, 1)));
    assert_eq!(parse_version("1.2.3-alpha.1"), Some(Version::new(1, 2, 3)));
    assert_eq!(parse_version("xyzzy"), None);
    assert_eq!(parse_version(""), None);
    assert_eq!(parse_version("1.2"), None);
}

#[test]
fn test_version_order() {
    let a = Version::new(1, 0, 0);
    let b = Version::new(1, 2, 3);
    let c = Version::new(1, 2, 0);
    assert!(a.le(&b));
    assert!(c.le(&b));
    assert!(!b.le(&c));
    assert!(b.le(&b));
}

#[test]
fn test_version_selection() {
    let entries = vec![
        DbServerEntry {
            server_addr: "a".to_string(),
            version: "v1.0.0".to_string(),
        },
        DbServerEntry {
            server_addr: "b".to_string(),
            version: "v1.2.3".to_string(),
        },
        DbServerEntry {
            server_addr: "c".to_string(),
            version: "v1.2.0".to_string(),
        },
    ];
    let manager = DatabaseManager::new_from_databases(parse_db_versions(&entries).unwrap());
    let current = manager.current().unwrap();
    assert_eq!(current.server_addr, "b");
    assert_eq!(current.version, Version::new(1, 2, 3));
}

#[test]
fn test_version_selection_tie_takes_latest() {
    let first = VersionedDatabase::new("first".to_string(), Version::new(2, 0, 0));
    let second = VersionedDatabase::new("second".to_string(), Version::new(2, 0, 0));
    let manager = DatabaseManager::new_from_databases(vec![first, second]);
    assert_eq!(manager.current().unwrap().server_addr, "second");
    assert_eq!(manager.get(0).server_addr, "first");
}

#[test]
fn test_version_selection_empty() {
    let manager = DatabaseManager::new_from_databases(Vec::new());
    assert!(manager.current().is_none());
}

#[test]
fn test_status_codes() {
    assert_eq!(Status::Unknown.to_u32(), 0);
    assert_eq!(Status::Processing.to_u32(), 1);
    assert_eq!(Status::Rejected.to_u32(), 2);
    assert_eq!(Status::Accepted.to_u32(), 3);
}

fn processing_block() -> BlockData {
    BlockData {
        id: Id::from_slice(&[1u8; 32]).unwrap(),
        parent_id: Id::from_slice(&[0u8; 32]).unwrap(),
        bytes: vec![1, 2, 3],
        height: 5,
        timestamp: 1_700_000_000,
        status: Status::Processing,
    }
}

#[test]
fn test_block_accept() {
    let mut block = processing_block();
    assert!(block.accept().is_ok());
    assert_eq!(block.status(), Status::Accepted);

    let e = block.accept().err().unwrap();
    assert_eq!(e.kind, ErrorKind::Fatal);
    assert_eq!(transport_code(&e), TransportCode::Unknown);
    assert_eq!(block.status(), Status::Accepted);
}

#[test]
fn test_block_reject() {
    let mut block = processing_block();
    assert!(block.reject().is_ok());
    assert_eq!(block.status(), Status::Rejected);

    let e = block.reject().err().unwrap();
    assert_eq!(e.kind, ErrorKind::Fatal);
    assert_eq!(block.status(), Status::Rejected);

    let e = block.accept().err().unwrap();
    assert_eq!(e.kind, ErrorKind::Fatal);
    assert_eq!(block.id().to_vec(), vec![1u8; 32]);
}

#[test]
fn test_transport_codes() {
    let unimplemented = RpcError::new(ErrorKind::Unimplemented, "get_ancestors".to_string());
    assert_eq!(transport_code(&unimplemented), TransportCode::Unimplemented);
    for kind in [
        ErrorKind::Invalid,
        ErrorKind::Unavailable,
        ErrorKind::NotFound,
        ErrorKind::Fatal,
    ] {
        let e = RpcError::new(kind, String::new());
        assert_eq!(transport_code(&e), TransportCode::Unknown);
    }
}

#[test]
fn test_jsonrpc_defaults() {
    let r = Request::default();
    assert_eq!(r.jsonrpc, "2.0");
    assert_eq!(r.id, 1);
    assert_eq!(r.method, "");
    assert!(r.params.is_none());

    let r = RequestWithParamsArray::default();
    assert_eq!(r.jsonrpc, "2.0");
    assert_eq!(r.id, 1);
    assert!(r.params.is_none());

    let r = RequestWithParamsHashMapArray::default();
    assert_eq!(r.jsonrpc, "2.0");
    assert_eq!(r.id, 1);
    assert!(r.params.is_none());

    let e = ResponseError::default();
    assert_eq!(e.code, 0);
    assert_eq!(e.message, "");
    assert!(e.data.is_none());
}

#[test]
fn test_wallet_builder() {
    let key = "ewoq-test-key".to_string();
    let b = Builder::new(&key);
    assert!(b.http_rpcs.is_empty());
    assert_eq!(b.key, key);

    let b = b.http_rpc("http://127.0.0.1:9650".to_string());
    assert_eq!(b.http_rpcs, vec!["http://127.0.0.1:9650".to_string()]);

    let b = b.http_rpc("http://127.0.0.1:9651".to_string());
    assert_eq!(
        b.http_rpcs,
        vec![
            "http://127.0.0.1:9650".to_string(),
            "http://127.0.0.1:9651".to_string()
        ]
    );

    let b = b.http_rpcs(vec!["http://10.0.0.1:9650".to_string()]);
    assert_eq!(b.http_rpcs, vec!["http://10.0.0.1:9650".to_string()]);
    assert_eq!(b.key, key);
}

#[test]
fn test_protocol_version() {
    assert_eq!(PROTOCOL_VERSION, "19");
}
