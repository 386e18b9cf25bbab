//! Decision and serialization logic of the VM adapter server: everything the
//! host-facing RPCs decide or shape, as functions from plain values to plain
//! values. The transport around them dials, awaits and spawns; it hands the
//! inner machine's replies in here and carries the results back out.

use vstd::prelude::*;
use crate::block::BlockData;
use crate::choices::{status_code, Status};
use crate::database::VersionedDatabase;
use crate::errors::{ErrorKind, RpcError};
use crate::ids::{Id, NodeId, ID_LEN, NODE_ID_LEN};
use crate::rpcdb::error_code_of;
use crate::rpcdb::error_to_error_code;
use crate::snow::{state_from_code, State};
use crate::version::{parse_version, parsed_version};

verus! {

/// A timestamp in the wire's form: whole seconds and a nanosecond part.
/// Block timestamps always travel with `nanos == 0`.
#[derive(Debug, Clone, Copy, PartialEq, Eq, Structural)]
pub struct WireTimestamp {
    pub seconds: i64,
    pub nanos: i32,
}

/// Converts a block timestamp in Unix seconds to the wire's form.
pub fn timestamp_from_unix(secs: u64) -> (t: WireTimestamp)
    ensures
        t.seconds == secs as i64,
        t.nanos == 0,
{
    WireTimestamp { seconds: secs as i64, nanos: 0 }
}

/// One database server named by the host on initialize: a dial address and a
/// version string.
#[derive(Debug)]
pub struct DbServerEntry {
    pub server_addr: String,
    pub version: String,
}

/// Per-chain identity handed to the inner machine on initialize. The host's
/// auxiliary service clients ride beside these values outside the library.
#[derive(Debug)]
pub struct Context {
    pub network_id: u32,
    pub subnet_id: Id,
    pub chain_id: Id,
    pub node_id: NodeId,
    pub x_chain_id: Id,
    pub avax_asset_id: Id,
}

/// Builds the per-chain identity out of the raw initialize request; fails
/// with `Invalid` exactly when one of the identifier slices has the wrong
/// width.
pub fn build_context(
    network_id: u32,
    subnet_id: &[u8],
    chain_id: &[u8],
    node_id: &[u8],
    x_chain_id: &[u8],
    avax_asset_id: &[u8],
) -> (r: Result<Context, RpcError>)
    ensures
        r is Ok <==> subnet_id@.len() == ID_LEN && chain_id@.len() == ID_LEN && node_id@.len()
            == NODE_ID_LEN && x_chain_id@.len() == ID_LEN && avax_asset_id@.len() == ID_LEN,
        r matches Ok(c) ==> c.network_id == network_id && c.subnet_id@ == subnet_id@ && c.chain_id@
            == chain_id@ && c.node_id@ == node_id@ && c.x_chain_id@ == x_chain_id@
            && c.avax_asset_id@ == avax_asset_id@,
        r matches Err(e) ==> e.kind == ErrorKind::Invalid,
{
    let subnet_id = match Id::from_slice(subnet_id) {
        Ok(v) => v,
        Err(_) => return Err(RpcError::new(ErrorKind::Invalid, String::new())),
    };
    let chain_id = match Id::from_slice(chain_id) {
        Ok(v) => v,
        Err(_) => return Err(RpcError::new(ErrorKind::Invalid, String::new())),
    };
    let node_id = match NodeId::from_slice(node_id) {
        Ok(v) => v,
        Err(_) => return Err(RpcError::new(ErrorKind::Invalid, String::new())),
    };
    let x_chain_id = match Id::from_slice(x_chain_id) {
        Ok(v) => v,
        Err(_) => return Err(RpcError::new(ErrorKind::Invalid, String::new())),
    };
    let avax_asset_id = match Id::from_slice(avax_asset_id) {
        Ok(v) => v,
        Err(_) => return Err(RpcError::new(ErrorKind::Invalid, String::new())),
    };
    Ok(Context { network_id, subnet_id, chain_id, node_id, x_chain_id, avax_asset_id })
}

/// Parses the database-server list of an initialize request into versioned
/// handles, in order. Fails with `Invalid` exactly when some entry's version
/// string (after its leading `v` run) is not a semantic version.
pub fn parse_db_versions(entries: &Vec<DbServerEntry>) -> (r: Result<
    Vec<VersionedDatabase>,
    RpcError,
>)
    ensures
        r is Ok <==> (forall|i: int|
            0 <= i < entries@.len() ==> parsed_version(entries@[i].version@) is Some),
        r matches Ok(v) ==> v@.len() == entries@.len() && (forall|i: int|
            0 <= i < entries@.len() ==> v@[i].server_addr == entries@[i].server_addr && Some(
                v@[i].version,
            ) == parsed_version(entries@[i].version@)),
        r matches Err(e) ==> e.kind == ErrorKind::Invalid,
{
    let mut out: Vec<VersionedDatabase> = Vec::new();
    let mut i: usize = 0;
    while i < entries.len()
        invariant
            0 <= i <= entries@.len(),
            out@.len() == i,
            forall|j: int|
                0 <= j < i ==> parsed_version(entries@[j].version@) is Some
                    && out@[j].server_addr == entries@[j].server_addr && Some(out@[j].version)
                    == parsed_version(entries@[j].version@),
        decreases entries@.len() - i,
    {
        match parse_version(entries[i].version.as_str()) {
            Some(version) => {
                out.push(VersionedDatabase::new(entries[i].server_addr.clone(), version));
            },
            None => {
                return Err(RpcError::new(
                    ErrorKind::Invalid,
                    "failed to parse database server version".to_owned(),
                ));
            },
        }
        i = i + 1;
    }
    Ok(out)
}

/// Validates the engine-state code of a `set_state` request before anything
/// is forwarded to the inner machine; an unknown code fails with `Invalid`
/// and the inner machine is not consulted.
pub fn decide_set_state(code: u32) -> (r: Result<State, RpcError>)
    ensures
        r is Ok <==> state_from_code(code) is Some,
        r matches Ok(s) ==> state_from_code(code) == Some(s),
        r matches Err(e) ==> e.kind == ErrorKind::Invalid,
{
    match State::try_from(code) {
        Ok(s) => Ok(s),
        Err(_) => Err(RpcError::new(
            ErrorKind::Invalid,
            "failed to convert to vm state".to_owned(),
        )),
    }
}

/// Reply to a successful initialize: the last-accepted block under its id.
#[derive(Debug, Clone)]
pub struct InitializeResponse {
    pub last_accepted_id: Vec<u8>,
    pub last_accepted_parent_id: Vec<u8>,
    pub bytes: Vec<u8>,
    pub height: u64,
    pub timestamp: WireTimestamp,
}

/// Serializes the last-accepted block fetched at the end of initialize.
pub fn initialize_response(last_accepted: &Id, block: &BlockData) -> (r: InitializeResponse)
    ensures
        r.last_accepted_id@ == last_accepted@,
        r.last_accepted_parent_id@ == block.parent_id@,
        r.bytes@ == block.bytes@,
        r.height == block.height,
        r.timestamp.seconds == block.timestamp as i64,
        r.timestamp.nanos == 0,
{
    let bytes = block.bytes.clone();
    assert(bytes@ =~= block.bytes@);
    InitializeResponse {
        last_accepted_id: last_accepted.to_vec(),
        last_accepted_parent_id: block.parent_id.to_vec(),
        bytes,
        height: block.height,
        timestamp: timestamp_from_unix(block.timestamp),
    }
}

/// Reply to `build_block`: the freshly built block, still undecided.
#[derive(Debug, Clone)]
pub struct BuildBlockResponse {
    pub id: Vec<u8>,
    pub parent_id: Vec<u8>,
    pub bytes: Vec<u8>,
    pub height: u64,
    pub timestamp: WireTimestamp,
}

/// Serializes the block the inner machine built.
pub fn build_block_response(block: &BlockData) -> (r: BuildBlockResponse)
    ensures
        r.id@ == block.id@,
        r.parent_id@ == block.parent_id@,
        r.bytes@ == block.bytes@,
        r.height == block.height,
        r.timestamp.seconds == block.timestamp as i64,
        r.timestamp.nanos == 0,
{
    let bytes = block.bytes.clone();
    assert(bytes@ =~= block.bytes@);
    BuildBlockResponse {
        id: block.id.to_vec(),
        parent_id: block.parent_id.to_vec(),
        bytes,
        height: block.height,
        timestamp: timestamp_from_unix(block.timestamp),
    }
}

/// Reply to `parse_block`: identity, status and position of the parsed
/// block; its bytes are what the host already sent.
#[derive(Debug, Clone)]
pub struct ParseBlockResponse {
    pub id: Vec<u8>,
    pub parent_id: Vec<u8>,
    pub status: u32,
    pub height: u64,
    pub timestamp: WireTimestamp,
}

/// Serializes the block the inner machine parsed.
pub fn parse_block_response(block: &BlockData) -> (r: ParseBlockResponse)
    ensures
        r.id@ == block.id@,
        r.parent_id@ == block.parent_id@,
        r.status == status_code(block.status),
        r.height == block.height,
        r.timestamp.seconds == block.timestamp as i64,
        r.timestamp.nanos == 0,
{
    ParseBlockResponse {
        id: block.id.to_vec(),
        parent_id: block.parent_id.to_vec(),
        status: block.status.to_u32(),
        height: block.height,
        timestamp: timestamp_from_unix(block.timestamp),
    }
}

/// Reply to `get_block`. A fetch failure is not a transport failure: the
/// fields are zeroed and `err` carries the recognized error code.
#[derive(Debug, Clone)]
pub struct GetBlockResponse {
    pub parent_id: Vec<u8>,
    pub bytes: Vec<u8>,
    pub status: u32,
    pub height: u64,
    pub timestamp: WireTimestamp,
    pub err: u32,
}

/// Shapes the reply to `get_block` out of the inner machine's answer. A
/// found block travels with `err == 0`; a failure whose message maps to a
/// known code travels in-body, with every field zeroed and that code in
/// `err`; only a message that maps to no code is a transport failure.
pub fn get_block_response(inner: &Result<BlockData, String>) -> (r: Result<
    GetBlockResponse,
    RpcError,
>)
    ensures
        inner matches Ok(b) ==> r matches Ok(resp) && resp.parent_id@ == b.parent_id@
            && resp.bytes@ == b.bytes@ && resp.status == status_code(b.status) && resp.height
            == b.height && resp.timestamp.seconds == b.timestamp as i64 && resp.timestamp.nanos
            == 0 && resp.err == 0,
        inner matches Err(m) ==> match error_code_of(m@) {
            Some(code) => r matches Ok(resp) && resp.parent_id@ == Seq::<u8>::empty()
                && resp.bytes@ == Seq::<u8>::empty() && resp.status == 0 && resp.height == 0
                && resp.timestamp == (WireTimestamp { seconds: 0, nanos: 0 }) && resp.err == code,
            None => r matches Err(e) && e.kind == ErrorKind::Invalid,
        },
{
    match inner {
        Ok(b) => {
            let bytes = b.bytes.clone();
            assert(bytes@ =~= b.bytes@);
            Ok(GetBlockResponse {
                parent_id: b.parent_id.to_vec(),
                bytes,
                status: b.status.to_u32(),
                height: b.height,
                timestamp: timestamp_from_unix(b.timestamp),
                err: 0,
            })
        },
        Err(m) => {
            match error_to_error_code(m.as_str()) {
                Some(code) => {
                    let parent_id: Vec<u8> = Vec::new();
                    let bytes: Vec<u8> = Vec::new();
                    Ok(GetBlockResponse {
                        parent_id,
                        bytes,
                        status: 0,
                        height: 0,
                        timestamp: WireTimestamp { seconds: 0, nanos: 0 },
                        err: code,
                    })
                },
                None => Err(RpcError::new(
                    ErrorKind::Invalid,
                    "failed to map error to an error code".to_owned(),
                )),
            }
        },
    }
}

/// Reply to `set_state`: the last-accepted block re-queried after the inner
/// machine took the new state.
#[derive(Debug, Clone)]
pub struct SetStateResponse {
    pub last_accepted_id: Vec<u8>,
    pub last_accepted_parent_id: Vec<u8>,
    pub height: u64,
    pub bytes: Vec<u8>,
    pub timestamp: WireTimestamp,
}

/// Serializes the last-accepted block fetched after a state change.
pub fn set_state_response(last_accepted: &Id, block: &BlockData) -> (r: SetStateResponse)
    ensures
        r.last_accepted_id@ == last_accepted@,
        r.last_accepted_parent_id@ == block.parent_id@,
        r.bytes@ == block.bytes@,
        r.height == block.height,
        r.timestamp.seconds == block.timestamp as i64,
        r.timestamp.nanos == 0,
{
    let bytes = block.bytes.clone();
    assert(bytes@ =~= block.bytes@);
    SetStateResponse {
        last_accepted_id: last_accepted.to_vec(),
        last_accepted_parent_id: block.parent_id.to_vec(),
        height: block.height,
        bytes,
        timestamp: timestamp_from_unix(block.timestamp),
    }
}

/// Reply to `block_verify`: the verified block's timestamp, as proof that
/// verification went through.
#[derive(Debug, Clone, Copy, PartialEq, Eq, Structural)]
pub struct BlockVerifyResponse {
    pub timestamp: WireTimestamp,
}

/// Serializes the reply to a successful `block_verify`.
pub fn block_verify_response(block: &BlockData) -> (r: BlockVerifyResponse)
    ensures
        r.timestamp.seconds == block.timestamp as i64,
        r.timestamp.nanos == 0,
{
    BlockVerifyResponse { timestamp: timestamp_from_unix(block.timestamp) }
}

/// One handler the inner machine exposes: an extension prefix, its locking
/// option, and whether a request router was actually supplied.
#[derive(Debug)]
pub struct HandlerDescriptor {
    pub prefix: String,
    pub lock_option: u32,
    pub has_router: bool,
}

/// One entry of the reply to `create_handlers`: a started sub-server's
/// prefix, locking option and freshly bound address.
#[derive(Debug)]
pub struct Handler {
    pub prefix: String,
    pub lock_options: u32,
    pub server_addr: String,
}

/// The reply that a handler list and the addresses allocated alongside it
/// yield: descriptors with a router become entries, in order, each under the
/// address allocated for its position; descriptors without a router are
/// skipped and are no error.
pub open spec fn handlers_of(descs: Seq<HandlerDescriptor>, addrs: Seq<String>) -> Seq<Handler>
    recommends
        addrs.len() == descs.len(),
    decreases descs.len(),
{
    if descs.len() == 0 {
        Seq::<Handler>::empty()
    } else {
        let rest = handlers_of(descs.drop_last(), addrs.drop_last());
        if descs.last().has_router {
            rest.push(
                Handler {
                    prefix: descs.last().prefix,
                    lock_options: descs.last().lock_option,
                    server_addr: addrs.last(),
                },
            )
        } else {
            rest
        }
    }
}

/// Shapes the reply to `create_handlers` (and `create_static_handlers`):
/// exactly the routed descriptors, in order, each under its allocated
/// address.
pub fn create_handlers_response(descs: &Vec<HandlerDescriptor>, addrs: &Vec<String>) -> (r: Vec<
    Handler,
>)
    requires
        addrs@.len() == descs@.len(),
    ensures
        r@ == handlers_of(descs@, addrs@),
{
    let mut out: Vec<Handler> = Vec::new();
    let mut i: usize = 0;
    while i < descs.len()
        invariant
            0 <= i <= descs@.len(),
            addrs@.len() == descs@.len(),
            out@ == handlers_of(descs@.subrange(0, i as int), addrs@.subrange(0, i as int)),
        decreases descs@.len() - i,
    {
        proof {
            assert(descs@.subrange(0, i + 1).drop_last() =~= descs@.subrange(0, i as int));
            assert(addrs@.subrange(0, i + 1).drop_last() =~= addrs@.subrange(0, i as int));
            assert(descs@.subrange(0, i + 1).last() == descs@[i as int]);
            assert(addrs@.subrange(0, i + 1).last() == addrs@[i as int]);
        }
        if descs[i].has_router {
            out.push(
                Handler {
                    prefix: descs[i].prefix.clone(),
                    lock_options: descs[i].lock_option,
                    server_addr: addrs[i].clone(),
                },
            );
        }
        i = i + 1;
    }
    proof {
        assert(descs@.subrange(0, descs@.len() as int) =~= descs@);
        assert(addrs@.subrange(0, addrs@.len() as int) =~= addrs@);
    }
    out
}

} // verus!
