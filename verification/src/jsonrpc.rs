//! JSON-RPC request and error shapes the surrounding clients exchange with
//! running nodes. Encoding them onto the wire happens outside the library;
//! here live the values and their defaults.

use vstd::prelude::*;
use std::collections::HashMap;

verus! {

/// The JSON-RPC protocol version every request carries by default.
pub const DEFAULT_VERSION: &'static str = "2.0";

/// The request id every request carries by default.
pub const DEFAULT_ID: u32 = 1;

/// A request whose parameters are a map of named strings.
#[derive(Debug, Clone, PartialEq, Eq)]
pub struct Request {
    pub jsonrpc: String,
    pub id: u32,
    pub method: String,
    pub params: Option<HashMap<String, String>>,
}

impl Request {
    /// An empty request under the default protocol version and id.
    pub fn default() -> (r: Self)
        ensures
            r.jsonrpc@ == DEFAULT_VERSION@,
            r.id == DEFAULT_ID,
            r.method@ == Seq::<char>::empty(),
            r.params is None,
    {
        Self {
            jsonrpc: DEFAULT_VERSION.to_owned(),
            id: DEFAULT_ID,
            method: String::new(),
            params: None,
        }
    }
}

/// A request whose parameters are a list of strings.
#[derive(Debug, Clone, PartialEq, Eq)]
pub struct RequestWithParamsArray {
    pub jsonrpc: String,
    pub id: u32,
    pub method: String,
    pub params: Option<Vec<String>>,
}

impl RequestWithParamsArray {
    /// An empty request under the default protocol version and id.
    pub fn default() -> (r: Self)
        ensures
            r.jsonrpc@ == DEFAULT_VERSION@,
            r.id == DEFAULT_ID,
            r.method@ == Seq::<char>::empty(),
            r.params is None,
    {
        Self {
            jsonrpc: DEFAULT_VERSION.to_owned(),
            id: DEFAULT_ID,
            method: String::new(),
            params: None,
        }
    }
}

/// A request whose parameters are a list of maps of named strings.
#[derive(Debug, Clone, PartialEq, Eq)]
pub struct RequestWithParamsHashMapArray {
    pub jsonrpc: String,
    pub id: u32,
    pub method: String,
    pub params: Option<Vec<HashMap<String, String>>>,
}

impl RequestWithParamsHashMapArray {
    /// An empty request under the default protocol version and id.
    pub fn default() -> (r: Self)
        ensures
            r.jsonrpc@ == DEFAULT_VERSION@,
            r.id == DEFAULT_ID,
            r.method@ == Seq::<char>::empty(),
            r.params is None,
    {
        Self {
            jsonrpc: DEFAULT_VERSION.to_owned(),
            id: DEFAULT_ID,
            method: String::new(),
            params: None,
        }
    }
}

/// The paging cursor a UTXO listing reply carries.
#[derive(Debug, Clone, PartialEq, Eq)]
pub struct EndIndex {
    pub address: String,
    pub utxo: String,
}

/// The error member of a JSON-RPC response.
#[derive(Debug, Clone, PartialEq, Eq)]
pub struct ResponseError {
    pub code: i32,
    pub message: String,
    pub data: Option<String>,
}

impl ResponseError {
    /// An empty error: code zero, no message, no data.
    pub fn default() -> (r: Self)
        ensures
            r.code == 0,
            r.message@ == Seq::<char>::empty(),
            r.data is None,
    {
        Self { code: 0, message: String::new(), data: None }
    }
}

} // verus!
