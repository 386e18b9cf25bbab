//! Builder for the surrounding wallet client: collects a signing key and the
//! HTTP rpc endpoints the wallet will round-robin over. The wallet itself is
//! assembled outside the library, against live endpoints.

use vstd::prelude::*;

verus! {

/// Accumulates what a wallet is built from: one key and the rpc endpoints.
#[derive(Debug, Clone)]
pub struct Builder<T> {
    pub key: T,
    pub http_rpcs: Vec<String>,
}

impl<T: Clone> Builder<T> {
    /// Starts a builder from a key, with no endpoints yet.
    pub fn new(key: &T) -> (r: Self)
        ensures
            r.http_rpcs@ == Seq::<String>::empty(),
            cloned::<T>(*key, r.key),
    {
        Self { http_rpcs: Vec::new(), key: key.clone() }
    }

    /// Adds one HTTP rpc endpoint.
    #[must_use]
    pub fn http_rpc(self, http_rpc: String) -> (r: Self)
        ensures
            r.http_rpcs@ == self.http_rpcs@.push(http_rpc),
            r.key == self.key,
    {
        let mut s = self;
        if s.http_rpcs.is_empty() {
            let singleton = vec![http_rpc];
            proof {
                assert(singleton@ =~= s.http_rpcs@.push(singleton@[0]));
            }
            s.http_rpcs = singleton;
        } else {
            s.http_rpcs.push(http_rpc);
        }
        s
    }

    /// Overwrites the HTTP rpc endpoints.
    #[must_use]
    pub fn http_rpcs(self, http_rpcs: Vec<String>) -> (r: Self)
        ensures
            r.http_rpcs == http_rpcs,
            r.key == self.key,
    {
        Self { key: self.key, http_rpcs }
    }
}

} // verus!
