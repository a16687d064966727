//! Read-only, verified access to a Starknet node's embedded key-value store.
//!
//! The store's record layouts are a private binary format; this crate decodes
//! them with verified functions on bytes and exposes the lookup, listing and
//! pagination rules over blocks, transactions, contracts and classes. The
//! embedding application owns the store handle and hands raw keys and values
//! in; everything done with them is verified here.

use vstd::prelude::*;
use vstd::string::StringExecFns;

pub mod block;
pub mod codec;
pub mod contract;
pub mod felt;
pub mod responses;
pub mod txn;

verus! {

/// Why the store cannot serve: the engine failed, the path is missing, or a
/// record's bytes do not decode. Fatal to the handle; record-level trouble
/// inside a working store is reported as "not found" instead.
#[derive(Debug, Clone, PartialEq, Eq)]
pub enum DbError {
    RocksDb(String),
    PathNotFound(String),
    Deserialize(String),
}

impl DbError {
    /// A one-line description naming the failure and its subject.
    pub fn message(&self) -> (r: String)
        ensures
            ({
                match self {
                    DbError::RocksDb(e) => r@ == "RocksDB error: "@ + e@,
                    DbError::PathNotFound(p) => r@ == "Database path does not exist: "@ + p@,
                    DbError::Deserialize(e) => r@ == "Deserialization error: "@ + e@,
                }
            }),
    {
        match self {
            DbError::RocksDb(e) => "RocksDB error: ".to_owned().concat(e.as_str()),
            DbError::PathNotFound(p) => "Database path does not exist: ".to_owned().concat(
                p.as_str(),
            ),
            DbError::Deserialize(e) => "Deserialization error: ".to_owned().concat(e.as_str()),
        }
    }
}

} // verus!
