//! Response records of the remote operations.
//!
//! Every operation answers with a success flag rather than an error: a
//! caller cannot tell a miss from a storage failure, and the transport
//! never sees an exception.

use vstd::prelude::*;

verus! {

/// Outcome of an existence query against a committed layer.
#[derive(Debug, Clone, PartialEq, Eq)]
pub struct LayerExistsResult {
    pub success: bool,
    pub length: u64,
}

/// Outcome flag of a session-registry operation.
#[derive(Debug, Clone, PartialEq, Eq)]
pub struct OpResult {
    pub success: bool,
}

/// The token handed out for a newly created upload session.
#[derive(Debug, Clone, PartialEq, Eq)]
pub struct GenUuidResult {
    pub uuid: String,
}

/// A point-in-time snapshot of the tokens of all active sessions.
#[derive(Debug, Clone, PartialEq, Eq)]
pub struct UuidList {
    pub uuids: Vec<String>,
}

} // verus!
