//! The Orchestrate Lock wire contract: the closed request, reply and
//! refusal roots, the records they carry, and the channel's version.
//!
//! The channel has contract identifier 1 and wire revision 6. A `Lock`
//! snapshot always carries its identifier, name, flow, paths and reason;
//! `Observe` selects `Locks`, and its reply is `Observed(Locks(..))`,
//! including the empty observation.
use vstd::prelude::*;

verus! {

pub type LockId = i64;

pub type LockName = String;

pub type FlowId = String;

pub type LockPath = String;

pub type LockReason = String;

/// A request for a lock: the daemon mints the identifier when it grants it.
#[derive(Clone, Debug, PartialEq)]
pub struct LockRequest {
    pub lock_name: LockName,
    pub flow_id: FlowId,
    pub lock_path_vector: Vec<LockPath>,
    pub lock_reason: LockReason,
}

/// A granted lock.
#[derive(Clone, Debug, PartialEq)]
pub struct Lock {
    pub lock_id: LockId,
    pub lock_name: LockName,
    pub flow_id: FlowId,
    pub lock_path_vector: Vec<LockPath>,
    pub lock_reason: LockReason,
}

/// A path of a requested lock that an existing lock already holds.
#[derive(Clone, Debug, PartialEq)]
pub struct LockOverlap {
    pub lock_path: LockPath,
    pub lock: Lock,
}

#[derive(Clone, Debug, PartialEq)]
pub enum LockRejection {
    DuplicateName(Lock),
    PathOverlap(LockOverlap),
}

#[derive(Clone, Debug, PartialEq)]
pub enum ReleaseRejection {
    UnknownLockId,
}

#[derive(Clone, Debug, PartialEq)]
pub enum ObserveSelection {
    Locks,
}

#[derive(Clone, Debug, PartialEq)]
pub enum Observation {
    Locks(Vec<Lock>),
}

/// The closed request root of the channel.
#[derive(Clone, Debug, PartialEq)]
pub enum Query {
    Lock(LockRequest),
    Release(LockId),
    Observe(ObserveSelection),
}

/// The closed reply root of the channel; refusals are typed replies.
#[derive(Clone, Debug, PartialEq)]
pub enum Response {
    Locked(Lock),
    Released(Lock),
    Observed(Observation),
    LockRejected(LockRejection),
    ReleaseRejected(ReleaseRejection),
}

/// The contract identifier of the Orchestrate channel.
pub const CONTRACT_ID: u32 = 1;

/// The wire revision of the Orchestrate channel.
pub const WIRE_REVISION: u32 = 6;

/// The version a frame carries: which contract, at which wire revision.
#[derive(Clone, Copy, Debug, PartialEq, Eq, Structural)]
pub struct Version {
    pub contract_id: u32,
    pub wire_revision: u32,
}

pub open spec fn spec_signal_version() -> Version {
    Version { contract_id: CONTRACT_ID, wire_revision: WIRE_REVISION }
}

/// The version of this channel; the only one its frames may carry.
pub fn signal_version() -> (version: Version)
    ensures
        version == spec_signal_version(),
{
    Version { contract_id: CONTRACT_ID, wire_revision: WIRE_REVISION }
}

/// A frame of the channel: its version and the archived request or reply
/// that it carries.
#[derive(Clone, Debug, PartialEq, Eq)]
pub struct Frame(pub Version, pub Vec<u8>);

} // verus!
