//! The ordinary signal wire contract of the orchestrate lock authority:
//! its request, reply and refusal records, the length-prefixed frame codec,
//! the schema routing headers, and the no-downtime handover state machines.
pub mod bootstrap_manifest;
pub mod codec;
pub mod schema_emitted;
pub mod signal;
pub mod upgrade_handover;
pub mod vocabulary;

pub use crate::codec::{FrameCodecError, SignalFrameCodec, MAX_FRAME_BODY};
pub use crate::signal::{
    signal_version, FlowId, Frame, Lock, LockId, LockName, LockOverlap, LockPath, LockReason,
    LockRejection, LockRequest, Observation, ObserveSelection, Query, ReleaseRejection, Response,
    Version, CONTRACT_ID, WIRE_REVISION,
};
pub use crate::vocabulary::{
    ActivityQuery, ActivitySubmission, HarnessKind, LaneAuthority, LaneIdentifier,
    ObservationSubscription, ObservationToken, Role, RoleClaim, RoleHandoff, RoleIdentifier,
    RoleRelease, ScopeReason, ScopeReference,
};
