//! The role and lane vocabulary that the schema's operations carry.
//!
//! The rules for these records are this library's own choice, since the
//! wire contract names the records but does not spell them out:
//! identifiers are wire tokens, non-empty and made of lowercase ASCII
//! letters, digits and hyphens, and a scope reason is any text that is
//! not blank. Timestamps, claim sequence and daemon identity are not part
//! of any request: the daemon mints them when it commits.
use vstd::prelude::*;
use vstd::string::StringSliceAdditionalSpecFns;

verus! {

/// A byte that may stand in a wire token: `a`..=`z`, `0`..=`9` or `-`.
pub open spec fn is_wire_token_byte(b: u8) -> bool {
    (0x61u8 <= b && b <= 0x7au8) || (0x30u8 <= b && b <= 0x39u8) || b == 0x2du8
}

/// The bytes of a wire token: at least one, each of them a token byte.
pub open spec fn is_wire_token(bytes: Seq<u8>) -> bool {
    bytes.len() > 0 && forall|i: int| 0 <= i < bytes.len() ==> is_wire_token_byte(#[trigger] bytes[i])
}

/// A byte of ASCII white space: space, tab, line feed or carriage return.
pub open spec fn is_blank_byte(b: u8) -> bool {
    b == 0x20u8 || b == 0x09u8 || b == 0x0au8 || b == 0x0du8
}

/// Text that holds nothing but white space, or nothing at all.
pub open spec fn is_blank(bytes: Seq<u8>) -> bool {
    forall|i: int| 0 <= i < bytes.len() ==> is_blank_byte(#[trigger] bytes[i])
}

fn check_wire_token(token: &str) -> (res: bool)
    ensures
        res == is_wire_token(token.spec_bytes()),
{
    let bytes = token.as_bytes();
    if bytes.len() == 0 {
        return false;
    }
    let mut i: usize = 0;
    while i < bytes.len()
        invariant
            i <= bytes@.len(),
            bytes@ == token.spec_bytes(),
            forall|j: int| 0 <= j < i ==> is_wire_token_byte(#[trigger] bytes@[j]),
        decreases bytes@.len() - i,
    {
        let b = bytes[i];
        if !((0x61u8 <= b && b <= 0x7au8) || (0x30u8 <= b && b <= 0x39u8) || b == 0x2du8) {
            return false;
        }
        i = i + 1;
    }
    true
}

fn check_blank(text: &str) -> (res: bool)
    ensures
        res == is_blank(text.spec_bytes()),
{
    let bytes = text.as_bytes();
    let mut i: usize = 0;
    while i < bytes.len()
        invariant
            i <= bytes@.len(),
            bytes@ == text.spec_bytes(),
            forall|j: int| 0 <= j < i ==> is_blank_byte(#[trigger] bytes@[j]),
        decreases bytes@.len() - i,
    {
        let b = bytes[i];
        if !(b == 0x20u8 || b == 0x09u8 || b == 0x0au8 || b == 0x0du8) {
            return false;
        }
        i = i + 1;
    }
    true
}

/// The identifier of a role, a wire token.
#[derive(Clone, Debug, PartialEq, Eq)]
pub struct RoleIdentifier {
    token: String,
}

impl View for RoleIdentifier {
    type V = Seq<char>;

    closed spec fn view(&self) -> Seq<char> {
        self.token@
    }
}

impl RoleIdentifier {
    /// The identifier spelled by `token`, if it is a wire token.
    pub fn from_wire_token(token: &str) -> (res: Option<RoleIdentifier>)
        ensures
            res is Some <==> is_wire_token(token.spec_bytes()),
            res matches Some(identifier) ==> identifier@ == token@,
    {
        if check_wire_token(token) {
            let identifier = RoleIdentifier { token: token.to_owned() };
            Some(identifier)
        } else {
            None
        }
    }

    pub fn as_str(&self) -> (res: &str)
        ensures
            res@ == self@,
    {
        self.token.as_str()
    }
}

/// The identifier of a lane, a wire token.
#[derive(Clone, Debug, PartialEq, Eq)]
pub struct LaneIdentifier {
    token: String,
}

impl View for LaneIdentifier {
    type V = Seq<char>;

    closed spec fn view(&self) -> Seq<char> {
        self.token@
    }
}

impl LaneIdentifier {
    /// The identifier spelled by `token`, if it is a wire token.
    pub fn from_wire_token(token: &str) -> (res: Option<LaneIdentifier>)
        ensures
            res is Some <==> is_wire_token(token.spec_bytes()),
            res matches Some(identifier) ==> identifier@ == token@,
    {
        if check_wire_token(token) {
            let identifier = LaneIdentifier { token: token.to_owned() };
            Some(identifier)
        } else {
            None
        }
    }

    pub fn as_str(&self) -> (res: &str)
        ensures
            res@ == self@,
    {
        self.token.as_str()
    }
}

/// Why a role claims its scopes: text that is not blank.
#[derive(Clone, Debug, PartialEq, Eq)]
pub struct ScopeReason {
    text: String,
}

impl View for ScopeReason {
    type V = Seq<char>;

    closed spec fn view(&self) -> Seq<char> {
        self.text@
    }
}

impl ScopeReason {
    /// The reason that `text` states, if it is not blank.
    pub fn from_text(text: &str) -> (res: Option<ScopeReason>)
        ensures
            res is Some <==> !is_blank(text.spec_bytes()),
            res matches Some(reason) ==> reason@ == text@,
    {
        if check_blank(text) {
            None
        } else {
            let reason = ScopeReason { text: text.to_owned() };
            Some(reason)
        }
    }

    pub fn as_str(&self) -> (res: &str)
        ensures
            res@ == self@,
    {
        self.text.as_str()
    }
}

/// What a claim covers: a path on disk, or a task.
#[derive(Clone, Debug, PartialEq, Eq)]
pub enum ScopeReference {
    Path(String),
    Task(String),
}

/// A role's claim of scopes.
#[derive(Clone, Debug, PartialEq, Eq)]
pub struct RoleClaim {
    pub role: RoleIdentifier,
    pub scopes: Vec<ScopeReference>,
    pub reason: ScopeReason,
}

/// A role's release of everything it claimed.
#[derive(Clone, Debug, PartialEq, Eq)]
pub struct RoleRelease {
    pub role: RoleIdentifier,
}

/// A handoff of one role's scopes to another role.
#[derive(Clone, Debug, PartialEq, Eq)]
pub struct RoleHandoff {
    pub from: RoleIdentifier,
    pub to: RoleIdentifier,
    pub reason: ScopeReason,
}

/// A role as the lane registry knows it.
#[derive(Clone, Debug, PartialEq, Eq)]
pub struct Role {
    pub identifier: RoleIdentifier,
}

/// Which authority a lane holds.
#[derive(Clone, Copy, Debug, PartialEq, Eq)]
pub enum LaneAuthority {
    /// The structural authority, which the bootstrap seats spell in full.
    Structure,
    /// The supporting authority.
    Support,
}

/// Which agent harness runs a role.
#[derive(Clone, Copy, Debug, PartialEq, Eq)]
pub enum HarnessKind {
    Codex,
    Claude,
}

/// An entry that a role submits to the activity log.
#[derive(Clone, Debug, PartialEq, Eq)]
pub struct ActivitySubmission {
    pub role: RoleIdentifier,
    pub scope: ScopeReference,
    pub reason: ScopeReason,
}

/// A query of the activity log, for one role or for all.
#[derive(Clone, Debug, PartialEq, Eq)]
pub struct ActivityQuery {
    pub role: Option<RoleIdentifier>,
    pub limit: u32,
}

/// What a watch subscribes to.
#[derive(Clone, Copy, Debug, PartialEq, Eq)]
pub struct ObservationSubscription {
    pub include_operations: bool,
    pub include_sema_effects: bool,
}

/// The token of an open observation stream.
#[derive(Clone, Copy, Debug, PartialEq, Eq)]
pub struct ObservationToken(pub u64);

impl ObservationToken {
    pub fn new(value: u64) -> (token: ObservationToken)
        ensures
            token.0 == value,
    {
        ObservationToken(value)
    }
}

} // verus!
