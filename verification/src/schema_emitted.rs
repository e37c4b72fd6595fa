//! The operation roots, their endpoints and the two-byte short headers
//! that the orchestrate schema lowers to.
//!
//! The ordinary leg has eight roots and the owner leg five, each root at
//! its slot in declaration order. Every (root, endpoint) pair has its own
//! short header, so the header alone picks the dispatch arm: an
//! operation's header is the pair of its root slot and its endpoint slot.
//! Owner operations have their own enum and their own dispatch trait, so
//! an owner handler cannot be reached from the ordinary leg.
use crate::vocabulary::{
    ActivityQuery, ActivitySubmission, HarnessKind, LaneAuthority, LaneIdentifier,
    ObservationSubscription, ObservationToken, Role, RoleClaim, RoleHandoff, RoleIdentifier,
    RoleRelease,
};
use vstd::prelude::*;

verus! {

// Ordinary operation roots.
#[derive(Debug, Clone, PartialEq, Eq)]
pub enum Operation {
    Claim(ClaimOperation),
    Release(ReleaseOperation),
    Handoff(HandoffOperation),
    Observe(ObserveOperation),
    Submit(SubmitOperation),
    Query(QueryOperation),
    Watch(WatchOperation),
    Unwatch(UnwatchOperation),
}

/// The root of an ordinary operation, without its payload.
#[derive(Debug, Clone, Copy, PartialEq, Eq, Hash, Structural)]
pub enum OperationRoot {
    Claim,
    Release,
    Handoff,
    Observe,
    Submit,
    Query,
    Watch,
    Unwatch,
}

#[derive(Debug, Clone, PartialEq, Eq)]
pub enum ClaimOperation {
    Role(RoleClaim),
}

#[derive(Debug, Clone, PartialEq, Eq)]
pub enum ReleaseOperation {
    Role(RoleRelease),
}

#[derive(Debug, Clone, PartialEq, Eq)]
pub enum HandoffOperation {
    Role(RoleHandoff),
}

/// A root with two endpoints, neither of which carries a payload.
#[derive(Debug, Clone, Copy, PartialEq, Eq, Hash, Structural)]
pub enum ObserveOperation {
    Roles,
    Lanes,
}

#[derive(Debug, Clone, PartialEq, Eq)]
pub enum SubmitOperation {
    Activity(ActivitySubmission),
}

#[derive(Debug, Clone, PartialEq, Eq)]
pub enum QueryOperation {
    Activity(ActivityQuery),
}

#[derive(Debug, Clone, PartialEq, Eq)]
pub enum WatchOperation {
    Operations(ObservationSubscription),
}

#[derive(Debug, Clone, Copy, PartialEq, Eq)]
pub enum UnwatchOperation {
    Token(ObservationToken),
}

// Owner operation roots: inexpressible on the ordinary leg.
#[derive(Debug, Clone, PartialEq, Eq)]
pub enum OwnerOperation {
    Create(CreateOperation),
    Retire(RetireOperation),
    Refresh(RefreshOperation),
    Register(RegisterOperation),
    SetAuthority(SetAuthorityOperation),
}

#[derive(Debug, Clone, PartialEq, Eq)]
pub enum CreateOperation {
    Role(CreateRoleOrder),
}

/// A root with two endpoints of different payloads.
#[derive(Debug, Clone, PartialEq, Eq)]
pub enum RetireOperation {
    Role(RetireRoleOrder),
    Lane(LaneIdentifier),
}

#[derive(Debug, Clone, PartialEq, Eq)]
pub enum RefreshOperation {
    RepositoryIndex(RefreshRepositoryIndexOrder),
}

#[derive(Debug, Clone, PartialEq, Eq)]
pub enum RegisterOperation {
    Lane(LaneRegistrationRequest),
}

#[derive(Debug, Clone, PartialEq, Eq)]
pub enum SetAuthorityOperation {
    Lane(LaneAuthorityChange),
}

// Owner payloads.
#[derive(Debug, Clone, PartialEq, Eq)]
pub struct CreateRoleOrder {
    pub role: RoleIdentifier,
    pub harness: HarnessKind,
}

#[derive(Debug, Clone, PartialEq, Eq)]
pub struct RetireRoleOrder {
    pub role: RoleIdentifier,
}

#[derive(Debug, Clone, Copy, PartialEq, Eq)]
pub struct RefreshRepositoryIndexOrder;

#[derive(Debug, Clone, PartialEq, Eq)]
pub struct LaneRegistrationRequest {
    pub role: Role,
    pub authority: LaneAuthority,
}

#[derive(Debug, Clone, PartialEq, Eq)]
pub struct LaneAuthorityChange {
    pub lane: LaneIdentifier,
    pub authority: LaneAuthority,
}

/// The wire-level pair of root slot and endpoint slot by which the signal
/// kernel routes an operation without decoding its payload.
#[derive(Debug, Clone, Copy, PartialEq, Eq, Hash, Structural)]
pub struct ShortHeader {
    pub root: u8,
    pub endpoint: u8,
}

/// The payloadless classification of an operation, for cross-component
/// observation.
#[derive(Debug, Clone, Copy, PartialEq, Eq, Hash, Structural)]
pub enum SemaOperation {
    Assert,
    Mutate,
    Retract,
    Match,
    Subscribe,
    Validate,
}

/// The storage tables that the daemon lays out for the wire types.
#[derive(Debug, Clone, Copy, PartialEq, Eq, Hash, Structural)]
pub enum SemaTable {
    Roles,
    Claims,
    Activities,
    Repositories,
    LaneRegistry,
    Divergences,
}

/// The handler methods of `OrdinaryDispatch`, one per (root, endpoint)
/// pair.
#[derive(Debug, Clone, Copy, PartialEq, Eq, Hash, Structural)]
pub enum OrdinaryHandler {
    ClaimRole,
    ReleaseRole,
    HandoffRole,
    ObserveRoles,
    ObserveLanes,
    SubmitActivity,
    QueryActivity,
    WatchOperations,
    UnwatchToken,
}

/// The handler methods of `OwnerDispatch`, one per (root, endpoint) pair.
#[derive(Debug, Clone, Copy, PartialEq, Eq, Hash, Structural)]
pub enum OwnerHandler {
    CreateRole,
    RetireRole,
    RetireLane,
    RefreshRepositoryIndex,
    RegisterLane,
    SetLaneAuthority,
}

// ---- Specifications ----

pub open spec fn spec_root_kind(operation: Operation) -> OperationRoot {
    match operation {
        Operation::Claim(_) => OperationRoot::Claim,
        Operation::Release(_) => OperationRoot::Release,
        Operation::Handoff(_) => OperationRoot::Handoff,
        Operation::Observe(_) => OperationRoot::Observe,
        Operation::Submit(_) => OperationRoot::Submit,
        Operation::Query(_) => OperationRoot::Query,
        Operation::Watch(_) => OperationRoot::Watch,
        Operation::Unwatch(_) => OperationRoot::Unwatch,
    }
}

/// The slot of an ordinary root: its place in declaration order.
pub open spec fn root_slot(root: OperationRoot) -> u8 {
    match root {
        OperationRoot::Claim => 0,
        OperationRoot::Release => 1,
        OperationRoot::Handoff => 2,
        OperationRoot::Observe => 3,
        OperationRoot::Submit => 4,
        OperationRoot::Query => 5,
        OperationRoot::Watch => 6,
        OperationRoot::Unwatch => 7,
    }
}

pub open spec fn observe_slot(operation: ObserveOperation) -> u8 {
    match operation {
        ObserveOperation::Roles => 0,
        ObserveOperation::Lanes => 1,
    }
}

pub open spec fn retire_slot(operation: RetireOperation) -> u8 {
    match operation {
        RetireOperation::Role(_) => 0,
        RetireOperation::Lane(_) => 1,
    }
}

/// The endpoint slot of an ordinary operation within its root.
pub open spec fn endpoint_slot(operation: Operation) -> u8 {
    match operation {
        Operation::Observe(inner) => observe_slot(inner),
        _ => 0,
    }
}

pub open spec fn spec_short_header(operation: Operation) -> ShortHeader {
    ShortHeader { root: root_slot(spec_root_kind(operation)), endpoint: endpoint_slot(operation) }
}

/// The slot of an owner operation's root: its place in declaration order.
pub open spec fn owner_root_slot(operation: OwnerOperation) -> u8 {
    match operation {
        OwnerOperation::Create(_) => 0,
        OwnerOperation::Retire(_) => 1,
        OwnerOperation::Refresh(_) => 2,
        OwnerOperation::Register(_) => 3,
        OwnerOperation::SetAuthority(_) => 4,
    }
}

/// The endpoint slot of an owner operation within its root.
pub open spec fn owner_endpoint_slot(operation: OwnerOperation) -> u8 {
    match operation {
        OwnerOperation::Retire(inner) => retire_slot(inner),
        _ => 0,
    }
}

pub open spec fn spec_owner_short_header(operation: OwnerOperation) -> ShortHeader {
    ShortHeader { root: owner_root_slot(operation), endpoint: owner_endpoint_slot(operation) }
}

/// The header packed into one word: root slot high, endpoint slot low.
pub open spec fn header_word(header: ShortHeader) -> int {
    header.root * 256 + header.endpoint
}

/// The handler method of the ordinary leg that an operation's arm calls.
pub open spec fn ordinary_handler(operation: Operation) -> OrdinaryHandler {
    match operation {
        Operation::Claim(_) => OrdinaryHandler::ClaimRole,
        Operation::Release(_) => OrdinaryHandler::ReleaseRole,
        Operation::Handoff(_) => OrdinaryHandler::HandoffRole,
        Operation::Observe(ObserveOperation::Roles) => OrdinaryHandler::ObserveRoles,
        Operation::Observe(ObserveOperation::Lanes) => OrdinaryHandler::ObserveLanes,
        Operation::Submit(_) => OrdinaryHandler::SubmitActivity,
        Operation::Query(_) => OrdinaryHandler::QueryActivity,
        Operation::Watch(_) => OrdinaryHandler::WatchOperations,
        Operation::Unwatch(_) => OrdinaryHandler::UnwatchToken,
    }
}

/// The handler method of the owner leg that an owner operation's arm calls.
pub open spec fn owner_handler(operation: OwnerOperation) -> OwnerHandler {
    match operation {
        OwnerOperation::Create(_) => OwnerHandler::CreateRole,
        OwnerOperation::Retire(RetireOperation::Role(_)) => OwnerHandler::RetireRole,
        OwnerOperation::Retire(RetireOperation::Lane(_)) => OwnerHandler::RetireLane,
        OwnerOperation::Refresh(_) => OwnerHandler::RefreshRepositoryIndex,
        OwnerOperation::Register(_) => OwnerHandler::RegisterLane,
        OwnerOperation::SetAuthority(_) => OwnerHandler::SetLaneAuthority,
    }
}

pub open spec fn spec_project_to_sema(operation: Operation) -> SemaOperation {
    match operation {
        Operation::Claim(_) => SemaOperation::Assert,
        Operation::Release(_) => SemaOperation::Retract,
        Operation::Handoff(_) => SemaOperation::Mutate,
        Operation::Observe(_) => SemaOperation::Match,
        Operation::Submit(_) => SemaOperation::Assert,
        Operation::Query(_) => SemaOperation::Match,
        Operation::Watch(_) => SemaOperation::Subscribe,
        Operation::Unwatch(_) => SemaOperation::Retract,
    }
}

pub open spec fn spec_project_owner_to_sema(operation: OwnerOperation) -> SemaOperation {
    match operation {
        OwnerOperation::Create(_) => SemaOperation::Assert,
        OwnerOperation::Retire(_) => SemaOperation::Retract,
        OwnerOperation::Refresh(_) => SemaOperation::Mutate,
        OwnerOperation::Register(_) => SemaOperation::Assert,
        OwnerOperation::SetAuthority(_) => SemaOperation::Mutate,
    }
}

pub open spec fn table_name(table: SemaTable) -> Seq<char> {
    match table {
        SemaTable::Roles => "roles"@,
        SemaTable::Claims => "claims"@,
        SemaTable::Activities => "activities"@,
        SemaTable::Repositories => "repositories"@,
        SemaTable::LaneRegistry => "lane_registry"@,
        SemaTable::Divergences => "divergences"@,
    }
}

// ---- Laws ----

/// Two ordinary operations share a short header exactly when dispatch
/// hands them to the same handler method: the header alone routes an
/// operation.
pub proof fn lemma_short_header_routes(a: Operation, b: Operation)
    ensures
        spec_short_header(a) == spec_short_header(b) <==> ordinary_handler(a)
            == ordinary_handler(b),
{
}

/// Two owner operations share a short header exactly when dispatch hands
/// them to the same handler method.
pub proof fn lemma_owner_short_header_routes(a: OwnerOperation, b: OwnerOperation)
    ensures
        spec_owner_short_header(a) == spec_owner_short_header(b) <==> owner_handler(a)
            == owner_handler(b),
{
}

/// The header word gives back its root and endpoint slots, so two headers
/// are equal exactly when their words are.
pub proof fn lemma_header_word_round_trip(a: ShortHeader, b: ShortHeader)
    ensures
        header_word(a) / 256 == a.root,
        header_word(a) % 256 == a.endpoint,
        header_word(a) == header_word(b) <==> a == b,
{
}

/// The Sema classification of an ordinary operation depends on its root
/// alone, never on its payload: reads (`Observe`, `Query`) match, `Watch`
/// subscribes, `Claim` and `Submit` assert, `Release` and `Unwatch`
/// retract, `Handoff` mutates, and nothing classifies as `Validate`.
pub proof fn lemma_sema_class_follows_the_root(a: Operation, b: Operation)
    ensures
        spec_root_kind(a) == spec_root_kind(b) ==> spec_project_to_sema(a)
            == spec_project_to_sema(b),
        (spec_root_kind(a) == OperationRoot::Observe || spec_root_kind(a) == OperationRoot::Query)
            ==> spec_project_to_sema(a) == SemaOperation::Match,
        spec_root_kind(a) == OperationRoot::Watch ==> spec_project_to_sema(a)
            == SemaOperation::Subscribe,
        (spec_root_kind(a) == OperationRoot::Claim || spec_root_kind(a) == OperationRoot::Submit)
            ==> spec_project_to_sema(a) == SemaOperation::Assert,
        (spec_root_kind(a) == OperationRoot::Release || spec_root_kind(a)
            == OperationRoot::Unwatch) ==> spec_project_to_sema(a) == SemaOperation::Retract,
        spec_root_kind(a) == OperationRoot::Handoff ==> spec_project_to_sema(a)
            == SemaOperation::Mutate,
        spec_project_to_sema(a) != SemaOperation::Validate,
{
}

/// The Sema classification of an owner operation depends on its root
/// alone: `Create` and `Register` assert, both `Retire` endpoints retract,
/// `Refresh` and `SetAuthority` mutate.
pub proof fn lemma_owner_sema_class_follows_the_root(a: OwnerOperation, b: OwnerOperation)
    ensures
        owner_root_slot(a) == owner_root_slot(b) ==> spec_project_owner_to_sema(a)
            == spec_project_owner_to_sema(b),
        (a is Create || a is Register) ==> spec_project_owner_to_sema(a) == SemaOperation::Assert,
        a is Retire ==> spec_project_owner_to_sema(a) == SemaOperation::Retract,
        (a is Refresh || a is SetAuthority) ==> spec_project_owner_to_sema(a)
            == SemaOperation::Mutate,
{
}

// ---- Executable functions ----

impl Operation {
    pub fn root_kind(&self) -> (root: OperationRoot)
        ensures
            root == spec_root_kind(*self),
    {
        match self {
            Self::Claim(_) => OperationRoot::Claim,
            Self::Release(_) => OperationRoot::Release,
            Self::Handoff(_) => OperationRoot::Handoff,
            Self::Observe(_) => OperationRoot::Observe,
            Self::Submit(_) => OperationRoot::Submit,
            Self::Query(_) => OperationRoot::Query,
            Self::Watch(_) => OperationRoot::Watch,
            Self::Unwatch(_) => OperationRoot::Unwatch,
        }
    }

    /// Lowers the operation to its two-byte short header.
    pub fn short_header(&self) -> (header: ShortHeader)
        ensures
            header == spec_short_header(*self),
    {
        let (root_byte, endpoint_byte) = match self {
            Self::Claim(inner) => (0u8, inner.endpoint_discriminator()),
            Self::Release(inner) => (1, inner.endpoint_discriminator()),
            Self::Handoff(inner) => (2, inner.endpoint_discriminator()),
            Self::Observe(inner) => (3, inner.endpoint_discriminator()),
            Self::Submit(inner) => (4, inner.endpoint_discriminator()),
            Self::Query(inner) => (5, inner.endpoint_discriminator()),
            Self::Watch(inner) => (6, inner.endpoint_discriminator()),
            Self::Unwatch(inner) => (7, inner.endpoint_discriminator()),
        };
        ShortHeader::new(root_byte, endpoint_byte)
    }
}

impl ClaimOperation {
    pub fn endpoint_discriminator(&self) -> (slot: u8)
        ensures
            slot == 0,
    {
        match self {
            Self::Role(_) => 0,
        }
    }
}

impl ReleaseOperation {
    pub fn endpoint_discriminator(&self) -> (slot: u8)
        ensures
            slot == 0,
    {
        match self {
            Self::Role(_) => 0,
        }
    }
}

impl HandoffOperation {
    pub fn endpoint_discriminator(&self) -> (slot: u8)
        ensures
            slot == 0,
    {
        match self {
            Self::Role(_) => 0,
        }
    }
}

impl ObserveOperation {
    pub fn endpoint_discriminator(&self) -> (slot: u8)
        ensures
            slot == observe_slot(*self),
    {
        match self {
            Self::Roles => 0,
            Self::Lanes => 1,
        }
    }
}

impl SubmitOperation {
    pub fn endpoint_discriminator(&self) -> (slot: u8)
        ensures
            slot == 0,
    {
        match self {
            Self::Activity(_) => 0,
        }
    }
}

impl QueryOperation {
    pub fn endpoint_discriminator(&self) -> (slot: u8)
        ensures
            slot == 0,
    {
        match self {
            Self::Activity(_) => 0,
        }
    }
}

impl WatchOperation {
    pub fn endpoint_discriminator(&self) -> (slot: u8)
        ensures
            slot == 0,
    {
        match self {
            Self::Operations(_) => 0,
        }
    }
}

impl UnwatchOperation {
    pub fn endpoint_discriminator(&self) -> (slot: u8)
        ensures
            slot == 0,
    {
        match self {
            Self::Token(_) => 0,
        }
    }
}

impl OwnerOperation {
    /// Lowers the owner operation to its two-byte short header.
    pub fn short_header(&self) -> (header: ShortHeader)
        ensures
            header == spec_owner_short_header(*self),
    {
        let (root_byte, endpoint_byte) = match self {
            Self::Create(inner) => (0u8, inner.endpoint_discriminator()),
            Self::Retire(inner) => (1, inner.endpoint_discriminator()),
            Self::Refresh(inner) => (2, inner.endpoint_discriminator()),
            Self::Register(inner) => (3, inner.endpoint_discriminator()),
            Self::SetAuthority(inner) => (4, inner.endpoint_discriminator()),
        };
        ShortHeader::new(root_byte, endpoint_byte)
    }
}

impl CreateOperation {
    pub fn endpoint_discriminator(&self) -> (slot: u8)
        ensures
            slot == 0,
    {
        match self {
            Self::Role(_) => 0,
        }
    }
}

impl RetireOperation {
    pub fn endpoint_discriminator(&self) -> (slot: u8)
        ensures
            slot == retire_slot(*self),
    {
        match self {
            Self::Role(_) => 0,
            Self::Lane(_) => 1,
        }
    }
}

impl RefreshOperation {
    pub fn endpoint_discriminator(&self) -> (slot: u8)
        ensures
            slot == 0,
    {
        match self {
            Self::RepositoryIndex(_) => 0,
        }
    }
}

impl RegisterOperation {
    pub fn endpoint_discriminator(&self) -> (slot: u8)
        ensures
            slot == 0,
    {
        match self {
            Self::Lane(_) => 0,
        }
    }
}

impl SetAuthorityOperation {
    pub fn endpoint_discriminator(&self) -> (slot: u8)
        ensures
            slot == 0,
    {
        match self {
            Self::Lane(_) => 0,
        }
    }
}

impl ShortHeader {
    pub fn new(root: u8, endpoint: u8) -> (header: ShortHeader)
        ensures
            header.root == root,
            header.endpoint == endpoint,
    {
        Self { root, endpoint }
    }

    /// The header as one word: the root slot in the high byte, the
    /// endpoint slot in the low byte.
    pub fn as_u16(self) -> (word: u16)
        ensures
            word == header_word(self),
    {
        let root = self.root;
        let endpoint = self.endpoint;
        let word: u16 = ((root as u16) << 8u16) | endpoint as u16;
        assert(word == root * 256 + endpoint) by (bit_vector)
            requires
                word == ((root as u16) << 8u16) | endpoint as u16,
        ;
        word
    }
}

/// The daemon's seam on the ordinary leg: one method per (root, endpoint)
/// pair, and the dispatch that routes an operation to its method.
///
/// An implementation states, through `answers_operation`, how each of its
/// methods answers an operation: in which state it leaves the handler and
/// what it replies. Each method answers with its own `OrdinaryHandler`
/// tag, and `dispatch` answers an operation with the tag of
/// `ordinary_handler(operation)`: it calls exactly that method, hands it
/// the operation's payload, and gives back its reply, an error included,
/// unchanged. Inside this trait the relation is abstract, so no other
/// body meets `dispatch`'s contract.
pub trait OrdinaryDispatch: Sized {
    type Error;

    type Reply;

    /// The handler, in state `before`, answers `operation` with `reply` and
    /// is left in state `after`, when `handler` is the method
    /// that answered. An implementation in ordinary Rust cannot define a
    /// spec function, so it keeps this default, which holds of every
    /// answer; a verified implementation states its own.
    closed spec fn answers_operation(
        before: Self,
        handler: OrdinaryHandler,
        operation: Operation,
        after: Self,
        reply: Result<Self::Reply, Self::Error>,
    ) -> bool {
        true
    }

    fn claim_role(&mut self, payload: RoleClaim) -> (reply: Result<Self::Reply, Self::Error>)
        ensures
            Self::answers_operation(
                *old(self),
                OrdinaryHandler::ClaimRole,
                Operation::Claim(ClaimOperation::Role(payload)),
                *final(self),
                reply,
            ),
    ;

    fn release_role(&mut self, payload: RoleRelease) -> (reply: Result<Self::Reply, Self::Error>)
        ensures
            Self::answers_operation(
                *old(self),
                OrdinaryHandler::ReleaseRole,
                Operation::Release(ReleaseOperation::Role(payload)),
                *final(self),
                reply,
            ),
    ;

    fn handoff_role(&mut self, payload: RoleHandoff) -> (reply: Result<Self::Reply, Self::Error>)
        ensures
            Self::answers_operation(
                *old(self),
                OrdinaryHandler::HandoffRole,
                Operation::Handoff(HandoffOperation::Role(payload)),
                *final(self),
                reply,
            ),
    ;

    fn observe_roles(&mut self) -> (reply: Result<Self::Reply, Self::Error>)
        ensures
            Self::answers_operation(
                *old(self),
                OrdinaryHandler::ObserveRoles,
                Operation::Observe(ObserveOperation::Roles),
                *final(self),
                reply,
            ),
    ;

    fn observe_lanes(&mut self) -> (reply: Result<Self::Reply, Self::Error>)
        ensures
            Self::answers_operation(
                *old(self),
                OrdinaryHandler::ObserveLanes,
                Operation::Observe(ObserveOperation::Lanes),
                *final(self),
                reply,
            ),
    ;

    fn submit_activity(&mut self, payload: ActivitySubmission) -> (reply: Result<
        Self::Reply,
        Self::Error,
    >)
        ensures
            Self::answers_operation(
                *old(self),
                OrdinaryHandler::SubmitActivity,
                Operation::Submit(SubmitOperation::Activity(payload)),
                *final(self),
                reply,
            ),
    ;

    fn query_activity(&mut self, payload: ActivityQuery) -> (reply: Result<
        Self::Reply,
        Self::Error,
    >)
        ensures
            Self::answers_operation(
                *old(self),
                OrdinaryHandler::QueryActivity,
                Operation::Query(QueryOperation::Activity(payload)),
                *final(self),
                reply,
            ),
    ;

    fn watch_operations(&mut self, payload: ObservationSubscription) -> (reply: Result<
        Self::Reply,
        Self::Error,
    >)
        ensures
            Self::answers_operation(
                *old(self),
                OrdinaryHandler::WatchOperations,
                Operation::Watch(WatchOperation::Operations(payload)),
                *final(self),
                reply,
            ),
    ;

    fn unwatch_token(&mut self, payload: ObservationToken) -> (reply: Result<
        Self::Reply,
        Self::Error,
    >)
        ensures
            Self::answers_operation(
                *old(self),
                OrdinaryHandler::UnwatchToken,
                Operation::Unwatch(UnwatchOperation::Token(payload)),
                *final(self),
                reply,
            ),
    ;

    /// Routes the operation to the method of its arm and gives back that
    /// method's reply.
    fn dispatch(&mut self, operation: Operation) -> (reply: Result<Self::Reply, Self::Error>)
        ensures
            Self::answers_operation(
                *old(self),
                ordinary_handler(operation),
                operation,
                *final(self),
                reply,
            ),
    {
        match operation {
            Operation::Claim(ClaimOperation::Role(payload)) => self.claim_role(payload),
            Operation::Release(ReleaseOperation::Role(payload)) => self.release_role(payload),
            Operation::Handoff(HandoffOperation::Role(payload)) => self.handoff_role(payload),
            Operation::Observe(ObserveOperation::Roles) => self.observe_roles(),
            Operation::Observe(ObserveOperation::Lanes) => self.observe_lanes(),
            Operation::Submit(SubmitOperation::Activity(payload)) => self.submit_activity(payload),
            Operation::Query(QueryOperation::Activity(payload)) => self.query_activity(payload),
            Operation::Watch(WatchOperation::Operations(payload)) => self.watch_operations(payload),
            Operation::Unwatch(UnwatchOperation::Token(payload)) => self.unwatch_token(payload),
        }
    }
}

/// The daemon's seam on the owner leg: one method per (root, endpoint)
/// pair, and the dispatch that routes an owner operation to its method.
///
/// As on the ordinary leg, an implementation states through
/// `answers_owner_operation` how each method answers, tagged with its
/// `OwnerHandler`; `dispatch` answers with the tag of
/// `owner_handler(operation)`.
pub trait OwnerDispatch: Sized {
    type Error;

    type Reply;

    /// The handler, in state `before`, answers `operation` with `reply` and
    /// is left in state `after`, when `handler` is the method
    /// that answered. An implementation in ordinary Rust cannot define a
    /// spec function, so it keeps this default, which holds of every
    /// answer; a verified implementation states its own.
    closed spec fn answers_owner_operation(
        before: Self,
        handler: OwnerHandler,
        operation: OwnerOperation,
        after: Self,
        reply: Result<Self::Reply, Self::Error>,
    ) -> bool {
        true
    }

    fn create_role(&mut self, payload: CreateRoleOrder) -> (reply: Result<
        Self::Reply,
        Self::Error,
    >)
        ensures
            Self::answers_owner_operation(
                *old(self),
                OwnerHandler::CreateRole,
                OwnerOperation::Create(CreateOperation::Role(payload)),
                *final(self),
                reply,
            ),
    ;

    fn retire_role(&mut self, payload: RetireRoleOrder) -> (reply: Result<
        Self::Reply,
        Self::Error,
    >)
        ensures
            Self::answers_owner_operation(
                *old(self),
                OwnerHandler::RetireRole,
                OwnerOperation::Retire(RetireOperation::Role(payload)),
                *final(self),
                reply,
            ),
    ;

    fn retire_lane(&mut self, payload: LaneIdentifier) -> (reply: Result<
        Self::Reply,
        Self::Error,
    >)
        ensures
            Self::answers_owner_operation(
                *old(self),
                OwnerHandler::RetireLane,
                OwnerOperation::Retire(RetireOperation::Lane(payload)),
                *final(self),
                reply,
            ),
    ;

    fn refresh_repository_index(&mut self, payload: RefreshRepositoryIndexOrder) -> (reply: Result<
        Self::Reply,
        Self::Error,
    >)
        ensures
            Self::answers_owner_operation(
                *old(self),
                OwnerHandler::RefreshRepositoryIndex,
                OwnerOperation::Refresh(RefreshOperation::RepositoryIndex(payload)),
                *final(self),
                reply,
            ),
    ;

    fn register_lane(&mut self, payload: LaneRegistrationRequest) -> (reply: Result<
        Self::Reply,
        Self::Error,
    >)
        ensures
            Self::answers_owner_operation(
                *old(self),
                OwnerHandler::RegisterLane,
                OwnerOperation::Register(RegisterOperation::Lane(payload)),
                *final(self),
                reply,
            ),
    ;

    fn set_lane_authority(&mut self, payload: LaneAuthorityChange) -> (reply: Result<
        Self::Reply,
        Self::Error,
    >)
        ensures
            Self::answers_owner_operation(
                *old(self),
                OwnerHandler::SetLaneAuthority,
                OwnerOperation::SetAuthority(SetAuthorityOperation::Lane(payload)),
                *final(self),
                reply,
            ),
    ;

    /// Routes the owner operation to the method of its arm and gives back
    /// that method's reply.
    fn dispatch(&mut self, operation: OwnerOperation) -> (reply: Result<Self::Reply, Self::Error>)
        ensures
            Self::answers_owner_operation(
                *old(self),
                owner_handler(operation),
                operation,
                *final(self),
                reply,
            ),
    {
        match operation {
            OwnerOperation::Create(CreateOperation::Role(payload)) => self.create_role(payload),
            OwnerOperation::Retire(RetireOperation::Role(payload)) => self.retire_role(payload),
            OwnerOperation::Retire(RetireOperation::Lane(payload)) => self.retire_lane(payload),
            OwnerOperation::Refresh(RefreshOperation::RepositoryIndex(payload)) => {
                self.refresh_repository_index(payload)
            },
            OwnerOperation::Register(RegisterOperation::Lane(payload)) => {
                self.register_lane(payload)
            },
            OwnerOperation::SetAuthority(SetAuthorityOperation::Lane(payload)) => {
                self.set_lane_authority(payload)
            },
        }
    }
}

/// Lowers an ordinary operation to its payloadless classification.
pub fn project_to_sema(operation: &Operation) -> (class: SemaOperation)
    ensures
        class == spec_project_to_sema(*operation),
{
    match operation {
        Operation::Claim(_) => SemaOperation::Assert,
        Operation::Release(_) => SemaOperation::Retract,
        Operation::Handoff(_) => SemaOperation::Mutate,
        Operation::Observe(_) => SemaOperation::Match,
        Operation::Submit(_) => SemaOperation::Assert,
        Operation::Query(_) => SemaOperation::Match,
        Operation::Watch(_) => SemaOperation::Subscribe,
        Operation::Unwatch(_) => SemaOperation::Retract,
    }
}

/// Lowers an owner operation to its payloadless classification.
pub fn project_owner_to_sema(operation: &OwnerOperation) -> (class: SemaOperation)
    ensures
        class == spec_project_owner_to_sema(*operation),
{
    match operation {
        OwnerOperation::Create(_) => SemaOperation::Assert,
        OwnerOperation::Retire(_) => SemaOperation::Retract,
        OwnerOperation::Refresh(_) => SemaOperation::Mutate,
        OwnerOperation::Register(_) => SemaOperation::Assert,
        OwnerOperation::SetAuthority(_) => SemaOperation::Mutate,
    }
}

impl SemaTable {
    /// The name of the table in the daemon's store.
    pub fn name(self) -> (name: &'static str)
        ensures
            name@ == table_name(self),
    {
        match self {
            Self::Roles => "roles",
            Self::Claims => "claims",
            Self::Activities => "activities",
            Self::Repositories => "repositories",
            Self::LaneRegistry => "lane_registry",
            Self::Divergences => "divergences",
        }
    }
}

} // verus!
