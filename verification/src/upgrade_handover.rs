//! No-downtime upgrade: the drain-with-mirror handover protocol of the
//! orchestrate daemon.
//!
//! The current-version daemon walks `Active → Draining → PostFlip →
//! Retired`; a drain may be aborted back to `Active`. The next-version
//! daemon walks `Standby → Hydrating → Catching → Active`. Every other
//! (state, event) pair is a typed error that names the state and the
//! event. The predicates say what each state serves: only an `Active`
//! current daemon accepts new claims, so a draining daemon never grants
//! a claim that the next daemon could grant too.
use crate::schema_emitted::SemaTable;
use vstd::prelude::*;

verus! {

/// State of the current-version orchestrate daemon during a no-downtime
/// upgrade.
#[derive(Debug, Clone, Copy, PartialEq, Eq, Hash, Structural)]
pub enum CurrentDaemonState {
    Active,
    Draining,
    PostFlip,
    Retired,
}

/// State of the next-version orchestrate daemon during a no-downtime
/// upgrade.
#[derive(Debug, Clone, Copy, PartialEq, Eq, Hash, Structural)]
pub enum NextDaemonState {
    Standby,
    Hydrating,
    Catching,
    Active,
}

#[derive(Debug, Clone, Copy, PartialEq, Eq, Hash, Structural)]
pub enum CurrentDaemonEvent {
    BeginDrain,
    HandoverAccepted,
    HandoverAborted,
    LastConnectionClosed,
}

#[derive(Debug, Clone, Copy, PartialEq, Eq, Hash, Structural)]
pub enum NextDaemonEvent {
    HandoverBegun,
    HydrationComplete,
    CurrentRetired,
}

#[allow(inconsistent_fields)]
#[derive(Debug, Clone, PartialEq, Eq, Structural)]
pub enum HandoverError {
    InvalidTransition { from: CurrentDaemonState, event: CurrentDaemonEvent },
    InvalidNextTransition { from: NextDaemonState, event: NextDaemonEvent },
}

/// The successor of a current-daemon state under an event, where the
/// protocol defines one.
pub open spec fn current_successor(
    state: CurrentDaemonState,
    event: CurrentDaemonEvent,
) -> Option<CurrentDaemonState> {
    match (state, event) {
        (CurrentDaemonState::Active, CurrentDaemonEvent::BeginDrain) => Some(
            CurrentDaemonState::Draining,
        ),
        (CurrentDaemonState::Draining, CurrentDaemonEvent::HandoverAccepted) => Some(
            CurrentDaemonState::PostFlip,
        ),
        (CurrentDaemonState::Draining, CurrentDaemonEvent::HandoverAborted) => Some(
            CurrentDaemonState::Active,
        ),
        (CurrentDaemonState::PostFlip, CurrentDaemonEvent::LastConnectionClosed) => Some(
            CurrentDaemonState::Retired,
        ),
        _ => None,
    }
}

/// What `CurrentDaemonState::transition` answers.
pub open spec fn current_transition(
    state: CurrentDaemonState,
    event: CurrentDaemonEvent,
) -> Result<CurrentDaemonState, HandoverError> {
    match current_successor(state, event) {
        Some(next) => Ok(next),
        None => Err(HandoverError::InvalidTransition { from: state, event }),
    }
}

/// The successor of a next-daemon state under an event, where the
/// protocol defines one.
pub open spec fn next_successor(state: NextDaemonState, event: NextDaemonEvent) -> Option<
    NextDaemonState,
> {
    match (state, event) {
        (NextDaemonState::Standby, NextDaemonEvent::HandoverBegun) => Some(
            NextDaemonState::Hydrating,
        ),
        (NextDaemonState::Hydrating, NextDaemonEvent::HydrationComplete) => Some(
            NextDaemonState::Catching,
        ),
        (NextDaemonState::Catching, NextDaemonEvent::CurrentRetired) => Some(
            NextDaemonState::Active,
        ),
        _ => None,
    }
}

/// What `NextDaemonState::transition` answers.
pub open spec fn next_transition(state: NextDaemonState, event: NextDaemonEvent) -> Result<
    NextDaemonState,
    HandoverError,
> {
    match next_successor(state, event) {
        Some(next) => Ok(next),
        None => Err(HandoverError::InvalidNextTransition { from: state, event }),
    }
}

pub open spec fn current_accepts_new_claims(state: CurrentDaemonState) -> bool {
    state is Active
}

pub open spec fn current_accepts_existing_claim_mutations(state: CurrentDaemonState) -> bool {
    state is Active || state is Draining || state is PostFlip
}

pub open spec fn current_projects_lock_files(state: CurrentDaemonState) -> bool {
    state is Active || state is Draining
}

pub open spec fn next_accepts_ordinary_traffic(state: NextDaemonState) -> bool {
    state is Catching || state is Active
}

pub open spec fn next_applies_mirror_writes(state: NextDaemonState) -> bool {
    state is Catching
}

/// The current daemon's state after a sequence of events, or the first
/// refusal.
pub open spec fn current_run(state: CurrentDaemonState, events: Seq<CurrentDaemonEvent>) -> Result<
    CurrentDaemonState,
    HandoverError,
>
    decreases events.len(),
{
    if events.len() == 0 {
        Ok(state)
    } else {
        match current_transition(state, events[0]) {
            Ok(next) => current_run(next, events.drop_first()),
            Err(error) => Err(error),
        }
    }
}

/// The next daemon's state after a sequence of events, or the first
/// refusal.
pub open spec fn next_run(state: NextDaemonState, events: Seq<NextDaemonEvent>) -> Result<
    NextDaemonState,
    HandoverError,
>
    decreases events.len(),
{
    if events.len() == 0 {
        Ok(state)
    } else {
        match next_transition(state, events[0]) {
            Ok(next) => next_run(next, events.drop_first()),
            Err(error) => Err(error),
        }
    }
}

/// The progress of the current daemon through its protocol.
pub open spec fn current_rank(state: CurrentDaemonState) -> nat {
    match state {
        CurrentDaemonState::Active => 0,
        CurrentDaemonState::Draining => 1,
        CurrentDaemonState::PostFlip => 2,
        CurrentDaemonState::Retired => 3,
    }
}

/// The progress of the next daemon through its protocol.
pub open spec fn next_rank(state: NextDaemonState) -> nat {
    match state {
        NextDaemonState::Standby => 0,
        NextDaemonState::Hydrating => 1,
        NextDaemonState::Catching => 2,
        NextDaemonState::Active => 3,
    }
}

/// A refused transition names the state and the event it was refused
/// for; an accepted one moves the current daemon one step forward, but
/// for an aborted drain, which goes from `Draining` back to `Active`.
pub proof fn lemma_current_transition_steps(state: CurrentDaemonState, event: CurrentDaemonEvent)
    ensures
        current_transition(state, event) is Err ==> current_transition(state, event) == Err::<
            CurrentDaemonState,
            HandoverError,
        >(HandoverError::InvalidTransition { from: state, event }),
        current_transition(state, event) matches Ok(next) ==> (current_rank(next) == current_rank(
            state,
        ) + 1 || (state == CurrentDaemonState::Draining && event
            == CurrentDaemonEvent::HandoverAborted && next == CurrentDaemonState::Active)),
{
}

/// An accepted transition of the next daemon moves it exactly one step
/// forward, so it never returns to a state it has left.
pub proof fn lemma_next_transition_steps(state: NextDaemonState, event: NextDaemonEvent)
    ensures
        next_transition(state, event) is Err ==> next_transition(state, event) == Err::<
            NextDaemonState,
            HandoverError,
        >(HandoverError::InvalidNextTransition { from: state, event }),
        next_transition(state, event) matches Ok(next) ==> next_rank(next) == next_rank(state) + 1,
{
}

/// A retired current daemon refuses every event, and so does a next
/// daemon that has become the stand-alone active daemon.
pub proof fn lemma_final_states_refuse_every_event(
    current_event: CurrentDaemonEvent,
    next_event: NextDaemonEvent,
)
    ensures
        current_transition(CurrentDaemonState::Retired, current_event) is Err,
        next_transition(NextDaemonState::Active, next_event) is Err,
{
}

/// Once the current daemon has stopped projecting lock files it never
/// projects them again, and once it refuses mutations of existing claims
/// it never accepts them again.
pub proof fn lemma_current_never_resumes(state: CurrentDaemonState, event: CurrentDaemonEvent)
    ensures
        current_transition(state, event) matches Ok(next) ==> (!current_projects_lock_files(state)
            ==> !current_projects_lock_files(next)),
        current_transition(state, event) matches Ok(next) ==> (
        !current_accepts_existing_claim_mutations(state)
            ==> !current_accepts_existing_claim_mutations(next)),
{
}

/// Once the next daemon serves ordinary traffic it keeps serving it, and
/// once it has stopped applying mirrored writes it never applies them
/// again.
pub proof fn lemma_next_never_withdraws(state: NextDaemonState, event: NextDaemonEvent)
    ensures
        next_transition(state, event) matches Ok(next) ==> (next_accepts_ordinary_traffic(state)
            ==> next_accepts_ordinary_traffic(next)),
        next_transition(state, event) matches Ok(next) ==> ((next_rank(state) >= 2
            && !next_applies_mirror_writes(state)) ==> !next_applies_mirror_writes(next)),
{
}

/// A current daemon that has not yet flipped retires only through an
/// accepted handover: every run from `Active` or `Draining` that ends in
/// `Retired` holds a `HandoverAccepted` event.
pub proof fn lemma_retirement_needs_accepted_handover(
    state: CurrentDaemonState,
    events: Seq<CurrentDaemonEvent>,
)
    requires
        state == CurrentDaemonState::Active || state == CurrentDaemonState::Draining,
        current_run(state, events) == Ok::<CurrentDaemonState, HandoverError>(
            CurrentDaemonState::Retired,
        ),
    ensures
        events.contains(CurrentDaemonEvent::HandoverAccepted),
    decreases events.len(),
{
    let event = events[0];
    if event == CurrentDaemonEvent::HandoverAccepted {
        assert(events[0] == CurrentDaemonEvent::HandoverAccepted);
    } else {
        let next = current_successor(state, event)->0;
        lemma_retirement_needs_accepted_handover(next, events.drop_first());
        let i = choose|i: int|
            0 <= i < events.drop_first().len() && events.drop_first()[i]
                == CurrentDaemonEvent::HandoverAccepted;
        assert(events[i + 1] == CurrentDaemonEvent::HandoverAccepted);
    }
}

/// A next daemon serves ordinary traffic only after hydration: every run
/// from `Standby` or `Hydrating` that ends in a state serving ordinary
/// traffic holds a `HydrationComplete` event.
pub proof fn lemma_traffic_needs_hydration(state: NextDaemonState, events: Seq<NextDaemonEvent>)
    requires
        state == NextDaemonState::Standby || state == NextDaemonState::Hydrating,
        run_serves_traffic(next_run(state, events)),
    ensures
        events.contains(NextDaemonEvent::HydrationComplete),
    decreases events.len(),
{
    if events.len() == 0 {
    } else {
        let event = events[0];
        if event == NextDaemonEvent::HydrationComplete {
            assert(events[0] == NextDaemonEvent::HydrationComplete);
        } else {
            let next = next_successor(state, event)->0;
            lemma_traffic_needs_hydration(next, events.drop_first());
            let i = choose|i: int|
                0 <= i < events.drop_first().len() && events.drop_first()[i]
                    == NextDaemonEvent::HydrationComplete;
            assert(events[i + 1] == NextDaemonEvent::HydrationComplete);
        }
    }
}

/// A run that ended in a state serving ordinary traffic.
pub open spec fn run_serves_traffic(run: Result<NextDaemonState, HandoverError>) -> bool {
    run matches Ok(state) && next_accepts_ordinary_traffic(state)
}

/// Only an `Active` current daemon accepts new claims: it is exactly the
/// state from which a drain can begin, and a daemon that has begun to
/// drain, flipped or retired accepts none.
pub proof fn lemma_new_claims_only_while_active(state: CurrentDaemonState)
    ensures
        current_accepts_new_claims(state) <==> state == CurrentDaemonState::Active,
        current_accepts_new_claims(state) <==> current_transition(
            state,
            CurrentDaemonEvent::BeginDrain,
        ) is Ok,
        current_accepts_new_claims(state) ==> current_projects_lock_files(state)
            && current_accepts_existing_claim_mutations(state),
{
}

/// Once the handover has been accepted, no run of events brings back the
/// acceptance of new claims or the projection of lock files: there is no
/// window in which the flipped daemon grants a claim.
pub proof fn lemma_no_new_claims_after_flip(
    state: CurrentDaemonState,
    events: Seq<CurrentDaemonEvent>,
)
    requires
        state == CurrentDaemonState::PostFlip || state == CurrentDaemonState::Retired,
    ensures
        current_run(state, events) matches Ok(end) ==> !current_accepts_new_claims(end)
            && !current_projects_lock_files(end),
    decreases events.len(),
{
    if events.len() > 0 {
        if let Ok(next) = current_transition(state, events[0]) {
            lemma_no_new_claims_after_flip(next, events.drop_first());
        }
    }
}

/// A current daemon serves mutations of existing claims exactly until it
/// retires, and projects lock files exactly until the handover is
/// accepted.
pub proof fn lemma_current_serves_until_retired(state: CurrentDaemonState)
    ensures
        current_accepts_existing_claim_mutations(state) <==> state
            != CurrentDaemonState::Retired,
        !current_accepts_existing_claim_mutations(state) ==> forall|event: CurrentDaemonEvent|
            current_transition(state, event) is Err,
        current_projects_lock_files(state) <==> (state == CurrentDaemonState::Active || state
            == CurrentDaemonState::Draining),
        current_projects_lock_files(state) ==> current_accepts_existing_claim_mutations(state),
{
}

/// The next daemon applies mirrored writes exactly while `Catching`: only
/// after hydration and only until the current daemon retires, which is
/// the one event a catching daemon accepts. A daemon that applies them
/// also serves ordinary traffic.
pub proof fn lemma_mirror_writes_only_while_catching(state: NextDaemonState)
    ensures
        next_applies_mirror_writes(state) <==> state == NextDaemonState::Catching,
        next_applies_mirror_writes(state) <==> next_transition(
            state,
            NextDaemonEvent::CurrentRetired,
        ) is Ok,
        next_applies_mirror_writes(state) ==> next_accepts_ordinary_traffic(state),
        next_accepts_ordinary_traffic(state) <==> (state == NextDaemonState::Catching || state
            == NextDaemonState::Active),
{
}

/// A next daemon that has not finished hydrating applies mirrored writes
/// only after a `HydrationComplete` event: every run from `Standby` or
/// `Hydrating` that ends applying them holds one.
pub proof fn lemma_mirror_writes_need_hydration(
    state: NextDaemonState,
    events: Seq<NextDaemonEvent>,
)
    requires
        state == NextDaemonState::Standby || state == NextDaemonState::Hydrating,
        next_run(state, events) matches Ok(end) && next_applies_mirror_writes(end),
    ensures
        events.contains(NextDaemonEvent::HydrationComplete),
{
    lemma_traffic_needs_hydration(state, events);
}

/// The walks of the protocol: a current daemon goes from `Active` through
/// `Draining` and `PostFlip` to `Retired`, from any point of that path by
/// the rest of its events, and an aborted drain returns to `Active`; a
/// next daemon goes from `Standby` through `Hydrating` and `Catching` to
/// `Active` the same way.
pub proof fn lemma_protocol_walks()
    ensures
        current_run(
            CurrentDaemonState::Active,
            seq![
                CurrentDaemonEvent::BeginDrain,
                CurrentDaemonEvent::HandoverAccepted,
                CurrentDaemonEvent::LastConnectionClosed,
            ],
        ) == Ok::<CurrentDaemonState, HandoverError>(CurrentDaemonState::Retired),
        current_run(
            CurrentDaemonState::Draining,
            seq![CurrentDaemonEvent::HandoverAccepted, CurrentDaemonEvent::LastConnectionClosed],
        ) == Ok::<CurrentDaemonState, HandoverError>(CurrentDaemonState::Retired),
        current_run(CurrentDaemonState::PostFlip, seq![CurrentDaemonEvent::LastConnectionClosed])
            == Ok::<CurrentDaemonState, HandoverError>(CurrentDaemonState::Retired),
        current_run(
            CurrentDaemonState::Active,
            seq![CurrentDaemonEvent::BeginDrain, CurrentDaemonEvent::HandoverAborted],
        ) == Ok::<CurrentDaemonState, HandoverError>(CurrentDaemonState::Active),
        next_run(
            NextDaemonState::Standby,
            seq![
                NextDaemonEvent::HandoverBegun,
                NextDaemonEvent::HydrationComplete,
                NextDaemonEvent::CurrentRetired,
            ],
        ) == Ok::<NextDaemonState, HandoverError>(NextDaemonState::Active),
        next_run(
            NextDaemonState::Hydrating,
            seq![NextDaemonEvent::HydrationComplete, NextDaemonEvent::CurrentRetired],
        ) == Ok::<NextDaemonState, HandoverError>(NextDaemonState::Active),
        next_run(NextDaemonState::Catching, seq![NextDaemonEvent::CurrentRetired]) == Ok::<
            NextDaemonState,
            HandoverError,
        >(NextDaemonState::Active),
{
    reveal_with_fuel(current_run, 4);
    reveal_with_fuel(next_run, 4);
    let c3 = seq![
        CurrentDaemonEvent::BeginDrain,
        CurrentDaemonEvent::HandoverAccepted,
        CurrentDaemonEvent::LastConnectionClosed,
    ];
    assert(c3.drop_first() =~= seq![
        CurrentDaemonEvent::HandoverAccepted,
        CurrentDaemonEvent::LastConnectionClosed,
    ]);
    assert(c3.drop_first().drop_first() =~= seq![CurrentDaemonEvent::LastConnectionClosed]);
    let c2 = seq![CurrentDaemonEvent::HandoverAccepted, CurrentDaemonEvent::LastConnectionClosed];
    assert(c2.drop_first() =~= seq![CurrentDaemonEvent::LastConnectionClosed]);
    assert(seq![CurrentDaemonEvent::LastConnectionClosed].drop_first() =~= Seq::<
        CurrentDaemonEvent,
    >::empty());
    let a2 = seq![CurrentDaemonEvent::BeginDrain, CurrentDaemonEvent::HandoverAborted];
    assert(a2.drop_first() =~= seq![CurrentDaemonEvent::HandoverAborted]);
    assert(seq![CurrentDaemonEvent::HandoverAborted].drop_first() =~= Seq::<
        CurrentDaemonEvent,
    >::empty());
    let n3 = seq![
        NextDaemonEvent::HandoverBegun,
        NextDaemonEvent::HydrationComplete,
        NextDaemonEvent::CurrentRetired,
    ];
    assert(n3.drop_first() =~= seq![
        NextDaemonEvent::HydrationComplete,
        NextDaemonEvent::CurrentRetired,
    ]);
    assert(n3.drop_first().drop_first() =~= seq![NextDaemonEvent::CurrentRetired]);
    let n2 = seq![NextDaemonEvent::HydrationComplete, NextDaemonEvent::CurrentRetired];
    assert(n2.drop_first() =~= seq![NextDaemonEvent::CurrentRetired]);
    assert(seq![NextDaemonEvent::CurrentRetired].drop_first() =~= Seq::<
        NextDaemonEvent,
    >::empty());
}

impl CurrentDaemonState {
    pub fn transition(self, event: CurrentDaemonEvent) -> (res: Result<Self, HandoverError>)
        ensures
            res == current_transition(self, event),
    {
        match (self, event) {
            (Self::Active, CurrentDaemonEvent::BeginDrain) => Ok(Self::Draining),
            (Self::Draining, CurrentDaemonEvent::HandoverAccepted) => Ok(Self::PostFlip),
            (Self::Draining, CurrentDaemonEvent::HandoverAborted) => Ok(Self::Active),
            (Self::PostFlip, CurrentDaemonEvent::LastConnectionClosed) => Ok(Self::Retired),
            (state, event) => Err(HandoverError::InvalidTransition { from: state, event }),
        }
    }

    pub fn accepts_new_claims(self) -> (res: bool)
        ensures
            res == current_accepts_new_claims(self),
    {
        matches!(self, Self::Active)
    }

    pub fn accepts_existing_claim_mutations(self) -> (res: bool)
        ensures
            res == current_accepts_existing_claim_mutations(self),
    {
        matches!(self, Self::Active | Self::Draining | Self::PostFlip)
    }

    pub fn projects_lock_files(self) -> (res: bool)
        ensures
            res == current_projects_lock_files(self),
    {
        matches!(self, Self::Active | Self::Draining)
    }
}

impl NextDaemonState {
    pub fn transition(self, event: NextDaemonEvent) -> (res: Result<Self, HandoverError>)
        ensures
            res == next_transition(self, event),
    {
        match (self, event) {
            (Self::Standby, NextDaemonEvent::HandoverBegun) => Ok(Self::Hydrating),
            (Self::Hydrating, NextDaemonEvent::HydrationComplete) => Ok(Self::Catching),
            (Self::Catching, NextDaemonEvent::CurrentRetired) => Ok(Self::Active),
            (state, event) => Err(HandoverError::InvalidNextTransition { from: state, event }),
        }
    }

    pub fn accepts_ordinary_traffic(self) -> (res: bool)
        ensures
            res == next_accepts_ordinary_traffic(self),
    {
        matches!(self, Self::Catching | Self::Active)
    }

    pub fn applies_mirror_writes(self) -> (res: bool)
        ensures
            res == next_applies_mirror_writes(self),
    {
        matches!(self, Self::Catching)
    }
}

/// The commit marker up to which the next daemon has caught up.
#[derive(Debug, Clone, PartialEq, Eq)]
pub struct CommitMarker(pub u64);

/// The current daemon's reply to a request for its commit marker.
#[derive(Debug, Clone, PartialEq, Eq)]
pub struct HandoverMarkerReply {
    pub marker: CommitMarker,
    pub table_snapshot_reference: TableSnapshotReference,
}

/// Opaque reference to a snapshot of the current daemon's tables, through
/// which the next daemon copies state.
#[derive(Debug, Clone, PartialEq, Eq)]
pub struct TableSnapshotReference {
    pub savepoint: u64,
}

/// One write that the current daemon accepted and mirrors to the next.
#[derive(Debug, Clone, PartialEq, Eq)]
pub struct MirrorWritePayload {
    pub commit_marker: CommitMarker,
    pub table: SemaTable,
    pub record_bytes: Vec<u8>,
}

/// Latency targets of the handover, in milliseconds. They are direction,
/// not pinned numbers: the implementation measures drain times against
/// them.
#[derive(Debug, Clone, Copy, PartialEq, Eq)]
pub struct HandoverLatencyTargets {
    /// Longest time from the write pause to the selector flip, bounded by
    /// the size of the in-flight write queue.
    pub write_pause_window: u64,
    /// Longest wall-clock time of hydration, bounded by the table size.
    pub hydration_timeout: u64,
    /// Soft target for the whole drain window; past it the operator
    /// closes lingering connections.
    pub drain_soft_target: u64,
}

impl HandoverLatencyTargets {
    /// Half a second of write pause, thirty seconds of hydration, five
    /// minutes of drain.
    pub fn default_targets() -> (targets: Self)
        ensures
            targets.write_pause_window == 500,
            targets.hydration_timeout == 30_000,
            targets.drain_soft_target == 300_000,
    {
        Self { write_pause_window: 500, hydration_timeout: 30_000, drain_soft_target: 300_000 }
    }
}

/// What the daemon implements to project a record from the current
/// version's shape to the next version's during hydration.
pub trait OrchestrateVersionProjection {
    type CurrentClaim;

    type NextClaim;

    type CurrentActivity;

    type NextActivity;

    type CurrentRole;

    type NextRole;

    type Error;

    fn project_claim(&self, source: Self::CurrentClaim) -> Result<Self::NextClaim, Self::Error>;

    fn project_activity(&self, source: Self::CurrentActivity) -> Result<
        Self::NextActivity,
        Self::Error,
    >;

    fn project_role(&self, source: Self::CurrentRole) -> Result<Self::NextRole, Self::Error>;
}

} // verus!
