use signal_orchestrate::schema_emitted::{
    project_owner_to_sema, project_to_sema, ClaimOperation, CreateOperation, CreateRoleOrder,
    HandoffOperation, LaneAuthorityChange, LaneRegistrationRequest, ObserveOperation, Operation,
    OperationRoot, OrdinaryDispatch, OwnerDispatch, OwnerOperation, QueryOperation,
    RefreshOperation, RefreshRepositoryIndexOrder, RegisterOperation, ReleaseOperation,
    RetireOperation, RetireRoleOrder, SemaOperation, SemaTable, SetAuthorityOperation,
    ShortHeader, SubmitOperation, UnwatchOperation, WatchOperation,
};
use signal_orchestrate::{
    ActivityQuery, ActivitySubmission, HarnessKind, LaneAuthority, LaneIdentifier,
    ObservationSubscription, ObservationToken, Role, RoleClaim, RoleHandoff, RoleIdentifier,
    RoleRelease, ScopeReason, ScopeReference,
};

fn designer() -> RoleIdentifier {
    RoleIdentifier::from_wire_token("designer").unwrap()
}

fn reason() -> ScopeReason {
    ScopeReason::from_text("port pilot").unwrap()
}

fn claim() -> Operation {
    Operation::Claim(ClaimOperation::Role(RoleClaim {
        role: designer(),
        scopes: Vec::new(),
        reason: reason(),
    }))
}

fn every_ordinary_operation() -> Vec<Operation> {
    vec![
        claim(),
        Operation::Release(ReleaseOperation::Role(RoleRelease { role: designer() })),
        Operation::Handoff(HandoffOperation::Role(RoleHandoff {
            from: designer(),
            to: RoleIdentifier::from_wire_token("operator").unwrap(),
            reason: reason(),
        })),
        Operation::Observe(ObserveOperation::Roles),
        Operation::Observe(ObserveOperation::Lanes),
        Operation::Submit(SubmitOperation::Activity(ActivitySubmission {
            role: designer(),
            scope: ScopeReference::Path("/git/signal-orchestrate".into()),
            reason: reason(),
        })),
        Operation::Query(QueryOperation::Activity(ActivityQuery {
            role: None,
            limit: 10,
        })),
        Operation::Watch(WatchOperation::Operations(ObservationSubscription {
            include_operations: true,
            include_sema_effects: false,
        })),
        Operation::Unwatch(UnwatchOperation::Token(ObservationToken::new(1))),
    ]
}

fn every_owner_operation() -> Vec<OwnerOperation> {
    vec![
        OwnerOperation::Create(CreateOperation::Role(CreateRoleOrder {
            role: designer(),
            harness: HarnessKind::Codex,
        })),
        OwnerOperation::Retire(RetireOperation::Role(RetireRoleOrder { role: designer() })),
        OwnerOperation::Retire(RetireOperation::Lane(
            LaneIdentifier::from_wire_token("operator").unwrap(),
        )),
        OwnerOperation::Refresh(RefreshOperation::RepositoryIndex(RefreshRepositoryIndexOrder)),
        OwnerOperation::Register(RegisterOperation::Lane(LaneRegistrationRequest {
            role: Role { identifier: designer() },
            authority: LaneAuthority::Support,
        })),
        OwnerOperation::SetAuthority(SetAuthorityOperation::Lane(LaneAuthorityChange {
            lane: LaneIdentifier::from_wire_token("operator").unwrap(),
            authority: LaneAuthority::Structure,
        })),
    ]
}

#[test]
fn short_headers_assign_consecutive_root_slots() {
    let claim = claim();
    assert_eq!(claim.short_header(), ShortHeader::new(0, 0));

    let observe_lanes = Operation::Observe(ObserveOperation::Lanes);
    assert_eq!(observe_lanes.short_header(), ShortHeader::new(3, 1));

    let unwatch = Operation::Unwatch(UnwatchOperation::Token(ObservationToken::new(7)));
    assert_eq!(unwatch.short_header(), ShortHeader::new(7, 0));

    let retire_lane = OwnerOperation::Retire(RetireOperation::Lane(
        LaneIdentifier::from_wire_token("operator").unwrap(),
    ));
    assert_eq!(retire_lane.short_header(), ShortHeader::new(1, 1));
}

#[test]
fn sema_projection_classifies_each_operation_root() {
    let claim = claim();
    assert_eq!(project_to_sema(&claim), SemaOperation::Assert);

    let watch = Operation::Watch(WatchOperation::Operations(ObservationSubscription {
        include_operations: true,
        include_sema_effects: true,
    }));
    assert_eq!(project_to_sema(&watch), SemaOperation::Subscribe);

    let retire_lane = OwnerOperation::Retire(RetireOperation::Lane(
        LaneIdentifier::from_wire_token("operator").unwrap(),
    ));
    assert_eq!(project_owner_to_sema(&retire_lane), SemaOperation::Retract);
}

#[test]
fn dispatch_trait_routes_each_endpoint_to_its_method() {
    struct CountingDispatch {
        counts: [u32; 9],
    }
    impl OrdinaryDispatch for CountingDispatch {
        type Error = ();
        type Reply = u32;

        fn claim_role(&mut self, _payload: RoleClaim) -> Result<Self::Reply, Self::Error> {
            self.counts[0] += 1;
            Ok(self.counts[0])
        }
        fn release_role(&mut self, _payload: RoleRelease) -> Result<Self::Reply, Self::Error> {
            self.counts[1] += 1;
            Ok(self.counts[1])
        }
        fn handoff_role(&mut self, _payload: RoleHandoff) -> Result<Self::Reply, Self::Error> {
            self.counts[2] += 1;
            Ok(self.counts[2])
        }
        fn observe_roles(&mut self) -> Result<Self::Reply, Self::Error> {
            self.counts[3] += 1;
            Ok(self.counts[3])
        }
        fn observe_lanes(&mut self) -> Result<Self::Reply, Self::Error> {
            self.counts[4] += 1;
            Ok(self.counts[4])
        }
        fn submit_activity(
            &mut self,
            _payload: ActivitySubmission,
        ) -> Result<Self::Reply, Self::Error> {
            self.counts[5] += 1;
            Ok(self.counts[5])
        }
        fn query_activity(&mut self, _payload: ActivityQuery) -> Result<Self::Reply, Self::Error> {
            self.counts[6] += 1;
            Ok(self.counts[6])
        }
        fn watch_operations(
            &mut self,
            _payload: ObservationSubscription,
        ) -> Result<Self::Reply, Self::Error> {
            self.counts[7] += 1;
            Ok(self.counts[7])
        }
        fn unwatch_token(&mut self, _payload: ObservationToken) -> Result<Self::Reply, Self::Error> {
            self.counts[8] += 1;
            Ok(self.counts[8])
        }
    }

    let mut handler = CountingDispatch { counts: [0; 9] };

    handler
        .dispatch(Operation::Observe(ObserveOperation::Roles))
        .unwrap();
    handler
        .dispatch(Operation::Observe(ObserveOperation::Lanes))
        .unwrap();
    handler
        .dispatch(Operation::Observe(ObserveOperation::Lanes))
        .unwrap();
    handler
        .dispatch(Operation::Unwatch(UnwatchOperation::Token(
            ObservationToken::new(1),
        )))
        .unwrap();

    assert_eq!(handler.counts[3], 1, "Observe Roles dispatched once");
    assert_eq!(handler.counts[4], 2, "Observe Lanes dispatched twice");
    assert_eq!(handler.counts[8], 1, "Unwatch Token dispatched once");
}

#[test]
fn owner_dispatch_routes_each_endpoint_to_its_method() {
    struct Recorder {
        calls: Vec<&'static str>,
    }
    impl OwnerDispatch for Recorder {
        type Error = ();
        type Reply = ();

        fn create_role(&mut self, _payload: CreateRoleOrder) -> Result<(), ()> {
            self.calls.push("create_role");
            Ok(())
        }
        fn retire_role(&mut self, _payload: RetireRoleOrder) -> Result<(), ()> {
            self.calls.push("retire_role");
            Ok(())
        }
        fn retire_lane(&mut self, _payload: LaneIdentifier) -> Result<(), ()> {
            self.calls.push("retire_lane");
            Ok(())
        }
        fn refresh_repository_index(
            &mut self,
            _payload: RefreshRepositoryIndexOrder,
        ) -> Result<(), ()> {
            self.calls.push("refresh_repository_index");
            Ok(())
        }
        fn register_lane(&mut self, _payload: LaneRegistrationRequest) -> Result<(), ()> {
            self.calls.push("register_lane");
            Ok(())
        }
        fn set_lane_authority(&mut self, _payload: LaneAuthorityChange) -> Result<(), ()> {
            self.calls.push("set_lane_authority");
            Ok(())
        }
    }

    let mut recorder = Recorder { calls: Vec::new() };
    for operation in every_owner_operation() {
        recorder.dispatch(operation).unwrap();
    }
    assert_eq!(
        recorder.calls,
        vec![
            "create_role",
            "retire_role",
            "retire_lane",
            "refresh_repository_index",
            "register_lane",
            "set_lane_authority",
        ]
    );
}

#[test]
fn every_ordinary_endpoint_has_its_own_header() {
    let operations = every_ordinary_operation();
    let headers: Vec<ShortHeader> = operations.iter().map(|op| op.short_header()).collect();
    assert_eq!(
        headers,
        vec![
            ShortHeader::new(0, 0),
            ShortHeader::new(1, 0),
            ShortHeader::new(2, 0),
            ShortHeader::new(3, 0),
            ShortHeader::new(3, 1),
            ShortHeader::new(4, 0),
            ShortHeader::new(5, 0),
            ShortHeader::new(6, 0),
            ShortHeader::new(7, 0),
        ]
    );
    let roots: Vec<OperationRoot> = operations.iter().map(|op| op.root_kind()).collect();
    assert_eq!(
        roots,
        vec![
            OperationRoot::Claim,
            OperationRoot::Release,
            OperationRoot::Handoff,
            OperationRoot::Observe,
            OperationRoot::Observe,
            OperationRoot::Submit,
            OperationRoot::Query,
            OperationRoot::Watch,
            OperationRoot::Unwatch,
        ]
    );
}

#[test]
fn every_owner_endpoint_has_its_own_header() {
    let headers: Vec<ShortHeader> = every_owner_operation()
        .iter()
        .map(|op| op.short_header())
        .collect();
    assert_eq!(
        headers,
        vec![
            ShortHeader::new(0, 0),
            ShortHeader::new(1, 0),
            ShortHeader::new(1, 1),
            ShortHeader::new(2, 0),
            ShortHeader::new(3, 0),
            ShortHeader::new(4, 0),
        ]
    );
}

#[test]
fn header_word_packs_root_high_and_endpoint_low() {
    assert_eq!(ShortHeader::new(3, 1).as_u16(), 0x0301);
    assert_eq!(ShortHeader::new(0, 0).as_u16(), 0);
    assert_eq!(ShortHeader::new(255, 255).as_u16(), 0xffff);
    assert_eq!(ShortHeader::new(7, 0).as_u16(), 1792);
}

#[test]
fn sema_projection_covers_every_root() {
    let classes: Vec<SemaOperation> = every_ordinary_operation()
        .iter()
        .map(project_to_sema)
        .collect();
    assert_eq!(
        classes,
        vec![
            SemaOperation::Assert,
            SemaOperation::Retract,
            SemaOperation::Mutate,
            SemaOperation::Match,
            SemaOperation::Match,
            SemaOperation::Assert,
            SemaOperation::Match,
            SemaOperation::Subscribe,
            SemaOperation::Retract,
        ]
    );
    let owner_classes: Vec<SemaOperation> = every_owner_operation()
        .iter()
        .map(project_owner_to_sema)
        .collect();
    assert_eq!(
        owner_classes,
        vec![
            SemaOperation::Assert,
            SemaOperation::Retract,
            SemaOperation::Retract,
            SemaOperation::Mutate,
            SemaOperation::Assert,
            SemaOperation::Mutate,
        ]
    );
}

#[test]
fn sema_tables_have_their_store_names() {
    assert_eq!(SemaTable::Roles.name(), "roles");
    assert_eq!(SemaTable::Claims.name(), "claims");
    assert_eq!(SemaTable::Activities.name(), "activities");
    assert_eq!(SemaTable::Repositories.name(), "repositories");
    assert_eq!(SemaTable::LaneRegistry.name(), "lane_registry");
    assert_eq!(SemaTable::Divergences.name(), "divergences");
}

#[test]
fn endpoint_discriminators_name_their_slot() {
    assert_eq!(ObserveOperation::Roles.endpoint_discriminator(), 0);
    assert_eq!(ObserveOperation::Lanes.endpoint_discriminator(), 1);
    assert_eq!(
        RetireOperation::Lane(LaneIdentifier::from_wire_token("operator").unwrap())
            .endpoint_discriminator(),
        1
    );
    assert_eq!(
        RetireOperation::Role(RetireRoleOrder { role: designer() }).endpoint_discriminator(),
        0
    );
}
