use signal_orchestrate::upgrade_handover::{
    CurrentDaemonEvent, CurrentDaemonState, HandoverError, HandoverLatencyTargets, NextDaemonEvent,
    NextDaemonState,
};

#[test]
fn current_daemon_walks_active_to_retired() {
    let state = CurrentDaemonState::Active;
    assert!(state.accepts_new_claims());

    let state = state.transition(CurrentDaemonEvent::BeginDrain).unwrap();
    assert_eq!(state, CurrentDaemonState::Draining);
    assert!(!state.accepts_new_claims());
    assert!(state.accepts_existing_claim_mutations());
    assert!(state.projects_lock_files());

    let state = state
        .transition(CurrentDaemonEvent::HandoverAccepted)
        .unwrap();
    assert_eq!(state, CurrentDaemonState::PostFlip);
    assert!(state.accepts_existing_claim_mutations());
    assert!(!state.projects_lock_files());

    let state = state
        .transition(CurrentDaemonEvent::LastConnectionClosed)
        .unwrap();
    assert_eq!(state, CurrentDaemonState::Retired);
    assert!(!state.accepts_existing_claim_mutations());
}

#[test]
fn next_daemon_walks_standby_to_active() {
    let state = NextDaemonState::Standby;
    assert!(!state.accepts_ordinary_traffic());

    let state = state.transition(NextDaemonEvent::HandoverBegun).unwrap();
    assert_eq!(state, NextDaemonState::Hydrating);
    assert!(!state.accepts_ordinary_traffic());
    assert!(!state.applies_mirror_writes());

    let state = state
        .transition(NextDaemonEvent::HydrationComplete)
        .unwrap();
    assert_eq!(state, NextDaemonState::Catching);
    assert!(state.accepts_ordinary_traffic());
    assert!(state.applies_mirror_writes());

    let state = state.transition(NextDaemonEvent::CurrentRetired).unwrap();
    assert_eq!(state, NextDaemonState::Active);
    assert!(state.accepts_ordinary_traffic());
    assert!(!state.applies_mirror_writes());
}

#[test]
fn drain_can_be_aborted_returning_to_active() {
    let state = CurrentDaemonState::Active
        .transition(CurrentDaemonEvent::BeginDrain)
        .unwrap();
    let state = state
        .transition(CurrentDaemonEvent::HandoverAborted)
        .unwrap();
    assert_eq!(state, CurrentDaemonState::Active);
    assert!(state.accepts_new_claims());
}

#[test]
fn invalid_transitions_are_typed_errors() {
    let result = CurrentDaemonState::Active.transition(CurrentDaemonEvent::LastConnectionClosed);
    assert!(matches!(
        result,
        Err(HandoverError::InvalidTransition {
            from: CurrentDaemonState::Active,
            event: CurrentDaemonEvent::LastConnectionClosed,
        })
    ));
}

#[test]
fn latency_targets_have_sensible_defaults() {
    let targets = HandoverLatencyTargets::default_targets();
    assert!(targets.write_pause_window < targets.hydration_timeout);
    assert!(targets.hydration_timeout < targets.drain_soft_target);
}

const CURRENT_STATES: [CurrentDaemonState; 4] = [
    CurrentDaemonState::Active,
    CurrentDaemonState::Draining,
    CurrentDaemonState::PostFlip,
    CurrentDaemonState::Retired,
];

const CURRENT_EVENTS: [CurrentDaemonEvent; 4] = [
    CurrentDaemonEvent::BeginDrain,
    CurrentDaemonEvent::HandoverAccepted,
    CurrentDaemonEvent::HandoverAborted,
    CurrentDaemonEvent::LastConnectionClosed,
];

const NEXT_STATES: [NextDaemonState; 4] = [
    NextDaemonState::Standby,
    NextDaemonState::Hydrating,
    NextDaemonState::Catching,
    NextDaemonState::Active,
];

const NEXT_EVENTS: [NextDaemonEvent; 3] = [
    NextDaemonEvent::HandoverBegun,
    NextDaemonEvent::HydrationComplete,
    NextDaemonEvent::CurrentRetired,
];

#[test]
fn current_daemon_accepts_exactly_four_transitions() {
    let mut accepted = 0;
    for state in CURRENT_STATES {
        for event in CURRENT_EVENTS {
            match state.transition(event) {
                Ok(_) => accepted += 1,
                Err(error) => assert_eq!(
                    error,
                    HandoverError::InvalidTransition { from: state, event }
                ),
            }
        }
    }
    assert_eq!(accepted, 4);
}

#[test]
fn next_daemon_accepts_exactly_three_transitions() {
    let mut accepted = 0;
    for state in NEXT_STATES {
        for event in NEXT_EVENTS {
            match state.transition(event) {
                Ok(_) => accepted += 1,
                Err(error) => assert_eq!(
                    error,
                    HandoverError::InvalidNextTransition { from: state, event }
                ),
            }
        }
    }
    assert_eq!(accepted, 3);
}

#[test]
fn final_states_refuse_every_event() {
    for event in CURRENT_EVENTS {
        assert!(CurrentDaemonState::Retired.transition(event).is_err());
    }
    for event in NEXT_EVENTS {
        assert!(NextDaemonState::Active.transition(event).is_err());
    }
}

#[test]
fn lock_file_projection_never_resumes_after_the_flip() {
    for state in CURRENT_STATES {
        for event in CURRENT_EVENTS {
            if let Ok(next) = state.transition(event) {
                if !state.projects_lock_files() {
                    assert!(!next.projects_lock_files());
                }
                if !state.accepts_existing_claim_mutations() {
                    assert!(!next.accepts_existing_claim_mutations());
                }
            }
        }
    }
}

#[test]
fn ordinary_traffic_is_never_withdrawn() {
    for state in NEXT_STATES {
        for event in NEXT_EVENTS {
            if let Ok(next) = state.transition(event) {
                if state.accepts_ordinary_traffic() {
                    assert!(next.accepts_ordinary_traffic());
                }
            }
        }
    }
}

#[test]
fn retirement_passes_through_an_accepted_handover() {
    let aborted_then_retired = [
        CurrentDaemonEvent::BeginDrain,
        CurrentDaemonEvent::HandoverAborted,
        CurrentDaemonEvent::BeginDrain,
        CurrentDaemonEvent::HandoverAccepted,
        CurrentDaemonEvent::LastConnectionClosed,
    ];
    let mut state = CurrentDaemonState::Active;
    for event in aborted_then_retired {
        state = state.transition(event).unwrap();
    }
    assert_eq!(state, CurrentDaemonState::Retired);

    let skipping_the_flip = CurrentDaemonState::Draining
        .transition(CurrentDaemonEvent::LastConnectionClosed);
    assert_eq!(
        skipping_the_flip,
        Err(HandoverError::InvalidTransition {
            from: CurrentDaemonState::Draining,
            event: CurrentDaemonEvent::LastConnectionClosed,
        })
    );
}

#[test]
fn next_daemon_refuses_traffic_before_hydration() {
    let early = NextDaemonState::Standby.transition(NextDaemonEvent::HydrationComplete);
    assert_eq!(
        early,
        Err(HandoverError::InvalidNextTransition {
            from: NextDaemonState::Standby,
            event: NextDaemonEvent::HydrationComplete,
        })
    );
    let retired_too_soon = NextDaemonState::Hydrating.transition(NextDaemonEvent::CurrentRetired);
    assert!(retired_too_soon.is_err());
}

#[test]
fn default_latency_targets_are_exact() {
    let targets = HandoverLatencyTargets::default_targets();
    assert_eq!(targets.write_pause_window, 500);
    assert_eq!(targets.hydration_timeout, 30_000);
    assert_eq!(targets.drain_soft_target, 300_000);
}
