use signal_orchestrate::{LaneIdentifier, ObservationToken, RoleIdentifier, ScopeReason};

#[test]
fn wire_tokens_are_lowercase_letters_digits_and_hyphens() {
    let designer = RoleIdentifier::from_wire_token("designer").expect("wire token");
    assert_eq!(designer.as_str(), "designer");
    assert!(RoleIdentifier::from_wire_token("second-designer-2").is_some());
    assert!(LaneIdentifier::from_wire_token("operator").is_some());
    assert_eq!(
        LaneIdentifier::from_wire_token("operator").unwrap().as_str(),
        "operator"
    );
}

#[test]
fn wire_tokens_reject_other_spellings() {
    for token in ["", "Designer", "two words", "under_score", "désigner", "a/b"] {
        assert!(RoleIdentifier::from_wire_token(token).is_none(), "{token}");
        assert!(LaneIdentifier::from_wire_token(token).is_none(), "{token}");
    }
}

#[test]
fn scope_reasons_reject_blank_text() {
    assert_eq!(
        ScopeReason::from_text("port pilot").unwrap().as_str(),
        "port pilot"
    );
    assert!(ScopeReason::from_text(" x ").is_some());
    for blank in ["", "   ", "\t\n", " \r\n "] {
        assert!(ScopeReason::from_text(blank).is_none());
    }
}

#[test]
fn observation_tokens_carry_their_number() {
    assert_eq!(ObservationToken::new(7).0, 7);
}
