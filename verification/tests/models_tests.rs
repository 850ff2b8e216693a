use mnemebrain::json::JsonValue;
use mnemebrain::{
    AttackType, BeliefType, CommitMode, ConflictPolicy, FrameOpenRequest, GoalStatus,
    LiteFrameOpenRequest, Polarity, PolicyStatus, SandboxStatus, TruthState,
};

/// The serde_json form of a library JSON value, for inspection in tests.
fn to_serde(v: &JsonValue) -> serde_json::Value {
    match v {
        JsonValue::Null => serde_json::Value::Null,
        JsonValue::Bool(b) => serde_json::Value::Bool(*b),
        JsonValue::Int(i) => serde_json::Value::from(*i),
        JsonValue::UInt(u) => serde_json::Value::from(*u),
        JsonValue::Float(bits) => serde_json::Value::from(f64::from_bits(*bits)),
        JsonValue::Str(s) => serde_json::Value::String(s.clone()),
        JsonValue::Array(items) => serde_json::Value::Array(items.iter().map(to_serde).collect()),
        JsonValue::Object(fields) => serde_json::Value::Object(
            fields.iter().map(|(k, v)| (k.clone(), to_serde(v))).collect(),
        ),
    }
}

fn keys(v: &JsonValue) -> Vec<String> {
    match v {
        JsonValue::Object(fields) => fields.iter().map(|(k, _)| k.clone()).collect(),
        _ => panic!("expected an object"),
    }
}

#[test]
fn test_polarity_default() {
    let p = Polarity::default();
    assert_eq!(p, Polarity::Supports);
}

#[test]
fn test_frame_open_request_with_ttl() {
    let req = FrameOpenRequest::new("q").with_ttl(600);
    assert_eq!(req.ttl_seconds, 600);
}

#[test]
fn test_lite_frame_open_request_builders() {
    let req = LiteFrameOpenRequest::new("q-1")
        .with_goal_id("g-1")
        .with_top_k(50)
        .with_ttl(120);
    assert_eq!(req.goal_id, Some("g-1".into()));
    assert_eq!(req.top_k, 50);
    assert_eq!(req.ttl_seconds, 120);
}

#[test]
fn test_lite_frame_open_request() {
    let req = LiteFrameOpenRequest::new("abc-123");
    assert_eq!(req.query_id, "abc-123");
    assert!(req.goal_id.is_none());
    assert_eq!(req.top_k, 20);
    assert_eq!(req.ttl_seconds, 300);

    let json = to_serde(&req.to_json());
    assert_eq!(json["query_id"], "abc-123");
    assert!(json.get("goal_id").is_none()); // skip None
}

#[test]
fn test_frame_open_request_serialization() {
    let req = FrameOpenRequest {
        query: "test query".into(),
        preload_claims: vec!["claim-1".into()],
        ttl_seconds: 600,
        source_agent: "agent-x".into(),
    };
    let v = to_serde(&req.to_json());
    assert_eq!(v["query"], "test query");
    assert_eq!(v["ttl_seconds"], 600);
    assert_eq!(v["preload_claims"][0], "claim-1");
    assert_eq!(v["source_agent"], "agent-x");
}

#[test]
fn test_frame_open_request_skip_empty_vec() {
    let req = FrameOpenRequest {
        query: "q".into(),
        preload_claims: vec![],
        ttl_seconds: 60,
        source_agent: "".into(),
    };
    let v = to_serde(&req.to_json());
    // preload_claims is empty — skipped
    assert!(v.get("preload_claims").is_none());
    // source_agent is "" — skipped
    assert!(v.get("source_agent").is_none());
}

// ── Own cases ──

#[test]
fn frame_open_request_defaults_and_builders() {
    let req = FrameOpenRequest::new("dietary preferences");
    assert_eq!(req.query, "dietary preferences");
    assert!(req.preload_claims.is_empty());
    assert_eq!(req.ttl_seconds, 300);
    assert_eq!(req.source_agent, "");
    let req = req
        .with_preload_claims(vec!["a".into(), "b".into()])
        .with_source_agent("agent-1");
    assert_eq!(req.preload_claims, vec!["a".to_string(), "b".to_string()]);
    assert_eq!(req.source_agent, "agent-1");
    assert_eq!(req.ttl_seconds, 300);
    assert_eq!(req.query, "dietary preferences");
}

#[test]
fn frame_open_request_field_order() {
    let req = FrameOpenRequest::new("q")
        .with_preload_claims(vec!["c".into()])
        .with_source_agent("s");
    assert_eq!(
        keys(&req.to_json()),
        vec!["query", "preload_claims", "ttl_seconds", "source_agent"]
    );
    assert_eq!(keys(&FrameOpenRequest::new("q").to_json()), vec!["query", "ttl_seconds"]);
}

#[test]
fn lite_frame_open_request_body_with_goal() {
    let req = LiteFrameOpenRequest::new("q-1").with_goal_id("g-9").with_top_k(5);
    let body = req.to_json();
    assert_eq!(keys(&body), vec!["query_id", "goal_id", "top_k", "ttl_seconds"]);
    let v = to_serde(&body);
    assert_eq!(v["goal_id"], "g-9");
    assert_eq!(v["top_k"], 5);
    assert_eq!(v["ttl_seconds"], 300);
}

#[test]
fn wire_names_of_every_variant() {
    let ts = [
        (TruthState::True, "true"),
        (TruthState::False, "false"),
        (TruthState::Both, "both"),
        (TruthState::Neither, "neither"),
    ];
    for (v, s) in ts {
        assert_eq!(v.as_str(), s);
        assert_eq!(TruthState::from_wire(s), Some(v));
    }
    let bt = [
        (BeliefType::Fact, "fact"),
        (BeliefType::Preference, "preference"),
        (BeliefType::Inference, "inference"),
        (BeliefType::Prediction, "prediction"),
    ];
    for (v, s) in bt {
        assert_eq!(v.as_str(), s);
        assert_eq!(BeliefType::from_wire(s), Some(v));
    }
    assert_eq!(Polarity::Attacks.as_str(), "attacks");
    assert_eq!(Polarity::from_wire("attacks"), Some(Polarity::Attacks));
    let ss = [
        (SandboxStatus::Active, "active"),
        (SandboxStatus::Committed, "committed"),
        (SandboxStatus::Discarded, "discarded"),
        (SandboxStatus::Expired, "expired"),
    ];
    for (v, s) in ss {
        assert_eq!(v.as_str(), s);
        assert_eq!(SandboxStatus::from_wire(s), Some(v));
    }
    assert_eq!(CommitMode::DiscardConflicts.as_str(), "discard_conflicts");
    assert_eq!(CommitMode::from_wire("all"), Some(CommitMode::All));
    assert_eq!(CommitMode::Selective.as_str(), "selective");
    let at = [
        (AttackType::Contradicts, "contradicts"),
        (AttackType::Undermines, "undermines"),
        (AttackType::Rebuts, "rebuts"),
        (AttackType::Undercuts, "undercuts"),
    ];
    for (v, s) in at {
        assert_eq!(v.as_str(), s);
        assert_eq!(AttackType::from_wire(s), Some(v));
    }
    let gs = [
        (GoalStatus::Active, "active"),
        (GoalStatus::Paused, "paused"),
        (GoalStatus::Completed, "completed"),
        (GoalStatus::Failed, "failed"),
        (GoalStatus::Abandoned, "abandoned"),
    ];
    for (v, s) in gs {
        assert_eq!(v.as_str(), s);
        assert_eq!(GoalStatus::from_wire(s), Some(v));
    }
    let ps = [
        (PolicyStatus::Active, "active"),
        (PolicyStatus::FlaggedForRevision, "flagged_for_revision"),
        (PolicyStatus::Superseded, "superseded"),
        (PolicyStatus::Retired, "retired"),
    ];
    for (v, s) in ps {
        assert_eq!(v.as_str(), s);
        assert_eq!(PolicyStatus::from_wire(s), Some(v));
    }
    assert_eq!(ConflictPolicy::Conservative.as_str(), "conservative");
    assert_eq!(ConflictPolicy::from_wire("surface"), Some(ConflictPolicy::Surface));
    assert_eq!(ConflictPolicy::Optimistic.as_str(), "optimistic");
}

#[test]
fn unknown_wire_names_are_rejected() {
    assert_eq!(TruthState::from_wire("TRUE"), None);
    assert_eq!(TruthState::from_wire(""), None);
    assert_eq!(CommitMode::from_wire("discard-conflicts"), None);
    assert_eq!(PolicyStatus::from_wire("flaggedforrevision"), None);
    assert_eq!(GoalStatus::from_wire("active "), None);
}

#[test]
fn defaults_of_enums() {
    assert_eq!(BeliefType::default(), BeliefType::Fact);
    assert_eq!(ConflictPolicy::default(), ConflictPolicy::Surface);
}

#[test]
fn deserialization_defaults() {
    assert_eq!(mnemebrain::default_memory_tier(), "episodic");
    assert_eq!(mnemebrain::default_list_limit(), 50);
}

/// The JSON text of a wire name, as it appears in a request body.
fn quoted(name: &str) -> String {
    serde_json::to_string(name).unwrap()
}

/// The wire name held by a JSON string literal.
fn unquoted(text: &str) -> String {
    serde_json::from_str::<String>(text).unwrap()
}

#[test]
fn test_truth_state_serde() {
    let ts = TruthState::True;
    let s = quoted(ts.as_str());
    assert_eq!(s, "\"true\"");

    let parsed = TruthState::from_wire(&unquoted("\"both\"")).unwrap();
    assert_eq!(parsed, TruthState::Both);
}

#[test]
fn test_belief_type_serde() {
    let bt = BeliefType::Inference;
    let s = quoted(bt.as_str());
    assert_eq!(s, "\"inference\"");
}

#[test]
fn test_polarity_serde() {
    let p = Polarity::Supports;
    let s = quoted(p.as_str());
    assert_eq!(s, "\"supports\"");

    let parsed = Polarity::from_wire(&unquoted("\"attacks\"")).unwrap();
    assert_eq!(parsed, Polarity::Attacks);
}

#[test]
fn test_commit_mode_serde() {
    let cm = CommitMode::DiscardConflicts;
    let s = quoted(cm.as_str());
    assert_eq!(s, "\"discard_conflicts\"");

    let parsed = CommitMode::from_wire(&unquoted("\"all\"")).unwrap();
    assert_eq!(parsed, CommitMode::All);
}

#[test]
fn test_policy_status_serde() {
    let ps = PolicyStatus::FlaggedForRevision;
    let s = quoted(ps.as_str());
    assert_eq!(s, "\"flagged_for_revision\"");
}

#[test]
fn test_conflict_policy_serde() {
    let cp = ConflictPolicy::Conservative;
    let s = quoted(cp.as_str());
    assert_eq!(s, "\"conservative\"");

    let parsed = ConflictPolicy::from_wire(&unquoted("\"surface\"")).unwrap();
    assert_eq!(parsed, ConflictPolicy::Surface);
}

#[test]
fn test_sandbox_status_serde() {
    let cases: &[(SandboxStatus, &str)] = &[
        (SandboxStatus::Active, "\"active\""),
        (SandboxStatus::Committed, "\"committed\""),
        (SandboxStatus::Discarded, "\"discarded\""),
        (SandboxStatus::Expired, "\"expired\""),
    ];
    for (variant, expected) in cases {
        let s = quoted(variant.as_str());
        assert_eq!(&s, expected);
        let back = SandboxStatus::from_wire(&unquoted(&s)).unwrap();
        assert_eq!(&back, variant);
    }
}

#[test]
fn test_attack_type_serde() {
    let cases: &[(AttackType, &str)] = &[
        (AttackType::Contradicts, "\"contradicts\""),
        (AttackType::Undermines, "\"undermines\""),
        (AttackType::Rebuts, "\"rebuts\""),
        (AttackType::Undercuts, "\"undercuts\""),
    ];
    for (variant, expected) in cases {
        let s = quoted(variant.as_str());
        assert_eq!(&s, expected);
        let back = AttackType::from_wire(&unquoted(&s)).unwrap();
        assert_eq!(&back, variant);
    }
}

#[test]
fn test_goal_status_serde() {
    let cases: &[(GoalStatus, &str)] = &[
        (GoalStatus::Active, "\"active\""),
        (GoalStatus::Paused, "\"paused\""),
        (GoalStatus::Completed, "\"completed\""),
        (GoalStatus::Failed, "\"failed\""),
        (GoalStatus::Abandoned, "\"abandoned\""),
    ];
    for (variant, expected) in cases {
        let s = quoted(variant.as_str());
        assert_eq!(&s, expected);
        let back = GoalStatus::from_wire(&unquoted(&s)).unwrap();
        assert_eq!(&back, variant);
    }
}

#[test]
fn test_conflict_policy_optimistic() {
    let cp = ConflictPolicy::Optimistic;
    let s = quoted(cp.as_str());
    assert_eq!(s, "\"optimistic\"");
    let back = ConflictPolicy::from_wire(&unquoted("\"optimistic\"")).unwrap();
    assert_eq!(back, ConflictPolicy::Optimistic);
}

#[test]
fn test_truth_state_all_variants() {
    let cases: &[(TruthState, &str)] = &[
        (TruthState::True, "\"true\""),
        (TruthState::False, "\"false\""),
        (TruthState::Both, "\"both\""),
        (TruthState::Neither, "\"neither\""),
    ];
    for (variant, expected) in cases {
        let s = quoted(variant.as_str());
        assert_eq!(&s, expected);
        let back = TruthState::from_wire(&unquoted(&s)).unwrap();
        assert_eq!(&back, variant);
    }
}

#[test]
fn test_belief_type_all_variants() {
    let cases: &[(BeliefType, &str)] = &[
        (BeliefType::Fact, "\"fact\""),
        (BeliefType::Preference, "\"preference\""),
        (BeliefType::Inference, "\"inference\""),
        (BeliefType::Prediction, "\"prediction\""),
    ];
    for (variant, expected) in cases {
        let s = quoted(variant.as_str());
        assert_eq!(&s, expected);
        let back = BeliefType::from_wire(&unquoted(&s)).unwrap();
        assert_eq!(&back, variant);
    }
}

#[test]
fn test_commit_mode_selective() {
    let cm = CommitMode::Selective;
    let s = quoted(cm.as_str());
    assert_eq!(s, "\"selective\"");
    let back = CommitMode::from_wire(&unquoted("\"selective\"")).unwrap();
    assert_eq!(back, CommitMode::Selective);
}

#[test]
fn test_policy_status_all_variants() {
    let cases: &[(PolicyStatus, &str)] = &[
        (PolicyStatus::Active, "\"active\""),
        (PolicyStatus::FlaggedForRevision, "\"flagged_for_revision\""),
        (PolicyStatus::Superseded, "\"superseded\""),
        (PolicyStatus::Retired, "\"retired\""),
    ];
    for (variant, expected) in cases {
        let s = quoted(variant.as_str());
        assert_eq!(&s, expected);
        let back = PolicyStatus::from_wire(&unquoted(&s)).unwrap();
        assert_eq!(&back, variant);
    }
}
