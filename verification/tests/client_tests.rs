use std::time::Duration;

use mnemebrain::json::JsonValue;
use mnemebrain::text::{decimal_string, trim_trailing_slashes_of};
use mnemebrain::{
    AttackType, BeliefType, CommitMode, ConfigError, ConflictPolicy, CoreApi, FrameOpenRequest,
    GoalStatus,
    HttpMethod, LiteFrameOpenRequest, MnemeBrainClientBuilder, Polarity, PolicyStatus,
    RequestTimeout, ResponseMode, ResponseStep, TruthState, response_step, retracted_beliefs,
};

fn to_serde(v: &JsonValue) -> serde_json::Value {
    match v {
        JsonValue::Null => serde_json::Value::Null,
        JsonValue::Bool(b) => serde_json::Value::Bool(*b),
        JsonValue::Int(i) => serde_json::Value::from(*i),
        JsonValue::UInt(u) => serde_json::Value::from(*u),
        JsonValue::Float(bits) => serde_json::Value::from(f64::from_bits(*bits)),
        JsonValue::Str(s) => serde_json::Value::String(s.clone()),
        JsonValue::Array(items) => serde_json::Value::Array(items.iter().map(to_serde).collect()),
        JsonValue::Object(fields) => serde_json::Value::Object(
            fields.iter().map(|(k, v)| (k.clone(), to_serde(v))).collect(),
        ),
    }
}

fn from_serde(v: &serde_json::Value) -> JsonValue {
    match v {
        serde_json::Value::Null => JsonValue::Null,
        serde_json::Value::Bool(b) => JsonValue::Bool(*b),
        serde_json::Value::Number(n) => {
            if let Some(i) = n.as_i64() {
                JsonValue::Int(i)
            } else if let Some(u) = n.as_u64() {
                JsonValue::UInt(u)
            } else {
                JsonValue::Float(n.as_f64().unwrap_or(0.0).to_bits())
            }
        }
        serde_json::Value::String(s) => JsonValue::Str(s.clone()),
        serde_json::Value::Array(items) => JsonValue::Array(items.iter().map(from_serde).collect()),
        serde_json::Value::Object(map) => JsonValue::Object(
            map.iter().map(|(k, v)| (k.clone(), from_serde(v))).collect(),
        ),
    }
}

fn j(text: &str) -> serde_json::Value {
    serde_json::from_str(text).unwrap()
}

fn body(r: &mnemebrain::ApiRequest) -> serde_json::Value {
    to_serde(r.body.as_ref().expect("a body"))
}

fn api() -> CoreApi {
    CoreApi::new("http://h:8000".to_string())
}

// ── Builder and configuration ──

#[test]
fn builder_defaults() {
    let cfg = MnemeBrainClientBuilder::new("http://localhost:8000").into_config().unwrap();
    assert_eq!(cfg.base_url, "http://localhost:8000");
    assert_eq!(cfg.timeout, RequestTimeout::Seconds(30));
    assert_eq!(cfg.authorization, None);
    assert_eq!(cfg.user_agent, None);
}

#[test]
fn builder_settings_reach_the_config() {
    let cfg = MnemeBrainClientBuilder::new("http://h/")
        .timeout(Duration::from_secs(60))
        .api_key("your-api-key")
        .user_agent("my-agent/1.0")
        .into_config()
        .unwrap();
    assert_eq!(cfg.base_url, "http://h");
    assert_eq!(cfg.timeout, RequestTimeout::Given(Duration::from_secs(60)));
    assert_eq!(cfg.authorization.as_deref(), Some("Bearer your-api-key"));
    assert_eq!(cfg.user_agent.as_deref(), Some("my-agent/1.0"));
}

#[test]
fn test_client_builder_with_user_agent() {
    let cfg = mnemebrain::MnemeBrainClientBuilder::new("http://localhost:8000")
        .user_agent("my-agent/1.0")
        .into_config();
    // The builder is accepted; the user agent reaches the HTTP layer as given.
    assert_eq!(cfg.unwrap().user_agent.as_deref(), Some("my-agent/1.0"));
}

#[test]
fn localhost_builder_configuration() {
    let cfg = MnemeBrainClientBuilder::localhost().into_config().unwrap();
    assert_eq!(cfg.base_url, "http://localhost:8000");
    assert_eq!(cfg.timeout, RequestTimeout::Seconds(30));
    assert_eq!(cfg.authorization, None);
    assert_eq!(cfg.user_agent, None);
}

#[test]
fn builder_trims_every_trailing_slash() {
    let cfg = MnemeBrainClientBuilder::new("http://h:8000///").into_config().unwrap();
    assert_eq!(cfg.base_url, "http://h:8000");
}

#[test]
fn builder_rejects_api_key_with_control_characters() {
    let bad = |key: &str| MnemeBrainClientBuilder::new("http://h").api_key(key).into_config();
    assert_eq!(bad("bad\nkey").unwrap_err(), ConfigError::InvalidApiKey);
    assert_eq!(bad("del\u{7f}").unwrap_err(), ConfigError::InvalidApiKey);
    assert!(bad("tab\tok").is_ok());
    assert!(bad("clé").is_ok());
}

#[test]
fn builder_rejects_user_agent_with_control_characters() {
    let r = MnemeBrainClientBuilder::new("http://h").user_agent("agent\r\n").into_config();
    assert_eq!(r.unwrap_err(), ConfigError::InvalidUserAgent);
    // The API key is checked first.
    let r = MnemeBrainClientBuilder::new("http://h")
        .api_key("k\0")
        .user_agent("agent\r\n")
        .into_config();
    assert_eq!(r.unwrap_err(), ConfigError::InvalidApiKey);
}

#[test]
fn trim_trailing_slashes_cases() {
    assert_eq!(trim_trailing_slashes_of(""), "");
    assert_eq!(trim_trailing_slashes_of("////"), "");
    assert_eq!(trim_trailing_slashes_of("a/b/"), "a/b");
    assert_eq!(trim_trailing_slashes_of("a/b"), "a/b");
}

#[test]
fn decimal_rendering() {
    assert_eq!(decimal_string(0), "0");
    assert_eq!(decimal_string(7), "7");
    assert_eq!(decimal_string(10), "10");
    assert_eq!(decimal_string(4096), "4096");
    assert_eq!(decimal_string(u64::MAX), u64::MAX.to_string());
}

// ── Core calls ──

#[test]
fn health_and_simple_calls() {
    let r = api().health();
    assert_eq!(r.method, HttpMethod::Get);
    assert_eq!(r.url, "http://h:8000/health");
    assert!(r.query.is_empty());
    assert!(r.body.is_none());
    assert_eq!(r.mode, ResponseMode::Json);

    let r = api().reset();
    assert_eq!((r.method, r.url.as_str()), (HttpMethod::Post, "http://h:8000/reset"));
    assert!(r.body.is_none());
    let r = api().consolidate();
    assert_eq!(r.url, "http://h:8000/consolidate");
    let r = api().get_memory_tier("b-7");
    assert_eq!((r.method, r.url.as_str()), (HttpMethod::Get, "http://h:8000/memory-tier/b-7"));
}

#[test]
fn explain_treats_404_as_absent() {
    let r = api().explain("Earth orbits the Sun");
    assert_eq!(r.url, "http://h:8000/explain");
    assert_eq!(r.query, vec![("claim".to_string(), "Earth orbits the Sun".to_string())]);
    assert_eq!(r.mode, ResponseMode::JsonOrNotFound);
    assert_eq!(response_step(r.mode, 404), ResponseStep::NotFound);
    assert_eq!(response_step(r.mode, 500), ResponseStep::Failed);
    assert_eq!(response_step(r.mode, 200), ResponseStep::ReadJson);
}

#[test]
fn search_query_parameters() {
    let r = api().search("astronomy", 10, "0.7", ConflictPolicy::Surface);
    assert_eq!(r.url, "http://h:8000/search");
    let q: Vec<(&str, &str)> = r.query.iter().map(|(a, b)| (a.as_str(), b.as_str())).collect();
    assert_eq!(
        q,
        vec![("query", "astronomy"), ("limit", "10"), ("alpha", "0.7"), ("conflict_policy", "surface")]
    );
}

#[test]
fn list_beliefs_query_parameters() {
    let r = api().list_beliefs("0", "1", 50, 0, None, None, None);
    let q: Vec<(&str, &str)> = r.query.iter().map(|(a, b)| (a.as_str(), b.as_str())).collect();
    assert_eq!(
        q,
        vec![("min_confidence", "0"), ("max_confidence", "1"), ("limit", "50"), ("offset", "0")]
    );
    let r = api().list_beliefs(
        "0.3",
        "0.9",
        25,
        10,
        Some(TruthState::Both),
        Some(BeliefType::Inference),
        Some("science"),
    );
    let q: Vec<(&str, &str)> = r.query.iter().map(|(a, b)| (a.as_str(), b.as_str())).collect();
    assert_eq!(
        q,
        vec![
            ("min_confidence", "0.3"),
            ("max_confidence", "0.9"),
            ("limit", "25"),
            ("offset", "10"),
            ("truth_state", "both"),
            ("belief_type", "inference"),
            ("tag", "science"),
        ]
    );
    let r = api().list_beliefs("0", "1", 50, 0, None, None, Some("science"));
    assert_eq!(r.query.last().unwrap(), &("tag".to_string(), "science".to_string()));
    assert_eq!(r.query.len(), 5);
}

#[test]
fn retract_and_revise_bodies() {
    let r = api().retract("e-1");
    assert_eq!(r.url, "http://h:8000/retract");
    assert_eq!(body(&r), j(r#"{"evidence_id": "e-1"}"#));

    let ev = from_serde(&j(r#"{"source_ref": "s", "content": "c"}"#));
    let r = api().revise("b-1", ev);
    assert_eq!(r.url, "http://h:8000/revise");
    assert_eq!(
        body(&r),
        j(r#"{"belief_id": "b-1", "evidence": {"source_ref": "s", "content": "c"}}"#)
    );
}

#[test]
fn retract_payload_both_shapes() {
    let lite = from_serde(&j(r#"[{"id": "b-1"}]"#));
    assert_eq!(to_serde(&retracted_beliefs(lite)), j(r#"[{"id": "b-1"}]"#));
    let full = from_serde(&j(r#"{"affected_beliefs": [{"id": "b-2"}], "n": 1}"#));
    assert_eq!(to_serde(&retracted_beliefs(full)), j(r#"[{"id": "b-2"}]"#));
    let missing = from_serde(&j(r#"{"other": 1}"#));
    assert_eq!(to_serde(&retracted_beliefs(missing)), j(r#"[]"#));
    let scalar = from_serde(&j(r#""x""#));
    assert_eq!(to_serde(&retracted_beliefs(scalar)), j(r#"[]"#));
}

#[test]
fn frame_calls() {
    let r = api().frame_open(&FrameOpenRequest::new("q").with_ttl(60));
    assert_eq!((r.method, r.url.as_str()), (HttpMethod::Post, "http://h:8000/frame/open"));
    assert_eq!(body(&r), j(r#"{"query": "q", "ttl_seconds": 60}"#));
    let r = api().frame_open_lite(&LiteFrameOpenRequest::new("query-uuid"));
    assert_eq!(r.url, "http://h:8000/frame/open");
    assert_eq!(body(&r), j(r#"{"query_id": "query-uuid", "top_k": 20, "ttl_seconds": 300}"#));
    let r = api().frame_add("f-1", "user is vegetarian");
    assert_eq!(r.url, "http://h:8000/frame/f-1/add");
    assert_eq!(body(&r), j(r#"{"claim": "user is vegetarian"}"#));
    let r = api().frame_scratchpad("f-1", "step", from_serde(&j(r#""analyzing""#)));
    assert_eq!(r.url, "http://h:8000/frame/f-1/scratchpad");
    assert_eq!(body(&r), j(r#"{"key": "step", "value": "analyzing"}"#));
    let r = api().frame_context("f-1");
    assert_eq!((r.method, r.url.as_str()), (HttpMethod::Get, "http://h:8000/frame/f-1/context"));
    let r = api().frame_commit("f-1", vec![from_serde(&j(r#"{"claim": "x"}"#))], vec![]);
    assert_eq!(r.url, "http://h:8000/frame/f-1/commit");
    assert_eq!(body(&r), j(r#"{"new_beliefs": [{"claim": "x"}], "revisions": []}"#));
    let r = api().frame_close("f-1");
    assert_eq!((r.method, r.url.as_str()), (HttpMethod::Delete, "http://h:8000/frame/f-1"));
    assert_eq!(r.mode, ResponseMode::NoContent);
    assert_eq!(response_step(r.mode, 204), ResponseStep::Finished);
    assert_eq!(response_step(r.mode, 404), ResponseStep::Failed);
}

#[test]
fn time_offset_and_multihop() {
    let r = api().set_time_offset(-3);
    assert_eq!(r.url, "http://h:8000/time-offset");
    assert_eq!(body(&r), j(r#"{"days": -3}"#));
    let r = api().query_multihop("causes of X");
    assert_eq!(r.method, HttpMethod::Post);
    assert_eq!(r.url, "http://h:8000/query_multihop");
    assert_eq!(r.query, vec![("query".to_string(), "causes of X".to_string())]);
    assert!(r.body.is_none());
}

#[test]
fn benchmark_calls() {
    let r = api().benchmark_sandbox_fork("label");
    assert_eq!(r.url, "http://h:8000/api/mneme/benchmark/sandbox/fork");
    assert_eq!(body(&r), j(r#"{"scenario_label": "label"}"#));
    let r = api().benchmark_sandbox_assume("sb-1", "b-1", "false");
    assert_eq!(r.url, "http://h:8000/api/mneme/benchmark/sandbox/sb-1/assume");
    assert_eq!(body(&r), j(r#"{"belief_id": "b-1", "truth_state": "false"}"#));
    let r = api().benchmark_sandbox_resolve("sb-1", "b-1");
    assert_eq!(r.url, "http://h:8000/api/mneme/benchmark/sandbox/sb-1/resolve/b-1");
    let r = api().benchmark_sandbox_discard("sb-1");
    assert_eq!((r.method, r.url.as_str()), (HttpMethod::Post, "http://h:8000/api/mneme/benchmark/sandbox/sb-1/discard"));
    let r = api().benchmark_attack("a", "t", "rebuts", 0.5f64.to_bits());
    assert_eq!(r.url, "http://h:8000/api/mneme/benchmark/attack");
    assert_eq!(
        body(&r),
        j(r#"{"attacker_id": "a", "target_id": "t", "attack_type": "rebuts", "weight": 0.5}"#)
    );
}

#[test]
fn status_decisions() {
    assert_eq!(response_step(ResponseMode::Json, 200), ResponseStep::ReadJson);
    assert_eq!(response_step(ResponseMode::Json, 399), ResponseStep::ReadJson);
    assert_eq!(response_step(ResponseMode::Json, 400), ResponseStep::Failed);
    assert_eq!(response_step(ResponseMode::Json, 404), ResponseStep::Failed);
    assert_eq!(response_step(ResponseMode::NoContent, 500), ResponseStep::Failed);
}

#[test]
fn extended_routes_report_404_as_an_error() {
    let calls = vec![
        api().sandbox().diff("sb-1"),
        api().goals().list(),
        api().policies().list(),
        api().revision().get_policy(),
        api().attacks().list("b-1"),
        api().reconsolidation().queue(),
        api().consolidate(),
        api().benchmark_sandbox_fork("s"),
    ];
    for call in calls {
        assert_eq!(response_step(call.mode, 404), ResponseStep::Failed);
    }
    // Only a missing claim is an answer rather than an error.
    assert_eq!(response_step(api().explain("c").mode, 404), ResponseStep::NotFound);
}

// ── Sub-clients ──

#[test]
fn sandbox_calls() {
    let sb = api().sandbox();
    assert_eq!(sb.base_url, "http://h:8000");
    let r = sb.fork(None, "test-scenario", 300);
    assert_eq!(r.url, "http://h:8000/api/mneme/sandbox/fork");
    assert_eq!(body(&r), j(r#"{"scenario_label": "test-scenario", "ttl_seconds": 300}"#));
    let r = sb.fork(Some("f-1"), "s", 10);
    assert_eq!(body(&r), j(r#"{"frame_id": "f-1", "scenario_label": "s", "ttl_seconds": 10}"#));
    let r = sb.quick(None);
    assert_eq!(r.url, "http://h:8000/api/mneme/sandbox/quick");
    assert_eq!(body(&r), j(r#"{}"#));
    let r = sb.get_context("sb-1");
    assert_eq!(r.url, "http://h:8000/api/mneme/sandbox/sb-1/context");
    let r = sb.assume_truth("sb-1", "b-1", TruthState::False);
    assert_eq!(r.url, "http://h:8000/api/mneme/sandbox/sb-1/assume");
    assert_eq!(body(&r), j(r#"{"belief_id": "b-1", "truth_state": "false"}"#));
    let r = sb.retract("sb-1", "e-1");
    assert_eq!(body(&r), j(r#"{"evidence_id": "e-1"}"#));
    let r = sb.believe("sb-1", "c", BeliefType::Prediction);
    assert_eq!(body(&r), j(r#"{"claim": "c", "belief_type": "prediction"}"#));
    let r = sb.revise("sb-1", "b-1", "src", "content", Polarity::Attacks, 0.7f64.to_bits(), 0.8f64.to_bits());
    assert_eq!(r.url, "http://h:8000/api/mneme/sandbox/sb-1/revise");
    assert_eq!(
        body(&r),
        j(r#"{"belief_id": "b-1", "source_ref": "src", "content": "content", "polarity": "attacks", "weight": 0.7, "reliability": 0.8}"#)
    );
    let r = sb.attack("sb-1", "a", "t", AttackType::Undercuts, 1.0f64.to_bits());
    assert_eq!(
        body(&r),
        j(r#"{"attacker_belief_id": "a", "target_belief_id": "t", "attack_type": "undercuts", "weight": 1.0}"#)
    );
    let r = sb.diff("sb-1");
    assert_eq!(r.url, "http://h:8000/api/mneme/sandbox/sb-1/diff");
    let ids = vec!["b-1".to_string()];
    let r = sb.commit("sb-1", CommitMode::Selective, Some(&ids));
    assert_eq!(body(&r), j(r#"{"commit_mode": "selective", "selected_ids": ["b-1"]}"#));
    let r = sb.commit("sb-1", CommitMode::All, None);
    assert_eq!(body(&r), j(r#"{"commit_mode": "all"}"#));
    let r = sb.discard("sb-1");
    assert_eq!((r.method, r.url.as_str()), (HttpMethod::Post, "http://h:8000/api/mneme/sandbox/sb-1/discard"));
    assert!(r.body.is_none());
    let r = sb.explain("sb-1", "b-1");
    assert_eq!(r.url, "http://h:8000/api/mneme/sandbox/sb-1/explain/b-1");
    let r = sb.evaluate_goal("sb-1", "g-1");
    assert_eq!(r.url, "http://h:8000/api/mneme/sandbox/sb-1/goals/g-1/evaluate");
}

#[test]
fn goal_calls() {
    let g = api().goals();
    let r = g.create("reach 100 users", "agent-1", 0.8f64.to_bits(), None, None);
    assert_eq!(r.url, "http://h:8000/api/mneme/goals");
    assert_eq!(body(&r), j(r#"{"goal": "reach 100 users", "owner": "agent-1", "priority": 0.8}"#));
    let crit = vec![("users".to_string(), JsonValue::Int(100))];
    let r = g.create("g", "o", 1.0f64.to_bits(), Some(crit), Some("2026-12-31"));
    assert_eq!(
        body(&r),
        j(r#"{"goal": "g", "owner": "o", "priority": 1.0, "success_criteria": {"users": 100}, "deadline": "2026-12-31"}"#)
    );
    assert_eq!(g.list().url, "http://h:8000/api/mneme/goals");
    assert_eq!(g.get("g-1").url, "http://h:8000/api/mneme/goals/g-1");
    assert_eq!(g.evaluate("g-1").url, "http://h:8000/api/mneme/goals/g-1/evaluate");
    let r = g.update_status("g-1", GoalStatus::Paused);
    assert_eq!((r.method, r.url.as_str()), (HttpMethod::Patch, "http://h:8000/api/mneme/goals/g-1"));
    assert_eq!(body(&r), j(r#"{"status": "paused"}"#));
    let r = g.abandon("g-1");
    assert_eq!(r.url, "http://h:8000/api/mneme/goals/g-1/abandon");
    assert!(r.body.is_none());
}

#[test]
fn policy_calls() {
    let p = api().policies();
    let steps = vec![from_serde(&j(r#"{"step_id": 1, "action": "check"}"#))];
    let r = p.create("p", steps, "d", None);
    assert_eq!(r.url, "http://h:8000/api/mneme/policies");
    assert_eq!(
        body(&r),
        j(r#"{"name": "p", "steps": [{"step_id": 1, "action": "check"}], "description": "d"}"#)
    );
    let app = vec![("domain".to_string(), JsonValue::Str("x".into()))];
    let r = p.create("p", vec![], "d", Some(app));
    assert_eq!(body(&r)["applicability"], j(r#"{"domain": "x"}"#));
    assert_eq!(p.list().url, "http://h:8000/api/mneme/policies");
    assert_eq!(p.get("p-1").url, "http://h:8000/api/mneme/policies/p-1");
    assert_eq!(p.get_history("p-1").url, "http://h:8000/api/mneme/policies/p-1/history");
    let r = p.update_status("p-1", PolicyStatus::FlaggedForRevision);
    assert_eq!(r.method, HttpMethod::Patch);
    assert_eq!(body(&r), j(r#"{"status": "flagged_for_revision"}"#));
}

#[test]
fn revision_calls() {
    let rv = api().revision();
    let r = rv.set_policy("bounded", Some(3), Some(10));
    assert_eq!(r.url, "http://h:8000/api/mneme/revision/policy");
    assert_eq!(
        body(&r),
        j(r#"{"policy_name": "bounded", "max_retraction_depth": 3, "max_retractions": 10}"#)
    );
    let r = rv.set_policy("bounded", None, Some(10));
    assert_eq!(body(&r), j(r#"{"policy_name": "bounded", "max_retractions": 10}"#));
    assert_eq!(rv.get_policy().method, HttpMethod::Get);
    assert_eq!(rv.list_audit().url, "http://h:8000/api/mneme/revision/audit");
    let item = from_serde(&j(r#"{"source_ref": "d"}"#));
    let r = rv.revise("b-1", vec![item], vec![], "agent");
    assert_eq!(r.url, "http://h:8000/api/mneme/revision/revise");
    assert_eq!(
        body(&r),
        j(r#"{"incoming_belief_id": "b-1", "conflicting_evidence": [{"source_ref": "d"}], "incoming_evidence": [], "agent_id": "agent"}"#)
    );
}

#[test]
fn attack_and_reconsolidation_calls() {
    let a = api().attacks();
    let r = a.create("b-1", "b-2", AttackType::Contradicts, 0.5f64.to_bits());
    assert_eq!(r.url, "http://h:8000/api/mneme/attacks/b-1");
    assert_eq!(
        body(&r),
        j(r#"{"target_belief_id": "b-2", "attack_type": "contradicts", "weight": 0.5}"#)
    );
    assert_eq!(a.list("b-1").url, "http://h:8000/api/mneme/attacks/b-1");
    let r = a.get_chain("b-1", 3);
    assert_eq!(r.url, "http://h:8000/api/mneme/attacks/b-1/chain");
    assert_eq!(r.query, vec![("max_depth".to_string(), "3".to_string())]);
    let r = a.deactivate("e-1");
    assert_eq!(r.url, "http://h:8000/api/mneme/attacks/e-1/deactivate");
    let rc = api().reconsolidation();
    assert_eq!(rc.queue().url, "http://h:8000/api/mneme/reconsolidation/queue");
    let r = rc.run();
    assert_eq!((r.method, r.url.as_str()), (HttpMethod::Post, "http://h:8000/api/mneme/reconsolidation/run"));
}

#[test]
fn believe_body_is_passed_through() {
    let b = from_serde(&j(r#"{"claim": "x", "evidence": [], "tags": []}"#));
    let r = api().believe(b);
    assert_eq!(r.url, "http://h:8000/believe");
    assert_eq!(body(&r), j(r#"{"claim": "x", "evidence": [], "tags": []}"#));
}
