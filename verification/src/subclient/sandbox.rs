//! The calls of the what-if sandbox API.
use vstd::prelude::*;

use crate::client::obj;
use crate::json::{
    Json, JsonValue, fields_json, is_string_array, json_object, json_str, json_string_slice,
    lemma_field_value_concat, lemma_field_value_single, lemma_optional_field, member, opt_str_json,
    optional_field, push_field, push_optional_str,
};
use crate::models::{AttackType, BeliefType, CommitMode, Polarity, TruthState};
use crate::request::{
    ApiRequest, HttpMethod, ResponseMode, V4_PREFIX, api_call, join3, join4, join5, join7,
    json_call, object_body,
};

verus! {

/// The JSON form of an optional list of ids.
pub open spec fn opt_ids_json(ids: Option<&[String]>) -> Option<Json> {
    match ids {
        Some(s) => Some(Json::Array(Seq::new(s@.len(), |i: int| Json::Str(s@[i]@)))),
        None => None,
    }
}

/// A given list of ids is sent whole: one string per id, in order.
pub proof fn lemma_selected_ids_json(ids: &[String])
    ensures
        is_string_array(opt_ids_json(Some(ids)), ids@),
        opt_ids_json(None) is None,
{
}

/// The calls of the sandbox API, addressed to `base_url`.
#[derive(Debug, Clone)]
pub struct SandboxApi {
    pub base_url: String,
}

impl SandboxApi {
    /// The URL of `path` under the extended-route prefix.
    pub open spec fn v4_url(self, path: Seq<char>) -> Seq<char> {
        self.base_url@ + V4_PREFIX@ + path
    }

    /// The URL of `{suffix}` under the sandbox `sandbox_id`.
    pub open spec fn sandbox_url(self, sandbox_id: Seq<char>, suffix: Seq<char>) -> Seq<char> {
        self.v4_url("/sandbox/"@ + sandbox_id + suffix)
    }

    fn sandbox_path(&self, sandbox_id: &str, suffix: &str) -> (url: String)
        ensures
            url@ == self.sandbox_url(sandbox_id@, suffix@),
    {
        let url = join5(self.base_url.as_str(), V4_PREFIX, "/sandbox/", sandbox_id, suffix);
        proof {
            assert(url@ =~= self.sandbox_url(sandbox_id@, suffix@));
        }
        url
    }

    /// Fork a sandbox, from the frame `frame_id` when one is given.
    pub fn fork(&self, frame_id: Option<&str>, scenario_label: &str, ttl_seconds: u32) -> (r:
        ApiRequest)
        ensures
            r@ == json_call(
                HttpMethod::Post,
                self.v4_url("/sandbox/fork"@),
                Some(
                    obj(
                        optional_field("frame_id"@, opt_str_json(frame_id)) + seq![
                            ("scenario_label"@, Json::Str(scenario_label@)),
                            ("ttl_seconds"@, Json::Int(ttl_seconds as int)),
                        ],
                    ),
                ),
            ),
    {
        let mut fields: Vec<(String, JsonValue)> = Vec::new();
        push_optional_str(&mut fields, "frame_id", frame_id);
        let ghost a = fields_json(fields@);
        push_field(&mut fields, "scenario_label", json_str(scenario_label));
        push_field(&mut fields, "ttl_seconds", JsonValue::UInt(ttl_seconds as u64));
        proof {
            assert(a =~= optional_field("frame_id"@, opt_str_json(frame_id)));
            assert(fields_json(fields@) =~= a + seq![
                ("scenario_label"@, Json::Str(scenario_label@)),
                ("ttl_seconds"@, Json::Int(ttl_seconds as int)),
            ]);
        }
        let url = join3(self.base_url.as_str(), V4_PREFIX, "/sandbox/fork");
        api_call(HttpMethod::Post, url, object_body(fields), ResponseMode::Json)
    }

    /// Fork a sandbox with server defaults, from the frame `frame_id` when
    /// one is given.
    pub fn quick(&self, frame_id: Option<&str>) -> (r: ApiRequest)
        ensures
            r@ == json_call(
                HttpMethod::Post,
                self.v4_url("/sandbox/quick"@),
                Some(obj(optional_field("frame_id"@, opt_str_json(frame_id)))),
            ),
    {
        let mut fields: Vec<(String, JsonValue)> = Vec::new();
        push_optional_str(&mut fields, "frame_id", frame_id);
        proof {
            assert(fields_json(fields@) =~= optional_field("frame_id"@, opt_str_json(frame_id)));
        }
        let url = join3(self.base_url.as_str(), V4_PREFIX, "/sandbox/quick");
        api_call(HttpMethod::Post, url, object_body(fields), ResponseMode::Json)
    }

    pub fn get_context(&self, sandbox_id: &str) -> (r: ApiRequest)
        ensures
            r@ == json_call(HttpMethod::Get, self.sandbox_url(sandbox_id@, "/context"@), None),
    {
        api_call(HttpMethod::Get, self.sandbox_path(sandbox_id, "/context"), None, ResponseMode::Json)
    }

    pub fn assume_truth(&self, sandbox_id: &str, belief_id: &str, truth_state: TruthState) -> (r:
        ApiRequest)
        ensures
            r@ == json_call(
                HttpMethod::Post,
                self.sandbox_url(sandbox_id@, "/assume"@),
                Some(
                    obj(
                        seq![
                            ("belief_id"@, Json::Str(belief_id@)),
                            ("truth_state"@, Json::Str(truth_state.wire_name())),
                        ],
                    ),
                ),
            ),
    {
        let mut fields: Vec<(String, JsonValue)> = Vec::new();
        push_field(&mut fields, "belief_id", json_str(belief_id));
        push_field(&mut fields, "truth_state", json_str(truth_state.as_str()));
        proof {
            assert(fields_json(fields@) =~= seq![
                ("belief_id"@, Json::Str(belief_id@)),
                ("truth_state"@, Json::Str(truth_state.wire_name())),
            ]);
        }
        api_call(
            HttpMethod::Post,
            self.sandbox_path(sandbox_id, "/assume"),
            object_body(fields),
            ResponseMode::Json,
        )
    }

    pub fn retract(&self, sandbox_id: &str, evidence_id: &str) -> (r: ApiRequest)
        ensures
            r@ == json_call(
                HttpMethod::Post,
                self.sandbox_url(sandbox_id@, "/retract"@),
                Some(obj(seq![("evidence_id"@, Json::Str(evidence_id@))])),
            ),
    {
        let mut fields: Vec<(String, JsonValue)> = Vec::new();
        push_field(&mut fields, "evidence_id", json_str(evidence_id));
        proof {
            assert(fields_json(fields@) =~= seq![("evidence_id"@, Json::Str(evidence_id@))]);
        }
        api_call(
            HttpMethod::Post,
            self.sandbox_path(sandbox_id, "/retract"),
            object_body(fields),
            ResponseMode::Json,
        )
    }

    pub fn believe(&self, sandbox_id: &str, claim: &str, belief_type: BeliefType) -> (r: ApiRequest)
        ensures
            r@ == json_call(
                HttpMethod::Post,
                self.sandbox_url(sandbox_id@, "/believe"@),
                Some(
                    obj(
                        seq![
                            ("belief_type"@, Json::Str(belief_type.wire_name())),
                            ("claim"@, Json::Str(claim@)),
                        ],
                    ),
                ),
            ),
    {
        let mut fields: Vec<(String, JsonValue)> = Vec::new();
        push_field(&mut fields, "belief_type", json_str(belief_type.as_str()));
        push_field(&mut fields, "claim", json_str(claim));
        proof {
            assert(fields_json(fields@) =~= seq![
                ("belief_type"@, Json::Str(belief_type.wire_name())),
                ("claim"@, Json::Str(claim@)),
            ]);
        }
        api_call(
            HttpMethod::Post,
            self.sandbox_path(sandbox_id, "/believe"),
            object_body(fields),
            ResponseMode::Json,
        )
    }

    /// Add evidence to a belief inside the sandbox. `weight` and
    /// `reliability` are the bit patterns of the evidence's `f64` values; the
    /// evidence's scope is not sent.
    pub fn revise(
        &self,
        sandbox_id: &str,
        belief_id: &str,
        source_ref: &str,
        content: &str,
        polarity: Polarity,
        weight: u64,
        reliability: u64,
    ) -> (r: ApiRequest)
        ensures
            r@ == json_call(
                HttpMethod::Post,
                self.sandbox_url(sandbox_id@, "/revise"@),
                Some(
                    obj(
                        seq![
                            ("belief_id"@, Json::Str(belief_id@)),
                            ("content"@, Json::Str(content@)),
                            ("polarity"@, Json::Str(polarity.wire_name())),
                            ("reliability"@, Json::Float(reliability)),
                            ("source_ref"@, Json::Str(source_ref@)),
                            ("weight"@, Json::Float(weight)),
                        ],
                    ),
                ),
            ),
    {
        let mut fields: Vec<(String, JsonValue)> = Vec::new();
        push_field(&mut fields, "belief_id", json_str(belief_id));
        push_field(&mut fields, "content", json_str(content));
        push_field(&mut fields, "polarity", json_str(polarity.as_str()));
        push_field(&mut fields, "reliability", JsonValue::Float(reliability));
        push_field(&mut fields, "source_ref", json_str(source_ref));
        push_field(&mut fields, "weight", JsonValue::Float(weight));
        proof {
            assert(fields_json(fields@) =~= seq![
                ("belief_id"@, Json::Str(belief_id@)),
                ("content"@, Json::Str(content@)),
                ("polarity"@, Json::Str(polarity.wire_name())),
                ("reliability"@, Json::Float(reliability)),
                ("source_ref"@, Json::Str(source_ref@)),
                ("weight"@, Json::Float(weight)),
            ]);
        }
        api_call(
            HttpMethod::Post,
            self.sandbox_path(sandbox_id, "/revise"),
            object_body(fields),
            ResponseMode::Json,
        )
    }

    /// Add a temporary attack inside the sandbox; `weight` is the bit pattern
    /// of the attack's `f64` weight.
    pub fn attack(
        &self,
        sandbox_id: &str,
        attacker_belief_id: &str,
        target_belief_id: &str,
        attack_type: AttackType,
        weight: u64,
    ) -> (r: ApiRequest)
        ensures
            r@ == json_call(
                HttpMethod::Post,
                self.sandbox_url(sandbox_id@, "/attack"@),
                Some(
                    obj(
                        seq![
                            ("attack_type"@, Json::Str(attack_type.wire_name())),
                            ("attacker_belief_id"@, Json::Str(attacker_belief_id@)),
                            ("target_belief_id"@, Json::Str(target_belief_id@)),
                            ("weight"@, Json::Float(weight)),
                        ],
                    ),
                ),
            ),
    {
        let mut fields: Vec<(String, JsonValue)> = Vec::new();
        push_field(&mut fields, "attack_type", json_str(attack_type.as_str()));
        push_field(&mut fields, "attacker_belief_id", json_str(attacker_belief_id));
        push_field(&mut fields, "target_belief_id", json_str(target_belief_id));
        push_field(&mut fields, "weight", JsonValue::Float(weight));
        proof {
            assert(fields_json(fields@) =~= seq![
                ("attack_type"@, Json::Str(attack_type.wire_name())),
                ("attacker_belief_id"@, Json::Str(attacker_belief_id@)),
                ("target_belief_id"@, Json::Str(target_belief_id@)),
                ("weight"@, Json::Float(weight)),
            ]);
        }
        api_call(
            HttpMethod::Post,
            self.sandbox_path(sandbox_id, "/attack"),
            object_body(fields),
            ResponseMode::Json,
        )
    }

    pub fn diff(&self, sandbox_id: &str) -> (r: ApiRequest)
        ensures
            r@ == json_call(HttpMethod::Get, self.sandbox_url(sandbox_id@, "/diff"@), None),
    {
        api_call(HttpMethod::Get, self.sandbox_path(sandbox_id, "/diff"), None, ResponseMode::Json)
    }

    /// Commit the sandbox; the selected ids are sent only when given.
    pub fn commit(&self, sandbox_id: &str, commit_mode: CommitMode, selected_ids: Option<&[String]>) -> (r:
        ApiRequest)
        ensures
            r@ == json_call(
                HttpMethod::Post,
                self.sandbox_url(sandbox_id@, "/commit"@),
                Some(
                    obj(
                        seq![("commit_mode"@, Json::Str(commit_mode.wire_name()))]
                            + optional_field("selected_ids"@, opt_ids_json(selected_ids)),
                    ),
                ),
            ),
            member(r@.body.unwrap(), "commit_mode"@) == Some(Json::Str(commit_mode.wire_name())),
            selected_ids is None ==> member(r@.body.unwrap(), "selected_ids"@) is None,
            selected_ids matches Some(ids) ==> is_string_array(
                member(r@.body.unwrap(), "selected_ids"@),
                ids@,
            ),
    {
        let mut fields: Vec<(String, JsonValue)> = Vec::new();
        push_field(&mut fields, "commit_mode", json_str(commit_mode.as_str()));
        let ghost a = fields_json(fields@);
        match selected_ids {
            Some(ids) => push_field(&mut fields, "selected_ids", json_string_slice(ids)),
            None => {},
        }
        proof {
            assert(a =~= seq![("commit_mode"@, Json::Str(commit_mode.wire_name()))]);
            assert(fields_json(fields@) =~= a + optional_field(
                "selected_ids"@,
                opt_ids_json(selected_ids),
            ));
            reveal_strlit("commit_mode");
            reveal_strlit("selected_ids");
            assert("commit_mode"@[0] != "selected_ids"@[0]);
            let ids_json = opt_ids_json(selected_ids);
            lemma_field_value_concat(a, optional_field("selected_ids"@, ids_json), "commit_mode"@);
            lemma_field_value_concat(a, optional_field("selected_ids"@, ids_json), "selected_ids"@);
            lemma_field_value_single("commit_mode"@, Json::Str(commit_mode.wire_name()), "commit_mode"@);
            lemma_field_value_single("commit_mode"@, Json::Str(commit_mode.wire_name()), "selected_ids"@);
            lemma_optional_field("selected_ids"@, ids_json, "commit_mode"@);
            lemma_optional_field("selected_ids"@, ids_json, "selected_ids"@);
            if let Some(ids) = selected_ids {
                lemma_selected_ids_json(ids);
            }
        }
        api_call(
            HttpMethod::Post,
            self.sandbox_path(sandbox_id, "/commit"),
            object_body(fields),
            ResponseMode::Json,
        )
    }

    pub fn discard(&self, sandbox_id: &str) -> (r: ApiRequest)
        ensures
            r@ == json_call(HttpMethod::Post, self.sandbox_url(sandbox_id@, "/discard"@), None),
    {
        api_call(HttpMethod::Post, self.sandbox_path(sandbox_id, "/discard"), None, ResponseMode::Json)
    }

    pub fn explain(&self, sandbox_id: &str, belief_id: &str) -> (r: ApiRequest)
        ensures
            r@ == json_call(
                HttpMethod::Get,
                self.sandbox_url(sandbox_id@, "/explain/"@ + belief_id@),
                None,
            ),
    {
        let url = join7(
            self.base_url.as_str(),
            V4_PREFIX,
            "/sandbox/",
            sandbox_id,
            "/explain/",
            belief_id,
            "",
        );
        proof {
            reveal_strlit("");
            assert(url@ =~= self.sandbox_url(sandbox_id@, "/explain/"@ + belief_id@));
        }
        api_call(HttpMethod::Get, url, None, ResponseMode::Json)
    }

    pub fn evaluate_goal(&self, sandbox_id: &str, goal_id: &str) -> (r: ApiRequest)
        ensures
            r@ == json_call(
                HttpMethod::Get,
                self.sandbox_url(sandbox_id@, "/goals/"@ + goal_id@ + "/evaluate"@),
                None,
            ),
    {
        let url = join7(
            self.base_url.as_str(),
            V4_PREFIX,
            "/sandbox/",
            sandbox_id,
            "/goals/",
            goal_id,
            "/evaluate",
        );
        proof {
            assert(url@ =~= self.sandbox_url(sandbox_id@, "/goals/"@ + goal_id@ + "/evaluate"@));
        }
        api_call(HttpMethod::Get, url, None, ResponseMode::Json)
    }
}

} // verus!
