//! The calls of the belief-revision API.
use vstd::prelude::*;

use crate::client::obj;
use crate::json::{
    Json, JsonValue, fields_json, items_json, json_array, json_str, opt_int_json, optional_field,
    push_field, push_optional_int,
};
use crate::request::{ApiRequest, HttpMethod, ResponseMode, V4_PREFIX, api_call, join3, json_call, object_body};

verus! {

/// The calls of the belief-revision API, addressed to `base_url`.
#[derive(Debug, Clone)]
pub struct RevisionApi {
    pub base_url: String,
}

impl RevisionApi {
    /// The URL of `path` under the extended-route prefix.
    pub open spec fn v4_url(self, path: Seq<char>) -> Seq<char> {
        self.base_url@ + V4_PREFIX@ + path
    }

    /// Set the revision policy; the two limits are sent only when given.
    pub fn set_policy(
        &self,
        policy_name: &str,
        max_retraction_depth: Option<i64>,
        max_retractions: Option<i64>,
    ) -> (r: ApiRequest)
        ensures
            r@ == json_call(
                HttpMethod::Post,
                self.v4_url("/revision/policy"@),
                Some(
                    obj(
                        optional_field("max_retraction_depth"@, opt_int_json(max_retraction_depth))
                            + optional_field("max_retractions"@, opt_int_json(max_retractions))
                            + seq![("policy_name"@, Json::Str(policy_name@))],
                    ),
                ),
            ),
    {
        let mut fields: Vec<(String, JsonValue)> = Vec::new();
        push_optional_int(&mut fields, "max_retraction_depth", max_retraction_depth);
        let ghost a = fields_json(fields@);
        push_optional_int(&mut fields, "max_retractions", max_retractions);
        let ghost b = fields_json(fields@);
        push_field(&mut fields, "policy_name", json_str(policy_name));
        proof {
            let oa = optional_field("max_retraction_depth"@, opt_int_json(max_retraction_depth));
            let ob = optional_field("max_retractions"@, opt_int_json(max_retractions));
            assert(a =~= oa);
            assert(b =~= oa + ob);
            assert(fields_json(fields@) =~= oa + ob + seq![("policy_name"@, Json::Str(policy_name@))]);
        }
        let url = join3(self.base_url.as_str(), V4_PREFIX, "/revision/policy");
        api_call(HttpMethod::Post, url, object_body(fields), ResponseMode::Json)
    }

    pub fn get_policy(&self) -> (r: ApiRequest)
        ensures
            r@ == json_call(HttpMethod::Get, self.v4_url("/revision/policy"@), None),
    {
        let url = join3(self.base_url.as_str(), V4_PREFIX, "/revision/policy");
        api_call(HttpMethod::Get, url, None, ResponseMode::Json)
    }

    pub fn list_audit(&self) -> (r: ApiRequest)
        ensures
            r@ == json_call(HttpMethod::Get, self.v4_url("/revision/audit"@), None),
    {
        let url = join3(self.base_url.as_str(), V4_PREFIX, "/revision/audit");
        api_call(HttpMethod::Get, url, None, ResponseMode::Json)
    }

    /// Revise a belief; each evidence item is given serialized.
    pub fn revise(
        &self,
        incoming_belief_id: &str,
        conflicting_evidence: Vec<JsonValue>,
        incoming_evidence: Vec<JsonValue>,
        agent_id: &str,
    ) -> (r: ApiRequest)
        ensures
            r@ == json_call(
                HttpMethod::Post,
                self.v4_url("/revision/revise"@),
                Some(
                    obj(
                        seq![
                            ("agent_id"@, Json::Str(agent_id@)),
                            ("conflicting_evidence"@, Json::Array(items_json(conflicting_evidence@))),
                            ("incoming_belief_id"@, Json::Str(incoming_belief_id@)),
                            ("incoming_evidence"@, Json::Array(items_json(incoming_evidence@))),
                        ],
                    ),
                ),
            ),
    {
        let ghost ce = items_json(conflicting_evidence@);
        let ghost ie = items_json(incoming_evidence@);
        let mut fields: Vec<(String, JsonValue)> = Vec::new();
        push_field(&mut fields, "agent_id", json_str(agent_id));
        push_field(&mut fields, "conflicting_evidence", json_array(conflicting_evidence));
        push_field(&mut fields, "incoming_belief_id", json_str(incoming_belief_id));
        push_field(&mut fields, "incoming_evidence", json_array(incoming_evidence));
        proof {
            assert(fields_json(fields@) =~= seq![
                ("agent_id"@, Json::Str(agent_id@)),
                ("conflicting_evidence"@, Json::Array(ce)),
                ("incoming_belief_id"@, Json::Str(incoming_belief_id@)),
                ("incoming_evidence"@, Json::Array(ie)),
            ]);
        }
        let url = join3(self.base_url.as_str(), V4_PREFIX, "/revision/revise");
        api_call(HttpMethod::Post, url, object_body(fields), ResponseMode::Json)
    }
}

} // verus!
