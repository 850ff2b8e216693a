//! The calls of the attack-graph API.
use vstd::prelude::*;

use crate::client::obj;
use crate::json::{Json, JsonValue, fields_json, json_str, push_field};
use crate::models::AttackType;
use crate::request::{
    ApiRequest, HttpMethod, ResponseMode, V4_PREFIX, api_call, api_query_call, join4, join5,
    json_call, object_body, pairs_view, push_param, request,
};
use crate::text::{decimal, decimal_string};

verus! {

/// The calls of the attack-graph API, addressed to `base_url`.
#[derive(Debug, Clone)]
pub struct AttackApi {
    pub base_url: String,
}

impl AttackApi {
    /// The URL of `path` under the extended-route prefix.
    pub open spec fn v4_url(self, path: Seq<char>) -> Seq<char> {
        self.base_url@ + V4_PREFIX@ + path
    }

    /// Create an attack from `belief_id` on `target_belief_id`; `weight` is
    /// the bit pattern of the attack's `f64` weight.
    pub fn create(&self, belief_id: &str, target_belief_id: &str, attack_type: AttackType, weight: u64) -> (r:
        ApiRequest)
        ensures
            r@ == json_call(
                HttpMethod::Post,
                self.v4_url("/attacks/"@ + belief_id@),
                Some(
                    obj(
                        seq![
                            ("attack_type"@, Json::Str(attack_type.wire_name())),
                            ("target_belief_id"@, Json::Str(target_belief_id@)),
                            ("weight"@, Json::Float(weight)),
                        ],
                    ),
                ),
            ),
    {
        let mut fields: Vec<(String, JsonValue)> = Vec::new();
        push_field(&mut fields, "attack_type", json_str(attack_type.as_str()));
        push_field(&mut fields, "target_belief_id", json_str(target_belief_id));
        push_field(&mut fields, "weight", JsonValue::Float(weight));
        proof {
            assert(fields_json(fields@) =~= seq![
                ("attack_type"@, Json::Str(attack_type.wire_name())),
                ("target_belief_id"@, Json::Str(target_belief_id@)),
                ("weight"@, Json::Float(weight)),
            ]);
        }
        let url = join4(self.base_url.as_str(), V4_PREFIX, "/attacks/", belief_id);
        proof {
            assert(url@ =~= self.v4_url("/attacks/"@ + belief_id@));
        }
        api_call(HttpMethod::Post, url, object_body(fields), ResponseMode::Json)
    }

    pub fn list(&self, belief_id: &str) -> (r: ApiRequest)
        ensures
            r@ == json_call(HttpMethod::Get, self.v4_url("/attacks/"@ + belief_id@), None),
    {
        let url = join4(self.base_url.as_str(), V4_PREFIX, "/attacks/", belief_id);
        proof {
            assert(url@ =~= self.v4_url("/attacks/"@ + belief_id@));
        }
        api_call(HttpMethod::Get, url, None, ResponseMode::Json)
    }

    pub fn get_chain(&self, belief_id: &str, max_depth: u32) -> (r: ApiRequest)
        ensures
            r@ == request(
                HttpMethod::Get,
                self.v4_url("/attacks/"@ + belief_id@ + "/chain"@),
                seq![("max_depth"@, decimal(max_depth as nat))],
                None,
                ResponseMode::Json,
            ),
    {
        let mut params: Vec<(String, String)> = Vec::new();
        push_param(&mut params, "max_depth", decimal_string(max_depth as u64));
        proof {
            assert(pairs_view(params@) =~= seq![("max_depth"@, decimal(max_depth as nat))]);
        }
        let url = join5(self.base_url.as_str(), V4_PREFIX, "/attacks/", belief_id, "/chain");
        proof {
            assert(url@ =~= self.v4_url("/attacks/"@ + belief_id@ + "/chain"@));
        }
        api_query_call(HttpMethod::Get, url, params, ResponseMode::Json)
    }

    pub fn deactivate(&self, edge_id: &str) -> (r: ApiRequest)
        ensures
            r@ == json_call(
                HttpMethod::Post,
                self.v4_url("/attacks/"@ + edge_id@ + "/deactivate"@),
                None,
            ),
    {
        let url = join5(self.base_url.as_str(), V4_PREFIX, "/attacks/", edge_id, "/deactivate");
        proof {
            assert(url@ =~= self.v4_url("/attacks/"@ + edge_id@ + "/deactivate"@));
        }
        api_call(HttpMethod::Post, url, None, ResponseMode::Json)
    }
}

} // verus!
