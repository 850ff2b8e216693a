//! The calls of the goals API.
use vstd::prelude::*;

use crate::client::obj;
use crate::json::{
    Json, JsonValue, fields_json, json_str, opt_object_json, opt_str_json, optional_field,
    push_field, push_optional_object, push_optional_str,
};
use crate::models::GoalStatus;
use crate::request::{
    ApiRequest, HttpMethod, ResponseMode, V4_PREFIX, api_call, join3, join4, join5, json_call,
    object_body,
};

verus! {

/// The calls of the goals API, addressed to `base_url`.
#[derive(Debug, Clone)]
pub struct GoalApi {
    pub base_url: String,
}

impl GoalApi {
    /// The URL of `path` under the extended-route prefix.
    pub open spec fn v4_url(self, path: Seq<char>) -> Seq<char> {
        self.base_url@ + V4_PREFIX@ + path
    }

    /// Create a goal; `priority` is the bit pattern of its `f64` priority.
    /// The success criteria (an object) and the deadline are sent only when
    /// given.
    pub fn create(
        &self,
        goal: &str,
        owner: &str,
        priority: u64,
        success_criteria: Option<Vec<(String, JsonValue)>>,
        deadline: Option<&str>,
    ) -> (r: ApiRequest)
        ensures
            r@ == json_call(
                HttpMethod::Post,
                self.v4_url("/goals"@),
                Some(
                    obj(
                        optional_field("deadline"@, opt_str_json(deadline)) + seq![
                            ("goal"@, Json::Str(goal@)),
                            ("owner"@, Json::Str(owner@)),
                            ("priority"@, Json::Float(priority)),
                        ] + optional_field("success_criteria"@, opt_object_json(success_criteria)),
                    ),
                ),
            ),
    {
        let mut fields: Vec<(String, JsonValue)> = Vec::new();
        push_optional_str(&mut fields, "deadline", deadline);
        let ghost a = fields_json(fields@);
        push_field(&mut fields, "goal", json_str(goal));
        push_field(&mut fields, "owner", json_str(owner));
        push_field(&mut fields, "priority", JsonValue::Float(priority));
        let ghost b = fields_json(fields@);
        push_optional_object(&mut fields, "success_criteria", success_criteria);
        proof {
            let mid = seq![
                ("goal"@, Json::Str(goal@)),
                ("owner"@, Json::Str(owner@)),
                ("priority"@, Json::Float(priority)),
            ];
            assert(a =~= optional_field("deadline"@, opt_str_json(deadline)));
            assert(b =~= a + mid);
            assert(fields_json(fields@) =~= optional_field("deadline"@, opt_str_json(deadline))
                + mid + optional_field("success_criteria"@, opt_object_json(success_criteria)));
        }
        let url = join3(self.base_url.as_str(), V4_PREFIX, "/goals");
        api_call(HttpMethod::Post, url, object_body(fields), ResponseMode::Json)
    }

    pub fn list(&self) -> (r: ApiRequest)
        ensures
            r@ == json_call(HttpMethod::Get, self.v4_url("/goals"@), None),
    {
        let url = join3(self.base_url.as_str(), V4_PREFIX, "/goals");
        api_call(HttpMethod::Get, url, None, ResponseMode::Json)
    }

    pub fn get(&self, goal_id: &str) -> (r: ApiRequest)
        ensures
            r@ == json_call(HttpMethod::Get, self.v4_url("/goals/"@ + goal_id@), None),
    {
        let url = join4(self.base_url.as_str(), V4_PREFIX, "/goals/", goal_id);
        proof {
            assert(url@ =~= self.v4_url("/goals/"@ + goal_id@));
        }
        api_call(HttpMethod::Get, url, None, ResponseMode::Json)
    }

    pub fn evaluate(&self, goal_id: &str) -> (r: ApiRequest)
        ensures
            r@ == json_call(
                HttpMethod::Get,
                self.v4_url("/goals/"@ + goal_id@ + "/evaluate"@),
                None,
            ),
    {
        let url = join5(self.base_url.as_str(), V4_PREFIX, "/goals/", goal_id, "/evaluate");
        proof {
            assert(url@ =~= self.v4_url("/goals/"@ + goal_id@ + "/evaluate"@));
        }
        api_call(HttpMethod::Get, url, None, ResponseMode::Json)
    }

    pub fn update_status(&self, goal_id: &str, status: GoalStatus) -> (r: ApiRequest)
        ensures
            r@ == json_call(
                HttpMethod::Patch,
                self.v4_url("/goals/"@ + goal_id@),
                Some(obj(seq![("status"@, Json::Str(status.wire_name()))])),
            ),
    {
        let mut fields: Vec<(String, JsonValue)> = Vec::new();
        push_field(&mut fields, "status", json_str(status.as_str()));
        proof {
            assert(fields_json(fields@) =~= seq![("status"@, Json::Str(status.wire_name()))]);
        }
        let url = join4(self.base_url.as_str(), V4_PREFIX, "/goals/", goal_id);
        proof {
            assert(url@ =~= self.v4_url("/goals/"@ + goal_id@));
        }
        api_call(HttpMethod::Patch, url, object_body(fields), ResponseMode::Json)
    }

    pub fn abandon(&self, goal_id: &str) -> (r: ApiRequest)
        ensures
            r@ == json_call(
                HttpMethod::Post,
                self.v4_url("/goals/"@ + goal_id@ + "/abandon"@),
                None,
            ),
    {
        let url = join5(self.base_url.as_str(), V4_PREFIX, "/goals/", goal_id, "/abandon");
        proof {
            assert(url@ =~= self.v4_url("/goals/"@ + goal_id@ + "/abandon"@));
        }
        api_call(HttpMethod::Post, url, None, ResponseMode::Json)
    }
}

} // verus!
