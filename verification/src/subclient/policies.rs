//! The calls of the policies API.
use vstd::prelude::*;

use crate::client::obj;
use crate::json::{
    Json, JsonValue, fields_json, items_json, json_array, json_str, opt_object_json,
    optional_field, push_field, push_optional_object,
};
use crate::models::PolicyStatus;
use crate::request::{
    ApiRequest, HttpMethod, ResponseMode, V4_PREFIX, api_call, join3, join4, join5, json_call,
    object_body,
};

verus! {

/// The calls of the policies API, addressed to `base_url`.
#[derive(Debug, Clone)]
pub struct PolicyApi {
    pub base_url: String,
}

impl PolicyApi {
    /// The URL of `path` under the extended-route prefix.
    pub open spec fn v4_url(self, path: Seq<char>) -> Seq<char> {
        self.base_url@ + V4_PREFIX@ + path
    }

    /// Create a policy; the applicability (an object) is sent only when
    /// given.
    pub fn create(
        &self,
        name: &str,
        steps: Vec<JsonValue>,
        description: &str,
        applicability: Option<Vec<(String, JsonValue)>>,
    ) -> (r: ApiRequest)
        ensures
            r@ == json_call(
                HttpMethod::Post,
                self.v4_url("/policies"@),
                Some(
                    obj(
                        optional_field("applicability"@, opt_object_json(applicability)) + seq![
                            ("description"@, Json::Str(description@)),
                            ("name"@, Json::Str(name@)),
                            ("steps"@, Json::Array(items_json(steps@))),
                        ],
                    ),
                ),
            ),
    {
        let ghost st = items_json(steps@);
        let mut fields: Vec<(String, JsonValue)> = Vec::new();
        push_optional_object(&mut fields, "applicability", applicability);
        let ghost a = fields_json(fields@);
        push_field(&mut fields, "description", json_str(description));
        push_field(&mut fields, "name", json_str(name));
        push_field(&mut fields, "steps", json_array(steps));
        proof {
            assert(a =~= optional_field("applicability"@, opt_object_json(applicability)));
            assert(fields_json(fields@) =~= a + seq![
                ("description"@, Json::Str(description@)),
                ("name"@, Json::Str(name@)),
                ("steps"@, Json::Array(st)),
            ]);
        }
        let url = join3(self.base_url.as_str(), V4_PREFIX, "/policies");
        api_call(HttpMethod::Post, url, object_body(fields), ResponseMode::Json)
    }

    pub fn list(&self) -> (r: ApiRequest)
        ensures
            r@ == json_call(HttpMethod::Get, self.v4_url("/policies"@), None),
    {
        let url = join3(self.base_url.as_str(), V4_PREFIX, "/policies");
        api_call(HttpMethod::Get, url, None, ResponseMode::Json)
    }

    pub fn get(&self, policy_id: &str) -> (r: ApiRequest)
        ensures
            r@ == json_call(HttpMethod::Get, self.v4_url("/policies/"@ + policy_id@), None),
    {
        let url = join4(self.base_url.as_str(), V4_PREFIX, "/policies/", policy_id);
        proof {
            assert(url@ =~= self.v4_url("/policies/"@ + policy_id@));
        }
        api_call(HttpMethod::Get, url, None, ResponseMode::Json)
    }

    pub fn get_history(&self, policy_id: &str) -> (r: ApiRequest)
        ensures
            r@ == json_call(
                HttpMethod::Get,
                self.v4_url("/policies/"@ + policy_id@ + "/history"@),
                None,
            ),
    {
        let url = join5(self.base_url.as_str(), V4_PREFIX, "/policies/", policy_id, "/history");
        proof {
            assert(url@ =~= self.v4_url("/policies/"@ + policy_id@ + "/history"@));
        }
        api_call(HttpMethod::Get, url, None, ResponseMode::Json)
    }

    pub fn update_status(&self, policy_id: &str, status: PolicyStatus) -> (r: ApiRequest)
        ensures
            r@ == json_call(
                HttpMethod::Patch,
                self.v4_url("/policies/"@ + policy_id@),
                Some(obj(seq![("status"@, Json::Str(status.wire_name()))])),
            ),
    {
        let mut fields: Vec<(String, JsonValue)> = Vec::new();
        push_field(&mut fields, "status", json_str(status.as_str()));
        proof {
            assert(fields_json(fields@) =~= seq![("status"@, Json::Str(status.wire_name()))]);
        }
        let url = join4(self.base_url.as_str(), V4_PREFIX, "/policies/", policy_id);
        proof {
            assert(url@ =~= self.v4_url("/policies/"@ + policy_id@));
        }
        api_call(HttpMethod::Patch, url, object_body(fields), ResponseMode::Json)
    }
}

} // verus!
