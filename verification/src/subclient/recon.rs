//! The calls of the reconsolidation API.
use vstd::prelude::*;

use crate::request::{ApiRequest, HttpMethod, ResponseMode, V4_PREFIX, api_call, join3, json_call};

verus! {

/// The calls of the reconsolidation API, addressed to `base_url`.
#[derive(Debug, Clone)]
pub struct ReconsolidationApi {
    pub base_url: String,
}

impl ReconsolidationApi {
    /// The URL of `path` under the extended-route prefix.
    pub open spec fn v4_url(self, path: Seq<char>) -> Seq<char> {
        self.base_url@ + V4_PREFIX@ + path
    }

    pub fn queue(&self) -> (r: ApiRequest)
        ensures
            r@ == json_call(HttpMethod::Get, self.v4_url("/reconsolidation/queue"@), None),
    {
        let url = join3(self.base_url.as_str(), V4_PREFIX, "/reconsolidation/queue");
        api_call(HttpMethod::Get, url, None, ResponseMode::Json)
    }

    pub fn run(&self) -> (r: ApiRequest)
        ensures
            r@ == json_call(HttpMethod::Post, self.v4_url("/reconsolidation/run"@), None),
    {
        let url = join3(self.base_url.as_str(), V4_PREFIX, "/reconsolidation/run");
        api_call(HttpMethod::Post, url, None, ResponseMode::Json)
    }
}

} // verus!
