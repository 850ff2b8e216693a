//! Client configuration and the calls of the core API.
use std::time::Duration;

use vstd::prelude::*;

use crate::json::{
    Json, JsonValue, fields_json, field_value, items_json, json_array, json_str, push_field,
};
use crate::models::{BeliefType, ConflictPolicy, FrameOpenRequest, LiteFrameOpenRequest, TruthState};
use crate::request::{
    ApiRequest, HttpMethod, ResponseMode, V4_PREFIX, api_call, api_query_call, body_view, join2,
    join3, join4, join5, json_call, object_body, pairs_view, push_param, request,
};
use crate::subclient::{AttackApi, GoalApi, PolicyApi, ReconsolidationApi, RevisionApi, SandboxApi};
use crate::text::{
    decimal, decimal_string, header_char_ok, header_text_ok, header_value_accepts, text_eq,
    trim_trailing_slashes, trim_trailing_slashes_of,
};

verus! {

/// The request timeout a client is built with.
#[derive(Debug, Clone, Copy, PartialEq, Eq)]
pub enum RequestTimeout {
    /// A whole number of seconds.
    Seconds(u64),
    /// A duration the caller gave.
    Given(Duration),
}

/// The timeout of a client whose builder was given none.
pub const DEFAULT_TIMEOUT_SECS: u64 = 30;

/// Builder for the HTTP client.
#[derive(Debug, Clone)]
pub struct MnemeBrainClientBuilder {
    base_url: String,
    timeout: RequestTimeout,
    api_key: Option<String>,
    user_agent: Option<String>,
}

pub struct BuilderView {
    pub base_url: Seq<char>,
    pub timeout: RequestTimeout,
    pub api_key: Option<Seq<char>>,
    pub user_agent: Option<Seq<char>>,
}

pub open spec fn opt_text(o: Option<String>) -> Option<Seq<char>> {
    match o {
        Some(s) => Some(s@),
        None => None,
    }
}

/// The value of the `Authorization` header for `key`.
pub open spec fn bearer(key: Seq<char>) -> Seq<char> {
    "Bearer "@ + key
}

/// The builder holds an API key whose `Bearer` value cannot stand in an
/// HTTP header.
pub open spec fn api_key_rejected(b: BuilderView) -> bool {
    match b.api_key {
        Some(k) => !header_text_ok(bearer(k)),
        None => false,
    }
}

/// The builder holds a user agent that cannot stand in an HTTP header.
pub open spec fn user_agent_rejected(b: BuilderView) -> bool {
    match b.user_agent {
        Some(ua) => !header_text_ok(ua),
        None => false,
    }
}

/// A character HTTP refuses in a header value: an ASCII control character
/// other than tab, or DEL.
pub open spec fn is_header_control(c: char) -> bool {
    (c as u32) < 32 && c != '\t' || c as u32 == 127
}

/// The configuration checks refuse a user agent exactly when one of its
/// characters is a control character other than tab, or DEL, and an API key
/// exactly when one of the key's characters is; spaces, punctuation and
/// non-ASCII text pass.
pub proof fn lemma_header_checks(b: BuilderView)
    ensures
        user_agent_rejected(b) <==> (b.user_agent is Some && exists|i: int|
            0 <= i < b.user_agent.unwrap().len() && is_header_control(
                #[trigger] b.user_agent.unwrap()[i],
            )),
        api_key_rejected(b) <==> (b.api_key is Some && exists|i: int|
            0 <= i < b.api_key.unwrap().len() && is_header_control(#[trigger] b.api_key.unwrap()[i])),
{
    reveal_strlit("Bearer ");
    if let Some(k) = b.api_key {
        let s = bearer(k);
        let p = "Bearer "@;
        assert(s.len() == p.len() + k.len());
        assert forall|i: int| 0 <= i < p.len() implies header_char_ok(#[trigger] s[i]) by {
            assert(s[i] == p[i]);
        }
        if api_key_rejected(b) {
            let i = choose|i: int| 0 <= i < s.len() && !header_char_ok(#[trigger] s[i]);
            assert(k[i - p.len()] == s[i]);
        }
        if exists|i: int| 0 <= i < k.len() && is_header_control(#[trigger] k[i]) {
            let i = choose|i: int| 0 <= i < k.len() && is_header_control(#[trigger] k[i]);
            assert(s[i + p.len()] == k[i]);
        }
    }
}

impl View for MnemeBrainClientBuilder {
    type V = BuilderView;

    closed spec fn view(&self) -> BuilderView {
        BuilderView {
            base_url: self.base_url@,
            timeout: self.timeout,
            api_key: opt_text(self.api_key),
            user_agent: opt_text(self.user_agent),
        }
    }
}

/// Why a builder describes no client.
#[derive(Debug, Clone, Copy, PartialEq, Eq, Structural)]
pub enum ConfigError {
    /// `Bearer {key}` is not a valid HTTP header value.
    InvalidApiKey,
    /// The user agent is not a valid HTTP header value.
    InvalidUserAgent,
}

/// Everything the HTTP layer needs to build a client.
#[derive(Debug, Clone)]
pub struct ClientConfig {
    /// The server's base URL without trailing slashes.
    pub base_url: String,
    pub timeout: RequestTimeout,
    /// The value of the `Authorization` header sent with every request.
    pub authorization: Option<String>,
    pub user_agent: Option<String>,
}

impl MnemeBrainClientBuilder {
    /// Start building a client pointed at `base_url`.
    ///
    /// Defaults: 30 s timeout, no authentication, no custom user-agent.
    pub fn new(base_url: &str) -> (r: MnemeBrainClientBuilder)
        ensures
            r@ == (BuilderView {
                base_url: base_url@,
                timeout: RequestTimeout::Seconds(30),
                api_key: None,
                user_agent: None,
            }),
    {
        MnemeBrainClientBuilder {
            base_url: String::from_str(base_url),
            timeout: RequestTimeout::Seconds(DEFAULT_TIMEOUT_SECS),
            api_key: None,
            user_agent: None,
        }
    }

    /// The builder of the convenience client: `http://localhost:8000` with
    /// the 30 s default timeout, no authentication and no custom user agent.
    pub fn localhost() -> (r: MnemeBrainClientBuilder)
        ensures
            r@ == (BuilderView {
                base_url: "http://localhost:8000"@,
                timeout: RequestTimeout::Seconds(30),
                api_key: None,
                user_agent: None,
            }),
    {
        MnemeBrainClientBuilder::new("http://localhost:8000")
    }

    /// Override the request timeout.
    pub fn timeout(self, timeout: Duration) -> (r: MnemeBrainClientBuilder)
        ensures
            r@ == (BuilderView { timeout: RequestTimeout::Given(timeout), ..self@ }),
    {
        MnemeBrainClientBuilder { timeout: RequestTimeout::Given(timeout), ..self }
    }

    /// Set a Bearer token for every request.
    pub fn api_key(self, api_key: &str) -> (r: MnemeBrainClientBuilder)
        ensures
            r@ == (BuilderView { api_key: Some(api_key@), ..self@ }),
    {
        MnemeBrainClientBuilder { api_key: Some(String::from_str(api_key)), ..self }
    }

    /// Override the User-Agent header.
    pub fn user_agent(self, user_agent: &str) -> (r: MnemeBrainClientBuilder)
        ensures
            r@ == (BuilderView { user_agent: Some(user_agent@), ..self@ }),
    {
        MnemeBrainClientBuilder { user_agent: Some(String::from_str(user_agent)), ..self }
    }

    /// The configuration of the client this builder describes: the base URL
    /// without trailing slashes and the `Bearer` authorization value. Fails
    /// when the API key, and otherwise when the user agent, cannot stand in
    /// an HTTP header.
    pub fn into_config(self) -> (r: core::result::Result<ClientConfig, ConfigError>)
        ensures
            (r == Err::<ClientConfig, ConfigError>(ConfigError::InvalidApiKey)) <==> api_key_rejected(
                self@,
            ),
            (r == Err::<ClientConfig, ConfigError>(ConfigError::InvalidUserAgent)) <==> (
            !api_key_rejected(self@) && user_agent_rejected(self@)),
            r matches Ok(c) ==> {
                &&& c.base_url@ == trim_trailing_slashes(self@.base_url)
                &&& c.timeout == self@.timeout
                &&& opt_text(c.authorization) == match self@.api_key {
                    Some(k) => Some(bearer(k)),
                    None => None,
                }
                &&& opt_text(c.user_agent) == self@.user_agent
            },
    {
        let authorization = match &self.api_key {
            Some(key) => {
                let value = join2("Bearer ", key.as_str());
                if !header_value_accepts(value.as_str()) {
                    return Err(ConfigError::InvalidApiKey);
                }
                Some(value)
            },
            None => None,
        };
        match &self.user_agent {
            Some(ua) => {
                if !header_value_accepts(ua.as_str()) {
                    return Err(ConfigError::InvalidUserAgent);
                }
            },
            None => {},
        }
        Ok(
            ClientConfig {
                base_url: trim_trailing_slashes_of(self.base_url.as_str()),
                timeout: self.timeout,
                authorization,
                user_agent: self.user_agent,
            },
        )
    }
}

/// The convenience client's configuration is always accepted: its base URL
/// has no trailing slash to trim, it sends no `Authorization` header, and it
/// waits 30 s.
pub proof fn lemma_localhost_config(b: BuilderView)
    requires
        b == (BuilderView {
            base_url: "http://localhost:8000"@,
            timeout: RequestTimeout::Seconds(30),
            api_key: None,
            user_agent: None,
        }),
    ensures
        !api_key_rejected(b),
        !user_agent_rejected(b),
        trim_trailing_slashes(b.base_url) == b.base_url,
        b.timeout == RequestTimeout::Seconds(DEFAULT_TIMEOUT_SECS),
{
    reveal_strlit("http://localhost:8000");
    assert(b.base_url.last() == '0');
}

/// The calls of the core API, addressed to `base_url`.
#[derive(Debug, Clone)]
pub struct CoreApi {
    pub base_url: String,
}

/// The fields of an object in one list.
pub open spec fn obj(fields: Seq<(Seq<char>, Json)>) -> Json {
    Json::Object(fields)
}

impl CoreApi {
    pub fn new(base_url: String) -> (r: CoreApi)
        ensures
            r.base_url == base_url,
    {
        CoreApi { base_url }
    }

    /// The URL of `path` on the server.
    pub open spec fn url(self, path: Seq<char>) -> Seq<char> {
        self.base_url@ + path
    }

    /// The URL of `path` under the extended-route prefix.
    pub open spec fn v4_url(self, path: Seq<char>) -> Seq<char> {
        self.base_url@ + V4_PREFIX@ + path
    }

    // ── Health ──

    pub fn health(&self) -> (r: ApiRequest)
        ensures
            r@ == json_call(HttpMethod::Get, self.url("/health"@), None),
    {
        api_call(HttpMethod::Get, join2(self.base_url.as_str(), "/health"), None, ResponseMode::Json)
    }

    // ── Core operations ──

    /// Assert a new belief; `body` is the serialized believe request.
    pub fn believe(&self, body: JsonValue) -> (r: ApiRequest)
        ensures
            r@ == json_call(HttpMethod::Post, self.url("/believe"@), Some(body.json())),
    {
        api_call(
            HttpMethod::Post,
            join2(self.base_url.as_str(), "/believe"),
            Some(body),
            ResponseMode::Json,
        )
    }

    /// Explain a claim; a 404 answer means the claim is unknown.
    pub fn explain(&self, claim: &str) -> (r: ApiRequest)
        ensures
            r@ == request(
                HttpMethod::Get,
                self.url("/explain"@),
                seq![("claim"@, claim@)],
                None,
                ResponseMode::JsonOrNotFound,
            ),
    {
        let mut query: Vec<(String, String)> = Vec::new();
        push_param(&mut query, "claim", String::from_str(claim));
        proof {
            assert(pairs_view(query@) =~= seq![("claim"@, claim@)]);
        }
        api_query_call(
            HttpMethod::Get,
            join2(self.base_url.as_str(), "/explain"),
            query,
            ResponseMode::JsonOrNotFound,
        )
    }

    /// Search beliefs. `alpha` is the rendering of the search's alpha weight.
    pub fn search(&self, query: &str, limit: u32, alpha: &str, conflict_policy: ConflictPolicy) -> (r:
        ApiRequest)
        ensures
            r@ == request(
                HttpMethod::Get,
                self.url("/search"@),
                seq![
                    ("query"@, query@),
                    ("limit"@, decimal(limit as nat)),
                    ("alpha"@, alpha@),
                    ("conflict_policy"@, conflict_policy.wire_name()),
                ],
                None,
                ResponseMode::Json,
            ),
    {
        let mut params: Vec<(String, String)> = Vec::new();
        push_param(&mut params, "query", String::from_str(query));
        push_param(&mut params, "limit", decimal_string(limit as u64));
        push_param(&mut params, "alpha", String::from_str(alpha));
        push_param(&mut params, "conflict_policy", String::from_str(conflict_policy.as_str()));
        proof {
            assert(pairs_view(params@) =~= seq![
                ("query"@, query@),
                ("limit"@, decimal(limit as nat)),
                ("alpha"@, alpha@),
                ("conflict_policy"@, conflict_policy.wire_name()),
            ]);
        }
        api_query_call(
            HttpMethod::Get,
            join2(self.base_url.as_str(), "/search"),
            params,
            ResponseMode::Json,
        )
    }

    /// Retract a piece of evidence.
    pub fn retract(&self, evidence_id: &str) -> (r: ApiRequest)
        ensures
            r@ == json_call(
                HttpMethod::Post,
                self.url("/retract"@),
                Some(obj(seq![("evidence_id"@, Json::Str(evidence_id@))])),
            ),
    {
        let mut fields: Vec<(String, JsonValue)> = Vec::new();
        push_field(&mut fields, "evidence_id", json_str(evidence_id));
        proof {
            assert(fields_json(fields@) =~= seq![("evidence_id"@, Json::Str(evidence_id@))]);
        }
        api_call(
            HttpMethod::Post,
            join2(self.base_url.as_str(), "/retract"),
            object_body(fields),
            ResponseMode::Json,
        )
    }

    /// Add evidence to an existing belief; `evidence` is the serialized
    /// evidence.
    pub fn revise(&self, belief_id: &str, evidence: JsonValue) -> (r: ApiRequest)
        ensures
            r@ == json_call(
                HttpMethod::Post,
                self.url("/revise"@),
                Some(obj(seq![("belief_id"@, Json::Str(belief_id@)), ("evidence"@, evidence.json())])),
            ),
    {
        let ghost ev = evidence.json();
        let mut fields: Vec<(String, JsonValue)> = Vec::new();
        push_field(&mut fields, "belief_id", json_str(belief_id));
        push_field(&mut fields, "evidence", evidence);
        proof {
            assert(fields_json(fields@) =~= seq![
                ("belief_id"@, Json::Str(belief_id@)),
                ("evidence"@, ev),
            ]);
        }
        api_call(
            HttpMethod::Post,
            join2(self.base_url.as_str(), "/revise"),
            object_body(fields),
            ResponseMode::Json,
        )
    }

    /// List beliefs. `min_confidence` and `max_confidence` are the renderings
    /// of the confidence bounds; the truth state, belief type and tag are
    /// sent only when present.
    pub fn list_beliefs(
        &self,
        min_confidence: &str,
        max_confidence: &str,
        limit: u32,
        offset: u32,
        truth_state: Option<TruthState>,
        belief_type: Option<BeliefType>,
        tag: Option<&str>,
    ) -> (r: ApiRequest)
        ensures
            r@ == request(
                HttpMethod::Get,
                self.url("/beliefs"@),
                seq![
                    ("min_confidence"@, min_confidence@),
                    ("max_confidence"@, max_confidence@),
                    ("limit"@, decimal(limit as nat)),
                    ("offset"@, decimal(offset as nat)),
                ] + match truth_state {
                    Some(t) => seq![("truth_state"@, t.wire_name())],
                    None => seq![],
                } + match belief_type {
                    Some(b) => seq![("belief_type"@, b.wire_name())],
                    None => seq![],
                } + match tag {
                    Some(t) => seq![("tag"@, t@)],
                    None => seq![],
                },
                None,
                ResponseMode::Json,
            ),
    {
        let mut params: Vec<(String, String)> = Vec::new();
        push_param(&mut params, "min_confidence", String::from_str(min_confidence));
        push_param(&mut params, "max_confidence", String::from_str(max_confidence));
        push_param(&mut params, "limit", decimal_string(limit as u64));
        push_param(&mut params, "offset", decimal_string(offset as u64));
        let ghost base = pairs_view(params@);
        match truth_state {
            Some(t) => push_param(&mut params, "truth_state", String::from_str(t.as_str())),
            None => {},
        }
        let ghost with_truth = pairs_view(params@);
        match belief_type {
            Some(b) => push_param(&mut params, "belief_type", String::from_str(b.as_str())),
            None => {},
        }
        let ghost with_type = pairs_view(params@);
        match tag {
            Some(t) => push_param(&mut params, "tag", String::from_str(t)),
            None => {},
        }
        proof {
            let a = seq![
                ("min_confidence"@, min_confidence@),
                ("max_confidence"@, max_confidence@),
                ("limit"@, decimal(limit as nat)),
                ("offset"@, decimal(offset as nat)),
            ];
            let b: Seq<(Seq<char>, Seq<char>)> = match truth_state {
                Some(t) => seq![("truth_state"@, t.wire_name())],
                None => seq![],
            };
            let c: Seq<(Seq<char>, Seq<char>)> = match belief_type {
                Some(bt) => seq![("belief_type"@, bt.wire_name())],
                None => seq![],
            };
            let d: Seq<(Seq<char>, Seq<char>)> = match tag {
                Some(t) => seq![("tag"@, t@)],
                None => seq![],
            };
            assert(base =~= a);
            assert(with_truth =~= a + b);
            assert(with_type =~= a + b + c);
            assert(pairs_view(params@) =~= a + b + c + d);
        }
        api_query_call(
            HttpMethod::Get,
            join2(self.base_url.as_str(), "/beliefs"),
            params,
            ResponseMode::Json,
        )
    }

    // ── Working memory frames ──

    /// Open a frame using the full backend API shape.
    pub fn frame_open(&self, request: &FrameOpenRequest) -> (r: ApiRequest)
        ensures
            r@ == json_call(HttpMethod::Post, self.url("/frame/open"@), Some(request.body_json())),
    {
        api_call(
            HttpMethod::Post,
            join2(self.base_url.as_str(), "/frame/open"),
            Some(request.to_json()),
            ResponseMode::Json,
        )
    }

    /// Open a frame using the lite API shape.
    pub fn frame_open_lite(&self, request: &LiteFrameOpenRequest) -> (r: ApiRequest)
        ensures
            r@ == json_call(HttpMethod::Post, self.url("/frame/open"@), Some(request.body_json())),
    {
        api_call(
            HttpMethod::Post,
            join2(self.base_url.as_str(), "/frame/open"),
            Some(request.to_json()),
            ResponseMode::Json,
        )
    }

    pub fn frame_add(&self, frame_id: &str, claim: &str) -> (r: ApiRequest)
        ensures
            r@ == json_call(
                HttpMethod::Post,
                self.url("/frame/"@ + frame_id@ + "/add"@),
                Some(obj(seq![("claim"@, Json::Str(claim@))])),
            ),
    {
        let mut fields: Vec<(String, JsonValue)> = Vec::new();
        push_field(&mut fields, "claim", json_str(claim));
        proof {
            assert(fields_json(fields@) =~= seq![("claim"@, Json::Str(claim@))]);
        }
        let url = join4(self.base_url.as_str(), "/frame/", frame_id, "/add");
        proof {
            assert(url@ =~= self.url("/frame/"@ + frame_id@ + "/add"@));
        }
        api_call(HttpMethod::Post, url, object_body(fields), ResponseMode::Json)
    }

    pub fn frame_scratchpad(&self, frame_id: &str, key: &str, value: JsonValue) -> (r: ApiRequest)
        ensures
            r@ == json_call(
                HttpMethod::Post,
                self.url("/frame/"@ + frame_id@ + "/scratchpad"@),
                Some(obj(seq![("key"@, Json::Str(key@)), ("value"@, value.json())])),
            ),
    {
        let ghost v = value.json();
        let mut fields: Vec<(String, JsonValue)> = Vec::new();
        push_field(&mut fields, "key", json_str(key));
        push_field(&mut fields, "value", value);
        proof {
            assert(fields_json(fields@) =~= seq![("key"@, Json::Str(key@)), ("value"@, v)]);
        }
        let url = join4(self.base_url.as_str(), "/frame/", frame_id, "/scratchpad");
        proof {
            assert(url@ =~= self.url("/frame/"@ + frame_id@ + "/scratchpad"@));
        }
        api_call(HttpMethod::Post, url, object_body(fields), ResponseMode::Json)
    }

    pub fn frame_context(&self, frame_id: &str) -> (r: ApiRequest)
        ensures
            r@ == json_call(HttpMethod::Get, self.url("/frame/"@ + frame_id@ + "/context"@), None),
    {
        let url = join4(self.base_url.as_str(), "/frame/", frame_id, "/context");
        proof {
            assert(url@ =~= self.url("/frame/"@ + frame_id@ + "/context"@));
        }
        api_call(HttpMethod::Get, url, None, ResponseMode::Json)
    }

    pub fn frame_commit(&self, frame_id: &str, new_beliefs: Vec<JsonValue>, revisions: Vec<
        JsonValue,
    >) -> (r: ApiRequest)
        ensures
            r@ == json_call(
                HttpMethod::Post,
                self.url("/frame/"@ + frame_id@ + "/commit"@),
                Some(
                    obj(
                        seq![
                            ("new_beliefs"@, Json::Array(items_json(new_beliefs@))),
                            ("revisions"@, Json::Array(items_json(revisions@))),
                        ],
                    ),
                ),
            ),
    {
        let ghost nb = items_json(new_beliefs@);
        let ghost rv = items_json(revisions@);
        let mut fields: Vec<(String, JsonValue)> = Vec::new();
        push_field(&mut fields, "new_beliefs", json_array(new_beliefs));
        push_field(&mut fields, "revisions", json_array(revisions));
        proof {
            assert(fields_json(fields@) =~= seq![
                ("new_beliefs"@, Json::Array(nb)),
                ("revisions"@, Json::Array(rv)),
            ]);
        }
        let url = join4(self.base_url.as_str(), "/frame/", frame_id, "/commit");
        proof {
            assert(url@ =~= self.url("/frame/"@ + frame_id@ + "/commit"@));
        }
        api_call(HttpMethod::Post, url, object_body(fields), ResponseMode::Json)
    }

    /// Close a frame without committing; the answer has no body to read.
    pub fn frame_close(&self, frame_id: &str) -> (r: ApiRequest)
        ensures
            r@ == request(
                HttpMethod::Delete,
                self.url("/frame/"@ + frame_id@),
                seq![],
                None,
                ResponseMode::NoContent,
            ),
    {
        let url = join3(self.base_url.as_str(), "/frame/", frame_id);
        proof {
            assert(url@ =~= self.url("/frame/"@ + frame_id@));
        }
        api_call(HttpMethod::Delete, url, None, ResponseMode::NoContent)
    }

    // ── Utility endpoints ──

    pub fn reset(&self) -> (r: ApiRequest)
        ensures
            r@ == json_call(HttpMethod::Post, self.url("/reset"@), None),
    {
        api_call(HttpMethod::Post, join2(self.base_url.as_str(), "/reset"), None, ResponseMode::Json)
    }

    pub fn set_time_offset(&self, days: i64) -> (r: ApiRequest)
        ensures
            r@ == json_call(
                HttpMethod::Post,
                self.url("/time-offset"@),
                Some(obj(seq![("days"@, Json::Int(days as int))])),
            ),
    {
        let mut fields: Vec<(String, JsonValue)> = Vec::new();
        push_field(&mut fields, "days", JsonValue::Int(days));
        proof {
            assert(fields_json(fields@) =~= seq![("days"@, Json::Int(days as int))]);
        }
        api_call(
            HttpMethod::Post,
            join2(self.base_url.as_str(), "/time-offset"),
            object_body(fields),
            ResponseMode::Json,
        )
    }

    pub fn consolidate(&self) -> (r: ApiRequest)
        ensures
            r@ == json_call(HttpMethod::Post, self.url("/consolidate"@), None),
    {
        api_call(
            HttpMethod::Post,
            join2(self.base_url.as_str(), "/consolidate"),
            None,
            ResponseMode::Json,
        )
    }

    pub fn get_memory_tier(&self, belief_id: &str) -> (r: ApiRequest)
        ensures
            r@ == json_call(HttpMethod::Get, self.url("/memory-tier/"@ + belief_id@), None),
    {
        let url = join3(self.base_url.as_str(), "/memory-tier/", belief_id);
        proof {
            assert(url@ =~= self.url("/memory-tier/"@ + belief_id@));
        }
        api_call(HttpMethod::Get, url, None, ResponseMode::Json)
    }

    /// Run a multi-hop query: `POST /query_multihop` with the query as the
    /// URL parameter `query`.
    pub fn query_multihop(&self, query: &str) -> (r: ApiRequest)
        ensures
            r@ == request(
                HttpMethod::Post,
                self.url("/query_multihop"@),
                seq![("query"@, query@)],
                None,
                ResponseMode::Json,
            ),
    {
        let mut params: Vec<(String, String)> = Vec::new();
        push_param(&mut params, "query", String::from_str(query));
        proof {
            assert(pairs_view(params@) =~= seq![("query"@, query@)]);
        }
        api_query_call(
            HttpMethod::Post,
            join2(self.base_url.as_str(), "/query_multihop"),
            params,
            ResponseMode::Json,
        )
    }

    // ── Benchmark endpoints ──

    pub fn benchmark_sandbox_fork(&self, scenario_label: &str) -> (r: ApiRequest)
        ensures
            r@ == json_call(
                HttpMethod::Post,
                self.v4_url("/benchmark/sandbox/fork"@),
                Some(obj(seq![("scenario_label"@, Json::Str(scenario_label@))])),
            ),
    {
        let mut fields: Vec<(String, JsonValue)> = Vec::new();
        push_field(&mut fields, "scenario_label", json_str(scenario_label));
        proof {
            assert(fields_json(fields@) =~= seq![("scenario_label"@, Json::Str(scenario_label@))]);
        }
        let url = join3(self.base_url.as_str(), V4_PREFIX, "/benchmark/sandbox/fork");
        api_call(HttpMethod::Post, url, object_body(fields), ResponseMode::Json)
    }

    /// Assume a truth state in a benchmark sandbox; `truth_state` is sent as
    /// given.
    pub fn benchmark_sandbox_assume(&self, sandbox_id: &str, belief_id: &str, truth_state: &str) -> (r:
        ApiRequest)
        ensures
            r@ == json_call(
                HttpMethod::Post,
                self.v4_url("/benchmark/sandbox/"@ + sandbox_id@ + "/assume"@),
                Some(
                    obj(
                        seq![
                            ("belief_id"@, Json::Str(belief_id@)),
                            ("truth_state"@, Json::Str(truth_state@)),
                        ],
                    ),
                ),
            ),
    {
        let mut fields: Vec<(String, JsonValue)> = Vec::new();
        push_field(&mut fields, "belief_id", json_str(belief_id));
        push_field(&mut fields, "truth_state", json_str(truth_state));
        proof {
            assert(fields_json(fields@) =~= seq![
                ("belief_id"@, Json::Str(belief_id@)),
                ("truth_state"@, Json::Str(truth_state@)),
            ]);
        }
        let url = join5(
            self.base_url.as_str(),
            V4_PREFIX,
            "/benchmark/sandbox/",
            sandbox_id,
            "/assume",
        );
        proof {
            assert(url@ =~= self.v4_url("/benchmark/sandbox/"@ + sandbox_id@ + "/assume"@));
        }
        api_call(HttpMethod::Post, url, object_body(fields), ResponseMode::Json)
    }

    pub fn benchmark_sandbox_resolve(&self, sandbox_id: &str, belief_id: &str) -> (r: ApiRequest)
        ensures
            r@ == json_call(
                HttpMethod::Get,
                self.v4_url("/benchmark/sandbox/"@ + sandbox_id@ + "/resolve/"@ + belief_id@),
                None,
            ),
    {
        let mut url = join5(
            self.base_url.as_str(),
            V4_PREFIX,
            "/benchmark/sandbox/",
            sandbox_id,
            "/resolve/",
        );
        url.append(belief_id);
        proof {
            assert(url@ =~= self.v4_url(
                "/benchmark/sandbox/"@ + sandbox_id@ + "/resolve/"@ + belief_id@,
            ));
        }
        api_call(HttpMethod::Get, url, None, ResponseMode::Json)
    }

    pub fn benchmark_sandbox_discard(&self, sandbox_id: &str) -> (r: ApiRequest)
        ensures
            r@ == json_call(
                HttpMethod::Post,
                self.v4_url("/benchmark/sandbox/"@ + sandbox_id@ + "/discard"@),
                None,
            ),
    {
        let url = join5(
            self.base_url.as_str(),
            V4_PREFIX,
            "/benchmark/sandbox/",
            sandbox_id,
            "/discard",
        );
        proof {
            assert(url@ =~= self.v4_url("/benchmark/sandbox/"@ + sandbox_id@ + "/discard"@));
        }
        api_call(HttpMethod::Post, url, None, ResponseMode::Json)
    }

    /// Record a benchmark attack; `weight` is the bit pattern of the attack's
    /// `f64` weight.
    pub fn benchmark_attack(&self, attacker_id: &str, target_id: &str, attack_type: &str, weight: u64) -> (r:
        ApiRequest)
        ensures
            r@ == json_call(
                HttpMethod::Post,
                self.v4_url("/benchmark/attack"@),
                Some(
                    obj(
                        seq![
                            ("attack_type"@, Json::Str(attack_type@)),
                            ("attacker_id"@, Json::Str(attacker_id@)),
                            ("target_id"@, Json::Str(target_id@)),
                            ("weight"@, Json::Float(weight)),
                        ],
                    ),
                ),
            ),
    {
        let mut fields: Vec<(String, JsonValue)> = Vec::new();
        push_field(&mut fields, "attack_type", json_str(attack_type));
        push_field(&mut fields, "attacker_id", json_str(attacker_id));
        push_field(&mut fields, "target_id", json_str(target_id));
        push_field(&mut fields, "weight", JsonValue::Float(weight));
        proof {
            assert(fields_json(fields@) =~= seq![
                ("attack_type"@, Json::Str(attack_type@)),
                ("attacker_id"@, Json::Str(attacker_id@)),
                ("target_id"@, Json::Str(target_id@)),
                ("weight"@, Json::Float(weight)),
            ]);
        }
        let url = join3(self.base_url.as_str(), V4_PREFIX, "/benchmark/attack");
        api_call(HttpMethod::Post, url, object_body(fields), ResponseMode::Json)
    }

    // ── Sub-clients ──

    pub fn sandbox(&self) -> (r: SandboxApi)
        ensures
            r.base_url@ == self.base_url@,
    {
        SandboxApi { base_url: self.base_url.clone() }
    }

    pub fn goals(&self) -> (r: GoalApi)
        ensures
            r.base_url@ == self.base_url@,
    {
        GoalApi { base_url: self.base_url.clone() }
    }

    pub fn policies(&self) -> (r: PolicyApi)
        ensures
            r.base_url@ == self.base_url@,
    {
        PolicyApi { base_url: self.base_url.clone() }
    }

    pub fn revision(&self) -> (r: RevisionApi)
        ensures
            r.base_url@ == self.base_url@,
    {
        RevisionApi { base_url: self.base_url.clone() }
    }

    pub fn attacks(&self) -> (r: AttackApi)
        ensures
            r.base_url@ == self.base_url@,
    {
        AttackApi { base_url: self.base_url.clone() }
    }

    pub fn reconsolidation(&self) -> (r: ReconsolidationApi)
        ensures
            r.base_url@ == self.base_url@,
    {
        ReconsolidationApi { base_url: self.base_url.clone() }
    }
}

/// The part of a `/retract` answer that lists the affected beliefs: the
/// answer itself when it is an array (lite server), the value of its
/// `affected_beliefs` field when it is an object that has one (full
/// backend), and an empty array otherwise.
pub open spec fn spec_retracted_beliefs(payload: Json) -> Json {
    match payload {
        Json::Array(items) => Json::Array(items),
        Json::Object(fields) => match field_value(fields, "affected_beliefs"@) {
            Some(v) => v,
            None => Json::Array(seq![]),
        },
        _ => Json::Array(seq![]),
    }
}

/// What a `/retract` answer yields: an array is the list of affected
/// beliefs itself, every item kept and in its order; an object yields the
/// value of its first `affected_beliefs` field, or no beliefs when it has
/// none; any other answer yields no beliefs.
pub proof fn lemma_retract_answer_shapes(items: Seq<Json>, fields: Seq<(Seq<char>, Json)>, other: Json)
    requires
        !(other is Array),
        !(other is Object),
    ensures
        spec_retracted_beliefs(Json::Array(items)) == Json::Array(items),
        spec_retracted_beliefs(Json::Array(items)) matches Json::Array(out) && out.len()
            == items.len(),
        forall|v: Json|
            field_value(fields, "affected_beliefs"@) == Some(v) ==> spec_retracted_beliefs(
                Json::Object(fields),
            ) == v,
        field_value(fields, "affected_beliefs"@) is None ==> spec_retracted_beliefs(
            Json::Object(fields),
        ) == Json::Array(Seq::<Json>::empty()),
        spec_retracted_beliefs(other) == Json::Array(Seq::<Json>::empty()),
{
    assert(seq![] =~= Seq::<Json>::empty());
}

/// Picks the affected beliefs out of a `/retract` answer.
pub fn retracted_beliefs(payload: JsonValue) -> (r: JsonValue)
    ensures
        r.json() == spec_retracted_beliefs(payload.json()),
        payload.json() is Array ==> r.json() == payload.json(),
{
    let empty = JsonValue::Array(Vec::new());
    assert(empty.json() == Json::Array(seq![])) by {
        assert(empty.json() matches Json::Array(a) && a =~= Seq::<Json>::empty());
    }
    match payload {
        JsonValue::Array(items) => JsonValue::Array(items),
        JsonValue::Object(fields) => {
            let ghost fj = fields_json(fields@);
            assert(payload.json() == Json::Object(fj)) by {
                assert(payload.json() matches Json::Object(f) && f =~= fj);
            }
            assert(fj.subrange(0, fj.len() as int) =~= fj);
            let mut fields = fields;
            let mut i: usize = 0;
            while i < fields.len()
                invariant
                    i <= fields@.len(),
                    fj == fields_json(fields@),
                    payload.json() == Json::Object(fj),
                    field_value(fj, "affected_beliefs"@) == field_value(
                        fj.subrange(i as int, fj.len() as int),
                        "affected_beliefs"@,
                    ),
                decreases fields.len() - i,
            {
                let found = text_eq(fields[i].0.as_str(), "affected_beliefs");
                let ghost rest = fj.subrange(i as int, fj.len() as int);
                assert(rest.drop_first() =~= fj.subrange(i + 1, fj.len() as int));
                assert(rest[0] == (fields@[i as int].0@, fields@[i as int].1.json()));
                if found {
                    let ghost v = fields@[i as int].1;
                    assert(rest.len() > 0 && rest[0].0 == "affected_beliefs"@);
                    assert(field_value(rest, "affected_beliefs"@) == Some(v.json()));
                    let (_, value) = fields.remove(i);
                    assert(value == v);
                    return value;
                }
                i = i + 1;
            }
            assert(fj.subrange(i as int, fj.len() as int) =~= Seq::<(Seq<char>, Json)>::empty());
            empty
        },
        _ => empty,
    }
}

} // verus!
