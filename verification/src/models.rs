//! The data model: the enumerations of the API with their wire names, the
//! request builders that hold no floating-point data, and the response
//! records the server sends back.
use vstd::prelude::*;

use crate::json::{
    Json, JsonValue, field_value, fields_json, is_string_array, json_object, json_str,
    json_string_array, lemma_field_value_concat4, lemma_field_value_single, member, push_field,
};
use crate::text::text_eq;

verus! {

/// Belnap four-valued truth state of a belief.
#[derive(Debug, Clone, Copy, PartialEq, Eq, Structural)]
pub enum TruthState {
    True,
    False,
    Both,
    Neither,
}

impl TruthState {
    /// The name of this value on the wire.
    pub open spec fn wire_name(self) -> Seq<char> {
        match self {
            TruthState::True => "true"@,
            TruthState::False => "false"@,
            TruthState::Both => "both"@,
            TruthState::Neither => "neither"@,
        }
    }

    /// The name of this value on the wire, as used in JSON bodies and query
    /// parameters.
    pub fn as_str(&self) -> (s: &'static str)
        ensures
            s@ == self.wire_name(),
    {
        match self {
            TruthState::True => "true",
            TruthState::False => "false",
            TruthState::Both => "both",
            TruthState::Neither => "neither",
        }
    }

    /// The value whose wire name is `s`, if there is one.
    pub fn from_wire(s: &str) -> (r: Option<TruthState>)
        ensures
            r matches Some(v) ==> s@ == v.wire_name(),
            r is None ==> forall|v: TruthState| s@ != v.wire_name(),
    {
        if text_eq(s, "true") {
            Some(TruthState::True)
        } else if text_eq(s, "false") {
            Some(TruthState::False)
        } else if text_eq(s, "both") {
            Some(TruthState::Both)
        } else if text_eq(s, "neither") {
            Some(TruthState::Neither)
        } else {
            None
        }
    }
}

/// Distinct values have distinct wire names, so reading back the wire name
/// of a value gives that value.
pub proof fn lemma_truth_state_wire_names(a: TruthState, b: TruthState)
    ensures
        a.wire_name() == b.wire_name() ==> a == b,
{
    reveal_strlit("true");
    reveal_strlit("false");
    reveal_strlit("both");
    reveal_strlit("neither");
    if a.wire_name() == b.wire_name() && a != b {
        assert(a.wire_name()[0] == b.wire_name()[0]);
        assert(a.wire_name().len() == b.wire_name().len());
        assert(a.wire_name()[1] == b.wire_name()[1]);
        assert(a.wire_name()[a.wire_name().len() - 1] == b.wire_name()[b.wire_name().len() - 1]);
    }
}

/// Kind of belief; decides how fast its evidence decays.
#[derive(Debug, Clone, Copy, PartialEq, Eq, Structural)]
pub enum BeliefType {
    Fact,
    Preference,
    Inference,
    Prediction,
}

impl BeliefType {
    /// The name of this value on the wire.
    pub open spec fn wire_name(self) -> Seq<char> {
        match self {
            BeliefType::Fact => "fact"@,
            BeliefType::Preference => "preference"@,
            BeliefType::Inference => "inference"@,
            BeliefType::Prediction => "prediction"@,
        }
    }

    /// The name of this value on the wire, as used in JSON bodies and query
    /// parameters.
    pub fn as_str(&self) -> (s: &'static str)
        ensures
            s@ == self.wire_name(),
    {
        match self {
            BeliefType::Fact => "fact",
            BeliefType::Preference => "preference",
            BeliefType::Inference => "inference",
            BeliefType::Prediction => "prediction",
        }
    }

    /// The value whose wire name is `s`, if there is one.
    pub fn from_wire(s: &str) -> (r: Option<BeliefType>)
        ensures
            r matches Some(v) ==> s@ == v.wire_name(),
            r is None ==> forall|v: BeliefType| s@ != v.wire_name(),
    {
        if text_eq(s, "fact") {
            Some(BeliefType::Fact)
        } else if text_eq(s, "preference") {
            Some(BeliefType::Preference)
        } else if text_eq(s, "inference") {
            Some(BeliefType::Inference)
        } else if text_eq(s, "prediction") {
            Some(BeliefType::Prediction)
        } else {
            None
        }
    }
}

impl Default for BeliefType {
    fn default() -> (r: BeliefType)
        ensures
            r == BeliefType::Fact,
    {
        BeliefType::Fact
    }
}

/// Distinct values have distinct wire names, so reading back the wire name
/// of a value gives that value.
pub proof fn lemma_belief_type_wire_names(a: BeliefType, b: BeliefType)
    ensures
        a.wire_name() == b.wire_name() ==> a == b,
{
    reveal_strlit("fact");
    reveal_strlit("preference");
    reveal_strlit("inference");
    reveal_strlit("prediction");
    if a.wire_name() == b.wire_name() && a != b {
        assert(a.wire_name()[0] == b.wire_name()[0]);
        assert(a.wire_name().len() == b.wire_name().len());
        assert(a.wire_name()[1] == b.wire_name()[1]);
        assert(a.wire_name()[a.wire_name().len() - 1] == b.wire_name()[b.wire_name().len() - 1]);
    }
}

/// Whether a piece of evidence supports or attacks its claim.
#[derive(Debug, Clone, Copy, PartialEq, Eq, Structural)]
pub enum Polarity {
    Supports,
    Attacks,
}

impl Polarity {
    /// The name of this value on the wire.
    pub open spec fn wire_name(self) -> Seq<char> {
        match self {
            Polarity::Supports => "supports"@,
            Polarity::Attacks => "attacks"@,
        }
    }

    /// The name of this value on the wire, as used in JSON bodies and query
    /// parameters.
    pub fn as_str(&self) -> (s: &'static str)
        ensures
            s@ == self.wire_name(),
    {
        match self {
            Polarity::Supports => "supports",
            Polarity::Attacks => "attacks",
        }
    }

    /// The value whose wire name is `s`, if there is one.
    pub fn from_wire(s: &str) -> (r: Option<Polarity>)
        ensures
            r matches Some(v) ==> s@ == v.wire_name(),
            r is None ==> forall|v: Polarity| s@ != v.wire_name(),
    {
        if text_eq(s, "supports") {
            Some(Polarity::Supports)
        } else if text_eq(s, "attacks") {
            Some(Polarity::Attacks)
        } else {
            None
        }
    }
}

impl Default for Polarity {
    fn default() -> (r: Polarity)
        ensures
            r == Polarity::Supports,
    {
        Polarity::Supports
    }
}

/// Distinct values have distinct wire names, so reading back the wire name
/// of a value gives that value.
pub proof fn lemma_polarity_wire_names(a: Polarity, b: Polarity)
    ensures
        a.wire_name() == b.wire_name() ==> a == b,
{
    reveal_strlit("supports");
    reveal_strlit("attacks");
    if a.wire_name() == b.wire_name() && a != b {
        assert(a.wire_name()[0] == b.wire_name()[0]);
        assert(a.wire_name().len() == b.wire_name().len());
        assert(a.wire_name()[1] == b.wire_name()[1]);
        assert(a.wire_name()[a.wire_name().len() - 1] == b.wire_name()[b.wire_name().len() - 1]);
    }
}

/// Lifecycle state of a what-if sandbox.
#[derive(Debug, Clone, Copy, PartialEq, Eq, Structural)]
pub enum SandboxStatus {
    Active,
    Committed,
    Discarded,
    Expired,
}

impl SandboxStatus {
    /// The name of this value on the wire.
    pub open spec fn wire_name(self) -> Seq<char> {
        match self {
            SandboxStatus::Active => "active"@,
            SandboxStatus::Committed => "committed"@,
            SandboxStatus::Discarded => "discarded"@,
            SandboxStatus::Expired => "expired"@,
        }
    }

    /// The name of this value on the wire, as used in JSON bodies and query
    /// parameters.
    pub fn as_str(&self) -> (s: &'static str)
        ensures
            s@ == self.wire_name(),
    {
        match self {
            SandboxStatus::Active => "active",
            SandboxStatus::Committed => "committed",
            SandboxStatus::Discarded => "discarded",
            SandboxStatus::Expired => "expired",
        }
    }

    /// The value whose wire name is `s`, if there is one.
    pub fn from_wire(s: &str) -> (r: Option<SandboxStatus>)
        ensures
            r matches Some(v) ==> s@ == v.wire_name(),
            r is None ==> forall|v: SandboxStatus| s@ != v.wire_name(),
    {
        if text_eq(s, "active") {
            Some(SandboxStatus::Active)
        } else if text_eq(s, "committed") {
            Some(SandboxStatus::Committed)
        } else if text_eq(s, "discarded") {
            Some(SandboxStatus::Discarded)
        } else if text_eq(s, "expired") {
            Some(SandboxStatus::Expired)
        } else {
            None
        }
    }
}

/// Distinct values have distinct wire names, so reading back the wire name
/// of a value gives that value.
pub proof fn lemma_sandbox_status_wire_names(a: SandboxStatus, b: SandboxStatus)
    ensures
        a.wire_name() == b.wire_name() ==> a == b,
{
    reveal_strlit("active");
    reveal_strlit("committed");
    reveal_strlit("discarded");
    reveal_strlit("expired");
    if a.wire_name() == b.wire_name() && a != b {
        assert(a.wire_name()[0] == b.wire_name()[0]);
        assert(a.wire_name().len() == b.wire_name().len());
        assert(a.wire_name()[1] == b.wire_name()[1]);
        assert(a.wire_name()[a.wire_name().len() - 1] == b.wire_name()[b.wire_name().len() - 1]);
    }
}

/// How a sandbox's changes are merged back.
#[derive(Debug, Clone, Copy, PartialEq, Eq, Structural)]
pub enum CommitMode {
    Selective,
    All,
    DiscardConflicts,
}

impl CommitMode {
    /// The name of this value on the wire.
    pub open spec fn wire_name(self) -> Seq<char> {
        match self {
            CommitMode::Selective => "selective"@,
            CommitMode::All => "all"@,
            CommitMode::DiscardConflicts => "discard_conflicts"@,
        }
    }

    /// The name of this value on the wire, as used in JSON bodies and query
    /// parameters.
    pub fn as_str(&self) -> (s: &'static str)
        ensures
            s@ == self.wire_name(),
    {
        match self {
            CommitMode::Selective => "selective",
            CommitMode::All => "all",
            CommitMode::DiscardConflicts => "discard_conflicts",
        }
    }

    /// The value whose wire name is `s`, if there is one.
    pub fn from_wire(s: &str) -> (r: Option<CommitMode>)
        ensures
            r matches Some(v) ==> s@ == v.wire_name(),
            r is None ==> forall|v: CommitMode| s@ != v.wire_name(),
    {
        if text_eq(s, "selective") {
            Some(CommitMode::Selective)
        } else if text_eq(s, "all") {
            Some(CommitMode::All)
        } else if text_eq(s, "discard_conflicts") {
            Some(CommitMode::DiscardConflicts)
        } else {
            None
        }
    }
}

/// Distinct values have distinct wire names, so reading back the wire name
/// of a value gives that value.
pub proof fn lemma_commit_mode_wire_names(a: CommitMode, b: CommitMode)
    ensures
        a.wire_name() == b.wire_name() ==> a == b,
{
    reveal_strlit("selective");
    reveal_strlit("all");
    reveal_strlit("discard_conflicts");
    if a.wire_name() == b.wire_name() && a != b {
        assert(a.wire_name()[0] == b.wire_name()[0]);
        assert(a.wire_name().len() == b.wire_name().len());
        assert(a.wire_name()[1] == b.wire_name()[1]);
        assert(a.wire_name()[a.wire_name().len() - 1] == b.wire_name()[b.wire_name().len() - 1]);
    }
}

/// Kind of argumentation attack between beliefs.
#[derive(Debug, Clone, Copy, PartialEq, Eq, Structural)]
pub enum AttackType {
    Contradicts,
    Undermines,
    Rebuts,
    Undercuts,
}

impl AttackType {
    /// The name of this value on the wire.
    pub open spec fn wire_name(self) -> Seq<char> {
        match self {
            AttackType::Contradicts => "contradicts"@,
            AttackType::Undermines => "undermines"@,
            AttackType::Rebuts => "rebuts"@,
            AttackType::Undercuts => "undercuts"@,
        }
    }

    /// The name of this value on the wire, as used in JSON bodies and query
    /// parameters.
    pub fn as_str(&self) -> (s: &'static str)
        ensures
            s@ == self.wire_name(),
    {
        match self {
            AttackType::Contradicts => "contradicts",
            AttackType::Undermines => "undermines",
            AttackType::Rebuts => "rebuts",
            AttackType::Undercuts => "undercuts",
        }
    }

    /// The value whose wire name is `s`, if there is one.
    pub fn from_wire(s: &str) -> (r: Option<AttackType>)
        ensures
            r matches Some(v) ==> s@ == v.wire_name(),
            r is None ==> forall|v: AttackType| s@ != v.wire_name(),
    {
        if text_eq(s, "contradicts") {
            Some(AttackType::Contradicts)
        } else if text_eq(s, "undermines") {
            Some(AttackType::Undermines)
        } else if text_eq(s, "rebuts") {
            Some(AttackType::Rebuts)
        } else if text_eq(s, "undercuts") {
            Some(AttackType::Undercuts)
        } else {
            None
        }
    }
}

/// Distinct values have distinct wire names, so reading back the wire name
/// of a value gives that value.
pub proof fn lemma_attack_type_wire_names(a: AttackType, b: AttackType)
    ensures
        a.wire_name() == b.wire_name() ==> a == b,
{
    reveal_strlit("contradicts");
    reveal_strlit("undermines");
    reveal_strlit("rebuts");
    reveal_strlit("undercuts");
    if a.wire_name() == b.wire_name() && a != b {
        assert(a.wire_name()[0] == b.wire_name()[0]);
        assert(a.wire_name().len() == b.wire_name().len());
        assert(a.wire_name()[1] == b.wire_name()[1]);
        assert(a.wire_name()[a.wire_name().len() - 1] == b.wire_name()[b.wire_name().len() - 1]);
    }
}

/// Lifecycle state of a goal.
#[derive(Debug, Clone, Copy, PartialEq, Eq, Structural)]
pub enum GoalStatus {
    Active,
    Paused,
    Completed,
    Failed,
    Abandoned,
}

impl GoalStatus {
    /// The name of this value on the wire.
    pub open spec fn wire_name(self) -> Seq<char> {
        match self {
            GoalStatus::Active => "active"@,
            GoalStatus::Paused => "paused"@,
            GoalStatus::Completed => "completed"@,
            GoalStatus::Failed => "failed"@,
            GoalStatus::Abandoned => "abandoned"@,
        }
    }

    /// The name of this value on the wire, as used in JSON bodies and query
    /// parameters.
    pub fn as_str(&self) -> (s: &'static str)
        ensures
            s@ == self.wire_name(),
    {
        match self {
            GoalStatus::Active => "active",
            GoalStatus::Paused => "paused",
            GoalStatus::Completed => "completed",
            GoalStatus::Failed => "failed",
            GoalStatus::Abandoned => "abandoned",
        }
    }

    /// The value whose wire name is `s`, if there is one.
    pub fn from_wire(s: &str) -> (r: Option<GoalStatus>)
        ensures
            r matches Some(v) ==> s@ == v.wire_name(),
            r is None ==> forall|v: GoalStatus| s@ != v.wire_name(),
    {
        if text_eq(s, "active") {
            Some(GoalStatus::Active)
        } else if text_eq(s, "paused") {
            Some(GoalStatus::Paused)
        } else if text_eq(s, "completed") {
            Some(GoalStatus::Completed)
        } else if text_eq(s, "failed") {
            Some(GoalStatus::Failed)
        } else if text_eq(s, "abandoned") {
            Some(GoalStatus::Abandoned)
        } else {
            None
        }
    }
}

/// Distinct values have distinct wire names, so reading back the wire name
/// of a value gives that value.
pub proof fn lemma_goal_status_wire_names(a: GoalStatus, b: GoalStatus)
    ensures
        a.wire_name() == b.wire_name() ==> a == b,
{
    reveal_strlit("active");
    reveal_strlit("paused");
    reveal_strlit("completed");
    reveal_strlit("failed");
    reveal_strlit("abandoned");
    if a.wire_name() == b.wire_name() && a != b {
        assert(a.wire_name()[0] == b.wire_name()[0]);
        assert(a.wire_name().len() == b.wire_name().len());
        assert(a.wire_name()[1] == b.wire_name()[1]);
        assert(a.wire_name()[a.wire_name().len() - 1] == b.wire_name()[b.wire_name().len() - 1]);
    }
}

/// Lifecycle state of a policy.
#[derive(Debug, Clone, Copy, PartialEq, Eq, Structural)]
pub enum PolicyStatus {
    Active,
    FlaggedForRevision,
    Superseded,
    Retired,
}

impl PolicyStatus {
    /// The name of this value on the wire.
    pub open spec fn wire_name(self) -> Seq<char> {
        match self {
            PolicyStatus::Active => "active"@,
            PolicyStatus::FlaggedForRevision => "flagged_for_revision"@,
            PolicyStatus::Superseded => "superseded"@,
            PolicyStatus::Retired => "retired"@,
        }
    }

    /// The name of this value on the wire, as used in JSON bodies and query
    /// parameters.
    pub fn as_str(&self) -> (s: &'static str)
        ensures
            s@ == self.wire_name(),
    {
        match self {
            PolicyStatus::Active => "active",
            PolicyStatus::FlaggedForRevision => "flagged_for_revision",
            PolicyStatus::Superseded => "superseded",
            PolicyStatus::Retired => "retired",
        }
    }

    /// The value whose wire name is `s`, if there is one.
    pub fn from_wire(s: &str) -> (r: Option<PolicyStatus>)
        ensures
            r matches Some(v) ==> s@ == v.wire_name(),
            r is None ==> forall|v: PolicyStatus| s@ != v.wire_name(),
    {
        if text_eq(s, "active") {
            Some(PolicyStatus::Active)
        } else if text_eq(s, "flagged_for_revision") {
            Some(PolicyStatus::FlaggedForRevision)
        } else if text_eq(s, "superseded") {
            Some(PolicyStatus::Superseded)
        } else if text_eq(s, "retired") {
            Some(PolicyStatus::Retired)
        } else {
            None
        }
    }
}

/// Distinct values have distinct wire names, so reading back the wire name
/// of a value gives that value.
pub proof fn lemma_policy_status_wire_names(a: PolicyStatus, b: PolicyStatus)
    ensures
        a.wire_name() == b.wire_name() ==> a == b,
{
    reveal_strlit("active");
    reveal_strlit("flagged_for_revision");
    reveal_strlit("superseded");
    reveal_strlit("retired");
    if a.wire_name() == b.wire_name() && a != b {
        assert(a.wire_name()[0] == b.wire_name()[0]);
        assert(a.wire_name().len() == b.wire_name().len());
        assert(a.wire_name()[1] == b.wire_name()[1]);
        assert(a.wire_name()[a.wire_name().len() - 1] == b.wire_name()[b.wire_name().len() - 1]);
    }
}

/// How search ranks beliefs that are in conflict.
#[derive(Debug, Clone, Copy, PartialEq, Eq, Structural)]
pub enum ConflictPolicy {
    Surface,
    Conservative,
    Optimistic,
}

impl ConflictPolicy {
    /// The name of this value on the wire.
    pub open spec fn wire_name(self) -> Seq<char> {
        match self {
            ConflictPolicy::Surface => "surface"@,
            ConflictPolicy::Conservative => "conservative"@,
            ConflictPolicy::Optimistic => "optimistic"@,
        }
    }

    /// The name of this value on the wire, as used in JSON bodies and query
    /// parameters.
    pub fn as_str(&self) -> (s: &'static str)
        ensures
            s@ == self.wire_name(),
    {
        match self {
            ConflictPolicy::Surface => "surface",
            ConflictPolicy::Conservative => "conservative",
            ConflictPolicy::Optimistic => "optimistic",
        }
    }

    /// The value whose wire name is `s`, if there is one.
    pub fn from_wire(s: &str) -> (r: Option<ConflictPolicy>)
        ensures
            r matches Some(v) ==> s@ == v.wire_name(),
            r is None ==> forall|v: ConflictPolicy| s@ != v.wire_name(),
    {
        if text_eq(s, "surface") {
            Some(ConflictPolicy::Surface)
        } else if text_eq(s, "conservative") {
            Some(ConflictPolicy::Conservative)
        } else if text_eq(s, "optimistic") {
            Some(ConflictPolicy::Optimistic)
        } else {
            None
        }
    }
}

impl Default for ConflictPolicy {
    fn default() -> (r: ConflictPolicy)
        ensures
            r == ConflictPolicy::Surface,
    {
        ConflictPolicy::Surface
    }
}

/// Distinct values have distinct wire names, so reading back the wire name
/// of a value gives that value.
pub proof fn lemma_conflict_policy_wire_names(a: ConflictPolicy, b: ConflictPolicy)
    ensures
        a.wire_name() == b.wire_name() ==> a == b,
{
    reveal_strlit("surface");
    reveal_strlit("conservative");
    reveal_strlit("optimistic");
    if a.wire_name() == b.wire_name() && a != b {
        assert(a.wire_name()[0] == b.wire_name()[0]);
        assert(a.wire_name().len() == b.wire_name().len());
        assert(a.wire_name()[1] == b.wire_name()[1]);
        assert(a.wire_name()[a.wire_name().len() - 1] == b.wire_name()[b.wire_name().len() - 1]);
    }
}

// ── Request builders ──

/// Request body of `/frame/open` in the full backend's shape.
#[derive(Debug, Clone)]
pub struct FrameOpenRequest {
    pub query: String,
    pub preload_claims: Vec<String>,
    pub ttl_seconds: u32,
    pub source_agent: String,
}

impl FrameOpenRequest {
    /// A request for `query` with no preloaded claims, a 300 s lifetime and
    /// no source agent.
    pub fn new(query: &str) -> (r: FrameOpenRequest)
        ensures
            r.query@ == query@,
            r.preload_claims@ == Seq::<String>::empty(),
            r.ttl_seconds == 300,
            r.source_agent@ == Seq::<char>::empty(),
    {
        FrameOpenRequest {
            query: String::from_str(query),
            preload_claims: Vec::new(),
            ttl_seconds: 300,
            source_agent: String::new(),
        }
    }

    pub fn with_preload_claims(self, preload_claims: Vec<String>) -> (r: FrameOpenRequest)
        ensures
            r == (FrameOpenRequest { preload_claims, ..self }),
    {
        FrameOpenRequest { preload_claims, ..self }
    }

    pub fn with_ttl(self, ttl_seconds: u32) -> (r: FrameOpenRequest)
        ensures
            r == (FrameOpenRequest { ttl_seconds, ..self }),
    {
        FrameOpenRequest { ttl_seconds, ..self }
    }

    pub fn with_source_agent(self, source_agent: &str) -> (r: FrameOpenRequest)
        ensures
            r.source_agent@ == source_agent@,
            r.query == self.query,
            r.preload_claims == self.preload_claims,
            r.ttl_seconds == self.ttl_seconds,
    {
        FrameOpenRequest { source_agent: String::from_str(source_agent), ..self }
    }

    /// The JSON body: `query`, then `preload_claims` unless there are none,
    /// then `ttl_seconds`, then `source_agent` unless it is empty.
    pub open spec fn body_json(self) -> Json {
        Json::Object(
            seq![("query"@, Json::Str(self.query@))] + (if self.preload_claims@.len() == 0 {
                seq![]
            } else {
                seq![
                    ("preload_claims"@, Json::Array(
                        Seq::new(self.preload_claims@.len(), |i: int| Json::Str(self.preload_claims@[i]@)),
                    )),
                ]
            }) + seq![("ttl_seconds"@, Json::Int(self.ttl_seconds as int))] + (
            if self.source_agent@.len() == 0 {
                seq![]
            } else {
                seq![("source_agent"@, Json::Str(self.source_agent@))]
            }),
        )
    }

    pub fn to_json(&self) -> (r: JsonValue)
        ensures
            r.json() == self.body_json(),
    {
        let mut fields: Vec<(String, JsonValue)> = Vec::new();
        push_field(&mut fields, "query", json_str(self.query.as_str()));
        if self.preload_claims.len() > 0 {
            push_field(&mut fields, "preload_claims", json_string_array(&self.preload_claims));
        }
        push_field(&mut fields, "ttl_seconds", JsonValue::UInt(self.ttl_seconds as u64));
        if !self.source_agent.as_str().is_empty() {
            push_field(&mut fields, "source_agent", json_str(self.source_agent.as_str()));
        }
        let r = json_object(fields);
        proof {
            let claims = Json::Array(
                Seq::new(self.preload_claims@.len(), |i: int| Json::Str(self.preload_claims@[i]@)),
            );
            let a = seq![("query"@, Json::Str(self.query@))];
            let b: Seq<(Seq<char>, Json)> = if self.preload_claims@.len() == 0 {
                seq![]
            } else {
                seq![("preload_claims"@, claims)]
            };
            let c = seq![("ttl_seconds"@, Json::Int(self.ttl_seconds as int))];
            let d: Seq<(Seq<char>, Json)> = if self.source_agent@.len() == 0 {
                seq![]
            } else {
                seq![("source_agent"@, Json::Str(self.source_agent@))]
            };
            assert(fields_json(fields@) =~= a + b + c + d);
        }
        r
    }
}

/// What the full-shape frame-open body carries: the query and the lifetime
/// always; every preloaded claim, in order, exactly when there is at least
/// one; the source agent exactly when it is not empty.
pub proof fn lemma_frame_open_body(r: FrameOpenRequest)
    ensures
        member(r.body_json(), "query"@) == Some(Json::Str(r.query@)),
        member(r.body_json(), "ttl_seconds"@) == Some(Json::Int(r.ttl_seconds as int)),
        r.preload_claims@.len() == 0 ==> member(r.body_json(), "preload_claims"@) is None,
        r.preload_claims@.len() > 0 ==> is_string_array(
            member(r.body_json(), "preload_claims"@),
            r.preload_claims@,
        ),
        r.source_agent@.len() == 0 ==> member(r.body_json(), "source_agent"@) is None,
        r.source_agent@.len() > 0 ==> member(r.body_json(), "source_agent"@) == Some(
            Json::Str(r.source_agent@),
        ),
{
    reveal_strlit("query");
    reveal_strlit("preload_claims");
    reveal_strlit("ttl_seconds");
    reveal_strlit("source_agent");
    let claims = Json::Array(
        Seq::new(r.preload_claims@.len(), |i: int| Json::Str(r.preload_claims@[i]@)),
    );
    let a = seq![("query"@, Json::Str(r.query@))];
    let b: Seq<(Seq<char>, Json)> = if r.preload_claims@.len() == 0 {
        seq![]
    } else {
        seq![("preload_claims"@, claims)]
    };
    let c = seq![("ttl_seconds"@, Json::Int(r.ttl_seconds as int))];
    let d: Seq<(Seq<char>, Json)> = if r.source_agent@.len() == 0 {
        seq![]
    } else {
        seq![("source_agent"@, Json::Str(r.source_agent@))]
    };
    assert(r.body_json() == Json::Object(a + b + c + d));
    let keys = seq!["query"@, "preload_claims"@, "ttl_seconds"@, "source_agent"@];
    assert("query"@[0] != "preload_claims"@[0]);
    assert("query"@[0] != "ttl_seconds"@[0]);
    assert("query"@[0] != "source_agent"@[0]);
    assert("preload_claims"@[0] != "ttl_seconds"@[0]);
    assert("preload_claims"@[0] != "source_agent"@[0]);
    assert("ttl_seconds"@[0] != "source_agent"@[0]);
    assert forall|k: int| 0 <= k < 4 implies {
        let key = #[trigger] keys[k];
        &&& field_value(a, key) == (if key == "query"@ { Some(Json::Str(r.query@)) } else { None::<Json> })
        &&& field_value(b, key) == (if key == "preload_claims"@ && r.preload_claims@.len() > 0 {
            Some(claims)
        } else {
            None::<Json>
        })
        &&& field_value(c, key) == (if key == "ttl_seconds"@ {
            Some(Json::Int(r.ttl_seconds as int))
        } else {
            None::<Json>
        })
        &&& field_value(d, key) == (if key == "source_agent"@ && r.source_agent@.len() > 0 {
            Some(Json::Str(r.source_agent@))
        } else {
            None::<Json>
        })
        &&& field_value(a + b + c + d, key) == match field_value(a, key) {
            Some(v) => Some(v),
            None => match field_value(b, key) {
                Some(v) => Some(v),
                None => match field_value(c, key) {
                    Some(v) => Some(v),
                    None => field_value(d, key),
                },
            },
        }
    } by {
        let key = keys[k];
        lemma_field_value_single("query"@, Json::Str(r.query@), key);
        lemma_field_value_single("preload_claims"@, claims, key);
        lemma_field_value_single("ttl_seconds"@, Json::Int(r.ttl_seconds as int), key);
        lemma_field_value_single("source_agent"@, Json::Str(r.source_agent@), key);
        lemma_field_value_concat4(a, b, c, d, key);
    }
    assert(keys[0] == "query"@);
    assert(keys[1] == "preload_claims"@);
    assert(keys[2] == "ttl_seconds"@);
    assert(keys[3] == "source_agent"@);
}

/// Request body of `/frame/open` in the lite server's shape.
#[derive(Debug, Clone)]
pub struct LiteFrameOpenRequest {
    pub query_id: String,
    pub goal_id: Option<String>,
    pub top_k: u32,
    pub ttl_seconds: u32,
}

impl LiteFrameOpenRequest {
    /// A request for `query_id` with no goal, 20 results and a 300 s lifetime.
    pub fn new(query_id: &str) -> (r: LiteFrameOpenRequest)
        ensures
            r.query_id@ == query_id@,
            r.goal_id is None,
            r.top_k == 20,
            r.ttl_seconds == 300,
    {
        LiteFrameOpenRequest {
            query_id: String::from_str(query_id),
            goal_id: None,
            top_k: 20,
            ttl_seconds: 300,
        }
    }

    pub fn with_goal_id(self, goal_id: &str) -> (r: LiteFrameOpenRequest)
        ensures
            r.goal_id matches Some(g) && g@ == goal_id@,
            r.query_id == self.query_id,
            r.top_k == self.top_k,
            r.ttl_seconds == self.ttl_seconds,
    {
        LiteFrameOpenRequest { goal_id: Some(String::from_str(goal_id)), ..self }
    }

    pub fn with_top_k(self, top_k: u32) -> (r: LiteFrameOpenRequest)
        ensures
            r == (LiteFrameOpenRequest { top_k, ..self }),
    {
        LiteFrameOpenRequest { top_k, ..self }
    }

    pub fn with_ttl(self, ttl_seconds: u32) -> (r: LiteFrameOpenRequest)
        ensures
            r == (LiteFrameOpenRequest { ttl_seconds, ..self }),
    {
        LiteFrameOpenRequest { ttl_seconds, ..self }
    }

    /// The JSON body: `query_id`, then `goal_id` when there is one, then
    /// `top_k` and `ttl_seconds`.
    pub open spec fn body_json(self) -> Json {
        Json::Object(
            seq![("query_id"@, Json::Str(self.query_id@))] + (match self.goal_id {
                Some(g) => seq![("goal_id"@, Json::Str(g@))],
                None => seq![],
            }) + seq![
                ("top_k"@, Json::Int(self.top_k as int)),
                ("ttl_seconds"@, Json::Int(self.ttl_seconds as int)),
            ],
        )
    }

    pub fn to_json(&self) -> (r: JsonValue)
        ensures
            r.json() == self.body_json(),
    {
        let mut fields: Vec<(String, JsonValue)> = Vec::new();
        push_field(&mut fields, "query_id", json_str(self.query_id.as_str()));
        match &self.goal_id {
            Some(g) => push_field(&mut fields, "goal_id", json_str(g.as_str())),
            None => {},
        }
        push_field(&mut fields, "top_k", JsonValue::UInt(self.top_k as u64));
        push_field(&mut fields, "ttl_seconds", JsonValue::UInt(self.ttl_seconds as u64));
        let r = json_object(fields);
        proof {
            let a = seq![("query_id"@, Json::Str(self.query_id@))];
            let b: Seq<(Seq<char>, Json)> = match &self.goal_id {
                Some(g) => seq![("goal_id"@, Json::Str(g@))],
                None => seq![],
            };
            let c = seq![
                ("top_k"@, Json::Int(self.top_k as int)),
                ("ttl_seconds"@, Json::Int(self.ttl_seconds as int)),
            ];
            assert(fields_json(fields@) =~= a + b + c);
        }
        r
    }
}

/// What the lite frame-open body carries: the query id, the result count
/// and the lifetime as the request holds them, and the goal id exactly when
/// there is one.
pub proof fn lemma_lite_frame_open_body(r: LiteFrameOpenRequest)
    ensures
        member(r.body_json(), "query_id"@) == Some(Json::Str(r.query_id@)),
        member(r.body_json(), "top_k"@) == Some(Json::Int(r.top_k as int)),
        member(r.body_json(), "ttl_seconds"@) == Some(Json::Int(r.ttl_seconds as int)),
        r.goal_id is None ==> member(r.body_json(), "goal_id"@) is None,
        forall|g: String|
            r.goal_id == Some(g) ==> member(r.body_json(), "goal_id"@) == Some(Json::Str(g@)),
{
    reveal_strlit("query_id");
    reveal_strlit("goal_id");
    reveal_strlit("top_k");
    reveal_strlit("ttl_seconds");
    let a = seq![("query_id"@, Json::Str(r.query_id@))];
    let b: Seq<(Seq<char>, Json)> = match r.goal_id {
        Some(g) => seq![("goal_id"@, Json::Str(g@))],
        None => seq![],
    };
    let goal = match r.goal_id {
        Some(g) => Json::Str(g@),
        None => Json::Null,
    };
    let c = seq![("top_k"@, Json::Int(r.top_k as int))];
    let d = seq![("ttl_seconds"@, Json::Int(r.ttl_seconds as int))];
    assert(r.body_json() == Json::Object(a + b + c + d)) by {
        assert(c + d =~= seq![
            ("top_k"@, Json::Int(r.top_k as int)),
            ("ttl_seconds"@, Json::Int(r.ttl_seconds as int)),
        ]);
        assert(a + b + (c + d) =~= a + b + c + d);
    }
    let keys = seq!["query_id"@, "goal_id"@, "top_k"@, "ttl_seconds"@];
    assert("query_id"@[0] != "goal_id"@[0]);
    assert("query_id"@[0] != "top_k"@[0]);
    assert("query_id"@[0] != "ttl_seconds"@[0]);
    assert("goal_id"@[0] != "top_k"@[0]);
    assert("goal_id"@[0] != "ttl_seconds"@[0]);
    assert("top_k"@[1] != "ttl_seconds"@[1]);
    assert forall|k: int| 0 <= k < 4 implies {
        let key = #[trigger] keys[k];
        &&& field_value(a, key) == (if key == "query_id"@ {
            Some(Json::Str(r.query_id@))
        } else {
            None::<Json>
        })
        &&& field_value(b, key) == (if key == "goal_id"@ && r.goal_id is Some {
            Some(goal)
        } else {
            None::<Json>
        })
        &&& field_value(c, key) == (if key == "top_k"@ {
            Some(Json::Int(r.top_k as int))
        } else {
            None::<Json>
        })
        &&& field_value(d, key) == (if key == "ttl_seconds"@ {
            Some(Json::Int(r.ttl_seconds as int))
        } else {
            None::<Json>
        })
        &&& field_value(a + b + c + d, key) == match field_value(a, key) {
            Some(v) => Some(v),
            None => match field_value(b, key) {
                Some(v) => Some(v),
                None => match field_value(c, key) {
                    Some(v) => Some(v),
                    None => field_value(d, key),
                },
            },
        }
    } by {
        let key = keys[k];
        lemma_field_value_single("query_id"@, Json::Str(r.query_id@), key);
        lemma_field_value_single("goal_id"@, goal, key);
        lemma_field_value_single("top_k"@, Json::Int(r.top_k as int), key);
        lemma_field_value_single("ttl_seconds"@, Json::Int(r.ttl_seconds as int), key);
        lemma_field_value_concat4(a, b, c, d, key);
    }
    assert(keys[0] == "query_id"@);
    assert(keys[1] == "goal_id"@);
    assert(keys[2] == "top_k"@);
    assert(keys[3] == "ttl_seconds"@);
}

// ── Response records ──

/// Outcome of committing a working-memory frame.
#[derive(Debug, Clone)]
pub struct FrameCommitResult {
    pub frame_id: String,
    pub beliefs_created: i64,
    pub beliefs_revised: i64,
}

/// A sandbox as the server describes it after creation.
#[derive(Debug, Clone)]
pub struct SandboxResult {
    pub id: String,
    pub frame_id: Option<String>,
    pub scenario_label: String,
    pub status: String,
    pub created_at: String,
    pub expires_at: Option<String>,
}

/// Outcome of committing a sandbox.
#[derive(Debug, Clone)]
pub struct SandboxCommitResult {
    pub sandbox_id: String,
    pub committed_belief_ids: Vec<String>,
    pub conflicts: Vec<String>,
}

/// How a belief resolves inside a sandbox.
#[derive(Debug, Clone)]
pub struct SandboxExplainResult {
    pub belief_id: String,
    pub sandbox_id: String,
    pub resolved_truth_state: TruthState,
    pub has_override: bool,
    pub override_fields: Vec<String>,
    pub invalidated_evidence_ids: Vec<String>,
    pub source: String,
}

/// The active belief-revision policy.
#[derive(Debug, Clone)]
pub struct RevisionPolicyResult {
    pub policy_name: String,
    pub max_retraction_depth: i64,
    pub max_retractions: i64,
}

/// One entry of the belief-revision audit log.
#[derive(Debug, Clone)]
pub struct RevisionAuditEntry {
    pub id: String,
    pub timestamp: String,
    pub incoming_belief_id: String,
    pub policy_name: String,
    pub revision_depth: i64,
    pub bounded: bool,
    pub agent_id: String,
}

/// Outcome of a belief revision.
#[derive(Debug, Clone)]
pub struct RevisionResult {
    pub superseded_evidence_ids: Vec<String>,
    pub retracted_belief_ids: Vec<String>,
    pub revision_depth: i64,
    pub policy_name: String,
    pub bounded: bool,
}

/// Size of the reconsolidation queue.
#[derive(Debug, Clone)]
pub struct ReconsolidationQueueResult {
    pub queue_size: i64,
}

/// Outcome of a reconsolidation run.
#[derive(Debug, Clone)]
pub struct ReconsolidationRunResult {
    pub processed: i64,
    pub timestamp: String,
}

/// One step of a policy.
#[derive(Debug, Clone)]
pub struct PolicyStepResult {
    pub step_id: i64,
    pub action: String,
    pub tool: Option<String>,
    pub conditions: Vec<String>,
    pub fallback: Option<String>,
}

/// Outcome of memory consolidation.
#[derive(Debug, Clone)]
pub struct ConsolidateResult {
    pub semantic_beliefs_created: i64,
    pub episodics_pruned: i64,
    pub clusters_found: i64,
}

/// The memory tier of a belief.
#[derive(Debug, Clone)]
pub struct MemoryTierResult {
    pub belief_id: String,
    pub memory_tier: String,
    pub consolidated_from_count: i64,
}

/// Outcome of a benchmark sandbox operation.
#[derive(Debug, Clone)]
pub struct BenchmarkSandboxResult {
    pub sandbox_id: String,
    pub resolved_truth_state: TruthState,
    pub canonical_unchanged: bool,
}

/// Outcome of a benchmark attack.
#[derive(Debug, Clone)]
pub struct BenchmarkAttackResult {
    pub edge_id: String,
    pub attacker_id: String,
    pub target_id: String,
}

/// The memory tier a belief has when the server names none.
pub fn default_memory_tier() -> (s: String)
    ensures
        s@ == "episodic"@,
{
    String::from_str("episodic")
}

/// The page size of a belief listing when the server names none.
pub fn default_list_limit() -> (n: i64)
    ensures
        n == 50,
{
    50
}

} // verus!
