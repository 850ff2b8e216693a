//! Verified core of the MnemeBrain client: the data model, the shape of
//! every API call, and the decisions taken on the answers.
pub mod client;
pub mod error;
pub mod json;
pub mod models;
pub mod request;
pub mod subclient;
pub mod text;

pub use client::{
    ClientConfig, ConfigError, CoreApi, DEFAULT_TIMEOUT_SECS, MnemeBrainClientBuilder, RequestTimeout,
    retracted_beliefs,
};
pub use error::{MnemeBrainError, Result};
pub use json::JsonValue;
pub use models::{
    AttackType, BeliefType, BenchmarkAttackResult, BenchmarkSandboxResult, CommitMode,
    ConflictPolicy, ConsolidateResult, FrameCommitResult, FrameOpenRequest, GoalStatus,
    LiteFrameOpenRequest, MemoryTierResult, Polarity, PolicyStatus, PolicyStepResult,
    ReconsolidationQueueResult, ReconsolidationRunResult, RevisionAuditEntry,
    RevisionPolicyResult, RevisionResult, SandboxCommitResult, SandboxExplainResult,
    SandboxResult, SandboxStatus, TruthState, default_list_limit, default_memory_tier,
};
pub use request::{ApiRequest, HttpMethod, ResponseMode, ResponseStep, V4_PREFIX, response_step};
pub use subclient::{
    AttackApi, GoalApi, PolicyApi, ReconsolidationApi, RevisionApi, SandboxApi,
};
