pub mod attacks;
pub mod goals;
pub mod policies;
pub mod recon;
pub mod revision;
pub mod sandbox;

pub use attacks::AttackApi;
pub use goals::GoalApi;
pub use policies::PolicyApi;
pub use recon::ReconsolidationApi;
pub use revision::RevisionApi;
pub use sandbox::SandboxApi;
