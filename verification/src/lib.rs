//! Lifecycle of rewarded tasks on a shared ledger: profiles that count what a
//! principal has created and completed, tasks that move from open to assigned
//! to completed, and the mint request that settles a completed task.

pub mod address;
pub mod clock;
pub mod context;
pub mod error;
pub mod instructions;
pub mod laws;
pub mod lifecycle;
pub mod pubkey;
pub mod settlement;
pub mod state;

pub use address::{profile_key, profile_seeds, task_key, task_seeds};
pub use context::{AssignTask, ClaimReward, CompleteTask, CreateTask, InitializeUser};
pub use error::TaskError;
pub use instructions::{
    assign_task, claim_reward, complete_task, complete_task_at, create_task, create_task_at,
    initialize_user,
};
pub use pubkey::Pubkey;
pub use settlement::{settle, MintError, MintRequest};
pub use state::{Task, TaskStatus, UserProfile};
