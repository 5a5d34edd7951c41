use crate::pubkey::Pubkey;
use crate::state::{Task, TaskView, UserProfile};
use vstd::prelude::*;

verus! {

/// What creating a profile works on.
#[derive(Clone, Copy, Debug, PartialEq, Eq)]
pub struct InitializeUser {
    /// What the ledger holds under the user's profile key: nothing before the
    /// profile is created.
    pub user_profile: Option<UserProfile>,
    /// The authenticated caller.
    pub user: Pubkey,
}

/// What creating a task works on.
#[derive(Clone, Debug, PartialEq, Eq)]
pub struct CreateTask {
    /// What the ledger holds under the caller's key for the chosen task id:
    /// nothing before the task is created.
    pub task: Option<Task>,
    /// The caller's profile.
    pub user_profile: UserProfile,
    /// The authenticated caller.
    pub user: Pubkey,
}

impl CreateTask {
    /// The task that the ledger already holds under the key, as a
    /// mathematical value.
    pub open spec fn existing(&self) -> Option<TaskView> {
        match self.task {
            Some(task) => Some(task@),
            None => None,
        }
    }
}

/// What assigning a task works on.
#[derive(Clone, Debug, PartialEq, Eq)]
pub struct AssignTask {
    pub task: Task,
    /// The authenticated caller.
    pub user: Pubkey,
}

/// What completing a task works on.
#[derive(Clone, Debug, PartialEq, Eq)]
pub struct CompleteTask {
    pub task: Task,
    /// The caller's profile.
    pub assignee_profile: UserProfile,
    /// The authenticated caller.
    pub assignee: Pubkey,
}

/// What claiming a reward works on.
#[derive(Clone, Debug, PartialEq, Eq)]
pub struct ClaimReward {
    pub task: Task,
    /// The token that rewards are paid in.
    pub reward_mint: Pubkey,
    /// The caller's account for that token.
    pub assignee_token_account: Pubkey,
    /// The authenticated caller.
    pub assignee: Pubkey,
    /// The authenticated principal on whose word the token is minted.
    pub mint_authority: Pubkey,
}

} // verus!
