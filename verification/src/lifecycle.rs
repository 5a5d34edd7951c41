use crate::error::TaskError;
use crate::pubkey::Pubkey;
use crate::settlement::MintRequest;
use crate::state::{
    text_bytes, TaskStatus, TaskView, UserProfile, INITIAL_REPUTATION, MAX_DESCRIPTION_BYTES,
    MAX_TITLE_BYTES, REPUTATION_PER_TASK,
};
use vstd::prelude::*;

verus! {

/// The profile of a principal that has done nothing yet.
pub open spec fn new_profile(owner: Pubkey) -> UserProfile {
    UserProfile { owner, tasks_created: 0, tasks_completed: 0, reputation_score: INITIAL_REPUTATION }
}

/// Creating the profile of `user` where the ledger holds `existing` under the
/// user's profile key.
pub open spec fn initialize(existing: Option<UserProfile>, user: Pubkey) -> Result<
    UserProfile,
    TaskError,
> {
    if existing is Some {
        Err(TaskError::AlreadyInitialized)
    } else {
        Ok(new_profile(user))
    }
}

/// The profile after its owner has created one more task.
pub open spec fn with_created(profile: UserProfile) -> UserProfile {
    UserProfile { tasks_created: (profile.tasks_created + 1) as u64, ..profile }
}

/// The profile after its owner has completed one more task.
pub open spec fn with_completed(profile: UserProfile) -> UserProfile {
    UserProfile {
        tasks_completed: (profile.tasks_completed + 1) as u64,
        reputation_score: (profile.reputation_score + REPUTATION_PER_TASK) as u64,
        ..profile
    }
}

/// A task as it stands right after its creation.
pub open spec fn new_task(
    creator: Pubkey,
    id: u64,
    title: Seq<char>,
    description: Seq<char>,
    reward_amount: u64,
    now: i64,
) -> TaskView {
    TaskView {
        id,
        creator,
        assignee: None,
        title,
        description,
        status: TaskStatus::Open,
        reward_amount,
        created_at: now,
        completed_at: None,
    }
}

/// Why a task cannot be created, if it cannot: the ledger holds `existing`
/// under the creator's key for the chosen id.
pub open spec fn create_refusal(
    existing: Option<TaskView>,
    title: Seq<char>,
    description: Seq<char>,
) -> Option<TaskError> {
    if existing is Some {
        Some(TaskError::DuplicateTaskId)
    } else if text_bytes(title) > MAX_TITLE_BYTES {
        Some(TaskError::TitleTooLong)
    } else if text_bytes(description) > MAX_DESCRIPTION_BYTES {
        Some(TaskError::DescriptionTooLong)
    } else {
        None
    }
}

/// Creating a task at time `now`: the new task and the creator's profile
/// after it.
pub open spec fn create(
    existing: Option<TaskView>,
    profile: UserProfile,
    creator: Pubkey,
    id: u64,
    title: Seq<char>,
    description: Seq<char>,
    reward_amount: u64,
    now: i64,
) -> Result<(TaskView, UserProfile), TaskError> {
    match create_refusal(existing, title, description) {
        Some(e) => Err(e),
        None => Ok(
            (new_task(creator, id, title, description, reward_amount, now), with_created(profile)),
        ),
    }
}

/// `caller` hands `task` to `assignee`.
pub open spec fn assign(task: TaskView, caller: Pubkey, assignee: Pubkey) -> Result<
    TaskView,
    TaskError,
> {
    if task.status != TaskStatus::Open {
        Err(TaskError::TaskNotOpen)
    } else if task.creator != caller {
        Err(TaskError::NotTaskCreator)
    } else {
        Ok(TaskView { assignee: Some(assignee), status: TaskStatus::Assigned, ..task })
    }
}

/// The task once it is completed at time `now`.
pub open spec fn completed_task(task: TaskView, now: i64) -> TaskView {
    TaskView { status: TaskStatus::Completed, completed_at: Some(now), ..task }
}

/// Why `caller` cannot complete `task`, if it cannot.
pub open spec fn complete_refusal(task: TaskView, caller: Pubkey) -> Option<TaskError> {
    if task.status != TaskStatus::Assigned {
        Some(TaskError::TaskNotAssigned)
    } else if task.assignee != Some(caller) {
        Some(TaskError::NotAssignee)
    } else {
        None
    }
}

/// `caller` completes `task` at time `now`: the task and the caller's profile
/// after it.
pub open spec fn complete(task: TaskView, profile: UserProfile, caller: Pubkey, now: i64) -> Result<
    (TaskView, UserProfile),
    TaskError,
> {
    match complete_refusal(task, caller) {
        Some(e) => Err(e),
        None => Ok((completed_task(task, now), with_completed(profile))),
    }
}

/// `caller` claims the reward of `task`: the mint request that settles it.
pub open spec fn claim(
    task: TaskView,
    caller: Pubkey,
    mint: Pubkey,
    to: Pubkey,
    authority: Pubkey,
) -> Result<MintRequest, TaskError> {
    if task.status != TaskStatus::Completed {
        Err(TaskError::TaskNotCompleted)
    } else if task.assignee != Some(caller) {
        Err(TaskError::NotAssignee)
    } else {
        Ok(MintRequest { mint, to, authority, amount: task.reward_amount })
    }
}

/// One attempt to move a task on, with who makes it.
pub enum TaskOp {
    Assign { caller: Pubkey, assignee: Pubkey },
    Complete { caller: Pubkey, now: i64 },
    Claim { caller: Pubkey },
}

/// The task after one attempt: moved on where the attempt is accepted, as it
/// was where it is refused. A claim never changes the task.
pub open spec fn after(task: TaskView, op: TaskOp) -> TaskView {
    match op {
        TaskOp::Assign { caller, assignee } => match assign(task, caller, assignee) {
            Ok(next) => next,
            Err(_) => task,
        },
        TaskOp::Complete { caller, now } => if complete_refusal(task, caller) is None {
            completed_task(task, now)
        } else {
            task
        },
        TaskOp::Claim { .. } => task,
    }
}

/// The task after a run of attempts, made one after the other.
pub open spec fn after_all(task: TaskView, ops: Seq<TaskOp>) -> TaskView
    decreases ops.len(),
{
    if ops.len() == 0 {
        task
    } else {
        after(after_all(task, ops.drop_last()), ops.last())
    }
}

} // verus!
