use crate::lifecycle::{new_profile, with_completed, with_created};
use crate::pubkey::Pubkey;
use vstd::prelude::*;
use vstd::utf8::encode_utf8;

verus! {

/// Reputation of a profile that has completed nothing yet.
pub const INITIAL_REPUTATION: u64 = 100;

/// Reputation gained with each completed task.
pub const REPUTATION_PER_TASK: u64 = 10;

/// Most bytes a task's title may take.
pub const MAX_TITLE_BYTES: usize = 256;

/// Most bytes a task's description may take.
pub const MAX_DESCRIPTION_BYTES: usize = 512;

/// The three stages a task passes through, in this order and no other.
#[derive(Clone, Copy, Debug, PartialEq, Eq, Structural)]
pub enum TaskStatus {
    Open,
    Assigned,
    Completed,
}

impl TaskStatus {
    /// Position of the stage in the lifecycle.
    pub open spec fn rank(self) -> nat {
        match self {
            TaskStatus::Open => 0,
            TaskStatus::Assigned => 1,
            TaskStatus::Completed => 2,
        }
    }
}

/// What the ledger records about one principal.
#[derive(Clone, Copy, Debug, PartialEq, Eq)]
pub struct UserProfile {
    pub owner: Pubkey,
    pub tasks_created: u64,
    pub tasks_completed: u64,
    pub reputation_score: u64,
}

impl UserProfile {
    /// A profile for `owner` with nothing created or completed yet.
    pub(crate) fn new(owner: Pubkey) -> (profile: UserProfile)
        ensures
            profile == new_profile(owner),
    {
        UserProfile { owner, tasks_created: 0, tasks_completed: 0, reputation_score: INITIAL_REPUTATION }
    }

    /// What holds of every profile that the lifecycle can produce: the
    /// reputation is the starting value and the gain of every completed task.
    pub open spec fn well_formed(self) -> bool {
        self.reputation_score == INITIAL_REPUTATION + REPUTATION_PER_TASK * self.tasks_completed
    }

    /// Whether the counters can take one more created task.
    pub open spec fn can_count_created(self) -> bool {
        self.tasks_created < u64::MAX
    }

    /// Whether the counters can take one more completed task and its
    /// reputation.
    pub open spec fn can_count_completed(self) -> bool {
        &&& self.tasks_completed < u64::MAX
        &&& self.reputation_score + REPUTATION_PER_TASK <= u64::MAX
    }

    /// Counts one more task created by the owner.
    pub(crate) fn increment_created(&mut self)
        requires
            old(self).can_count_created(),
        ensures
            *final(self) == with_created(*old(self)),
            final(self).tasks_created == old(self).tasks_created + 1,
    {
        self.tasks_created = self.tasks_created + 1;
    }

    /// Counts one more task completed by the owner and credits the
    /// reputation that comes with it.
    pub(crate) fn increment_completed_and_reward(&mut self)
        requires
            old(self).can_count_completed(),
        ensures
            *final(self) == with_completed(*old(self)),
            final(self).tasks_completed == old(self).tasks_completed + 1,
            final(self).reputation_score == old(self).reputation_score + REPUTATION_PER_TASK,
    {
        self.tasks_completed = self.tasks_completed + 1;
        self.reputation_score = self.reputation_score + REPUTATION_PER_TASK;
    }
}

/// One task as the ledger records it.
#[derive(Clone, Debug, PartialEq, Eq)]
pub struct Task {
    pub id: u64,
    pub creator: Pubkey,
    pub assignee: Option<Pubkey>,
    pub title: String,
    pub description: String,
    pub status: TaskStatus,
    pub reward_amount: u64,
    pub created_at: i64,
    pub completed_at: Option<i64>,
}

/// A task as a mathematical value: the texts are sequences of characters.
pub struct TaskView {
    pub id: u64,
    pub creator: Pubkey,
    pub assignee: Option<Pubkey>,
    pub title: Seq<char>,
    pub description: Seq<char>,
    pub status: TaskStatus,
    pub reward_amount: u64,
    pub created_at: i64,
    pub completed_at: Option<i64>,
}

impl View for Task {
    type V = TaskView;

    open spec fn view(&self) -> TaskView {
        TaskView {
            id: self.id,
            creator: self.creator,
            assignee: self.assignee,
            title: self.title@,
            description: self.description@,
            status: self.status,
            reward_amount: self.reward_amount,
            created_at: self.created_at,
            completed_at: self.completed_at,
        }
    }
}

/// Number of bytes that a text takes in a record.
pub open spec fn text_bytes(text: Seq<char>) -> nat {
    encode_utf8(text).len()
}

impl TaskView {
    /// What holds of every task that the lifecycle can produce: an assignee is
    /// recorded exactly from the assigned stage on, a completion time exactly
    /// in the completed stage, and both texts fit their record.
    pub open spec fn well_formed(self) -> bool {
        &&& self.assignee is Some <==> self.status != TaskStatus::Open
        &&& self.completed_at is Some <==> self.status == TaskStatus::Completed
        &&& text_bytes(self.title) <= MAX_TITLE_BYTES
        &&& text_bytes(self.description) <= MAX_DESCRIPTION_BYTES
    }
}

} // verus!
