use vstd::prelude::*;

verus! {

/// Why an operation was refused. A refused operation changes nothing.
#[derive(Clone, Copy, Debug, PartialEq, Eq, Structural)]
pub enum TaskError {
    /// The task has left the open stage.
    TaskNotOpen,
    /// The caller did not create the task.
    NotTaskCreator,
    /// The task is not in the assigned stage.
    TaskNotAssigned,
    /// The caller is not the principal the task was assigned to.
    NotAssignee,
    /// The task has not been completed.
    TaskNotCompleted,
    /// The principal already has a profile.
    AlreadyInitialized,
    /// The creator already has a task with this id.
    DuplicateTaskId,
    /// The title takes more bytes than a task record has room for.
    TitleTooLong,
    /// The description takes more bytes than a task record has room for.
    DescriptionTooLong,
    /// The ledger's clock could not be read.
    ClockUnavailable,
    /// The token service refused the minting authority.
    Unauthorized,
    /// The token service refused the destination account.
    InvalidAccount,
}

impl TaskError {
    /// The message shown for the error.
    pub fn message(&self) -> (text: &'static str)
        ensures
            text@ == self.spec_message(),
    {
        match self {
            TaskError::TaskNotOpen => "Task is not open",
            TaskError::NotTaskCreator => "Not the task creator",
            TaskError::TaskNotAssigned => "Task is not assigned",
            TaskError::NotAssignee => "Not the assignee",
            TaskError::TaskNotCompleted => "Task is not completed",
            TaskError::AlreadyInitialized => "Profile is already initialized",
            TaskError::DuplicateTaskId => "Task id is already in use",
            TaskError::TitleTooLong => "Title is too long",
            TaskError::DescriptionTooLong => "Description is too long",
            TaskError::ClockUnavailable => "Clock is not available",
            TaskError::Unauthorized => "Mint authority was refused",
            TaskError::InvalidAccount => "Token account was refused",
        }
    }

    pub open spec fn spec_message(&self) -> Seq<char> {
        match self {
            TaskError::TaskNotOpen => "Task is not open"@,
            TaskError::NotTaskCreator => "Not the task creator"@,
            TaskError::TaskNotAssigned => "Task is not assigned"@,
            TaskError::NotAssignee => "Not the assignee"@,
            TaskError::TaskNotCompleted => "Task is not completed"@,
            TaskError::AlreadyInitialized => "Profile is already initialized"@,
            TaskError::DuplicateTaskId => "Task id is already in use"@,
            TaskError::TitleTooLong => "Title is too long"@,
            TaskError::DescriptionTooLong => "Description is too long"@,
            TaskError::ClockUnavailable => "Clock is not available"@,
            TaskError::Unauthorized => "Mint authority was refused"@,
            TaskError::InvalidAccount => "Token account was refused"@,
        }
    }
}

} // verus!
