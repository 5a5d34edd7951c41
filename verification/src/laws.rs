use crate::error::TaskError;
use crate::lifecycle::{
    after, after_all, assign, claim, complete, complete_refusal, create, initialize, new_profile,
    with_completed, with_created, TaskOp,
};
use crate::pubkey::Pubkey;
use crate::settlement::MintRequest;
use crate::state::{TaskStatus, TaskView, UserProfile, REPUTATION_PER_TASK};
use vstd::prelude::*;

verus! {

/// A profile is created once. Where the ledger holds nothing under the
/// principal's key, creation succeeds; once it holds what that creation
/// wrote, creation is refused with `AlreadyInitialized`.
pub proof fn lemma_initialize_twice(user: Pubkey)
    ensures
        initialize(None, user) == Ok::<_, TaskError>(new_profile(user)),
        initialize(Some(new_profile(user)), user) == Err::<UserProfile, _>(
            TaskError::AlreadyInitialized,
        ),
{
}

/// The counters of a profile never go down, and its reputation follows what
/// its owner has completed: a new profile is well formed, and counting a
/// created or a completed task keeps it so, changes nothing but what it
/// counts, and never changes the owner.
pub proof fn lemma_counters_never_decrease(owner: Pubkey, profile: UserProfile)
    requires
        profile.well_formed(),
    ensures
        new_profile(owner).well_formed(),
        new_profile(owner).owner == owner,
        profile.can_count_created() ==> {
            &&& with_created(profile).well_formed()
            &&& with_created(profile).tasks_created == profile.tasks_created + 1
            &&& with_created(profile).tasks_completed == profile.tasks_completed
            &&& with_created(profile).reputation_score == profile.reputation_score
            &&& with_created(profile).owner == profile.owner
        },
        profile.can_count_completed() ==> {
            &&& with_completed(profile).well_formed()
            &&& with_completed(profile).tasks_completed == profile.tasks_completed + 1
            &&& with_completed(profile).reputation_score == profile.reputation_score
                + REPUTATION_PER_TASK
            &&& with_completed(profile).tasks_created == profile.tasks_created
            &&& with_completed(profile).owner == profile.owner
        },
{
}

/// A task that has just been created is open and well formed, and its
/// creator's profile counts one more created task.
pub proof fn lemma_created_task_is_open(
    profile: UserProfile,
    creator: Pubkey,
    id: u64,
    title: Seq<char>,
    description: Seq<char>,
    reward_amount: u64,
    now: i64,
)
    requires
        profile.can_count_created(),
    ensures
        create(None, profile, creator, id, title, description, reward_amount, now) matches Ok(
            (task, counted),
        ) ==> {
            &&& task.status == TaskStatus::Open
            &&& task.assignee is None
            &&& task.well_formed()
            &&& task.creator == creator
            &&& task.id == id
            &&& task.reward_amount == reward_amount
            &&& counted.tasks_created == profile.tasks_created + 1
        },
{
}

/// Assignment succeeds exactly when the task is open and the caller created
/// it. Any other stage is refused with `TaskNotOpen`; on an open task any
/// other caller is refused with `NotTaskCreator`. A refused attempt leaves
/// the task, its stage and its assignee as they were.
pub proof fn lemma_assign_needs_creator_and_open(task: TaskView, caller: Pubkey, assignee: Pubkey)
    ensures
        assign(task, caller, assignee) is Ok <==> (task.status == TaskStatus::Open && caller
            == task.creator),
        task.status != TaskStatus::Open ==> assign(task, caller, assignee) == Err::<TaskView, _>(
            TaskError::TaskNotOpen,
        ),
        task.status == TaskStatus::Open && caller != task.creator ==> assign(
            task,
            caller,
            assignee,
        ) == Err::<TaskView, _>(TaskError::NotTaskCreator),
        assign(task, caller, assignee) matches Ok(next) ==> {
            &&& next.status == TaskStatus::Assigned
            &&& next.assignee == Some(assignee)
        },
        assign(task, caller, assignee) is Err ==> after(task, TaskOp::Assign { caller, assignee })
            == task,
{
}

/// The stage of a task never goes back, whatever is attempted on it and by
/// whom: after any run of attempts the task is at its stage or a later one.
/// What was fixed at creation stays fixed.
pub proof fn lemma_status_is_monotone(task: TaskView, ops: Seq<TaskOp>)
    ensures
        after_all(task, ops).status.rank() >= task.status.rank(),
        after_all(task, ops).id == task.id,
        after_all(task, ops).creator == task.creator,
        after_all(task, ops).title == task.title,
        after_all(task, ops).description == task.description,
        after_all(task, ops).reward_amount == task.reward_amount,
        after_all(task, ops).created_at == task.created_at,
    decreases ops.len(),
{
    if ops.len() > 0 {
        lemma_status_is_monotone(task, ops.drop_last());
    }
}

/// A well-formed task stays well formed, whatever is attempted on it and by
/// whom; and its assignee and its completion time, once recorded, are never
/// replaced.
pub proof fn lemma_well_formed_is_kept(task: TaskView, ops: Seq<TaskOp>)
    requires
        task.well_formed(),
    ensures
        after_all(task, ops).well_formed(),
        task.assignee is Some ==> after_all(task, ops).assignee == task.assignee,
        task.completed_at is Some ==> after_all(task, ops).completed_at == task.completed_at,
    decreases ops.len(),
{
    if ops.len() > 0 {
        lemma_well_formed_is_kept(task, ops.drop_last());
    }
}

/// One accepted attempt moves a task on by exactly one stage, and a task is
/// never moved past a stage.
pub proof fn lemma_no_stage_is_skipped(task: TaskView, op: TaskOp)
    ensures
        after(task, op).status.rank() == task.status.rank() || after(task, op).status.rank()
            == task.status.rank() + 1,
{
}

/// On an assigned task, completion by anyone but the assignee is refused with
/// `NotAssignee`, and neither the task nor the caller's profile is changed.
pub proof fn lemma_complete_by_other_is_refused(
    task: TaskView,
    profile: UserProfile,
    caller: Pubkey,
    now: i64,
)
    requires
        task.status == TaskStatus::Assigned,
        task.assignee != Some(caller),
    ensures
        complete(task, profile, caller, now) == Err::<(TaskView, UserProfile), _>(
            TaskError::NotAssignee,
        ),
        after(task, TaskOp::Complete { caller, now }) == task,
{
}

/// Completion changes task and profile together or not at all. Where it is
/// accepted, the task is completed and stamped with the time, and the profile
/// counts one more completed task and gains the reputation for it; nothing
/// else changes. Where it is refused there is no new task and no new profile.
pub proof fn lemma_complete_is_atomic(
    task: TaskView,
    profile: UserProfile,
    caller: Pubkey,
    now: i64,
)
    requires
        profile.can_count_completed(),
    ensures
        complete(task, profile, caller, now) is Ok <==> (task.status == TaskStatus::Assigned
            && task.assignee == Some(caller)),
        complete(task, profile, caller, now) matches Ok((done, credited)) ==> {
            &&& done == (TaskView {
                status: TaskStatus::Completed,
                completed_at: Some(now),
                ..task
            })
            &&& credited.tasks_completed == profile.tasks_completed + 1
            &&& credited.reputation_score == profile.reputation_score + REPUTATION_PER_TASK
            &&& credited.tasks_created == profile.tasks_created
            &&& credited.owner == profile.owner
        },
        complete(task, profile, caller, now) is Err <==> complete_refusal(task, caller) is Some,
{
}

/// A claim on a completed task by its assignee yields one mint request for
/// exactly the task's reward. The claim leaves the task as it was, so the
/// same claim made again yields the same request again: nothing records that
/// a reward was claimed.
pub proof fn lemma_claim_is_repeatable(
    task: TaskView,
    caller: Pubkey,
    mint: Pubkey,
    to: Pubkey,
    authority: Pubkey,
)
    requires
        task.status == TaskStatus::Completed,
        task.assignee == Some(caller),
    ensures
        claim(task, caller, mint, to, authority) == Ok::<_, TaskError>(
            MintRequest { mint, to, authority, amount: task.reward_amount },
        ),
        after(task, TaskOp::Claim { caller }) == task,
        claim(after(task, TaskOp::Claim { caller }), caller, mint, to, authority) == claim(
            task,
            caller,
            mint,
            to,
            authority,
        ),
{
}

/// A claim is accepted exactly on a completed task and from its assignee.
/// Any other stage is refused with `TaskNotCompleted`; on a completed task
/// any other caller is refused with `NotAssignee`.
pub proof fn lemma_claim_needs_assignee_and_completed(
    task: TaskView,
    caller: Pubkey,
    mint: Pubkey,
    to: Pubkey,
    authority: Pubkey,
)
    ensures
        claim(task, caller, mint, to, authority) is Ok <==> (task.status == TaskStatus::Completed
            && task.assignee == Some(caller)),
        task.status != TaskStatus::Completed ==> claim(task, caller, mint, to, authority) == Err::<
            MintRequest,
            _,
        >(TaskError::TaskNotCompleted),
        task.status == TaskStatus::Completed && task.assignee != Some(caller) ==> claim(
            task,
            caller,
            mint,
            to,
            authority,
        ) == Err::<MintRequest, _>(TaskError::NotAssignee),
{
}

} // verus!
