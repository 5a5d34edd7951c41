use crate::clock::unix_timestamp;
use crate::context::{AssignTask, ClaimReward, CompleteTask, CreateTask, InitializeUser};
use crate::error::TaskError;
use crate::lifecycle::{
    assign, claim, complete, complete_refusal, create, create_refusal, initialize,
};
use crate::pubkey::Pubkey;
use crate::settlement::MintRequest;
use crate::state::{
    Task, TaskStatus, UserProfile, MAX_DESCRIPTION_BYTES, MAX_TITLE_BYTES,
};
use vstd::prelude::*;

verus! {

/// Creates the caller's profile: owner set, nothing created or completed,
/// reputation at its starting value. Refused with `AlreadyInitialized` where
/// the ledger already holds a profile under the caller's key.
pub fn initialize_user(ctx: &mut InitializeUser) -> (res: Result<(), TaskError>)
    ensures
        match initialize(old(ctx).user_profile, old(ctx).user) {
            Ok(profile) => {
                &&& res is Ok
                &&& final(ctx).user_profile == Some(profile)
                &&& final(ctx).user == old(ctx).user
            },
            Err(e) => res == Err::<(), TaskError>(e) && *final(ctx) == *old(ctx),
        },
        res is Ok ==> final(ctx).user_profile is Some && final(ctx).user_profile->0.well_formed(),
{
    if ctx.user_profile.is_some() {
        return Err(TaskError::AlreadyInitialized);
    }
    ctx.user_profile = Some(UserProfile::new(ctx.user));
    Ok(())
}

/// Number of bytes that `text` takes in a record.
fn byte_len(text: &String) -> (n: usize)
    ensures
        n == crate::state::text_bytes(text@),
{
    text.as_str().as_bytes().len()
}

/// Tests what must hold before a task is created, in the order in which the
/// refusals are reported.
fn check_create(ctx: &CreateTask, title: &String, description: &String) -> (res: Result<
    (),
    TaskError,
>)
    ensures
        match create_refusal(ctx.existing(), title@, description@) {
            Some(e) => res == Err::<(), TaskError>(e),
            None => res is Ok,
        },
{
    if ctx.task.is_some() {
        Err(TaskError::DuplicateTaskId)
    } else if byte_len(title) > MAX_TITLE_BYTES {
        Err(TaskError::TitleTooLong)
    } else if byte_len(description) > MAX_DESCRIPTION_BYTES {
        Err(TaskError::DescriptionTooLong)
    } else {
        Ok(())
    }
}

/// Creates a task of the caller at the time `now`: the task is open, has no
/// assignee and no completion time, and the caller's profile counts one more
/// created task. Refused, with nothing changed, where the ledger already
/// holds a task under the caller's key for `task_id`, or where a text does
/// not fit its record.
pub fn create_task_at(
    ctx: &mut CreateTask,
    task_id: u64,
    title: String,
    description: String,
    reward_amount: u64,
    now: i64,
) -> (res: Result<(), TaskError>)
    requires
        create_refusal(old(ctx).existing(), title@, description@) is None ==> old(
            ctx,
        ).user_profile.can_count_created(),
    ensures
        match create(
            old(ctx).existing(),
            old(ctx).user_profile,
            old(ctx).user,
            task_id,
            title@,
            description@,
            reward_amount,
            now,
        ) {
            Ok((task, profile)) => {
                &&& res is Ok
                &&& final(ctx).existing() == Some(task)
                &&& final(ctx).user_profile == profile
                &&& final(ctx).user == old(ctx).user
            },
            Err(e) => res == Err::<(), TaskError>(e) && *final(ctx) == *old(ctx),
        },
        res is Ok ==> final(ctx).existing() is Some && final(ctx).existing()->0.well_formed(),
        old(ctx).user_profile.well_formed() ==> final(ctx).user_profile.well_formed(),
{
    match check_create(ctx, &title, &description) {
        Err(e) => Err(e),
        Ok(()) => {
            ctx.task = Some(
                Task {
                    id: task_id,
                    creator: ctx.user,
                    assignee: None,
                    title,
                    description,
                    status: TaskStatus::Open,
                    reward_amount,
                    created_at: now,
                    completed_at: None,
                },
            );
            ctx.user_profile.increment_created();
            Ok(())
        },
    }
}

/// Creates a task of the caller, stamped with the time that the ledger's
/// clock shows. What is refused by `create_task_at` is refused here with the
/// same error, whatever the clock does. Otherwise the call either fails with
/// `ClockUnavailable` and changes nothing, or does what `create_task_at` does
/// for the time that was read.
pub fn create_task(
    ctx: &mut CreateTask,
    task_id: u64,
    title: String,
    description: String,
    reward_amount: u64,
) -> (res: Result<(), TaskError>)
    requires
        create_refusal(old(ctx).existing(), title@, description@) is None ==> old(
            ctx,
        ).user_profile.can_count_created(),
    ensures
        match create_refusal(old(ctx).existing(), title@, description@) {
            Some(e) => res == Err::<(), TaskError>(e) && *final(ctx) == *old(ctx),
            None => {
                ||| res == Err::<(), TaskError>(TaskError::ClockUnavailable) && *final(ctx) == *old(
                    ctx,
                )
                ||| exists|now: i64|
                    {
                        &&& res is Ok
                        &&& final(ctx).user == old(ctx).user
                        &&& #[trigger] create(
                            old(ctx).existing(),
                            old(ctx).user_profile,
                            old(ctx).user,
                            task_id,
                            title@,
                            description@,
                            reward_amount,
                            now,
                        ) == Ok::<_, TaskError>(
                            (final(ctx).existing()->0, final(ctx).user_profile),
                        )
                        &&& final(ctx).existing() is Some
                    }
            },
        },
        res is Ok ==> final(ctx).existing() is Some && final(ctx).existing()->0.well_formed(),
        old(ctx).user_profile.well_formed() ==> final(ctx).user_profile.well_formed(),
{
    match check_create(ctx, &title, &description) {
        Err(e) => Err(e),
        Ok(()) => match unix_timestamp() {
            Err(_) => Err(TaskError::ClockUnavailable),
            Ok(now) => create_task_at(ctx, task_id, title, description, reward_amount, now),
        },
    }
}

/// Hands the task to `assignee`. Only the creator may do so, and only while
/// the task is open; the assignee may be anyone, the creator included. A
/// refused call changes nothing.
pub fn assign_task(ctx: &mut AssignTask, assignee: Pubkey) -> (res: Result<(), TaskError>)
    ensures
        match assign(old(ctx).task@, old(ctx).user, assignee) {
            Ok(task) => {
                &&& res is Ok
                &&& final(ctx).task@ == task
                &&& final(ctx).user == old(ctx).user
            },
            Err(e) => res == Err::<(), TaskError>(e) && *final(ctx) == *old(ctx),
        },
        final(ctx).task.status.rank() >= old(ctx).task.status.rank(),
        old(ctx).task@.well_formed() ==> final(ctx).task@.well_formed(),
{
    if ctx.task.status != TaskStatus::Open {
        return Err(TaskError::TaskNotOpen);
    }
    if ctx.task.creator != ctx.user {
        return Err(TaskError::NotTaskCreator);
    }
    ctx.task.assignee = Some(assignee);
    ctx.task.status = TaskStatus::Assigned;
    Ok(())
}

/// Whether `caller` is the principal that `task` is assigned to.
fn is_assignee(task: &Task, caller: &Pubkey) -> (yes: bool)
    ensures
        yes == (task.assignee == Some(*caller)),
{
    match task.assignee {
        Some(assignee) => assignee == *caller,
        None => false,
    }
}

/// Tests what must hold before a task is completed, in the order in which the
/// refusals are reported.
fn check_complete(ctx: &CompleteTask) -> (res: Result<(), TaskError>)
    ensures
        match complete_refusal(ctx.task@, ctx.assignee) {
            Some(e) => res == Err::<(), TaskError>(e),
            None => res is Ok,
        },
{
    if ctx.task.status != TaskStatus::Assigned {
        Err(TaskError::TaskNotAssigned)
    } else if !is_assignee(&ctx.task, &ctx.assignee) {
        Err(TaskError::NotAssignee)
    } else {
        Ok(())
    }
}

/// Completes the task at the time `now`: the task is completed and stamped,
/// and the caller's profile counts one more completed task and gains the
/// reputation for it. Only the assignee may do so, and only while the task is
/// assigned. Task and profile change together or not at all.
pub fn complete_task_at(ctx: &mut CompleteTask, now: i64) -> (res: Result<(), TaskError>)
    requires
        complete_refusal(old(ctx).task@, old(ctx).assignee) is None ==> old(
            ctx,
        ).assignee_profile.can_count_completed(),
    ensures
        match complete(old(ctx).task@, old(ctx).assignee_profile, old(ctx).assignee, now) {
            Ok((task, profile)) => {
                &&& res is Ok
                &&& final(ctx).task@ == task
                &&& final(ctx).assignee_profile == profile
                &&& final(ctx).assignee == old(ctx).assignee
            },
            Err(e) => res == Err::<(), TaskError>(e) && *final(ctx) == *old(ctx),
        },
        final(ctx).task.status.rank() >= old(ctx).task.status.rank(),
        old(ctx).task@.well_formed() ==> final(ctx).task@.well_formed(),
        old(ctx).assignee_profile.well_formed() ==> final(ctx).assignee_profile.well_formed(),
{
    match check_complete(ctx) {
        Err(e) => Err(e),
        Ok(()) => {
            ctx.task.status = TaskStatus::Completed;
            ctx.task.completed_at = Some(now);
            ctx.assignee_profile.increment_completed_and_reward();
            Ok(())
        },
    }
}

/// Completes the task, stamped with the time that the ledger's clock shows.
/// What is refused by `complete_task_at` is refused here with the same error,
/// whatever the clock does. Otherwise the call either fails with
/// `ClockUnavailable` and changes nothing, or does what `complete_task_at`
/// does for the time that was read.
pub fn complete_task(ctx: &mut CompleteTask) -> (res: Result<(), TaskError>)
    requires
        complete_refusal(old(ctx).task@, old(ctx).assignee) is None ==> old(
            ctx,
        ).assignee_profile.can_count_completed(),
    ensures
        match complete_refusal(old(ctx).task@, old(ctx).assignee) {
            Some(e) => res == Err::<(), TaskError>(e) && *final(ctx) == *old(ctx),
            None => {
                ||| res == Err::<(), TaskError>(TaskError::ClockUnavailable) && *final(ctx) == *old(
                    ctx,
                )
                ||| exists|now: i64|
                    {
                        &&& res is Ok
                        &&& final(ctx).assignee == old(ctx).assignee
                        &&& #[trigger] complete(
                            old(ctx).task@,
                            old(ctx).assignee_profile,
                            old(ctx).assignee,
                            now,
                        ) == Ok::<_, TaskError>((final(ctx).task@, final(ctx).assignee_profile))
                    }
            },
        },
        final(ctx).task.status.rank() >= old(ctx).task.status.rank(),
        old(ctx).task@.well_formed() ==> final(ctx).task@.well_formed(),
        old(ctx).assignee_profile.well_formed() ==> final(ctx).assignee_profile.well_formed(),
{
    match check_complete(ctx) {
        Err(e) => Err(e),
        Ok(()) => match unix_timestamp() {
            Err(_) => Err(TaskError::ClockUnavailable),
            Ok(now) => complete_task_at(ctx, now),
        },
    }
}

/// Decides a claim on the task's reward. Where the task is completed and the
/// caller is its assignee, the result is the one mint request that settles
/// the claim: the task's reward, in the reward token, into the caller's token
/// account, on the word of the minting authority. The task is not changed,
/// so the same claim made again yields the same request again.
pub fn claim_reward(ctx: &ClaimReward) -> (res: Result<MintRequest, TaskError>)
    ensures
        res == claim(
            ctx.task@,
            ctx.assignee,
            ctx.reward_mint,
            ctx.assignee_token_account,
            ctx.mint_authority,
        ),
{
    if ctx.task.status != TaskStatus::Completed {
        return Err(TaskError::TaskNotCompleted);
    }
    if !is_assignee(&ctx.task, &ctx.assignee) {
        return Err(TaskError::NotAssignee);
    }
    Ok(
        MintRequest {
            mint: ctx.reward_mint,
            to: ctx.assignee_token_account,
            authority: ctx.mint_authority,
            amount: ctx.task.reward_amount,
        },
    )
}

} // verus!
