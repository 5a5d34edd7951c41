use task_manager::{
    assign_task, claim_reward, complete_task, complete_task_at, create_task, create_task_at,
    initialize_user, settle, AssignTask, ClaimReward, CompleteTask, CreateTask, InitializeUser,
    MintError, MintRequest, Pubkey, Task, TaskError, TaskStatus, UserProfile,
};

fn key(n: u8) -> Pubkey {
    Pubkey::new_from_array([n; 32])
}

fn profile_of(user: Pubkey) -> UserProfile {
    let mut ctx = InitializeUser { user_profile: None, user };
    assert_eq!(initialize_user(&mut ctx), Ok(()));
    ctx.user_profile.unwrap()
}

fn open_task(creator: Pubkey, id: u64, reward: u64) -> Task {
    let mut ctx = CreateTask { task: None, user_profile: profile_of(creator), user: creator };
    assert_eq!(
        create_task_at(&mut ctx, id, "Write docs".to_string(), "All of them".to_string(), reward, 1_000),
        Ok(())
    );
    ctx.task.unwrap()
}

fn assigned_task(creator: Pubkey, assignee: Pubkey, id: u64, reward: u64) -> Task {
    let mut ctx = AssignTask { task: open_task(creator, id, reward), user: creator };
    assert_eq!(assign_task(&mut ctx, assignee), Ok(()));
    ctx.task
}

fn completed_task(creator: Pubkey, assignee: Pubkey, id: u64, reward: u64) -> Task {
    let mut ctx = CompleteTask {
        task: assigned_task(creator, assignee, id, reward),
        assignee_profile: profile_of(assignee),
        assignee,
    };
    assert_eq!(complete_task_at(&mut ctx, 2_000), Ok(()));
    ctx.task
}

fn claim_on(task: Task, caller: Pubkey) -> ClaimReward {
    ClaimReward {
        task,
        reward_mint: key(50),
        assignee_token_account: key(51),
        assignee: caller,
        mint_authority: key(52),
    }
}

#[test]
fn initialize_user_sets_starting_values() {
    let mut ctx = InitializeUser { user_profile: None, user: key(1) };
    assert_eq!(initialize_user(&mut ctx), Ok(()));
    assert_eq!(
        ctx.user_profile,
        Some(UserProfile {
            owner: key(1),
            tasks_created: 0,
            tasks_completed: 0,
            reputation_score: 100
        })
    );
    assert_eq!(ctx.user, key(1));
}

#[test]
fn initialize_user_twice_is_refused() {
    let mut ctx = InitializeUser { user_profile: None, user: key(1) };
    assert_eq!(initialize_user(&mut ctx), Ok(()));
    let after_first = ctx;
    assert_eq!(initialize_user(&mut ctx), Err(TaskError::AlreadyInitialized));
    assert_eq!(ctx, after_first);
}

#[test]
fn initialize_user_keeps_an_existing_profile() {
    let existing =
        UserProfile { owner: key(1), tasks_created: 7, tasks_completed: 3, reputation_score: 130 };
    let mut ctx = InitializeUser { user_profile: Some(existing), user: key(1) };
    assert_eq!(initialize_user(&mut ctx), Err(TaskError::AlreadyInitialized));
    assert_eq!(ctx.user_profile, Some(existing));
}

#[test]
fn create_task_at_records_an_open_task() {
    let mut ctx = CreateTask { task: None, user_profile: profile_of(key(1)), user: key(1) };
    let res = create_task_at(&mut ctx, 9, "Title".to_string(), "Text".to_string(), 500, 1_234);
    assert_eq!(res, Ok(()));
    assert_eq!(
        ctx.task,
        Some(Task {
            id: 9,
            creator: key(1),
            assignee: None,
            title: "Title".to_string(),
            description: "Text".to_string(),
            status: TaskStatus::Open,
            reward_amount: 500,
            created_at: 1_234,
            completed_at: None,
        })
    );
    assert_eq!(ctx.user_profile.tasks_created, 1);
    assert_eq!(ctx.user_profile.tasks_completed, 0);
    assert_eq!(ctx.user_profile.reputation_score, 100);
    assert_eq!(ctx.user_profile.owner, key(1));
}

#[test]
fn create_task_at_counts_every_task() {
    let mut profile = profile_of(key(1));
    for id in 0..3u64 {
        let mut ctx = CreateTask { task: None, user_profile: profile, user: key(1) };
        assert_eq!(
            create_task_at(&mut ctx, id, String::new(), String::new(), 1, 0),
            Ok(())
        );
        profile = ctx.user_profile;
    }
    assert_eq!(profile.tasks_created, 3);
}

#[test]
fn create_task_at_accepts_zero_reward_and_negative_time() {
    let mut ctx = CreateTask { task: None, user_profile: profile_of(key(1)), user: key(1) };
    assert_eq!(create_task_at(&mut ctx, u64::MAX, String::new(), String::new(), 0, -5), Ok(()));
    let task = ctx.task.unwrap();
    assert_eq!(task.reward_amount, 0);
    assert_eq!(task.id, u64::MAX);
    assert_eq!(task.created_at, -5);
}

#[test]
fn create_task_at_refuses_a_duplicate_id() {
    let existing = open_task(key(1), 4, 10);
    let mut ctx =
        CreateTask { task: Some(existing.clone()), user_profile: profile_of(key(1)), user: key(1) };
    let before = ctx.clone();
    let res = create_task_at(&mut ctx, 4, "Other".to_string(), "Other".to_string(), 99, 5);
    assert_eq!(res, Err(TaskError::DuplicateTaskId));
    assert_eq!(ctx, before);
    assert_eq!(ctx.task, Some(existing));
    assert_eq!(ctx.user_profile.tasks_created, 0);
}

#[test]
fn create_task_at_bounds_the_title_in_bytes() {
    let fits = "t".repeat(256);
    let mut ctx = CreateTask { task: None, user_profile: profile_of(key(1)), user: key(1) };
    assert_eq!(create_task_at(&mut ctx, 1, fits, String::new(), 1, 0), Ok(()));

    let too_long = "t".repeat(257);
    let mut ctx = CreateTask { task: None, user_profile: profile_of(key(1)), user: key(1) };
    let before = ctx.clone();
    assert_eq!(
        create_task_at(&mut ctx, 1, too_long, String::new(), 1, 0),
        Err(TaskError::TitleTooLong)
    );
    assert_eq!(ctx, before);

    // 129 characters of two bytes each: 258 bytes.
    let wide = "\u{e9}".repeat(129);
    assert_eq!(wide.chars().count(), 129);
    let mut ctx = CreateTask { task: None, user_profile: profile_of(key(1)), user: key(1) };
    assert_eq!(
        create_task_at(&mut ctx, 1, wide, String::new(), 1, 0),
        Err(TaskError::TitleTooLong)
    );
    assert_eq!(ctx.task, None);
    assert_eq!(ctx.user_profile.tasks_created, 0);
}

#[test]
fn create_task_at_bounds_the_description_in_bytes() {
    let fits = "d".repeat(512);
    let mut ctx = CreateTask { task: None, user_profile: profile_of(key(1)), user: key(1) };
    assert_eq!(create_task_at(&mut ctx, 1, String::new(), fits, 1, 0), Ok(()));

    let too_long = "d".repeat(513);
    let mut ctx = CreateTask { task: None, user_profile: profile_of(key(1)), user: key(1) };
    let before = ctx.clone();
    assert_eq!(
        create_task_at(&mut ctx, 1, String::new(), too_long, 1, 0),
        Err(TaskError::DescriptionTooLong)
    );
    assert_eq!(ctx, before);
}

#[test]
fn create_task_at_reports_refusals_in_order() {
    let existing = open_task(key(1), 4, 10);
    let mut ctx =
        CreateTask { task: Some(existing), user_profile: profile_of(key(1)), user: key(1) };
    assert_eq!(
        create_task_at(&mut ctx, 4, "t".repeat(300), "d".repeat(600), 1, 0),
        Err(TaskError::DuplicateTaskId)
    );
    let mut ctx = CreateTask { task: None, user_profile: profile_of(key(1)), user: key(1) };
    assert_eq!(
        create_task_at(&mut ctx, 4, "t".repeat(300), "d".repeat(600), 1, 0),
        Err(TaskError::TitleTooLong)
    );
}

#[test]
fn create_task_without_a_clock_changes_nothing() {
    let mut ctx = CreateTask { task: None, user_profile: profile_of(key(1)), user: key(1) };
    let before = ctx.clone();
    let res = create_task(&mut ctx, 1, "Title".to_string(), "Text".to_string(), 500);
    assert_eq!(res, Err(TaskError::ClockUnavailable));
    assert_eq!(ctx, before);
}

#[test]
fn create_task_reports_a_refusal_before_the_clock() {
    let existing = open_task(key(1), 4, 10);
    let mut ctx =
        CreateTask { task: Some(existing), user_profile: profile_of(key(1)), user: key(1) };
    let before = ctx.clone();
    assert_eq!(
        create_task(&mut ctx, 4, "Title".to_string(), "Text".to_string(), 500),
        Err(TaskError::DuplicateTaskId)
    );
    assert_eq!(ctx, before);
    let mut ctx = CreateTask { task: None, user_profile: profile_of(key(1)), user: key(1) };
    assert_eq!(
        create_task(&mut ctx, 4, "t".repeat(257), "Text".to_string(), 500),
        Err(TaskError::TitleTooLong)
    );
    let mut ctx = CreateTask { task: None, user_profile: profile_of(key(1)), user: key(1) };
    assert_eq!(
        create_task(&mut ctx, 4, "Title".to_string(), "d".repeat(513), 500),
        Err(TaskError::DescriptionTooLong)
    );
}

#[test]
fn assign_task_by_creator_on_open_task() {
    let mut ctx = AssignTask { task: open_task(key(1), 1, 500), user: key(1) };
    let before = ctx.task.clone();
    assert_eq!(assign_task(&mut ctx, key(2)), Ok(()));
    assert_eq!(ctx.task.status, TaskStatus::Assigned);
    assert_eq!(ctx.task.assignee, Some(key(2)));
    assert_eq!(
        ctx.task,
        Task { status: TaskStatus::Assigned, assignee: Some(key(2)), ..before }
    );
    assert_eq!(ctx.user, key(1));
}

#[test]
fn assign_task_to_oneself_is_allowed() {
    let mut ctx = AssignTask { task: open_task(key(1), 1, 500), user: key(1) };
    assert_eq!(assign_task(&mut ctx, key(1)), Ok(()));
    assert_eq!(ctx.task.assignee, Some(key(1)));
    assert_eq!(ctx.task.status, TaskStatus::Assigned);
}

#[test]
fn assign_task_by_another_caller_is_refused() {
    let mut ctx = AssignTask { task: open_task(key(1), 1, 500), user: key(2) };
    let before = ctx.clone();
    assert_eq!(assign_task(&mut ctx, key(2)), Err(TaskError::NotTaskCreator));
    assert_eq!(ctx, before);
    assert_eq!(ctx.task.status, TaskStatus::Open);
    assert_eq!(ctx.task.assignee, None);
}

#[test]
fn assign_task_on_a_later_stage_is_refused() {
    let mut ctx = AssignTask { task: assigned_task(key(1), key(2), 1, 500), user: key(1) };
    let before = ctx.clone();
    assert_eq!(assign_task(&mut ctx, key(3)), Err(TaskError::TaskNotOpen));
    assert_eq!(ctx, before);
    assert_eq!(ctx.task.assignee, Some(key(2)));

    let mut ctx = AssignTask { task: completed_task(key(1), key(2), 1, 500), user: key(1) };
    let before = ctx.clone();
    assert_eq!(assign_task(&mut ctx, key(3)), Err(TaskError::TaskNotOpen));
    assert_eq!(ctx, before);
}

#[test]
fn assign_task_tests_the_stage_before_the_caller() {
    let mut ctx = AssignTask { task: assigned_task(key(1), key(2), 1, 500), user: key(9) };
    assert_eq!(assign_task(&mut ctx, key(3)), Err(TaskError::TaskNotOpen));
}

#[test]
fn keys_differ_in_any_byte() {
    let mut bytes = [7u8; 32];
    bytes[31] = 8;
    assert_ne!(Pubkey::new_from_array(bytes), key(7));
    bytes[31] = 7;
    assert_eq!(Pubkey::new_from_array(bytes), key(7));
    bytes[0] = 0;
    assert_ne!(Pubkey::new_from_array(bytes), key(7));
    assert_eq!(key(7).to_bytes(), [7u8; 32]);
    assert_eq!(key(7).to_vec(), vec![7u8; 32]);

    let mut creator = [1u8; 32];
    creator[31] = 2;
    let mut ctx = AssignTask { task: open_task(key(1), 1, 500), user: Pubkey::new_from_array(creator) };
    assert_eq!(assign_task(&mut ctx, key(2)), Err(TaskError::NotTaskCreator));
}

#[test]
fn complete_task_at_by_assignee() {
    let task = assigned_task(key(1), key(2), 1, 500);
    let before = task.clone();
    let mut ctx = CompleteTask { task, assignee_profile: profile_of(key(2)), assignee: key(2) };
    assert_eq!(complete_task_at(&mut ctx, 77), Ok(()));
    assert_eq!(
        ctx.task,
        Task { status: TaskStatus::Completed, completed_at: Some(77), ..before }
    );
    assert_eq!(
        ctx.assignee_profile,
        UserProfile { owner: key(2), tasks_created: 0, tasks_completed: 1, reputation_score: 110 }
    );
    assert_eq!(ctx.assignee, key(2));
}

#[test]
fn complete_task_at_adds_ten_reputation_each_time() {
    let mut profile = profile_of(key(2));
    for id in 0..3u64 {
        let mut ctx = CompleteTask {
            task: assigned_task(key(1), key(2), id, 5),
            assignee_profile: profile,
            assignee: key(2),
        };
        assert_eq!(complete_task_at(&mut ctx, 10), Ok(()));
        profile = ctx.assignee_profile;
    }
    assert_eq!(profile.tasks_completed, 3);
    assert_eq!(profile.reputation_score, 130);
    assert_eq!(profile.tasks_created, 0);
}

#[test]
fn complete_task_at_by_another_caller_is_refused() {
    let mut ctx = CompleteTask {
        task: assigned_task(key(1), key(2), 1, 500),
        assignee_profile: profile_of(key(3)),
        assignee: key(3),
    };
    let before = ctx.clone();
    assert_eq!(complete_task_at(&mut ctx, 77), Err(TaskError::NotAssignee));
    assert_eq!(ctx, before);
    assert_eq!(ctx.task.status, TaskStatus::Assigned);
    assert_eq!(ctx.task.completed_at, None);
    assert_eq!(ctx.assignee_profile.tasks_completed, 0);
    assert_eq!(ctx.assignee_profile.reputation_score, 100);
}

#[test]
fn complete_task_at_by_the_creator_is_refused() {
    let mut ctx = CompleteTask {
        task: assigned_task(key(1), key(2), 1, 500),
        assignee_profile: profile_of(key(1)),
        assignee: key(1),
    };
    let before = ctx.clone();
    assert_eq!(complete_task_at(&mut ctx, 77), Err(TaskError::NotAssignee));
    assert_eq!(ctx, before);
}

#[test]
fn complete_task_at_on_another_stage_is_refused() {
    let mut ctx = CompleteTask {
        task: open_task(key(1), 1, 500),
        assignee_profile: profile_of(key(2)),
        assignee: key(2),
    };
    let before = ctx.clone();
    assert_eq!(complete_task_at(&mut ctx, 77), Err(TaskError::TaskNotAssigned));
    assert_eq!(ctx, before);

    let mut ctx = CompleteTask {
        task: completed_task(key(1), key(2), 1, 500),
        assignee_profile: profile_of(key(2)),
        assignee: key(2),
    };
    let before = ctx.clone();
    assert_eq!(complete_task_at(&mut ctx, 99), Err(TaskError::TaskNotAssigned));
    assert_eq!(ctx, before);
    assert_eq!(ctx.task.completed_at, Some(2_000));
}

#[test]
fn complete_task_without_a_clock_changes_neither_record() {
    let mut ctx = CompleteTask {
        task: assigned_task(key(1), key(2), 1, 500),
        assignee_profile: profile_of(key(2)),
        assignee: key(2),
    };
    let before = ctx.clone();
    assert_eq!(complete_task(&mut ctx), Err(TaskError::ClockUnavailable));
    assert_eq!(ctx, before);
    assert_eq!(ctx.task.status, TaskStatus::Assigned);
    assert_eq!(ctx.assignee_profile.tasks_completed, 0);
    assert_eq!(ctx.assignee_profile.reputation_score, 100);
}

#[test]
fn complete_task_reports_a_refusal_before_the_clock() {
    let mut ctx = CompleteTask {
        task: assigned_task(key(1), key(2), 1, 500),
        assignee_profile: profile_of(key(3)),
        assignee: key(3),
    };
    let before = ctx.clone();
    assert_eq!(complete_task(&mut ctx), Err(TaskError::NotAssignee));
    assert_eq!(ctx, before);
    let mut ctx = CompleteTask {
        task: open_task(key(1), 1, 500),
        assignee_profile: profile_of(key(2)),
        assignee: key(2),
    };
    assert_eq!(complete_task(&mut ctx), Err(TaskError::TaskNotAssigned));
}

#[test]
fn claim_reward_requests_the_reward() {
    let ctx = claim_on(completed_task(key(1), key(2), 1, 500), key(2));
    assert_eq!(
        claim_reward(&ctx),
        Ok(MintRequest { mint: key(50), to: key(51), authority: key(52), amount: 500 })
    );
}

#[test]
fn claim_reward_can_be_repeated() {
    let ctx = claim_on(completed_task(key(1), key(2), 1, 500), key(2));
    let before = ctx.clone();
    let first = claim_reward(&ctx);
    let second = claim_reward(&ctx);
    assert_eq!(first, Ok(MintRequest { mint: key(50), to: key(51), authority: key(52), amount: 500 }));
    assert_eq!(second, first);
    assert_eq!(ctx, before);
    assert_eq!(ctx.task.status, TaskStatus::Completed);
}

#[test]
fn claim_reward_of_nothing_is_still_a_request() {
    let ctx = claim_on(completed_task(key(1), key(2), 1, 0), key(2));
    assert_eq!(claim_reward(&ctx).map(|request| request.amount), Ok(0));
}

#[test]
fn claim_reward_before_completion_is_refused() {
    let ctx = claim_on(assigned_task(key(1), key(2), 1, 500), key(2));
    assert_eq!(claim_reward(&ctx), Err(TaskError::TaskNotCompleted));
    let ctx = claim_on(open_task(key(1), 1, 500), key(2));
    assert_eq!(claim_reward(&ctx), Err(TaskError::TaskNotCompleted));
    let ctx = claim_on(open_task(key(1), 1, 500), key(9));
    assert_eq!(claim_reward(&ctx), Err(TaskError::TaskNotCompleted));
}

#[test]
fn claim_reward_by_another_caller_is_refused() {
    let ctx = claim_on(completed_task(key(1), key(2), 1, 500), key(1));
    assert_eq!(claim_reward(&ctx), Err(TaskError::NotAssignee));
    let ctx = claim_on(completed_task(key(1), key(2), 1, 500), key(3));
    assert_eq!(claim_reward(&ctx), Err(TaskError::NotAssignee));
}

#[test]
fn settle_passes_the_answer_on() {
    assert_eq!(settle(Ok(())), Ok(()));
    assert_eq!(settle(Err(MintError::Unauthorized)), Err(TaskError::Unauthorized));
    assert_eq!(settle(Err(MintError::InvalidAccount)), Err(TaskError::InvalidAccount));
}

#[test]
fn status_only_moves_forward() {
    let creator = key(1);
    let worker = key(2);
    let mut task = open_task(creator, 1, 500);
    assert_eq!(task.status, TaskStatus::Open);

    // Nothing but an assignment by the creator moves an open task.
    let mut complete = CompleteTask { task, assignee_profile: profile_of(worker), assignee: worker };
    assert!(complete_task_at(&mut complete, 1).is_err());
    task = complete.task;
    assert_eq!(task.status, TaskStatus::Open);

    let mut assign = AssignTask { task, user: creator };
    assert_eq!(assign_task(&mut assign, worker), Ok(()));
    task = assign.task;
    assert_eq!(task.status, TaskStatus::Assigned);

    // An assigned task cannot be assigned again, by anyone.
    for caller in [creator, worker, key(3)] {
        let mut again = AssignTask { task, user: caller };
        assert_eq!(assign_task(&mut again, key(3)), Err(TaskError::TaskNotOpen));
        task = again.task;
        assert_eq!(task.status, TaskStatus::Assigned);
        assert_eq!(task.assignee, Some(worker));
    }

    let mut complete = CompleteTask { task, assignee_profile: profile_of(worker), assignee: worker };
    assert_eq!(complete_task_at(&mut complete, 5), Ok(()));
    task = complete.task;
    assert_eq!(task.status, TaskStatus::Completed);

    // A completed task stays completed.
    let mut again = AssignTask { task, user: creator };
    assert_eq!(assign_task(&mut again, key(3)), Err(TaskError::TaskNotOpen));
    task = again.task;
    let mut again = CompleteTask { task, assignee_profile: profile_of(worker), assignee: worker };
    assert_eq!(complete_task_at(&mut again, 9), Err(TaskError::TaskNotAssigned));
    task = again.task;
    let claim = claim_on(task, worker);
    assert!(claim_reward(&claim).is_ok());
    assert_eq!(claim.task.status, TaskStatus::Completed);
    assert_eq!(claim.task.assignee, Some(worker));
    assert_eq!(claim.task.completed_at, Some(5));
}

#[test]
fn end_to_end() {
    let a = key(0xA);
    let b = key(0xB);

    let mut init_a = InitializeUser { user_profile: None, user: a };
    assert_eq!(initialize_user(&mut init_a), Ok(()));
    let profile_a = init_a.user_profile.unwrap();
    assert_eq!(profile_a.reputation_score, 100);

    let mut create = CreateTask { task: None, user_profile: profile_a, user: a };
    assert_eq!(
        create_task_at(&mut create, 1, "Task".to_string(), "Do it".to_string(), 500, 1_700_000_000),
        Ok(())
    );
    assert_eq!(create.user_profile.tasks_created, 1);
    let task = create.task.unwrap();
    assert_eq!(task.id, 1);
    assert_eq!(task.reward_amount, 500);
    assert_eq!(task.status, TaskStatus::Open);

    let mut assign = AssignTask { task, user: a };
    assert_eq!(assign_task(&mut assign, b), Ok(()));
    assert_eq!(assign.task.status, TaskStatus::Assigned);
    assert_eq!(assign.task.assignee, Some(b));

    let mut init_b = InitializeUser { user_profile: None, user: b };
    assert_eq!(initialize_user(&mut init_b), Ok(()));
    let mut complete = CompleteTask {
        task: assign.task,
        assignee_profile: init_b.user_profile.unwrap(),
        assignee: b,
    };
    assert_eq!(complete_task_at(&mut complete, 1_700_000_100), Ok(()));
    assert_eq!(complete.task.status, TaskStatus::Completed);
    assert_eq!(complete.task.completed_at, Some(1_700_000_100));
    assert_eq!(complete.assignee_profile.tasks_completed, 1);
    assert_eq!(complete.assignee_profile.reputation_score, 110);

    let b_account = key(0xBB);
    let claim = ClaimReward {
        task: complete.task,
        reward_mint: key(0xC),
        assignee_token_account: b_account,
        assignee: b,
        mint_authority: key(0xD),
    };
    let request = claim_reward(&claim).unwrap();
    assert_eq!(request.amount, 500);
    assert_eq!(request.to, b_account);
    assert_eq!(request.mint, key(0xC));
    assert_eq!(request.authority, key(0xD));
    assert_eq!(settle(Ok(())), Ok(()));
}

#[test]
fn error_messages() {
    assert_eq!(TaskError::TaskNotOpen.message(), "Task is not open");
    assert_eq!(TaskError::NotTaskCreator.message(), "Not the task creator");
    assert_eq!(TaskError::TaskNotAssigned.message(), "Task is not assigned");
    assert_eq!(TaskError::NotAssignee.message(), "Not the assignee");
    assert_eq!(TaskError::TaskNotCompleted.message(), "Task is not completed");
    assert_eq!(TaskError::AlreadyInitialized.message(), "Profile is already initialized");
    assert_eq!(TaskError::DuplicateTaskId.message(), "Task id is already in use");
    assert_eq!(TaskError::TitleTooLong.message(), "Title is too long");
    assert_eq!(TaskError::DescriptionTooLong.message(), "Description is too long");
    assert_eq!(TaskError::ClockUnavailable.message(), "Clock is not available");
    assert_eq!(TaskError::Unauthorized.message(), "Mint authority was refused");
    assert_eq!(TaskError::InvalidAccount.message(), "Token account was refused");
}
