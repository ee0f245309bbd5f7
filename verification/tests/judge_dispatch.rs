use floatctf_awd::error::AwdError;
use floatctf_awd::judge::{
    dispatch_params, judge_batch_endpoint, judge_callback_key, judge_deadline, limit_error_body, plan_judge_tasks,
    GameboxStatus, JudgeBatchStatus, JudgeInstance, JudgeTaskStatus,
};

#[test]
fn judge_batch_endpoint_accepts_base_or_batch_url() {
    assert_eq!(judge_batch_endpoint("http://judge:8082").unwrap(), "http://judge:8082/batch");
    assert_eq!(judge_batch_endpoint("http://judge:8082/batch/").unwrap(), "http://judge:8082/batch");
    assert!(judge_batch_endpoint("  ").is_err());
}

#[test]
fn error_body_limit_preserves_utf8_boundaries() {
    let body = "测".repeat(300);
    let limited = limit_error_body(&body);
    assert!(limited.len() <= 514);
    assert!(body.starts_with(limited));
}

#[test]
fn error_body_short_kept_whole() {
    assert_eq!(limit_error_body("short"), "short");
    let ascii = "a".repeat(600);
    assert_eq!(limit_error_body(&ascii).len(), 512);
}

#[test]
fn batch_status_texts() {
    assert_eq!(JudgeBatchStatus::Running.as_str(), "running");
    assert_eq!(JudgeBatchStatus::Completed.as_str(), "completed");
}

#[test]
fn endpoint_only_slashes_is_empty() {
    assert!(matches!(judge_batch_endpoint(" /// "), Err(AwdError::Validation(_))));
}

#[test]
fn judge_tasks_skip_banned_and_missing_instances() {
    let teams = [1u128, 2, 3];
    let banned = [2u128];
    let templates = [10u128, 20];
    let instances = [
        JudgeInstance { id: 100, team_id: 1, template_id: 10, status: GameboxStatus::Ready },
        JudgeInstance { id: 101, team_id: 1, template_id: 20, status: GameboxStatus::Resetting },
        JudgeInstance { id: 300, team_id: 3, template_id: 20, status: GameboxStatus::Pending },
        JudgeInstance { id: 200, team_id: 2, template_id: 10, status: GameboxStatus::Ready },
    ];
    let (tasks, count) = plan_judge_tasks(&teams, &banned, &templates, &instances).unwrap();
    assert_eq!(count, 6);
    assert_eq!(tasks.len(), 3);
    assert_eq!((tasks[0].instance_id, tasks[0].status), (100, JudgeTaskStatus::Pending));
    assert_eq!((tasks[1].instance_id, tasks[1].status), (101, JudgeTaskStatus::SkippedResetting));
    assert_eq!((tasks[2].instance_id, tasks[2].status), (300, JudgeTaskStatus::SkippedResetting));
    assert!(matches!(plan_judge_tasks(&teams, &[], &[], &instances), Err(AwdError::Validation(_))));
}

#[test]
fn callback_key_and_deadline() {
    assert_eq!(
        judge_callback_key(1, 2, 3, 4),
        "judge:00000000-0000-0000-0000-000000000001:00000000-0000-0000-0000-000000000002:00000000-0000-0000-0000-000000000003:00000000-0000-0000-0000-000000000004"
    );
    assert_eq!(judge_deadline(1_000, 30, 5), 1_000 + 35_000_000_000);
}

#[test]
fn dispatch_params_require_script_and_timeout() {
    assert_eq!(dispatch_params(1, Some("echo ok"), None, 10).unwrap(), ("echo ok".to_string(), 10));
    assert_eq!(dispatch_params(1, Some("echo ok"), Some(3), 10).unwrap().1, 3);
    assert!(matches!(dispatch_params(1, Some("   "), None, 10), Err(AwdError::Validation(_))));
    assert!(matches!(dispatch_params(1, None, None, 10), Err(AwdError::Validation(_))));
    assert!(matches!(dispatch_params(1, Some("x"), Some(0), 10), Err(AwdError::Validation(_))));
}

use floatctf_awd::judge::{batch_next, BatchNext, BatchTask};

fn task(id: u128, status: JudgeTaskStatus, terminal: bool) -> BatchTask {
    BatchTask { id, status, terminal }
}

#[test]
fn batch_dispatches_its_pending_tasks_in_order() {
    let tasks = [
        task(1, JudgeTaskStatus::Pending, false),
        task(2, JudgeTaskStatus::SkippedResetting, true),
        task(3, JudgeTaskStatus::Pending, false),
        task(4, JudgeTaskStatus::Running, false),
    ];
    assert_eq!(batch_next(&tasks), BatchNext::Dispatch(vec![1, 3]));
}

#[test]
fn batch_completes_when_every_task_has_ended() {
    let tasks = [task(1, JudgeTaskStatus::SkippedResetting, true), task(2, JudgeTaskStatus::JudgeTimeout, true)];
    assert_eq!(batch_next(&tasks), BatchNext::Complete);
    assert_eq!(batch_next(&[]), BatchNext::Complete);
}

#[test]
fn batch_waits_while_a_task_is_under_way() {
    let tasks = [task(1, JudgeTaskStatus::JudgeTimeout, true), task(2, JudgeTaskStatus::Running, false)];
    assert_eq!(batch_next(&tasks), BatchNext::Wait);
}
