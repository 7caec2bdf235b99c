use codex_tasks::logtail::{
    follow_step, follow_stop_message, initial_log_output, tail_lines, FollowAction, FollowEvent,
};
use codex_tasks::task::TaskState;

#[test]
fn tail_of_three_lines() {
    assert_eq!(tail_lines("A\nB\nC\n", 1), "C\n");
    assert_eq!(tail_lines("A\nB\nC\n", 2), "B\nC\n");
    assert_eq!(tail_lines("A\nB\nC\n", 5), "A\nB\nC\n");
    assert_eq!(tail_lines("A\nB\nC\n", 0), "");
}

#[test]
fn tail_handles_unterminated_last_line() {
    assert_eq!(tail_lines("keep\nlast\nline", 1), "line");
    assert_eq!(tail_lines("keep\nlast\nline", 2), "last\nline");
    assert_eq!(tail_lines("", 3), "");
    assert_eq!(tail_lines("\n\n", 1), "\n");
    assert_eq!(tail_lines("keep\nlast\nline\n", 1), "line\n");
}

#[test]
fn initial_output_without_limit_is_whole_log() {
    assert_eq!(initial_log_output("line one\nline two\n", None), "line one\nline two\n");
    assert_eq!(initial_log_output("line one\nline two\n", Some(1)), "line two\n");
}

#[test]
fn follow_stops_after_two_idle_checks() {
    let (pending, action) = follow_step(false, false, FollowEvent::EndOfLog(Some(TaskState::Stopped)));
    assert!(pending);
    assert_eq!(action, FollowAction::Wait);
    let (_, action) = follow_step(pending, false, FollowEvent::EndOfLog(Some(TaskState::Stopped)));
    assert_eq!(action, FollowAction::StopAt(TaskState::Stopped));
    let (pending, action) = follow_step(true, false, FollowEvent::Line);
    assert!(!pending);
    assert_eq!(action, FollowAction::Print);
}

#[test]
fn follow_ends_for_terminal_tasks() {
    let (_, action) = follow_step(false, false, FollowEvent::EndOfLog(Some(TaskState::Archived)));
    assert_eq!(action, FollowAction::StopAt(TaskState::Archived));
    assert_eq!(
        follow_stop_message("task-archived", action).as_deref(),
        Some("Task task-archived is ARCHIVED; stopping log follow.")
    );
    let (_, action) = follow_step(false, false, FollowEvent::EndOfLog(None));
    assert_eq!(action, FollowAction::StopUnavailable);
    assert_eq!(
        follow_stop_message("x", action).as_deref(),
        Some("Task x state unavailable; stopping log follow.")
    );
    let (_, action) = follow_step(false, false, FollowEvent::EndOfLog(Some(TaskState::Running)));
    assert_eq!(action, FollowAction::Wait);
    assert_eq!(follow_stop_message("x", action), None);
}

#[test]
fn follow_forever_never_stops() {
    for state in [None, Some(TaskState::Died), Some(TaskState::Stopped)] {
        let (_, action) = follow_step(true, true, FollowEvent::EndOfLog(state));
        assert_eq!(action, FollowAction::Wait);
    }
}
