use codex_tasks::listing::{archive_candidates, running_task_ids, select_tasks, TaskListEntry};
use codex_tasks::task::{TaskMetadata, TaskState};
use codex_tasks::time::Timestamp;

fn entry(id: &str, state: TaskState, secs: i64) -> TaskListEntry {
    let mut metadata = TaskMetadata::new(id.to_string(), None, state);
    metadata.updated_at = Timestamp { secs, nanos: 0 };
    TaskListEntry { metadata }
}

fn ids(entries: &[TaskListEntry]) -> Vec<String> {
    entries.iter().map(|e| e.metadata.id.clone()).collect()
}

fn sample() -> Vec<TaskListEntry> {
    vec![
        entry("old", TaskState::Stopped, 100),
        entry("newest", TaskState::Running, 300),
        entry("mid", TaskState::Archived, 200),
        entry("died", TaskState::Died, 150),
    ]
}

#[test]
fn listing_is_newest_first() {
    let r = select_tasks(sample(), &vec![]);
    assert_eq!(ids(&r), vec!["newest", "mid", "died", "old"]);
}

#[test]
fn listing_filters_by_states() {
    let r = select_tasks(sample(), &vec![TaskState::Running, TaskState::Archived]);
    assert_eq!(ids(&r), vec!["newest", "mid"]);
    let all = ids(&select_tasks(sample(), &vec![]));
    for id in ids(&r) {
        assert!(all.contains(&id));
    }
    let none = select_tasks(sample(), &vec![TaskState::Died, TaskState::Died]);
    assert_eq!(ids(&none), vec!["died"]);
    assert!(select_tasks(Vec::new(), &vec![]).is_empty());
}

#[test]
fn equal_timestamps_keep_their_order() {
    let input = vec![
        entry("a", TaskState::Stopped, 5),
        entry("b", TaskState::Running, 5),
        entry("c", TaskState::Stopped, 9),
        entry("d", TaskState::Running, 5),
    ];
    let all = ids(&select_tasks(input.clone(), &vec![]));
    assert_eq!(all, vec!["c", "a", "b", "d"]);
    let running = ids(&select_tasks(input, &vec![TaskState::Running]));
    assert_eq!(running, vec!["b", "d"]);
    let kept: Vec<String> = all.iter().filter(|id| running.contains(id)).cloned().collect();
    assert_eq!(kept, running);
}

#[test]
fn bulk_archive_candidates() {
    let (candidates, skipped) = archive_candidates(&sample());
    assert_eq!(candidates, vec!["old".to_string(), "died".to_string()]);
    assert_eq!(skipped, vec![("newest".to_string(), TaskState::Running)]);
    assert_eq!(running_task_ids(&sample()), vec!["newest".to_string()]);
}
