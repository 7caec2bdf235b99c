use codex_tasks::errors::TaskError;
use codex_tasks::store::{final_component, find_archived_index, join, StoreError, TaskPaths, TaskStore};
use codex_tasks::task::{TaskMetadata, TaskState};
use codex_tasks::time::{utc_date, CivilDate, Timestamp};

#[test]
fn store_archived_task_paths_include_task_directory() {
    let store = TaskStore::new("/tmp/work/root".to_string());
    let date = CivilDate { year: 2024, month: 1, day: 2 };
    let paths = store.archived_task(date, "task-abc".to_string());
    let expected_dir = "/tmp/work/root/archive/2024/01/02/task-abc";
    assert_eq!(paths.directory(), expected_dir);
    assert_eq!(paths.log_path(), format!("{expected_dir}/task.log"));
}

#[test]
fn storage_archived_task_paths_include_task_directory() {
    let store = TaskStore::new("/tmp/work/root/".to_string());
    let date = CivilDate { year: 2024, month: 1, day: 2 };
    let paths = store.archived_task(date, "task-abc".to_string());
    assert_eq!(paths.directory(), "/tmp/work/root/archive/2024/01/02/task-abc");
    assert_eq!(paths.id(), "task-abc");
}

#[test]
fn archive_bucket_ends_with_day() {
    let store = TaskStore::new("/r".to_string());
    let bucket = store.archive_bucket(CivilDate { year: 2024, month: 3, day: 14 });
    assert_eq!(bucket, "/r/archive/2024/03/14");
    assert!(bucket.ends_with("14"));
    let early = store.archive_bucket(CivilDate { year: 7, month: 12, day: 31 });
    assert_eq!(early, "/r/archive/0007/12/31");
}

#[test]
fn task_file_paths() {
    let store = TaskStore::new("/home/u/.codex/tasks".to_string());
    assert_eq!(store.root(), "/home/u/.codex/tasks");
    assert_eq!(store.archive_root(), "/home/u/.codex/tasks/archive");
    let paths = store.task("t1".to_string());
    assert_eq!(paths.directory(), "/home/u/.codex/tasks/t1");
    assert_eq!(paths.pid_path(), "/home/u/.codex/tasks/t1/task.pid");
    assert_eq!(paths.pipe_path(), "/home/u/.codex/tasks/t1/task.pipe");
    assert_eq!(paths.log_path(), "/home/u/.codex/tasks/t1/task.log");
    assert_eq!(paths.result_path(), "/home/u/.codex/tasks/t1/task.result");
    assert_eq!(paths.metadata_path(), "/home/u/.codex/tasks/t1/task.json");
    assert_eq!(TaskStore::under_home("/home/u").root(), "/home/u/.codex/tasks");
}

#[test]
fn join_and_final_component() {
    assert_eq!(join("a", "b"), "a/b");
    assert_eq!(join("a/", "b"), "a/b");
    assert_eq!(join("", "b"), "b");
    assert_eq!(final_component("/x/y/zz"), "zz");
    assert_eq!(final_component("zz"), "zz");
    assert_eq!(final_component("/x/"), "");
}

#[test]
fn metadata_must_match_directory() {
    let store = TaskStore::new("/s".to_string());
    let paths = store.task("abc".to_string());
    let good = TaskMetadata::new("abc".to_string(), None, TaskState::Stopped);
    assert!(paths.check_metadata(good).is_ok());
    let bad = TaskMetadata::new("other".to_string(), None, TaskState::Stopped);
    match paths.check_metadata(bad) {
        Err(StoreError::IdMismatch { expected, found }) => {
            assert_eq!(expected, "abc");
            assert_eq!(found, "other");
            let msg = TaskError::Store(StoreError::IdMismatch { expected, found }).message();
            assert_eq!(msg, "metadata id other does not match path abc");
        }
        Ok(_) => panic!("mismatched id accepted"),
    }
    // the paths name the task, but the directory is named otherwise
    let odd = TaskPaths::from_directory("/s/elsewhere".to_string(), "abc".to_string());
    let m = TaskMetadata::new("abc".to_string(), None, TaskState::Stopped);
    assert!(odd.check_metadata(m).is_err());
}

#[test]
fn find_archived_task_at_any_depth() {
    let walked = vec![
        "/s/archive".to_string(),
        "/s/archive/2024".to_string(),
        "/s/archive/2024/05".to_string(),
        "/s/archive/2024/05/06".to_string(),
        "/s/archive/2024/05/06/task-find".to_string(),
        "/s/archive/deep/er/still/task-find".to_string(),
    ];
    assert_eq!(find_archived_index(&walked, "task-find"), Some(4));
    assert_eq!(find_archived_index(&walked, "missing"), None);
    assert_eq!(find_archived_index(&walked[5..].to_vec(), "task-find"), Some(0));
}

#[test]
fn utc_date_of_timestamp() {
    let d = utc_date(Timestamp { secs: 1431648000, nanos: 0 }).expect("in range");
    assert_eq!((d.year, d.month, d.day), (2015, 5, 15));
    let d = utc_date(Timestamp { secs: 1710428966, nanos: 5 }).expect("in range");
    assert_eq!((d.year, d.month, d.day), (2024, 3, 14));
    let d = utc_date(Timestamp { secs: -1, nanos: 0 }).expect("in range");
    assert_eq!((d.year, d.month, d.day), (1969, 12, 31));
    assert!(utc_date(Timestamp { secs: i64::MAX, nanos: 0 }).is_none());
}

#[test]
fn timestamp_order() {
    let a = Timestamp { secs: 10, nanos: 5 };
    let b = Timestamp { secs: 10, nanos: 6 };
    let c = Timestamp { secs: 11, nanos: 0 };
    assert!(a.is_before(&b));
    assert!(b.is_before(&c));
    assert!(!b.is_before(&a));
    assert!(!a.is_before(&a));
}
