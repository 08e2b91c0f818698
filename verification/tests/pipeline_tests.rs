use schedscan::discovery::{collect_ids, discover_process_ids, list_task_ids};
use schedscan::errors::ScanError;
use schedscan::process::{assemble_task, Process, ProcessBuilder};
use schedscan::trim::trim_str;

fn names(entries: &[&str]) -> Vec<String> {
    entries.iter().map(|e| e.to_string()).collect()
}

#[test]
fn trim_removes_surrounding_whitespace() {
    assert_eq!(trim_str(" bash\n"), "bash");
    assert_eq!(trim_str("kworker/0:1"), "kworker/0:1");
    assert_eq!(trim_str("\t\r\n"), "");
    assert_eq!(trim_str(""), "");
    assert_eq!(trim_str("\u{00A0}init\u{2003}"), "init");
    assert_eq!(trim_str("a b"), "a b");
}

#[test]
fn builder_finalizes_with_defaults() {
    let p = ProcessBuilder::new(5).build();
    assert_eq!(p.id, 5);
    assert_eq!(p.name, "");
    assert_eq!(p.sched_policy, -1);
    assert_eq!(p.rt_prio, 0);
    assert!(p.tasks.is_empty());
}

#[test]
fn builder_keeps_fields_that_were_read() {
    let p = ProcessBuilder::new(9)
        .name(Ok(" bash\n".to_string()))
        .sched_policy(Ok(1))
        .rt_prio(Ok(42))
        .tasks(Ok(names(&["10", "11"])))
        .build();
    assert_eq!(p.id, 9);
    assert_eq!(p.name, "bash");
    assert_eq!(p.sched_policy, 1);
    assert_eq!(p.rt_prio, 42);
    assert_eq!(p.tasks, vec![10, 11]);
}

#[test]
fn builder_entry_point_and_getters() {
    let b = Process::builder();
    assert_eq!(b.id, 0);
    assert!(b.name.is_none());
    assert!(b.tasks.is_none());
    assert!(b.sched_policy.is_none());
    assert!(b.rt_prio.is_none());
    let p = ProcessBuilder::new(3).sched_policy(Ok(2)).rt_prio(Ok(67)).build();
    assert_eq!(p.id(), 3);
    assert_eq!(p.name(), "");
    assert_eq!(p.sched_policy(), 2);
    assert_eq!(p.rt_ptio(), 67);
}

#[test]
fn failed_name_read_still_emits_record() {
    // the display-name read fails, the policy query fails too, yet the
    // successfully read fields stay populated and the record is emitted
    let p = assemble_task(
        7,
        Err(ScanError::NotFound),
        Err(ScanError::NotFound),
        Ok(50),
        Ok(names(&["8", "9"])),
    );
    assert_eq!(p.id, 7);
    assert_eq!(p.name, "");
    assert_eq!(p.sched_policy, -1);
    assert_eq!(p.rt_prio, 50);
    assert_eq!(p.tasks, vec![8, 9]);
}

#[test]
fn permission_denied_is_absorbed_per_field() {
    let p = assemble_task(
        12,
        Ok("watchdog\n".to_string()),
        Err(ScanError::PermissionDenied),
        Err(ScanError::PermissionDenied),
        Err(ScanError::NotFound),
    );
    assert_eq!(p.id, 12);
    assert_eq!(p.name, "watchdog");
    assert_eq!(p.sched_policy, -1);
    assert_eq!(p.rt_prio, 0);
    assert!(p.tasks.is_empty());
}

#[test]
fn task_list_excludes_the_process_itself() {
    let r = list_task_ids(Ok(names(&["10", "11", "7"])), 7);
    assert_eq!(r, Ok(vec![10, 11]));
}

#[test]
fn task_list_drops_duplicates_and_invalid_entries() {
    let r = list_task_ids(Ok(names(&["5", "5", "6", "self", "-3"])), 1);
    assert_eq!(r, Ok(vec![5, 6]));
}

#[test]
fn task_list_read_failure_is_reported() {
    let r = list_task_ids(Err(ScanError::NotFound), 7);
    assert_eq!(r, Err(ScanError::NotFound));
}

#[test]
fn discovery_skips_non_process_entries() {
    let r = discover_process_ids(Ok(names(&["1", "self", "thread-self", "42", "-3", "1"])));
    assert_eq!(r, Ok(vec![1, 42]));
}

#[test]
fn inaccessible_process_table_is_fatal() {
    let r = discover_process_ids(Err(ScanError::PermissionDenied));
    assert_eq!(r, Err(ScanError::EnumerationFailure));
    let r = discover_process_ids(Err(ScanError::NotFound));
    assert_eq!(r, Err(ScanError::EnumerationFailure));
}

#[test]
fn collect_ids_keeps_first_occurrence_order() {
    let ids = collect_ids(&names(&["3", "1", "2", "1", "03"]), -1);
    assert_eq!(ids, vec![3, 1, 2]);
}
