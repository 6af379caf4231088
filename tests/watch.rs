use thaw_cli::watch::{changed_paths, drop_ignored, ChangeEvent, ChangeKind, IgnoreSet};

fn ev(kind: ChangeKind, p: &[&str]) -> ChangeEvent {
    ChangeEvent { kind, paths: p.iter().map(|s| s.to_string()).collect() }
}

#[test]
fn test_globset() {
    let set = IgnoreSet::new(vec!["**/dist/*.css".to_string()]).unwrap();
    assert!(!set.is_match("foo.rs"));
    assert!(set.is_match("/thaw-cli/examples/start_trunk/./dist/test.css"));
}

#[test]
fn invalid_glob_is_an_error() {
    assert!(IgnoreSet::new(vec!["a[".to_string()]).is_err());
}

#[test]
fn only_create_and_modify_events_count() {
    let events = vec![
        ev(ChangeKind::Modify, &["/p/src/a.rs"]),
        ev(ChangeKind::Other, &["/p/src/gone.rs"]),
        ev(ChangeKind::Create, &["/p/src/b.rs", "/p/src/c.rs"]),
    ];
    assert_eq!(changed_paths(events), vec!["/p/src/a.rs", "/p/src/b.rs", "/p/src/c.rs"]);
}

#[test]
fn flagged_paths_are_dropped() {
    let p = vec!["a".to_string(), "b".to_string()];
    assert_eq!(drop_ignored(p.clone(), &vec![true, false]), Some(vec!["b".to_string()]));
    assert_eq!(drop_ignored(p, &vec![true, true]), None);
    assert_eq!(drop_ignored(vec![], &vec![]), None);
}

#[test]
fn change_to_ignored_path_only_triggers_nothing() {
    let set = IgnoreSet::new(vec!["**/dist/*.css".to_string()]).unwrap();
    assert_eq!(set.filter_batch(vec![ev(ChangeKind::Modify, &["/p/dist/test.css"])]), None);
    assert_eq!(set.filter_batch(vec![ev(ChangeKind::Other, &["/p/src/lib.rs"])]), None);
}

#[test]
fn ignored_paths_leave_the_rest_of_the_batch() {
    let set = IgnoreSet::new(vec!["**/dist/*.css".to_string()]).unwrap();
    let batch = set.filter_batch(vec![ev(ChangeKind::Modify, &["/p/dist/test.css", "/p/src/lib.rs"])]);
    assert_eq!(batch, Some(vec!["/p/src/lib.rs".to_string()]));
}
