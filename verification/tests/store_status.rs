//! The status store and the status rendering.

use gnomelab::{AppSingleton, Status};

#[test]
fn status_display_strings() {
    assert_eq!(Status::Running.display(), "running");
    assert_eq!(Status::ExitCode(0).display(), "exit code 0");
    assert_eq!(Status::ExitCode(137).display(), "exit code 137");
    assert_eq!(Status::ExitCode(-9).display(), "exit code -9");
    assert_eq!(Status::ExitCode(i32::MAX).display(), "exit code 2147483647");
    assert_eq!(Status::ExitCode(i32::MIN).display(), "exit code -2147483648");
    assert_eq!(
        Status::TerminatedBySignal.display(),
        "terminated by signal"
    );
    assert_eq!(Status::Killed.display(), "Killed...");
}

#[test]
fn terminal_statuses() {
    assert!(!Status::Running.is_terminal());
    assert!(Status::ExitCode(0).is_terminal());
    assert!(Status::TerminatedBySignal.is_terminal());
    assert!(Status::Killed.is_terminal());
}

#[test]
fn insert_get_and_overwrite() {
    let mut store = AppSingleton::init();
    assert_eq!(store.get_status("a.sh"), None);
    store.insert_status("a.sh", Status::Running);
    store.insert_status("b.sh", Status::Running);
    assert_eq!(store.get_status("a.sh"), Some(Status::Running));
    store.insert_status("a.sh", Status::ExitCode(2));
    assert_eq!(store.get_status("a.sh"), Some(Status::ExitCode(2)));
    assert_eq!(store.get_status("b.sh"), Some(Status::Running));
    let keys = store.get_all_keys();
    assert_eq!(keys, vec!["a.sh".to_string(), "b.sh".to_string()]);
}

/// The snapshot holds every identity ever inserted, with its most recent
/// value, in insertion order.
#[test]
fn snapshot_covers_every_insert() {
    let mut store = AppSingleton::init();
    assert_eq!(store.hashstatus_to_json(), "{}");
    store.insert_status("first.sh", Status::Running);
    store.insert_status("second.sh", Status::Running);
    store.insert_status("third.sh", Status::Running);
    store.insert_status("second.sh", Status::Killed);
    store.insert_status("first.sh", Status::ExitCode(0));
    assert_eq!(
        store.hashstatus_to_json(),
        "{\"first.sh\":\"exit code 0\",\"second.sh\":\"Killed...\",\"third.sh\":\"running\"}"
    );
}

/// Keys and values go through real JSON string escaping: this would read
/// differently if the quoting handed its input back unchanged.
#[test]
fn snapshot_escapes_keys() {
    let mut store = AppSingleton::init();
    store.insert_status("say \"hi\"\n.sh", Status::Running);
    assert_eq!(
        store.hashstatus_to_json(),
        "{\"say \\\"hi\\\"\\n.sh\":\"running\"}"
    );
}
