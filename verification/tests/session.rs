use telegram_codex_bridge::session::{
    record_cwd_history, ApprovalDecision, PendingApproval, SharedSessionState,
};
use telegram_codex_bridge::workdir::WorkDir;

fn session() -> SharedSessionState<u32, u32, u32> {
    SharedSessionState::default()
}

fn dir(path: &str) -> WorkDir {
    WorkDir::new(path.to_string())
}

fn paths(dirs: &Vec<WorkDir>) -> Vec<String> {
    dirs.iter().map(|d| d.display().to_string()).collect()
}

#[test]
fn state_set_and_clear_turn() {
    let mut state = session();
    state.set_active_turn(1, 2);
    assert!(state.has_active_turn());
    assert!(state.clear_active_turn().is_none());
    assert!(!state.has_active_turn());
}

#[test]
fn state_cancel_marks_running_turn() {
    let mut state = session();
    state.set_active_turn(1, 2);
    assert_eq!(state.cancel_active_turn().cancel, Some(1));
}

#[test]
fn resolves_pending_approval() {
    let mut state = session();
    assert!(state
        .set_pending_approval(PendingApproval::new("approve".to_string(), false, 7))
        .is_none());
    let resolution = state
        .resolve_pending_approval(ApprovalDecision::Accept)
        .expect("decision");
    assert_eq!(resolution.responder, 7);
    assert_eq!(resolution.decision, ApprovalDecision::Accept);
}

#[test]
fn replacing_pending_approval_cancels_previous() {
    let mut state = session();
    assert!(state
        .set_pending_approval(PendingApproval::new("first".to_string(), false, 1))
        .is_none());
    let replaced = state
        .set_pending_approval(PendingApproval::new("second".to_string(), true, 2))
        .expect("decision");
    let snapshot = state.snapshot();
    assert_eq!(snapshot.pending_approval_message.as_deref(), Some("second"));
    assert!(snapshot.pending_approval_supports_session);
    assert_eq!(replaced.responder, 1);
    assert_eq!(replaced.decision, ApprovalDecision::Cancel);
    let answered = state
        .resolve_pending_approval(ApprovalDecision::AcceptForSession)
        .expect("decision");
    assert_eq!(answered.responder, 2);
    assert_eq!(answered.decision, ApprovalDecision::AcceptForSession);
}

#[test]
fn cwd_history_tracks_most_recent_first() {
    let mut state = session();
    state.set_active_cwd(dir("C:/one"));
    state.set_active_cwd(dir("C:/two"));
    state.set_active_cwd(dir("C:/one"));

    let snapshot = state.snapshot();
    assert_eq!(snapshot.active_cwd, Some(dir("C:/one")));
    assert_eq!(snapshot.cwd_history, vec![dir("C:/one"), dir("C:/two")]);
}

#[test]
fn an_approval_is_resolved_only_once() {
    let mut state = session();
    state.set_pending_approval(PendingApproval::new("approve".to_string(), false, 7));
    assert!(state.resolve_pending_approval(ApprovalDecision::Decline).is_some());
    assert!(state.resolve_pending_approval(ApprovalDecision::Decline).is_none());
    assert!(state.snapshot().pending_approval_message.is_none());
}

#[test]
fn ending_a_turn_cancels_its_approval() {
    let mut state = session();
    state.set_active_turn(1, 2);
    state.set_active_turn_id("turn-1".to_string());
    state.set_pending_approval(PendingApproval::new("approve".to_string(), true, 9));
    let resolution = state.clear_active_turn().expect("decision");
    assert_eq!(resolution.responder, 9);
    assert_eq!(resolution.decision, ApprovalDecision::Cancel);
    let snapshot = state.snapshot();
    assert_eq!(snapshot.active_turn_id, None);
    assert!(!snapshot.active_turn_running);
    assert!(!snapshot.pending_approval_supports_session);
}

#[test]
fn stopping_a_turn_cancels_its_approval() {
    let mut state = session();
    state.set_active_turn(4, 2);
    state.set_pending_approval(PendingApproval::new("approve".to_string(), true, 9));
    let cancellation = state.cancel_active_turn();
    assert_eq!(cancellation.cancel, Some(4));
    assert_eq!(
        cancellation.resolution.expect("decision").decision,
        ApprovalDecision::Cancel
    );
    assert!(!state.has_active_turn());
    assert!(state.cancel_active_turn().cancel.is_none());
}

#[test]
fn a_launched_turn_has_no_id_yet() {
    let mut state = session();
    state.set_active_turn_id("old".to_string());
    state.set_active_turn(1, 2);
    assert_eq!(state.snapshot().active_turn_id, None);
    state.set_active_turn_id("new".to_string());
    assert_eq!(state.snapshot().active_turn_id.as_deref(), Some("new"));
}

#[test]
fn imported_history_follows_the_working_directory() {
    let state: SharedSessionState<u32, u32, u32> = SharedSessionState::new_with_history(
        dir("/work"),
        vec![dir("/late"), dir("/work"), dir("/early"), dir("/late")],
    );
    let snapshot = state.snapshot();
    assert_eq!(paths(&snapshot.cwd_history), vec!["/work", "/late", "/early"]);
    assert_eq!(state.active_cwd().expect("cwd").display(), "/work");
    assert_eq!(state.active_thread_id(), None);
}

#[test]
fn history_entries_are_counted_from_the_latest() {
    let mut state = session();
    state.set_active_cwd(dir("/one"));
    state.set_active_cwd(dir("/two"));
    assert_eq!(state.resolve_cwd_history_entry(0).expect("entry").display(), "/two");
    assert_eq!(state.resolve_cwd_history_entry(1).expect("entry").display(), "/one");
    assert!(state.resolve_cwd_history_entry(2).is_none());
}

#[test]
fn a_revisited_directory_moves_to_the_front() {
    let mut history = vec![dir("/a"), dir("/b"), dir("/c")];
    record_cwd_history(&mut history, &dir("/b"));
    assert_eq!(paths(&history), vec!["/b", "/a", "/c"]);
    record_cwd_history(&mut history, &dir("/b"));
    assert_eq!(paths(&history), vec!["/b", "/a", "/c"]);
}

#[test]
fn paths_with_the_same_components_are_the_same_directory() {
    let mut history = vec![dir("/a//b/"), dir("/c")];
    record_cwd_history(&mut history, &dir("/a/b"));
    assert_eq!(paths(&history), vec!["/a/b", "/c"]);
}

#[test]
fn the_thread_is_remembered() {
    let mut state = session();
    assert_eq!(state.active_thread_id(), None);
    state.set_active_thread("thread-1".to_string());
    assert_eq!(state.active_thread_id().as_deref(), Some("thread-1"));
    assert_eq!(state.snapshot().active_thread_id.as_deref(), Some("thread-1"));
}

#[test]
fn a_single_name_is_its_only_component() {
    for name in ["work", "..", "sub dir", "é"] {
        assert_eq!(dir(name).components(), &vec![name.as_bytes().to_vec()]);
    }
    assert!(!dir("one").same_as(&dir("two")));
    assert!(dir("one").same_as(&dir("one")));
}

#[test]
fn a_portable_path_has_a_root_and_names() {
    let cases: Vec<(&str, Vec<&str>)> = vec![
        ("", vec![]),
        ("/", vec!["/"]),
        ("/.", vec!["/"]),
        (".", vec!["."]),
        ("./", vec!["."]),
        ("./a", vec![".", "a"]),
        ("a/./b", vec!["a", "b"]),
        ("a//b/", vec!["a", "b"]),
        ("/./a/..", vec!["/", "a", ".."]),
        ("../x y", vec!["..", "x y"]),
        ("/home/é", vec!["/", "home", "é"]),
    ];
    for (path, names) in cases {
        let expected: Vec<Vec<u8>> = names.iter().map(|n| n.as_bytes().to_vec()).collect();
        assert_eq!(dir(path).components(), &expected, "{path}");
    }
}

#[test]
fn equality_goes_by_components() {
    assert_eq!(dir("C:/one/"), dir("C:/one"));
    assert_ne!(dir("C:/one"), dir("C:/two"));
    assert_ne!(dir("/home/a"), dir("/home/b"));
    assert_eq!(dir("/a").clone(), dir("/a"));
}
