use telegram_codex_bridge::rollouts::{
    codex_home_dir, collect_rollout_files, load_local_codex_cwd_history, paths_in_order,
    read_session_cwd, sort_rollouts, Candidate, CodexHome, EntryStep,
};
use telegram_codex_bridge::workdir::WorkDir;

fn dir(path: &str) -> WorkDir {
    WorkDir::new(path.to_string())
}

fn paths(dirs: &Vec<WorkDir>) -> Vec<String> {
    dirs.iter().map(|d| d.display().to_string()).collect()
}

#[test]
fn loads_local_codex_cwd_history_from_rollouts() {
    let older_cwd = "/tmp/older";
    let newer_cwd = "/tmp/newer";
    let root = "/tmp/sessions/2026/03/27";
    let written = vec![
        (
            "rollout-2026-03-27T07-31-08-older.jsonl",
            format!(
                r#"{{"timestamp":"2026-03-27T07:31:08.611Z","type":"session_meta","payload":{{"cwd":"{older_cwd}"}}}}"#
            ),
        ),
        (
            "rollout-2026-03-27T08-31-08-newer.jsonl",
            format!(
                r#"{{"timestamp":"2026-03-27T08:31:08.611Z","type":"session_meta","payload":{{"cwd":"{newer_cwd}"}}}}"#
            ),
        ),
        (
            "rollout-2026-03-27T09-31-08-duplicate.jsonl",
            format!(
                r#"{{"timestamp":"2026-03-27T09:31:08.611Z","type":"session_meta","payload":{{"cwd":"{newer_cwd}"}}}}"#
            ),
        ),
    ];

    let mut files = Vec::new();
    for (name, _) in &written {
        assert_eq!(collect_rollout_files(false, Some(name)), EntryStep::Keep);
        files.push(dir(&format!("{root}/{name}")));
    }
    let files = sort_rollouts(files);

    let mut candidates = Vec::new();
    for path in &files {
        let (_, first_line) = written
            .iter()
            .find(|(name, _)| path.display().ends_with(name))
            .expect("file");
        if let Some(cwd) = read_session_cwd(Some(first_line)).expect("read session cwd") {
            candidates.push(Candidate { cwd, is_dir: true });
        }
    }
    let history = load_local_codex_cwd_history(candidates);
    assert_eq!(history, vec![dir(newer_cwd), dir(older_cwd)]);
}

#[test]
fn codex_keeps_its_files_at_home() {
    assert!(matches!(
        codex_home_dir(Some(1), Some(2), Some(3)),
        Some(CodexHome::At(1))
    ));
    assert!(matches!(
        codex_home_dir(None, Some(2), Some(3)),
        Some(CodexHome::Below(2))
    ));
    assert!(matches!(
        codex_home_dir(None, None, Some(3)),
        Some(CodexHome::Below(3))
    ));
    assert!(codex_home_dir::<u32>(None, None, None).is_none());
}

#[test]
fn rollout_files_are_told_by_their_names() {
    assert_eq!(collect_rollout_files(true, Some("rollout-a.jsonl")), EntryStep::Descend);
    assert_eq!(collect_rollout_files(false, Some("rollout-.jsonl")), EntryStep::Keep);
    for name in ["rollout-a.json", "a-rollout-a.jsonl", "rollout.jsonl", "", "rollout-"] {
        assert_eq!(collect_rollout_files(false, Some(name)), EntryStep::Skip);
    }
    assert_eq!(collect_rollout_files(false, None), EntryStep::Skip);
}

#[test]
fn paths_are_sorted_by_their_components() {
    let sorted = sort_rollouts(vec![
        dir("/s/a"),
        dir("/s/b/c"),
        dir("/s/b"),
        dir("/s-x"),
        dir("/s//b"),
        dir("/t"),
    ]);
    assert_eq!(paths(&sorted), vec!["/t", "/s-x", "/s/b/c", "/s/b", "/s//b", "/s/a"]);
    assert!(paths_in_order(&dir("/s/z"), &dir("/s-x")));
    assert!(!paths_in_order(&dir("/s"), &dir("/s/")));
}

#[test]
fn sessions_may_name_no_directory() {
    assert_eq!(read_session_cwd(None), Ok(None));
    assert_eq!(read_session_cwd(Some(r#"{"payload":{}}"#)), Ok(None));
    assert_eq!(read_session_cwd(Some(r#"{"payload":{"cwd":1}}"#)), Ok(None));
    assert!(read_session_cwd(Some("")).is_err());
    assert!(read_session_cwd(Some("{")).is_err());
}

#[test]
fn directories_that_are_gone_are_left_out() {
    let candidates = vec![
        Candidate { cwd: dir("/gone"), is_dir: false },
        Candidate { cwd: dir("/a"), is_dir: true },
        Candidate { cwd: dir("/b"), is_dir: true },
        Candidate { cwd: dir("/a/"), is_dir: true },
        Candidate { cwd: dir("/gone"), is_dir: false },
    ];
    assert_eq!(paths(&load_local_codex_cwd_history(candidates)), vec!["/a", "/b"]);
}
