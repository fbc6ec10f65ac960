//! Laws of directories, of the files in which Codex keeps its sessions, of what the window shows, and
//! of the handles by which answers are delivered.

use crate::config::Config;
use crate::dto::{get_config, get_status, mask_token, ConfigDto, StatusDto};
use crate::handles::{carry_out, deliver, was_delivered, Stopped};
use crate::json;
use crate::json::Json;
use crate::laws::turns;
use crate::rollouts;
use crate::rollouts::{
    codex_home_dir, collect_rollout_files, cwd_in_record, load_local_codex_cwd_history,
    paths_in_order, read_session_cwd, sort_rollouts, Candidate, CodexHome, EntryStep, NotJson,
};
use crate::session::{copy_dir, ApprovalDecision, Cancellation, Resolution, SessionSnapshot};
use crate::text;
use crate::workdir;
use crate::workdir::{duplicate_all, same_bytes, WorkDir, WorkDirView};
use tokio::sync::oneshot::Sender;
use tokio_util::sync::CancellationToken;
use vstd::prelude::*;
use vstd::string::*;

verus! {

/// A directory is named by the text that it is made of, and a copy is the same directory under the
/// same name. Two directories are the same where they lead through the same components.
pub proof fn law_directories_are_what_they_are_made_of(
    path: String,
    dir: WorkDir,
    shown: &str,
    copy: WorkDir,
    clone: WorkDir,
    other: &WorkDir,
    same: bool,
)
    requires
        call_ensures(WorkDir::new, (path,), dir),
        call_ensures(WorkDir::display, (&dir,), shown),
        call_ensures(WorkDir::duplicate, (&dir,), copy),
        call_ensures(WorkDir::clone, (&dir,), clone),
        call_ensures(WorkDir::same_as, (&dir, other), same),
    ensures
        shown@ == path@,
        copy@ == dir@,
        clone@ == dir@,
        same <==> dir@.components.len() == other@.components.len() && forall|i: int|
            0 <= i < dir@.components.len() ==> dir@.components[i] == #[trigger] other@.components[i],
{
    if dir@.components.len() == other@.components.len() && forall|i: int|
        0 <= i < dir@.components.len() ==> dir@.components[i] == #[trigger] other@.components[i] {
        assert(dir@.components =~= other@.components);
    }
}

/// Copies of directories are the same directories, in the same order.
pub proof fn law_directories_are_copied_in_order(
    dirs: &Vec<WorkDir>,
    copies: Vec<WorkDir>,
    held: &Option<WorkDir>,
    copy: Option<WorkDir>,
    i: int,
)
    requires
        call_ensures(duplicate_all, (dirs,), copies),
        call_ensures(copy_dir, (held,), copy),
    ensures
        copies@.len() == dirs@.len(),
        0 <= i < dirs@.len() ==> copies@[i]@ == dirs@[i]@,
        match *held {
            Some(dir) => copy matches Some(same) && same@ == dir@,
            None => copy is None,
        },
{
    let views = workdir::dir_views(dirs@);
    let copied = workdir::dir_views(copies@);
    assert(views.len() == dirs@.len());
    assert(copied.len() == copies@.len());
    if 0 <= i < dirs@.len() {
        assert(views[i] == dirs@[i]@);
        assert(copied[i] == copies@[i]@);
    }
}

/// Two byte strings are the same where they hold the same bytes in the same order, and nowhere else.
pub proof fn law_same_bytes_is_equality(a: &Vec<u8>, b: &Vec<u8>, same: bool)
    requires
        call_ensures(same_bytes, (a, b), same),
    ensures
        same == (a@.len() == b@.len() && forall|i: int|
            0 <= i < a@.len() ==> a@[i] == #[trigger] b@[i]),
{
    if a@.len() == b@.len() && forall|i: int| 0 <= i < a@.len() ==> a@[i] == #[trigger] b@[i] {
        assert(a@ =~= b@);
    }
}

/// An absolute path stands for itself; any other for what it makes with the directory from which it
/// is read.
pub proof fn law_absolute_paths_stand_for_themselves(
    path: &str,
    is_absolute: bool,
    joined: String,
    dir: WorkDir,
)
    requires
        call_ensures(WorkDir::resolved, (path, is_absolute, joined), dir),
    ensures
        is_absolute ==> dir@.display == path@,
        !is_absolute ==> dir@.display == joined@,
{
}

/// A relative path without a colon is read behind the directory that it is read from, with at most
/// one character between them; a path from the root replaces a directory that has no drive and is
/// on no server.
pub proof fn law_relative_paths_follow_their_directory(dir: &WorkDir, path: &str, made: WorkDir)
    requires
        call_ensures(WorkDir::join, (dir, path), made),
        dir@.display.len() < 2 || (dir@.display[1] != ':' && (dir@.display[1] != '/'
            && dir@.display[1] != '\\')),
    ensures
        path@.len() > 0 && path@[0] != '/' && path@[0] != '\\' && (forall|i: int|
            0 <= i < path@.len() ==> #[trigger] path@[i] != ':') ==> made@.display
            == dir@.display + path@ || exists|c: char|
            made@.display == #[trigger] dir@.display.push(c) + path@,
        path@.len() > 0 && path@[0] == '/' ==> made@.display == path@,
{
    if path@.len() > 0 && path@[0] != '/' && path@[0] != '\\' && (forall|i: int|
        0 <= i < path@.len() ==> #[trigger] path@[i] != ':') {
        let between = choose|between: Seq<char>|
            between.len() <= 1 && made@.display == #[trigger] (dir@.display + between) + path@;
        if between.len() == 0 {
            assert(dir@.display + between =~= dir@.display);
        } else {
            assert(dir@.display + between =~= dir@.display.push(between[0]));
        }
    }
}

/// Codex keeps its files where `CODEX_HOME` says; where it is not set, below the home directory, and
/// where that is not set either, below the profile of the user.
pub proof fn law_codex_home_comes_first<P>(
    codex_home: Option<P>,
    home: Option<P>,
    userprofile: Option<P>,
    place: Option<CodexHome<P>>,
)
    requires
        call_ensures(codex_home_dir::<P>, (codex_home, home, userprofile), place),
    ensures
        codex_home is Some ==> (place matches Some(CodexHome::At(dir)) && dir == codex_home->0),
        codex_home is None && home is Some ==> (place matches Some(CodexHome::Below(dir)) && dir
            == home->0),
        codex_home is None && home is None && userprofile is Some ==> (place matches Some(
            CodexHome::Below(dir),
        ) && dir == userprofile->0),
        codex_home is None && home is None && userprofile is None ==> place is None,
{
}

/// Directories are descended into. A file is kept where its name is `rollout-`, something and
/// `.jsonl`, and nothing else is.
pub proof fn law_rollouts_are_known_by_name(
    is_dir: bool,
    name: &str,
    step: EntryStep,
    other: EntryStep,
)
    requires
        call_ensures(collect_rollout_files, (is_dir, Some(name)), step),
        call_ensures(collect_rollout_files, (is_dir, None::<&str>), other),
    ensures
        is_dir ==> step is Descend && other is Descend,
        !is_dir ==> other is Skip,
        !is_dir ==> (step is Keep <==> exists|x: Seq<char>|
            name@ == #[trigger] ("rollout-"@ + x + ".jsonl"@)),
        !is_dir ==> (step is Keep || step is Skip),
{
    reveal_strlit("rollout-");
    reveal_strlit(".jsonl");
    let n = name@.len() as int;
    if rollouts::is_rollout_name(name@) {
        assert(name@.subrange(0, 8) == "rollout-"@);
        assert(name@.subrange(n - 6, n) == ".jsonl"@);
        assert(name@[n - 6] == name@.subrange(n - 6, n)[0]);
        assert(name@[n - 6] == '.');
        if n < 14 {
            assert(name@[n - 6] == name@.subrange(0, 8)[n - 6]);
            assert("rollout-"@[n - 6] != '.');
        }
        let x = name@.subrange(8, n - 6);
        assert(name@ =~= name@.subrange(0, 8) + x + name@.subrange(n - 6, n));
        assert(name@ == "rollout-"@ + x + ".jsonl"@);
    }
    assert forall|x: Seq<char>| name@ == #[trigger] ("rollout-"@ + x + ".jsonl"@) implies rollouts::is_rollout_name(
        name@,
    ) by {
        assert(name@.subrange(0, 8) =~= "rollout-"@);
        assert(name@.subrange(n - 6, n) =~= ".jsonl"@);
    }
}

/// Paths are ordered by the first component in which they differ, and components by the first byte
/// in which they differ; what ends first comes first.
pub proof fn law_paths_are_ordered_by_their_names(
    a: &WorkDir,
    b: &WorkDir,
    before: bool,
    common: Seq<Seq<u8>>,
    rest_a: Seq<Seq<u8>>,
    rest_b: Seq<Seq<u8>>,
    start: Seq<u8>,
    tail_a: Seq<u8>,
    tail_b: Seq<u8>,
)
    requires
        call_ensures(paths_in_order, (a, b), before),
        a@.components == common + rest_a,
        b@.components == common + rest_b,
    ensures
        rest_b.len() == 0 ==> !before,
        rest_a.len() == 0 && rest_b.len() > 0 ==> before,
        rest_a.len() > 0 && rest_b.len() > 0 && rest_a[0] == start + tail_a && rest_b[0] == start
            + tail_b && tail_a.len() > 0 && tail_b.len() > 0 && tail_a[0] != tail_b[0] ==> before
            == (tail_a[0] < tail_b[0]),
        rest_a.len() > 0 && rest_b.len() > 0 && rest_a[0] == start && rest_b[0] == start + tail_b
            && tail_b.len() > 0 ==> before,
        rest_a.len() > 0 && rest_b.len() > 0 && rest_a[0] == start + tail_a && rest_b[0] == start
            && tail_a.len() > 0 ==> !before,
{
    lemma_path_prefix(common, rest_a, rest_b);
    if rest_a.len() > 0 && rest_b.len() > 0 {
        lemma_name_prefix(start, tail_a, tail_b);
        lemma_name_prefix(start, Seq::empty(), tail_b);
        lemma_name_prefix(start, tail_a, Seq::empty());
        assert(start + Seq::<u8>::empty() =~= start);
        if tail_a.len() > 0 && tail_b.len() > 0 && tail_a[0] != tail_b[0] {
            assert((start + tail_a)[start.len() as int] != (start + tail_b)[start.len() as int]);
        }
        if tail_b.len() > 0 {
            assert((start + tail_b).len() != start.len());
        }
        if tail_a.len() > 0 {
            assert((start + tail_a).len() != start.len());
        }
    }
}

proof fn lemma_path_prefix(common: Seq<Seq<u8>>, a: Seq<Seq<u8>>, b: Seq<Seq<u8>>)
    ensures
        rollouts::path_before(common + a, common + b) == rollouts::path_before(a, b),
    decreases common.len(),
{
    if common.len() == 0 {
        assert(common + a =~= a);
        assert(common + b =~= b);
    } else {
        lemma_path_prefix(common.drop_first(), a, b);
        assert((common + a).drop_first() =~= common.drop_first() + a);
        assert((common + b).drop_first() =~= common.drop_first() + b);
    }
}

proof fn lemma_name_prefix(common: Seq<u8>, a: Seq<u8>, b: Seq<u8>)
    ensures
        rollouts::name_before(common + a, common + b) == rollouts::name_before(a, b),
    decreases common.len(),
{
    if common.len() == 0 {
        assert(common + a =~= a);
        assert(common + b =~= b);
    } else {
        lemma_name_prefix(common.drop_first(), a, b);
        assert((common + a).drop_first() =~= common.drop_first() + a);
        assert((common + b).drop_first() =~= common.drop_first() + b);
    }
}

/// Rollout files are sorted with the last path first; none is lost or added, and files at one path
/// keep their order.
pub proof fn law_the_latest_rollout_comes_first(
    files: Vec<WorkDir>,
    sorted: Vec<WorkDir>,
    i: int,
    j: int,
    before: bool,
    path: Seq<Seq<u8>>,
)
    requires
        call_ensures(sort_rollouts, (files,), sorted),
        0 <= i < j < sorted@.len(),
        call_ensures(paths_in_order, (&sorted@[i], &sorted@[j]), before),
    ensures
        !before,
        sorted@.len() == files@.len(),
        workdir::dir_views(sorted@).filter(|f: WorkDirView| f.components == path)
            == workdir::dir_views(files@).filter(|f: WorkDirView| f.components == path),
{
    let views = workdir::dir_views(sorted@);
    assert(views[i] == sorted@[i]@ && views[j] == sorted@[j]@);
    assert(rollouts::files_at(views, path) == rollouts::files_at(
        workdir::dir_views(files@),
        path,
    ));
}

/// The working directory of a session is the text under `payload` and `cwd` in its first line; an
/// empty file and a line without this text name none, and a line that is no JSON text is a fault.
pub proof fn law_sessions_name_their_directory(
    line: &str,
    cwd: Result<Option<WorkDir>, NotJson>,
    empty: Result<Option<WorkDir>, NotJson>,
    record: &Json,
    of_record: Option<WorkDir>,
    words: Seq<char>,
)
    requires
        call_ensures(read_session_cwd, (Some(line),), cwd),
        call_ensures(read_session_cwd, (None::<&str>,), empty),
        call_ensures(cwd_in_record, (record,), of_record),
    ensures
        empty matches Ok(None),
        cwd is Err <==> json::parsed_json(line@) is None,
        turns::says_at(record@, "payload"@, "cwd"@, words) ==> (of_record matches Some(dir)
            && dir@.display == words),
        (forall|path: Seq<char>| !#[trigger] turns::says_at(record@, "payload"@, "cwd"@, path))
            ==> of_record is None,
        json::parsed_json(line@) == Some(record@) ==> match of_record {
            Some(dir) => cwd matches Ok(Some(read)) && read@.display == dir@.display,
            None => cwd matches Ok(None),
        },
{
    turns::lemma_says(record@, "payload"@, "cwd"@);
}

/// The history that is imported grows by each candidate that is a directory and is not listed yet,
/// which comes last; any other candidate is passed over. Without candidates it is empty.
pub proof fn law_candidates_are_imported_once(
    candidates: Vec<Candidate>,
    history: Vec<WorkDir>,
    front: Vec<Candidate>,
    shorter: Vec<WorkDir>,
)
    requires
        call_ensures(load_local_codex_cwd_history, (candidates,), history),
        call_ensures(load_local_codex_cwd_history, (front,), shorter),
    ensures
        candidates@.len() == 0 ==> history@.len() == 0,
        candidates@.len() > 0 && front@ == candidates@.drop_last() ==> {
            let last = candidates@.last();
            let listed = exists|i: int|
                0 <= i < shorter@.len() && (#[trigger] shorter@[i])@.components
                    == last.cwd@.components;
            if last.is_dir && !listed {
                workdir::dir_views(history@) == workdir::dir_views(shorter@).push(last.cwd@)
            } else {
                workdir::dir_views(history@) == workdir::dir_views(shorter@)
            }
        },
{
    assert(workdir::dir_views(history@).len() == history@.len());
    if candidates@.len() > 0 && front@ == candidates@.drop_last() {
        let views = rollouts::candidate_views(candidates@);
        assert(views.drop_last() =~= rollouts::candidate_views(front@));
        assert(views.last() == candidates@.last()@);
        let dirs = workdir::dir_views(shorter@);
        let cwd = candidates@.last().cwd@;
        if rollouts::lists(dirs, cwd) {
            let i = choose|i: int|
                0 <= i < dirs.len() && (#[trigger] dirs[i]).components == cwd.components;
            assert(shorter@[i]@.components == cwd.components);
        }
        assert forall|i: int|
            0 <= i < shorter@.len() && (#[trigger] shorter@[i])@.components
                == cwd.components implies rollouts::lists(dirs, cwd) by {
            assert(dirs[i].components == cwd.components);
        }
    }
}

/// The window shows what the session shows, its directories by their paths.
pub proof fn law_the_window_shows_the_session(snapshot: SessionSnapshot, status: StatusDto, i: int)
    requires
        call_ensures(get_status, (snapshot,), status),
    ensures
        match snapshot@.active_thread_id {
            Some(id) => status.active_thread_id matches Some(shown) && shown@ == id,
            None => status.active_thread_id is None,
        },
        match snapshot@.active_turn_id {
            Some(id) => status.active_turn_id matches Some(shown) && shown@ == id,
            None => status.active_turn_id is None,
        },
        status.active_turn_running == snapshot@.active_turn_running,
        match snapshot@.active_cwd {
            Some(cwd) => status.active_cwd matches Some(shown) && shown@ == cwd.display,
            None => status.active_cwd is None,
        },
        status.cwd_history@.len() == snapshot@.cwd_history.len(),
        0 <= i < snapshot@.cwd_history.len() ==> status.cwd_history@[i]@
            == snapshot@.cwd_history[i].display,
        match snapshot@.pending_approval_message {
            Some(message) => status.pending_approval_message matches Some(shown) && shown@
                == message,
            None => status.pending_approval_message is None,
        },
        status.pending_approval_supports_session == snapshot@.pending_approval_supports_session,
{
    let paths = status.cwd_history@.map_values(|s: String| s@);
    let dirs = snapshot@.cwd_history.map_values(|d: WorkDirView| d.display);
    assert(paths.len() == status.cwd_history@.len());
    assert(dirs.len() == snapshot@.cwd_history.len());
    if 0 <= i < snapshot@.cwd_history.len() {
        assert(paths[i] == status.cwd_history@[i]@);
        assert(dirs[i] == snapshot@.cwd_history[i].display);
    }
}

/// The window shows the configuration, its token masked.
pub proof fn law_the_window_shows_the_configuration(
    config: &Config,
    shown: ConfigDto,
    token: &str,
    hidden: String,
)
    requires
        call_ensures(get_config, (config,), shown),
        call_ensures(mask_token, (token,), hidden),
        token@ == config@.telegram_bot_token,
    ensures
        shown.telegram_bot_token_masked@ == hidden@,
        shown.telegram_allowed_user_id == config@.telegram_allowed_user_id,
        shown.codex_binary@ == config@.codex_binary,
        shown.codex_cwd@ == config@.codex_cwd.display,
        match config@.codex_model {
            Some(model) => shown.codex_model matches Some(given) && given@ == model,
            None => shown.codex_model is None,
        },
        shown.codex_approval_policy@ == config@.codex_approval_policy,
        match config@.codex_sandbox_mode {
            Some(mode) => shown.codex_sandbox_mode matches Some(given) && given@ == mode,
            None => shown.codex_sandbox_mode is None,
        },
{
}

/// A masked token shows its first and its last four bytes and nothing of what stands between them;
/// of a token of at most eight bytes it shows nothing.
pub proof fn law_a_masked_token_hides_its_middle(
    token: &str,
    shown: String,
    head: Seq<char>,
    middle: Seq<char>,
    tail: Seq<char>,
)
    requires
        call_ensures(mask_token, (token,), shown),
        token@ == head + middle + tail,
        vstd::utf8::encode_utf8(head).len() == 4,
        vstd::utf8::encode_utf8(tail).len() == 4,
    ensures
        middle.len() > 0 ==> shown@ == head + "…"@ + tail,
        middle.len() == 0 ==> shown@ == "****"@,
{
    lemma_encoded_parts(head + middle, tail);
    lemma_encoded_parts(head, middle);
    lemma_encoded_length(middle);
    let bytes = vstd::utf8::encode_utf8(token@);
    assert(bytes.take(4) =~= vstd::utf8::encode_utf8(head));
    assert(bytes.skip(bytes.len() - 4) =~= vstd::utf8::encode_utf8(tail));
    vstd::utf8::encode_utf8_decode_utf8(head);
    vstd::utf8::encode_utf8_decode_utf8(tail);
}

/// A token of at most eight bytes is hidden altogether, whatever it is.
pub proof fn law_a_short_token_is_hidden(token: &str, shown: String)
    requires
        call_ensures(mask_token, (token,), shown),
        vstd::utf8::encode_utf8(token@).len() <= 8,
    ensures
        shown@ == "****"@,
{
}

proof fn lemma_encoded_parts(a: Seq<char>, b: Seq<char>)
    ensures
        vstd::utf8::encode_utf8(a + b) == vstd::utf8::encode_utf8(a) + vstd::utf8::encode_utf8(b),
    decreases a.len(),
{
    if a.len() == 0 {
        assert(a + b =~= b);
        assert(vstd::utf8::encode_utf8(a) + vstd::utf8::encode_utf8(b) =~= vstd::utf8::encode_utf8(
            b,
        ));
    } else {
        lemma_encoded_parts(a.drop_first(), b);
        assert((a + b).drop_first() =~= a.drop_first() + b);
        assert((a + b)[0] == a[0]);
        assert(vstd::utf8::encode_utf8(a + b) =~= vstd::utf8::encode_utf8(a)
            + vstd::utf8::encode_utf8(b));
    }
}

proof fn lemma_encoded_length(s: Seq<char>)
    ensures
        vstd::utf8::encode_utf8(s).len() >= s.len(),
    decreases s.len(),
{
    if s.len() > 0 {
        lemma_encoded_length(s.drop_first());
        assert(vstd::utf8::is_scalar(s[0] as u32)) by {
            vstd::utf8::char_is_scalar(s[0]);
        }
    }
}

/// An answer was delivered where it was sent and did not come back. There is an outcome where there
/// was an asker, and what comes back is the decision that was sent.
pub proof fn law_answers_that_come_back_were_not_delivered(
    resolution: Option<Resolution<Sender<ApprovalDecision>>>,
    outcome: Option<Result<(), ApprovalDecision>>,
    delivered: bool,
)
    requires
        call_ensures(deliver, (resolution,), outcome),
        call_ensures(was_delivered, (outcome,), delivered),
    ensures
        resolution is None ==> outcome is None && !delivered,
        resolution is Some ==> outcome is Some && (delivered <==> outcome->0 is Ok),
        outcome matches Some(Err(returned)) ==> returned == resolution->0.decision && !delivered,
{
}

/// A turn is stopped where there is one to stop, and its asker is answered where there is one.
pub proof fn law_a_stop_is_carried_out(
    cancellation: Cancellation<CancellationToken, Sender<ApprovalDecision>>,
    stopped: Stopped,
)
    requires
        call_ensures(carry_out, (cancellation,), stopped),
    ensures
        stopped.turn <==> cancellation.cancel is Some,
        stopped.approval is Some <==> cancellation.resolution is Some,
        stopped.approval matches Some(Err(returned)) ==> returned
            == cancellation.resolution->0.decision,
{
}

} // verus!
