//! The directories in which Codex has worked, from the rollout files that it keeps of its
//! sessions.

use crate::json;
use crate::json::Json;
use crate::session;
use crate::text::{ends_with, starts_with};
use crate::text;
use crate::workdir;
use crate::workdir::{same_bytes, WorkDir, WorkDirView};
use vstd::prelude::*;
use vstd::string::*;

verus! {

/// Where Codex keeps its files.
#[derive(Debug)]
pub enum CodexHome<P> {
    /// In this directory.
    At(P),
    /// In `.codex` below this directory.
    Below(P),
}

/// Where Codex keeps its files, from the variables `CODEX_HOME`, `HOME` and `USERPROFILE`: the
/// first that is set counts.
pub fn codex_home_dir<P>(codex_home: Option<P>, home: Option<P>, userprofile: Option<P>) -> (place:
    Option<CodexHome<P>>)
    ensures
        place == match (codex_home, home, userprofile) {
            (Some(dir), _, _) => Some(CodexHome::At(dir)),
            (None, Some(dir), _) => Some(CodexHome::Below(dir)),
            (None, None, Some(dir)) => Some(CodexHome::Below(dir)),
            (None, None, None) => None,
        },
{
    match codex_home {
        Some(dir) => Some(CodexHome::At(dir)),
        None => match home {
            Some(dir) => Some(CodexHome::Below(dir)),
            None => match userprofile {
                Some(dir) => Some(CodexHome::Below(dir)),
                None => None,
            },
        },
    }
}

/// What is done about an entry of a directory of sessions.
#[derive(Debug, Clone, Copy, PartialEq, Eq, Structural)]
pub enum EntryStep {
    /// It is a directory whose entries are looked at.
    Descend,
    /// It is a rollout file.
    Keep,
    /// It is something else.
    Skip,
}

/// Whether `name` is the name of a rollout file.
pub open spec fn is_rollout_name(name: Seq<char>) -> bool {
    &&& text::occurs_at(name, "rollout-"@, 0)
    &&& text::occurs_at(name, ".jsonl"@, name.len() - ".jsonl"@.len())
}

/// What is done about an entry; `name` is its name, where that is text.
pub fn collect_rollout_files(is_dir: bool, name: Option<&str>) -> (step: EntryStep)
    ensures
        step == if is_dir {
            EntryStep::Descend
        } else {
            match name {
                Some(name) => if is_rollout_name(name@) {
                    EntryStep::Keep
                } else {
                    EntryStep::Skip
                },
                None => EntryStep::Skip,
            }
        },
{
    if is_dir {
        return EntryStep::Descend;
    }
    match name {
        Some(name) => if starts_with(name, "rollout-") && ends_with(name, ".jsonl") {
            EntryStep::Keep
        } else {
            EntryStep::Skip
        },
        None => EntryStep::Skip,
    }
}

/// Whether the name `a` comes before the name `b`, byte by byte.
pub open spec fn name_before(a: Seq<u8>, b: Seq<u8>) -> bool
    decreases a.len(),
{
    if b.len() == 0 {
        false
    } else if a.len() == 0 {
        true
    } else if a[0] != b[0] {
        a[0] < b[0]
    } else {
        name_before(a.drop_first(), b.drop_first())
    }
}

/// Whether the path `a` comes before the path `b`, component by component.
pub open spec fn path_before(a: Seq<Seq<u8>>, b: Seq<Seq<u8>>) -> bool
    decreases a.len(),
{
    if b.len() == 0 {
        false
    } else if a.len() == 0 {
        true
    } else if a[0] != b[0] {
        name_before(a[0], b[0])
    } else {
        path_before(a.drop_first(), b.drop_first())
    }
}

proof fn lemma_name_order(a: Seq<u8>, b: Seq<u8>, c: Seq<u8>)
    ensures
        !name_before(a, a),
        a != b ==> name_before(a, b) || name_before(b, a),
        name_before(a, b) && name_before(b, c) ==> name_before(a, c),
    decreases a.len() + b.len() + c.len(),
{
    if a.len() > 0 && b.len() > 0 && c.len() > 0 {
        lemma_name_order(a.drop_first(), b.drop_first(), c.drop_first());
    } else if a.len() > 0 && b.len() > 0 {
        lemma_name_order(a.drop_first(), b.drop_first(), c);
    } else if a.len() > 0 {
        lemma_name_order(a.drop_first(), b, c);
    }
    if a.len() == 0 && b.len() == 0 {
        assert(a =~= b);
    }
    if a.len() > 0 && b.len() > 0 && a[0] == b[0] && a.drop_first() == b.drop_first() {
        assert(a =~= seq![a[0]] + a.drop_first());
        assert(b =~= seq![b[0]] + b.drop_first());
    }
}

proof fn lemma_path_order(a: Seq<Seq<u8>>, b: Seq<Seq<u8>>, c: Seq<Seq<u8>>)
    ensures
        !path_before(a, a),
        a != b ==> path_before(a, b) || path_before(b, a),
        path_before(a, b) && path_before(b, c) ==> path_before(a, c),
    decreases a.len() + b.len() + c.len(),
{
    if a.len() > 0 && b.len() > 0 && c.len() > 0 {
        lemma_path_order(a.drop_first(), b.drop_first(), c.drop_first());
        lemma_name_order(a[0], b[0], c[0]);
        lemma_name_order(b[0], c[0], a[0]);
        lemma_name_order(c[0], a[0], b[0]);
        lemma_name_order(a[0], b[0], a[0]);
    } else if a.len() > 0 && b.len() > 0 {
        lemma_path_order(a.drop_first(), b.drop_first(), c);
        lemma_name_order(a[0], b[0], a[0]);
    } else if a.len() > 0 {
        lemma_path_order(a.drop_first(), b, c);
    }
    if a.len() == 0 && b.len() == 0 {
        assert(a =~= b);
    }
    if a.len() > 0 && b.len() > 0 && a[0] == b[0] && a.drop_first() == b.drop_first() {
        assert(a =~= seq![a[0]] + a.drop_first());
        assert(b =~= seq![b[0]] + b.drop_first());
    }
}

/// The order of paths is strict, total and transitive.
pub proof fn law_paths_are_ordered(a: Seq<Seq<u8>>, b: Seq<Seq<u8>>, c: Seq<Seq<u8>>)
    ensures
        !(path_before(a, b) && path_before(b, a)),
        a == b || path_before(a, b) || path_before(b, a),
        path_before(a, b) && path_before(b, c) ==> path_before(a, c),
{
    lemma_path_order(a, b, c);
    lemma_path_order(a, b, a);
}

fn names_in_order(a: &Vec<u8>, b: &Vec<u8>) -> (before: bool)
    ensures
        before == name_before(a@, b@),
{
    let mut i: usize = 0;
    assert(a@.skip(0) =~= a@);
    assert(b@.skip(0) =~= b@);
    while i < a.len() && i < b.len() && a[i] == b[i]
        invariant
            i <= a@.len(),
            i <= b@.len(),
            name_before(a@, b@) == name_before(a@.skip(i as int), b@.skip(i as int)),
        decreases a@.len() - i,
    {
        assert(a@.skip(i as int).drop_first() =~= a@.skip(i + 1));
        assert(b@.skip(i as int).drop_first() =~= b@.skip(i + 1));
        i = i + 1;
    }
    if i >= b.len() {
        false
    } else if i >= a.len() {
        true
    } else {
        a[i] < b[i]
    }
}

/// Whether the path of `a` comes before the path of `b`.
pub fn paths_in_order(a: &WorkDir, b: &WorkDir) -> (before: bool)
    ensures
        before == path_before(a@.components, b@.components),
{
    let ghost left = a@.components;
    let ghost right = b@.components;
    let names_a = a.components();
    let names_b = b.components();
    let mut i: usize = 0;
    assert(left.skip(0) =~= left);
    assert(right.skip(0) =~= right);
    while i < names_a.len() && i < names_b.len() && same_bytes(&names_a[i], &names_b[i])
        invariant
            left == workdir::component_bytes(names_a@),
            right == workdir::component_bytes(names_b@),
            i <= left.len(),
            i <= right.len(),
            path_before(left, right) == path_before(left.skip(i as int), right.skip(i as int)),
        decreases left.len() - i,
    {
        assert(left.skip(i as int).drop_first() =~= left.skip(i + 1));
        assert(right.skip(i as int).drop_first() =~= right.skip(i + 1));
        i = i + 1;
    }
    if i >= names_b.len() {
        false
    } else if i >= names_a.len() {
        true
    } else {
        names_in_order(&names_a[i], &names_b[i])
    }
}

/// Whether no path of a list comes after an earlier one.
pub open spec fn latest_first(files: Seq<WorkDirView>) -> bool {
    forall|i: int, j: int|
        0 <= i < j < files.len() ==> !path_before(
            (#[trigger] files[i]).components,
            (#[trigger] files[j]).components,
        )
}

/// The files of a list at one path, in their order.
pub open spec fn files_at(files: Seq<WorkDirView>, path: Seq<Seq<u8>>) -> Seq<WorkDirView> {
    files.filter(|f: WorkDirView| f.components == path)
}

proof fn lemma_files_at_add(a: Seq<WorkDirView>, b: Seq<WorkDirView>, path: Seq<Seq<u8>>)
    ensures
        files_at(a + b, path) == files_at(a, path) + files_at(b, path),
{
    Seq::filter_distributes_over_add(a, b, |f: WorkDirView| f.components == path);
}

proof fn lemma_files_at_one(file: WorkDirView, path: Seq<Seq<u8>>)
    ensures
        files_at(seq![file], path) == if file.components == path {
            seq![file]
        } else {
            Seq::empty()
        },
{
    reveal_with_fuel(Seq::filter, 2);
    assert(seq![file].drop_last() =~= Seq::empty());
    assert(files_at(seq![file], path) =~= if file.components == path {
        seq![file]
    } else {
        Seq::empty()
    });
}

proof fn lemma_files_at_none(files: Seq<WorkDirView>, path: Seq<Seq<u8>>)
    requires
        forall|i: int| 0 <= i < files.len() ==> (#[trigger] files[i]).components != path,
    ensures
        files_at(files, path) == Seq::<WorkDirView>::empty(),
    decreases files.len(),
{
    reveal(Seq::filter);
    if files.len() > 0 {
        let front = files.drop_last();
        assert forall|i: int| 0 <= i < front.len() implies (#[trigger] front[i]).components != path by {
            assert(front[i] == files[i]);
        }
        lemma_files_at_none(front, path);
        assert(files.last() == files[files.len() - 1]);
    }
    assert(files_at(files, path) =~= Seq::empty());
}

/// Putting `file` behind all files that it does not come after keeps the order, and puts it last
/// among the files at its path.
proof fn lemma_inserted(files: Seq<WorkDirView>, file: WorkDirView, at: int)
    requires
        latest_first(files),
        0 <= at <= files.len(),
        forall|i: int|
            0 <= i < at ==> !path_before((#[trigger] files[i]).components, file.components),
        at < files.len() ==> path_before(files[at].components, file.components),
    ensures
        latest_first(files.insert(at, file)),
        forall|path: Seq<Seq<u8>>| #[trigger]
            files_at(files.insert(at, file), path) == files_at(files.push(file), path),
{
    let head = files.take(at);
    let tail = files.skip(at);
    let after = files.insert(at, file);
    assert forall|i: int| 0 <= i < tail.len() implies path_before(
        (#[trigger] tail[i]).components,
        file.components,
    ) by {
        let k = at + i;
        assert(tail[i] == files[k]);
        if i > 0 {
            assert(!path_before(files[at].components, files[k].components));
            law_paths_are_ordered(files[at].components, files[k].components, file.components);
            law_paths_are_ordered(files[k].components, files[at].components, file.components);
        }
    }
    assert forall|i: int, j: int| 0 <= i < j < after.len() implies !path_before(
        (#[trigger] after[i]).components,
        (#[trigger] after[j]).components,
    ) by {
        if i < at && j < at {
            assert(after[i] == files[i] && after[j] == files[j]);
        } else if i < at && j == at {
            assert(after[i] == files[i] && after[j] == file);
        } else if i < at {
            assert(after[i] == files[i] && after[j] == files[j - 1]);
        } else if i == at {
            assert(after[i] == file && after[j] == tail[j - 1 - at]);
            law_paths_are_ordered(file.components, after[j].components, file.components);
        } else {
            assert(after[i] == files[i - 1] && after[j] == files[j - 1]);
        }
    }
    assert forall|path: Seq<Seq<u8>>| #[trigger]
        files_at(after, path) == files_at(files.push(file), path) by {
        assert(after =~= head + seq![file] + tail);
        assert(files.push(file) =~= head + tail + seq![file]);
        lemma_files_at_add(head + seq![file], tail, path);
        lemma_files_at_add(head, seq![file], path);
        lemma_files_at_add(head + tail, seq![file], path);
        lemma_files_at_add(head, tail, path);
        lemma_files_at_one(file, path);
        if path == file.components {
            assert forall|i: int| 0 <= i < tail.len() implies (#[trigger] tail[i]).components
                != path by {
                law_paths_are_ordered(tail[i].components, file.components, file.components);
            }
            lemma_files_at_none(tail, path);
        }
        assert(files_at(after, path) =~= files_at(files.push(file), path));
    }
}

/// Sorts files by their paths, the last path first. Files at the same path keep their order.
pub fn sort_rollouts(files: Vec<WorkDir>) -> (sorted: Vec<WorkDir>)
    ensures
        latest_first(workdir::dir_views(sorted@)),
        forall|path: Seq<Seq<u8>>| #[trigger]
            files_at(workdir::dir_views(sorted@), path) == files_at(
                workdir::dir_views(files@),
                path,
            ),
        sorted@.len() == files@.len(),
{
    let ghost views = workdir::dir_views(files@);
    let mut sorted: Vec<WorkDir> = Vec::new();
    let mut n: usize = 0;
    assert(workdir::dir_views(sorted@) =~= views.take(0));
    while n < files.len()
        invariant
            views == workdir::dir_views(files@),
            n <= files@.len(),
            sorted@.len() == n,
            latest_first(workdir::dir_views(sorted@)),
            forall|path: Seq<Seq<u8>>| #[trigger]
                files_at(workdir::dir_views(sorted@), path) == files_at(
                    views.take(n as int),
                    path,
                ),
        decreases files@.len() - n,
    {
        let ghost before = workdir::dir_views(sorted@);
        let ghost file = views[n as int];
        let mut at: usize = 0;
        while at < sorted.len() && !paths_in_order(&sorted[at], &files[n])
            invariant
                n < files@.len(),
                file == files@[n as int]@,
                before == workdir::dir_views(sorted@),
                at <= sorted@.len(),
                forall|i: int|
                    0 <= i < at ==> !path_before(
                        (#[trigger] before[i]).components,
                        file.components,
                    ),
            decreases sorted@.len() - at,
        {
            assert(before[at as int] == sorted@[at as int]@);
            at = at + 1;
        }
        proof {
            if at < sorted@.len() {
                assert(before[at as int] == sorted@[at as int]@);
            }
            lemma_inserted(before, file, at as int);
        }
        sorted.insert(at, files[n].duplicate());
        n = n + 1;
        assert(workdir::dir_views(sorted@) =~= before.insert(at as int, file));
        assert forall|path: Seq<Seq<u8>>| #[trigger]
            files_at(workdir::dir_views(sorted@), path) == files_at(views.take(n as int), path) by {
            assert(views.take(n as int) =~= views.take(n - 1).push(file));
            assert(before.push(file) =~= before + seq![file]);
            assert(views.take(n - 1).push(file) =~= views.take(n - 1) + seq![file]);
            lemma_files_at_add(before, seq![file], path);
            lemma_files_at_add(views.take(n - 1), seq![file], path);
            assert(files_at(before, path) == files_at(views.take(n - 1), path));
            assert(files_at(before.insert(at as int, file), path) == files_at(
                before.push(file),
                path,
            ));
        }
    }
    assert(views.take(n as int) =~= views);
    sorted
}

/// A rollout file whose first line is no JSON text.
#[derive(Debug, PartialEq, Eq)]
pub struct NotJson;

/// The working directory that the first line of a rollout file names, if it names one.
pub open spec fn session_cwd(record: json::JsonView) -> Option<Seq<char>> {
    json::text_at(record, "payload"@, "cwd"@)
}

/// The working directory of a session, from the first line of its rollout file; `None` is an
/// empty file.
pub fn read_session_cwd(first_line: Option<&str>) -> (cwd: Result<Option<WorkDir>, NotJson>)
    ensures
        match first_line {
            None => cwd == Ok::<Option<WorkDir>, NotJson>(None),
            Some(line) => match json::parsed_json(line@) {
                None => cwd is Err,
                Some(record) => match cwd {
                    Ok(Some(dir)) => session_cwd(record) == Some(dir@.display)
                        && workdir::components_of(dir@.display, dir@.components),
                    Ok(None) => session_cwd(record) is None,
                    Err(_) => false,
                },
            },
        },
{
    let line = match first_line {
        Some(line) => line,
        None => {
            return Ok(None);
        },
    };
    match Json::parse(line) {
        Some(record) => Ok(cwd_in_record(&record)),
        None => Err(NotJson),
    }
}

/// The working directory that the first record of a rollout file names.
pub fn cwd_in_record(record: &Json) -> (cwd: Option<WorkDir>)
    ensures
        match cwd {
            Some(dir) => session_cwd(record@) == Some(dir@.display) && workdir::components_of(
                dir@.display,
                dir@.components,
            ),
            None => session_cwd(record@) is None,
        },
{
    match record.text_in("payload", "cwd") {
        Some(path) => Some(WorkDir::new(path.to_owned())),
        None => None,
    }
}

/// A working directory that a session names, and whether it is still a directory.
#[derive(Debug)]
pub struct Candidate {
    pub cwd: WorkDir,
    pub is_dir: bool,
}

/// A candidate as mathematics.
pub struct CandidateView {
    pub cwd: WorkDirView,
    pub is_dir: bool,
}

impl View for Candidate {
    type V = CandidateView;

    open spec fn view(&self) -> CandidateView {
        CandidateView { cwd: self.cwd@, is_dir: self.is_dir }
    }
}

/// Whether a directory with the components of `cwd` is listed.
pub open spec fn lists(history: Seq<WorkDirView>, cwd: WorkDirView) -> bool {
    exists|i: int| 0 <= i < history.len() && (#[trigger] history[i]).components == cwd.components
}

/// The candidates that are directories, each where it is named first.
pub open spec fn imported(candidates: Seq<CandidateView>) -> Seq<WorkDirView>
    decreases candidates.len(),
{
    if candidates.len() == 0 {
        Seq::empty()
    } else {
        let history = imported(candidates.drop_last());
        let last = candidates.last();
        if last.is_dir && !lists(history, last.cwd) {
            history.push(last.cwd)
        } else {
            history
        }
    }
}

/// The candidates of a list as mathematics.
pub open spec fn candidate_views(candidates: Seq<Candidate>) -> Seq<CandidateView> {
    candidates.map_values(|c: Candidate| c@)
}

fn is_listed(history: &Vec<WorkDir>, cwd: &WorkDir) -> (listed: bool)
    ensures
        listed == lists(workdir::dir_views(history@), cwd@),
{
    let ghost views = workdir::dir_views(history@);
    let mut i: usize = 0;
    while i < history.len()
        invariant
            views == workdir::dir_views(history@),
            i <= history@.len(),
            forall|j: int| 0 <= j < i ==> (#[trigger] views[j]).components != cwd@.components,
        decreases history@.len() - i,
    {
        assert(views[i as int] == history@[i as int]@);
        if history[i].same_as(cwd) {
            return true;
        }
        i = i + 1;
    }
    false
}

/// The directories in which Codex has worked, from what the sessions name, the latest session
/// first.
pub fn load_local_codex_cwd_history(candidates: Vec<Candidate>) -> (history: Vec<WorkDir>)
    ensures
        workdir::dir_views(history@) == imported(candidate_views(candidates@)),
        session::distinct_dirs(workdir::dir_views(history@)),
{
    let ghost views = candidate_views(candidates@);
    let mut history: Vec<WorkDir> = Vec::new();
    let mut n: usize = 0;
    assert(views.take(0) =~= Seq::empty());
    assert(workdir::dir_views(history@) =~= Seq::empty());
    while n < candidates.len()
        invariant
            views == candidate_views(candidates@),
            n <= candidates@.len(),
            workdir::dir_views(history@) == imported(views.take(n as int)),
        decreases candidates@.len() - n,
    {
        let ghost before = history@;
        assert(views.take(n + 1).drop_last() =~= views.take(n as int));
        assert(views.take(n + 1).last() == candidates@[n as int]@);
        if candidates[n].is_dir && !is_listed(&history, &candidates[n].cwd) {
            history.push(candidates[n].cwd.duplicate());
            assert(workdir::dir_views(history@) =~= workdir::dir_views(before).push(
                candidates@[n as int]@.cwd,
            ));
        }
        n = n + 1;
    }
    assert(views.take(n as int) =~= views);
    proof {
        law_imported_history_is_distinct(views);
    }
    history
}

/// No directory is imported twice.
pub proof fn law_imported_history_is_distinct(candidates: Seq<CandidateView>)
    ensures
        session::distinct_dirs(imported(candidates)),
    decreases candidates.len(),
{
    if candidates.len() > 0 {
        law_imported_history_is_distinct(candidates.drop_last());
        let front = imported(candidates.drop_last());
        let all = imported(candidates);
        assert forall|i: int, j: int| 0 <= i < j < all.len() implies (
        #[trigger] all[i]).components != (#[trigger] all[j]).components by {
            assert(all[i] == front[i]);
            if j < front.len() {
                assert(all[j] == front[j]);
            }
        }
    }
}

/// Every directory that a session names and that still exists is imported, and nothing else.
pub proof fn law_import_is_complete(candidates: Seq<CandidateView>, cwd: WorkDirView)
    ensures
        lists(imported(candidates), cwd) <==> exists|i: int|
            0 <= i < candidates.len() && (#[trigger] candidates[i]).is_dir
                && candidates[i].cwd.components == cwd.components,
    decreases candidates.len(),
{
    if candidates.len() > 0 {
        let front = candidates.drop_last();
        let last = candidates.last();
        law_import_is_complete(front, cwd);
        law_import_is_complete(front, last.cwd);
        assert(candidates[candidates.len() - 1] == last);
        let all = imported(candidates);
        let some = imported(front);
        if lists(all, cwd) {
            let k = choose|k: int|
                0 <= k < all.len() && (#[trigger] all[k]).components == cwd.components;
            if k < some.len() {
                assert(some[k] == all[k]);
                assert(lists(some, cwd));
                let i = choose|i: int|
                    0 <= i < front.len() && (#[trigger] front[i]).is_dir
                        && front[i].cwd.components == cwd.components;
                assert(candidates[i] == front[i]);
            }
        }
        if exists|i: int|
            0 <= i < candidates.len() && (#[trigger] candidates[i]).is_dir
                && candidates[i].cwd.components == cwd.components {
            let i = choose|i: int|
                0 <= i < candidates.len() && (#[trigger] candidates[i]).is_dir
                    && candidates[i].cwd.components == cwd.components;
            if i < front.len() {
                assert(front[i] == candidates[i]);
                assert(lists(some, cwd));
                let k = choose|k: int|
                    0 <= k < some.len() && (#[trigger] some[k]).components == cwd.components;
                assert(all[k] == some[k]);
            } else {
                if lists(some, last.cwd) {
                    let k = choose|k: int|
                        0 <= k < some.len() && (#[trigger] some[k]).components
                            == last.cwd.components;
                    assert(all[k] == some[k]);
                } else {
                    assert(all[some.len() as int] == last.cwd);
                }
            }
        }
    }
}

} // verus!
