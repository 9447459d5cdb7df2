//! Which files a parsed patch touches, under the workspace path policy,
//! and whether its update hunks still match the files they edit.
//!
//! The patch grammar belongs to the parser that produced the hunks. What
//! the filesystem says about each resolved path (whether it exists, the
//! first symlink between it and the workspace root) is read by the caller
//! and handed in as [`HunkFacts`], one per hunk.

use vstd::prelude::*;

use crate::digest::{content_version, version_of};
use crate::domain::error::{ErrorBody, ErrorCode};
use crate::domain::patch::{FileChange, FileChangeKind};
use crate::pathname::strip_prefix_spec;
use crate::policy::path::{
    all_normal, join_components, join_under, lemma_resolved_path_stays_under_root, resolve_path,
    resolve_spec,
};
use crate::policy::workspace::Workspace;
use crate::text::{
    chars_of, concat2, contains_run, join_strings, join_with, replace_char, starts_with,
    string_of, string_views, vec_contains_run, vec_replace_char,
};

verus! {

/// One `@@` section of an update hunk: the lines it expects to find.
#[derive(Debug, Clone, PartialEq, Eq)]
pub struct UpdateChunk {
    pub old_lines: Vec<String>,
}

/// One file operation of a parsed patch. Paths are as written in the patch.
#[derive(Debug, Clone, PartialEq, Eq)]
pub enum Hunk {
    AddFile { path: String },
    DeleteFile { path: String },
    UpdateFile { path: String, move_path: Option<String>, chunks: Vec<UpdateChunk> },
}

/// What the filesystem says about one resolved path: whether something is
/// there, and the first symlink met walking from the path up to the
/// workspace root.
#[derive(Debug, Clone, PartialEq, Eq)]
pub struct PathFacts {
    pub exists: bool,
    pub symlink: Option<String>,
}

/// Facts for a hunk's path and, for a move, its destination.
#[derive(Debug, Clone, PartialEq, Eq)]
pub struct HunkFacts {
    pub path: PathFacts,
    pub move_to: PathFacts,
}

/// One file a patch will touch.
#[derive(Debug, Clone, PartialEq, Eq)]
pub struct PlannedFile {
    pub abs: String,
    pub relative: String,
    pub kind: FileChangeKind,
}

/// Files and changes reported for an applied or checked patch.
#[derive(Debug, Clone, PartialEq, Eq)]
pub struct ApplyOutcome {
    pub files: Vec<String>,
    pub changes: Vec<FileChange>,
}

/// A planned file by its plain values.
pub struct PlannedView {
    pub abs: Seq<char>,
    pub relative: Seq<char>,
    pub kind: FileChangeKind,
}

/// A refusal by its plain values.
pub struct Refusal {
    pub code: ErrorCode,
    pub message: Seq<char>,
}

pub open spec fn planned_view(p: PlannedFile) -> PlannedView {
    PlannedView { abs: p.abs@, relative: p.relative@, kind: p.kind }
}

pub open spec fn planned_views(v: Seq<PlannedFile>) -> Seq<PlannedView> {
    v.map_values(|p: PlannedFile| planned_view(p))
}

pub open spec fn refusal_of(e: ErrorBody) -> Refusal {
    Refusal { code: e.code, message: e.message@ }
}

/// A patch path as reported: backslashes become slashes.
pub open spec fn rel_display(p: Seq<char>) -> Seq<char> {
    replace_char(p, '\\', '/')
}

/// The path-policy refusal for a resolved path, if any: a symlink on the
/// way to the root.
pub open spec fn symlink_refusal(f: PathFacts) -> Option<Refusal> {
    match f.symlink {
        Some(s) => Some(Refusal { code: ErrorCode::SymlinkRejected, message: s@ + " is a symlink"@ }),
        None => None,
    }
}

/// Resolves `path` under `root` and applies the symlink policy.
pub open spec fn checked_target(root: Seq<char>, path: Seq<char>, f: PathFacts) -> Result<
    Seq<char>,
    Refusal,
> {
    match resolve_spec(root, path) {
        Err(m) => Err(Refusal { code: ErrorCode::PathEscape, message: m }),
        Ok(dest) => match symlink_refusal(f) {
            Some(r) => Err(r),
            None => Ok(dest),
        },
    }
}

/// The files one hunk touches. Adding over an existing path and moving
/// onto one are refused. A move is planned as a delete of the source and
/// a move onto the destination.
pub open spec fn hunk_plan(root: Seq<char>, h: Hunk, f: HunkFacts) -> Result<Seq<PlannedView>, Refusal> {
    match h {
        Hunk::AddFile { path } => match checked_target(root, path@, f.path) {
            Err(r) => Err(r),
            Ok(dest) => if f.path.exists {
                Err(Refusal { code: ErrorCode::AddFileExists, message: path@ + " already exists"@ })
            } else {
                Ok(
                    seq![
                        PlannedView {
                            abs: dest,
                            relative: rel_display(path@),
                            kind: FileChangeKind::Add,
                        },
                    ],
                )
            },
        },
        Hunk::DeleteFile { path } => match checked_target(root, path@, f.path) {
            Err(r) => Err(r),
            Ok(dest) => Ok(
                seq![
                    PlannedView {
                        abs: dest,
                        relative: rel_display(path@),
                        kind: FileChangeKind::Delete,
                    },
                ],
            ),
        },
        Hunk::UpdateFile { path, move_path, chunks } => match checked_target(root, path@, f.path) {
            Err(r) => Err(r),
            Ok(dest) => match move_path {
                None => Ok(
                    seq![
                        PlannedView {
                            abs: dest,
                            relative: rel_display(path@),
                            kind: FileChangeKind::Update,
                        },
                    ],
                ),
                Some(moved) => match checked_target(root, moved@, f.move_to) {
                    Err(r) => Err(r),
                    Ok(dest2) => if f.move_to.exists {
                        Err(
                            Refusal {
                                code: ErrorCode::MoveDestinationExists,
                                message: moved@ + " already exists"@,
                            },
                        )
                    } else {
                        Ok(
                            seq![
                                PlannedView {
                                    abs: dest,
                                    relative: rel_display(path@),
                                    kind: FileChangeKind::Delete,
                                },
                                PlannedView {
                                    abs: dest2,
                                    relative: rel_display(moved@),
                                    kind: FileChangeKind::Move,
                                },
                            ],
                        )
                    },
                },
            },
        },
    }
}

/// The files a whole patch touches, in hunk order; the first refused hunk
/// refuses the patch.
pub open spec fn plan_spec(root: Seq<char>, hunks: Seq<Hunk>, facts: Seq<HunkFacts>) -> Result<
    Seq<PlannedView>,
    Refusal,
>
    decreases hunks.len(),
{
    if hunks.len() == 0 {
        Ok(Seq::empty())
    } else {
        match plan_spec(root, hunks.drop_last(), facts.drop_last()) {
            Err(r) => Err(r),
            Ok(prev) => match hunk_plan(root, hunks.last(), facts[hunks.len() - 1]) {
                Err(r) => Err(r),
                Ok(more) => Ok(prev + more),
            },
        }
    }
}

proof fn lemma_plan_err_sticky(root: Seq<char>, hunks: Seq<Hunk>, facts: Seq<HunkFacts>, i: int)
    requires
        facts.len() == hunks.len(),
        0 <= i <= hunks.len(),
        plan_spec(root, hunks.subrange(0, i), facts.subrange(0, i)) is Err,
    ensures
        plan_spec(root, hunks, facts) == plan_spec(root, hunks.subrange(0, i), facts.subrange(0, i)),
    decreases hunks.len() - i,
{
    if hunks.len() == i {
        assert(hunks.subrange(0, i) =~= hunks);
        assert(facts.subrange(0, i) =~= facts);
    } else {
        let h2 = hunks.drop_last();
        let f2 = facts.drop_last();
        assert(h2.subrange(0, i) =~= hunks.subrange(0, i));
        assert(f2.subrange(0, i) =~= facts.subrange(0, i));
        lemma_plan_err_sticky(root, h2, f2, i);
    }
}

/// `path` with backslashes turned into slashes.
pub fn display_path(path: &str) -> (r: String)
    ensures
        r@ == rel_display(path@),
{
    let cs = chars_of(path);
    let out = vec_replace_char(&cs, '\\', '/');
    string_of(&out)
}

fn planned(abs: String, path: &str, kind: FileChangeKind) -> (r: PlannedFile)
    ensures
        planned_view(r) == (PlannedView { abs: abs@, relative: rel_display(path@), kind }),
{
    PlannedFile { abs, relative: display_path(path), kind }
}

/// Resolves one path of a hunk under the workspace and applies the
/// symlink policy.
fn target(ws: &Workspace, path: &str, f: &PathFacts) -> (r: Result<String, ErrorBody>)
    ensures
        match r {
            Ok(d) => checked_target(ws.root@, path@, *f) == Ok::<Seq<char>, Refusal>(d@),
            Err(e) => checked_target(ws.root@, path@, *f) == Err::<Seq<char>, Refusal>(refusal_of(e))
                && e.operation_id is None,
        },
{
    let dest = resolve_path(ws, path)?;
    match &f.symlink {
        Some(s) => {
            let m = concat2(s.as_str(), " is a symlink");
            Err(ErrorBody::new(ErrorCode::SymlinkRejected, m.as_str()))
        },
        None => Ok(dest),
    }
}

/// The files one hunk touches (see [`hunk_plan`]).
pub fn plan_hunk(ws: &Workspace, h: &Hunk, f: &HunkFacts) -> (r: Result<Vec<PlannedFile>, ErrorBody>)
    ensures
        match r {
            Ok(v) => hunk_plan(ws.root@, *h, *f) == Ok::<Seq<PlannedView>, Refusal>(planned_views(v@)),
            Err(e) => hunk_plan(ws.root@, *h, *f) == Err::<Seq<PlannedView>, Refusal>(refusal_of(e))
                && e.operation_id is None,
        },
{
    let mut out: Vec<PlannedFile> = Vec::new();
    match h {
        Hunk::AddFile { path } => {
            let dest = target(ws, path.as_str(), &f.path)?;
            if f.path.exists {
                let m = concat2(path.as_str(), " already exists");
                return Err(ErrorBody::new(ErrorCode::AddFileExists, m.as_str()));
            }
            out.push(planned(dest, path.as_str(), FileChangeKind::Add));
        },
        Hunk::DeleteFile { path } => {
            let dest = target(ws, path.as_str(), &f.path)?;
            out.push(planned(dest, path.as_str(), FileChangeKind::Delete));
        },
        Hunk::UpdateFile { path, move_path, chunks: _ } => {
            let dest = target(ws, path.as_str(), &f.path)?;
            match move_path {
                None => {
                    out.push(planned(dest, path.as_str(), FileChangeKind::Update));
                },
                Some(moved) => {
                    let dest2 = target(ws, moved.as_str(), &f.move_to)?;
                    if f.move_to.exists {
                        let m = concat2(moved.as_str(), " already exists");
                        return Err(ErrorBody::new(ErrorCode::MoveDestinationExists, m.as_str()));
                    }
                    out.push(planned(dest, path.as_str(), FileChangeKind::Delete));
                    out.push(planned(dest2, moved.as_str(), FileChangeKind::Move));
                },
            }
        },
    }
    proof {
        assert(hunk_plan(ws.root@, *h, *f) == Ok::<Seq<PlannedView>, Refusal>(planned_views(out@))) by {
            match hunk_plan(ws.root@, *h, *f) {
                Ok(s) => {
                    assert(planned_views(out@) =~= s);
                },
                Err(_) => {},
            }
        }
    }
    Ok(out)
}

/// The files a patch touches, in hunk order, under the workspace path
/// policy (see [`plan_spec`]).
pub fn plan_files(ws: &Workspace, hunks: &Vec<Hunk>, facts: &Vec<HunkFacts>) -> (r: Result<
    Vec<PlannedFile>,
    ErrorBody,
>)
    requires
        facts@.len() == hunks@.len(),
    ensures
        match r {
            Ok(v) => plan_spec(ws.root@, hunks@, facts@) == Ok::<Seq<PlannedView>, Refusal>(
                planned_views(v@),
            ),
            Err(e) => plan_spec(ws.root@, hunks@, facts@) == Err::<Seq<PlannedView>, Refusal>(
                refusal_of(e),
            ) && e.operation_id is None,
        },
{
    let mut files: Vec<PlannedFile> = Vec::new();
    let mut i: usize = 0;
    proof {
        assert(planned_views(files@) =~= Seq::<PlannedView>::empty());
        assert(hunks@.subrange(0, 0) =~= Seq::<Hunk>::empty());
    }
    while i < hunks.len()
        invariant
            facts@.len() == hunks@.len(),
            i <= hunks@.len(),
            plan_spec(ws.root@, hunks@.subrange(0, i as int), facts@.subrange(0, i as int)) == Ok::<
                Seq<PlannedView>,
                Refusal,
            >(planned_views(files@)),
        decreases hunks@.len() - i,
    {
        let ghost hs = hunks@.subrange(0, i + 1);
        let ghost fs = facts@.subrange(0, i + 1);
        proof {
            assert(hs.drop_last() =~= hunks@.subrange(0, i as int));
            assert(fs.drop_last() =~= facts@.subrange(0, i as int));
            assert(hs.last() == hunks@[i as int]);
            assert(fs[hs.len() - 1] == facts@[i as int]);
        }
        match plan_hunk(ws, &hunks[i], &facts[i]) {
            Err(e) => {
                proof {
                    lemma_plan_err_sticky(ws.root@, hunks@, facts@, i + 1);
                }
                return Err(e);
            },
            Ok(more) => {
                let mut more = more;
                let ghost before = files@;
                let ghost added = more@;
                files.append(&mut more);
                proof {
                    assert(files@ == before + added);
                    assert(planned_views(files@) =~= planned_views(before) + planned_views(added));
                }
            },
        }
        i = i + 1;
    }
    proof {
        assert(hunks@.subrange(0, hunks@.len() as int) =~= hunks@);
        assert(facts@.subrange(0, facts@.len() as int) =~= facts@);
    }
    Ok(files)
}

/// Where a planned file lives.
pub open spec fn plan_abs(p: Seq<PlannedView>) -> Seq<Seq<char>> {
    p.map_values(|x: PlannedView| x.abs)
}

/// The absolute paths a patch touches, under the workspace path policy.
pub fn parse_and_policy(ws: &Workspace, hunks: &Vec<Hunk>, facts: &Vec<HunkFacts>) -> (r: Result<
    Vec<String>,
    ErrorBody,
>)
    requires
        facts@.len() == hunks@.len(),
    ensures
        match plan_spec(ws.root@, hunks@, facts@) {
            Ok(p) => r matches Ok(v) && string_views(v@) == plan_abs(p),
            Err(x) => r matches Err(e) && refusal_of(e) == x && e.operation_id is None,
        },
{
    let planned = plan_files(ws, hunks, facts)?;
    let mut out: Vec<String> = Vec::new();
    let mut i: usize = 0;
    while i < planned.len()
        invariant
            i <= planned@.len(),
            string_views(out@) == plan_abs(planned_views(planned@)).subrange(0, i as int),
        decreases planned@.len() - i,
    {
        let ghost before = out@;
        out.push(planned[i].abs.clone());
        proof {
            assert(string_views(out@) =~= string_views(before).push(planned@[i as int].abs@));
            assert(plan_abs(planned_views(planned@)).subrange(0, i + 1) =~= plan_abs(
                planned_views(planned@),
            ).subrange(0, i as int).push(planned@[i as int].abs@));
        }
        i = i + 1;
    }
    proof {
        assert(plan_abs(planned_views(planned@)).subrange(0, planned@.len() as int) =~= plan_abs(
            planned_views(planned@),
        ));
    }
    Ok(out)
}

/// An update chunk still applies when its expected lines occur in the
/// file, joined by LF or by CRLF. A chunk that expects nothing always
/// applies.
pub open spec fn chunk_matches(body: Seq<char>, lines: Seq<Seq<char>>) -> bool {
    lines.len() == 0 || contains_run(body, join_with(lines, "\n"@)) || contains_run(
        body,
        join_with(lines, "\r\n"@),
    )
}

/// Every chunk of an update hunk still applies to `body`; other hunks
/// have nothing to check.
pub open spec fn hunk_context_ok(h: Hunk, body: Seq<char>) -> bool {
    match h {
        Hunk::UpdateFile { chunks, .. } => forall|k: int|
            0 <= k < chunks@.len() ==> chunk_matches(body, string_views(#[trigger] chunks@[k].old_lines@)),
        _ => true,
    }
}

/// The path a hunk names first.
pub open spec fn hunk_path(h: Hunk) -> Seq<char> {
    match h {
        Hunk::AddFile { path } => path@,
        Hunk::DeleteFile { path } => path@,
        Hunk::UpdateFile { path, .. } => path@,
    }
}

/// The first hunk whose context no longer matches its file, as a refusal.
pub open spec fn context_refusal(hunks: Seq<Hunk>, bodies: Seq<Seq<char>>) -> Option<Refusal>
    decreases hunks.len(),
{
    if hunks.len() == 0 {
        None
    } else {
        match context_refusal(hunks.drop_last(), bodies.drop_last()) {
            Some(r) => Some(r),
            None => if !hunk_context_ok(hunks.last(), bodies[hunks.len() - 1]) {
                Some(
                    Refusal {
                        code: ErrorCode::InvalidPatch,
                        message: "context mismatch in "@ + hunk_path(hunks.last()),
                    },
                )
            } else {
                None
            },
        }
    }
}

/// Whether every chunk of `h` still applies to `body`.
pub fn context_ok(h: &Hunk, body: &str) -> (r: bool)
    ensures
        r == hunk_context_ok(*h, body@),
{
    match h {
        Hunk::UpdateFile { chunks, .. } => {
            let b = chars_of(body);
            let mut k: usize = 0;
            while k < chunks.len()
                invariant
                    k <= chunks@.len(),
                    b@ == body@,
                    *h matches Hunk::UpdateFile { chunks: cs, .. } && cs == *chunks,
                    forall|j: int|
                        0 <= j < k ==> chunk_matches(body@, string_views(#[trigger] chunks@[j].old_lines@)),
                decreases chunks@.len() - k,
            {
                let lines = &chunks[k].old_lines;
                if lines.len() > 0 {
                    let lf = join_strings(lines, "\n");
                    let crlf = join_strings(lines, "\r\n");
                    if !vec_contains_run(&b, &lf) && !vec_contains_run(&b, &crlf) {
                        proof {
                            assert(!chunk_matches(body@, string_views(chunks@[k as int].old_lines@)));
                        }
                        return false;
                    }
                }
                k = k + 1;
            }
            true
        },
        _ => true,
    }
}

/// Parses the patch's policy, then checks every update hunk against the
/// current contents of its file (`bodies`, one per hunk; empty when the
/// file cannot be read). Nothing is written: a mismatch in a later file
/// leaves earlier files untouched.
pub fn preflight(ws: &Workspace, hunks: &Vec<Hunk>, facts: &Vec<HunkFacts>, bodies: &Vec<String>) -> (r:
    Result<Vec<String>, ErrorBody>)
    requires
        facts@.len() == hunks@.len(),
        bodies@.len() == hunks@.len(),
    ensures
        match plan_spec(ws.root@, hunks@, facts@) {
            Err(x) => r matches Err(e) && refusal_of(e) == x && e.operation_id is None,
            Ok(p) => match context_refusal(hunks@, string_views(bodies@)) {
                Some(x) => r matches Err(e) && refusal_of(e) == x && e.operation_id is None,
                None => r matches Ok(v) && string_views(v@) == plan_abs(p),
            },
        },
{
    let files = parse_and_policy(ws, hunks, facts)?;
    let mut i: usize = 0;
    proof {
        assert(hunks@.subrange(0, 0) =~= Seq::<Hunk>::empty());
    }
    while i < hunks.len()
        invariant
            i <= hunks@.len(),
            bodies@.len() == hunks@.len(),
            facts@.len() == hunks@.len(),
            match plan_spec(ws.root@, hunks@, facts@) {
                Ok(p) => string_views(files@) == plan_abs(p),
                Err(_) => false,
            },
            context_refusal(hunks@.subrange(0, i as int), string_views(bodies@).subrange(0, i as int))
                is None,
        decreases hunks@.len() - i,
    {
        let ghost hs = hunks@.subrange(0, i + 1);
        let ghost bs = string_views(bodies@).subrange(0, i + 1);
        proof {
            assert(hs.drop_last() =~= hunks@.subrange(0, i as int));
            assert(bs.drop_last() =~= string_views(bodies@).subrange(0, i as int));
            assert(bs[hs.len() - 1] == bodies@[i as int]@);
        }
        if !context_ok(&hunks[i], bodies[i].as_str()) {
            let path = match &hunks[i] {
                Hunk::AddFile { path } => path,
                Hunk::DeleteFile { path } => path,
                Hunk::UpdateFile { path, .. } => path,
            };
            let m = concat2("context mismatch in ", path.as_str());
            proof {
                lemma_context_sticky(hunks@, string_views(bodies@), i + 1);
            }
            return Err(ErrorBody::new(ErrorCode::InvalidPatch, m.as_str()));
        }
        i = i + 1;
    }
    proof {
        assert(hunks@.subrange(0, hunks@.len() as int) =~= hunks@);
        assert(string_views(bodies@).subrange(0, hunks@.len() as int) =~= string_views(bodies@));
    }
    Ok(files)
}

proof fn lemma_context_sticky(hunks: Seq<Hunk>, bodies: Seq<Seq<char>>, i: int)
    requires
        bodies.len() == hunks.len(),
        0 <= i <= hunks.len(),
        context_refusal(hunks.subrange(0, i), bodies.subrange(0, i)) is Some,
    ensures
        context_refusal(hunks, bodies) == context_refusal(hunks.subrange(0, i), bodies.subrange(0, i)),
    decreases hunks.len() - i,
{
    if hunks.len() == i {
        assert(hunks.subrange(0, i) =~= hunks);
        assert(bodies.subrange(0, i) =~= bodies);
    } else {
        let h2 = hunks.drop_last();
        let b2 = bodies.drop_last();
        assert(h2.subrange(0, i) =~= hunks.subrange(0, i));
        assert(b2.subrange(0, i) =~= bodies.subrange(0, i));
        lemma_context_sticky(h2, b2, i);
    }
}

/// The paths of `files` relative to `root`, skipping any not under it.
pub open spec fn relative_files_spec(root: Seq<char>, files: Seq<Seq<char>>) -> Seq<Seq<char>>
    decreases files.len(),
{
    if files.len() == 0 {
        Seq::empty()
    } else {
        let prev = relative_files_spec(root, files.drop_last());
        match strip_prefix_spec(root, files.last()) {
            Some(rest) => prev.push(join_components(rest)),
            None => prev,
        }
    }
}

/// The paths of `files` relative to `root` (see [`relative_files_spec`]).
pub fn relative_files(root: &str, files: &Vec<String>) -> (r: Vec<String>)
    ensures
        string_views(r@) == relative_files_spec(root@, string_views(files@)),
{
    let mut out: Vec<String> = Vec::new();
    let mut i: usize = 0;
    while i < files.len()
        invariant
            i <= files@.len(),
            string_views(out@) == relative_files_spec(root@, string_views(files@).subrange(0, i as int)),
        decreases files@.len() - i,
    {
        let ghost sub = string_views(files@).subrange(0, i + 1);
        proof {
            assert(sub.drop_last() =~= string_views(files@).subrange(0, i as int));
            assert(sub.last() == files@[i as int]@);
        }
        let ghost before = out@;
        match crate::pathname::strip_prefix(root, files[i].as_str()) {
            Some(rel) => {
                out.push(rel);
                proof {
                    assert(string_views(out@) =~= string_views(before).push(out@[before.len() as int]@));
                }
            },
            None => {},
        }
        i = i + 1;
    }
    proof {
        assert(string_views(files@).subrange(0, files@.len() as int) =~= string_views(files@));
    }
    out
}

/// The change reported for a planned file. `after` is its content once
/// the patch applied; a deleted file, or a check that wrote nothing, has
/// no version after.
pub fn planned_change(p: &PlannedFile, after: Option<&[u8]>) -> (r: FileChange)
    ensures
        r.path@ == p.relative@,
        r.before_version is None,
        r.kind == p.kind,
        match after {
            Some(bytes) => if p.kind == FileChangeKind::Delete {
                r.after_version is None
            } else {
                r.after_version matches Some(v) && v@ == content_version(bytes@)
            },
            None => r.after_version is None,
        },
{
    let after_version = match after {
        Some(bytes) => if p.kind == FileChangeKind::Delete {
            None
        } else {
            Some(version_of(bytes))
        },
        None => None,
    };
    FileChange { path: p.relative.clone(), before_version: None, after_version, kind: p.kind }
}

/// `path` is the root followed by entry names only.
pub open spec fn lies_under(root: Seq<char>, path: Seq<char>) -> bool {
    starts_with(path, root) && exists|v: Seq<Seq<char>>|
        #![trigger join_under(root, v)]
        path == join_under(root, v) && all_normal(v)
}

proof fn lemma_checked_target_under(root: Seq<char>, path: Seq<char>, f: PathFacts)
    requires
        checked_target(root, path, f) is Ok,
    ensures
        lies_under(root, checked_target(root, path, f)->Ok_0),
{
    lemma_resolved_path_stays_under_root(root, path);
}

/// Every file a patch may touch lies under the workspace root: the patch
/// grammar cannot name a path outside it.
pub proof fn lemma_planned_files_stay_under_root(root: Seq<char>, hunks: Seq<Hunk>, facts: Seq<HunkFacts>)
    requires
        facts.len() == hunks.len(),
        plan_spec(root, hunks, facts) is Ok,
    ensures
        forall|i: int|
            0 <= i < plan_spec(root, hunks, facts)->Ok_0.len() ==> lies_under(
                root,
                (#[trigger] plan_spec(root, hunks, facts)->Ok_0[i]).abs,
            ),
    decreases hunks.len(),
{
    if hunks.len() > 0 {
        let h2 = hunks.drop_last();
        let f2 = facts.drop_last();
        lemma_planned_files_stay_under_root(root, h2, f2);
        let prev = plan_spec(root, h2, f2)->Ok_0;
        let h = hunks.last();
        let f = facts[hunks.len() - 1];
        let more = hunk_plan(root, h, f)->Ok_0;
        match h {
            Hunk::AddFile { path } => {
                lemma_checked_target_under(root, path@, f.path);
            },
            Hunk::DeleteFile { path } => {
                lemma_checked_target_under(root, path@, f.path);
            },
            Hunk::UpdateFile { path, move_path, .. } => {
                lemma_checked_target_under(root, path@, f.path);
                match move_path {
                    Some(m) => {
                        lemma_checked_target_under(root, m@, f.move_to);
                    },
                    None => {},
                }
            },
        }
        let all = plan_spec(root, hunks, facts)->Ok_0;
        assert(all == prev + more);
        assert forall|i: int| 0 <= i < all.len() implies lies_under(root, (#[trigger] all[i]).abs) by {
            if i < prev.len() {
                assert(all[i] == prev[i]);
            } else {
                assert(all[i] == more[i - prev.len()]);
            }
        }
    }
}


/// What an allowed hunk plans, by kind: an added file is one `Add`, a
/// deleted file one `Delete`, an update in place one `Update`, each at the
/// hunk path's resolved location; a move is a `Delete` of the source
/// followed by a `Move` onto the resolved destination. Adding over an
/// existing file, or moving onto one, is never planned.
pub proof fn lemma_hunk_plan_kinds(root: Seq<char>, h: Hunk, f: HunkFacts)
    ensures
        hunk_plan(root, h, f) matches Ok(p) ==> match h {
            Hunk::AddFile { path } => p.len() == 1 && p[0].kind == FileChangeKind::Add
                && resolve_spec(root, path@) == Ok::<Seq<char>, Seq<char>>(p[0].abs)
                && p[0].relative == rel_display(path@) && !f.path.exists,
            Hunk::DeleteFile { path } => p.len() == 1 && p[0].kind == FileChangeKind::Delete
                && resolve_spec(root, path@) == Ok::<Seq<char>, Seq<char>>(p[0].abs)
                && p[0].relative == rel_display(path@),
            Hunk::UpdateFile { path, move_path, chunks } => match move_path {
                None => p.len() == 1 && p[0].kind == FileChangeKind::Update && resolve_spec(
                    root,
                    path@,
                ) == Ok::<Seq<char>, Seq<char>>(p[0].abs) && p[0].relative == rel_display(path@),
                Some(m) => p.len() == 2 && p[0].kind == FileChangeKind::Delete && resolve_spec(
                    root,
                    path@,
                ) == Ok::<Seq<char>, Seq<char>>(p[0].abs) && p[0].relative == rel_display(path@)
                    && p[1].kind == FileChangeKind::Move && resolve_spec(root, m@) == Ok::<
                    Seq<char>,
                    Seq<char>,
                >(p[1].abs) && p[1].relative == rel_display(m@) && !f.move_to.exists,
            },
        },
{
}

} // verus!
