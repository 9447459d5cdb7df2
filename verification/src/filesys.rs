//! What no-follow filesystem calls report: file kinds, walk results and
//! the error kinds the runner distinguishes.

use vstd::prelude::*;

use crate::pathname::{components, components_of, is_absolute};
use crate::policy::path::stack_view;
use crate::text::{chars_of, contains_run, string_of, string_views, vec_contains_run};

verus! {

/// Deepest directory level a workspace walk descends to.
pub const MAX_WALK_DEPTH: usize = 64;

/// Most directories a workspace walk visits.
pub const MAX_WALK_DIRECTORIES: usize = 10000;

/// Most entries a workspace walk reports.
pub const MAX_WALK_ENTRIES: usize = 50000;

/// File kind without following symlinks.
#[derive(Debug, Clone, Copy, PartialEq, Eq, Structural)]
pub struct FileMeta {
    pub is_file: bool,
    pub is_dir: bool,
    pub is_symlink: bool,
}

/// Regular files found by a bounded walk, and whether a bound cut it short.
#[derive(Debug, Clone, PartialEq, Eq)]
pub struct WalkResult {
    pub files: Vec<String>,
    pub truncated: bool,
}

/// How much of its bounds a workspace walk has used. A bound that is hit
/// marks the walk truncated; what was found so far is kept.
#[derive(Debug, Clone, Copy, PartialEq, Eq, Structural)]
pub struct WalkBudget {
    pub max_depth: usize,
    pub max_directories: usize,
    pub max_entries: usize,
    pub directories: usize,
    pub entries: usize,
    pub truncated: bool,
}

impl WalkBudget {
    /// A fresh budget with these bounds.
    pub fn new(max_depth: usize, max_directories: usize, max_entries: usize) -> (r: Self)
        ensures
            r == (WalkBudget {
                max_depth,
                max_directories,
                max_entries,
                directories: 0,
                entries: 0,
                truncated: false,
            }),
    {
        WalkBudget { max_depth, max_directories, max_entries, directories: 0, entries: 0, truncated: false }
    }

    /// Counts a directory about to be read. Past the directory bound the
    /// walk stops there, truncated.
    pub fn enter_directory(&mut self) -> (r: bool)
        ensures
            r == (old(self).directories < old(self).max_directories),
            *final(self) == (WalkBudget {
                directories: if r {
                    (old(self).directories + 1) as usize
                } else {
                    old(self).directories
                },
                truncated: old(self).truncated || !r,
                ..*old(self)
            }),
    {
        if self.directories < self.max_directories {
            self.directories = self.directories + 1;
            true
        } else {
            self.truncated = true;
            false
        }
    }

    /// Counts one directory entry. Past the entry bound the walk stops
    /// there, truncated.
    pub fn see_entry(&mut self) -> (r: bool)
        ensures
            r == (old(self).entries < old(self).max_entries),
            *final(self) == (WalkBudget {
                entries: if r {
                    (old(self).entries + 1) as usize
                } else {
                    old(self).entries
                },
                truncated: old(self).truncated || !r,
                ..*old(self)
            }),
    {
        if self.entries < self.max_entries {
            self.entries = self.entries + 1;
            true
        } else {
            self.truncated = true;
            false
        }
    }

    /// Whether a subdirectory at `depth` is walked; one deeper than the
    /// bound is skipped and marks the walk truncated.
    pub fn may_descend(&mut self, depth: usize) -> (r: bool)
        ensures
            r == (depth <= old(self).max_depth),
            *final(self) == (WalkBudget { truncated: old(self).truncated || !r, ..*old(self) }),
    {
        if depth <= self.max_depth {
            true
        } else {
            self.truncated = true;
            false
        }
    }
}

/// Why a filesystem call failed.
#[derive(Debug, Clone, PartialEq, Eq)]
pub enum FsError {
    NotFound,
    SymlinkRejected,
    NotRegularFile,
    NotDirectory,
    Io(String),
}

impl FsError {
    /// The human text of each error.
    pub open spec fn message_spec(&self) -> Seq<char> {
        match self {
            FsError::NotFound => "file not found"@,
            FsError::SymlinkRejected => "symlink files are rejected"@,
            FsError::NotRegularFile => "not a regular file"@,
            FsError::NotDirectory => "not a directory"@,
            FsError::Io(m) => m@,
        }
    }

    pub fn message(&self) -> (r: String)
        ensures
            r@ == self.message_spec(),
    {
        match self {
            FsError::NotFound => String::from_str("file not found"),
            FsError::SymlinkRejected => String::from_str("symlink files are rejected"),
            FsError::NotRegularFile => String::from_str("not a regular file"),
            FsError::NotDirectory => String::from_str("not a directory"),
            FsError::Io(m) => m.clone(),
        }
    }
}

/// The OS error kinds the classification looks at.
#[derive(Debug, Clone, Copy, PartialEq, Eq, Structural)]
pub enum IoErrorKind {
    NotFound,
    NotADirectory,
    Other,
}

/// ASCII letters in lower case, other characters unchanged.
pub open spec fn ascii_lower(s: Seq<char>) -> Seq<char> {
    s.map_values(|c: char| if 'A' <= c && c <= 'Z' { ((c as u32) + 32) as char } else { c })
}

/// How an OS error is classified: by kind first, then by its lower-cased
/// message. "Not a directory" is never taken for a symlink: `foo/bar`
/// where `foo` is a regular file reports it too.
pub open spec fn classify_io_spec(kind: IoErrorKind, message: Seq<char>) -> FsErrorKind {
    let lower = ascii_lower(message);
    if kind == IoErrorKind::NotFound {
        FsErrorKind::NotFound
    } else if contains_run(lower, "not a regular file"@) {
        FsErrorKind::NotRegularFile
    } else if kind == IoErrorKind::NotADirectory || contains_run(lower, "not a directory"@) {
        FsErrorKind::NotDirectory
    } else if contains_run(lower, "path contains a symbolic link"@) || contains_run(
        lower,
        "symbolic link"@,
    ) || contains_run(lower, "symlink"@) || contains_run(lower, "too many levels"@) {
        FsErrorKind::SymlinkRejected
    } else {
        FsErrorKind::Io
    }
}

/// The variant of an [`FsError`].
#[derive(Debug, Clone, Copy, PartialEq, Eq, Structural)]
pub enum FsErrorKind {
    NotFound,
    SymlinkRejected,
    NotRegularFile,
    NotDirectory,
    Io,
}

pub open spec fn kind_of(e: FsError) -> FsErrorKind {
    match e {
        FsError::NotFound => FsErrorKind::NotFound,
        FsError::SymlinkRejected => FsErrorKind::SymlinkRejected,
        FsError::NotRegularFile => FsErrorKind::NotRegularFile,
        FsError::NotDirectory => FsErrorKind::NotDirectory,
        FsError::Io(_) => FsErrorKind::Io,
    }
}

fn lower_char(c: char) -> (r: char)
    ensures
        r == (if 'A' <= c && c <= 'Z' { ((c as u32) + 32) as char } else { c }),
{
    if 'A' <= c && c <= 'Z' {
        let b: u8 = c as u8;
        let l: u8 = b + 32;
        assert(l as char == ((c as u32) + 32) as char);
        l as char
    } else {
        c
    }
}

fn lower_chars(s: &str) -> (r: Vec<char>)
    ensures
        r@ == ascii_lower(s@),
{
    let cs = chars_of(s);
    let mut out: Vec<char> = Vec::new();
    let mut i: usize = 0;
    while i < cs.len()
        invariant
            i <= cs@.len(),
            cs@ == s@,
            out@ == ascii_lower(s@).subrange(0, i as int),
        decreases cs@.len() - i,
    {
        out.push(lower_char(cs[i]));
        i = i + 1;
        proof {
            assert(out@ =~= ascii_lower(s@).subrange(0, i as int));
        }
    }
    out
}

/// Classifies an OS error (see [`classify_io_spec`]); an unrecognised
/// error keeps its message.
pub fn classify_io_error(kind: IoErrorKind, message: &str) -> (r: FsError)
    ensures
        kind_of(r) == classify_io_spec(kind, message@),
        r matches FsError::Io(m) ==> m@ == message@,
{
    if kind == IoErrorKind::NotFound {
        return FsError::NotFound;
    }
    let lower = lower_chars(message);
    let p1 = chars_of("not a regular file");
    if vec_contains_run(&lower, &p1) {
        return FsError::NotRegularFile;
    }
    let p2 = chars_of("not a directory");
    if kind == IoErrorKind::NotADirectory || vec_contains_run(&lower, &p2) {
        return FsError::NotDirectory;
    }
    let p3 = chars_of("path contains a symbolic link");
    let p4 = chars_of("symbolic link");
    let p5 = chars_of("symlink");
    let p6 = chars_of("too many levels");
    if vec_contains_run(&lower, &p3) || vec_contains_run(&lower, &p4) || vec_contains_run(&lower, &p5)
        || vec_contains_run(&lower, &p6) {
        return FsError::SymlinkRejected;
    }
    FsError::Io(String::from_str(message))
}

/// How a no-follow call reaches an absolute path: the directories opened
/// one by one from `/`, then the entry itself. A relative path, or one
/// that climbs with `..`, is refused; so is the root, which names no
/// entry.
pub open spec fn nofollow_steps_spec(path: Seq<char>) -> Result<(Seq<Seq<char>>, Seq<char>), Seq<char>> {
    let comps = components(path);
    if !is_absolute(path) {
        Err("no-follow filesystem operations require an absolute path"@)
    } else if comps.contains(".."@) {
        Err("no-follow filesystem operations require a normalized path"@)
    } else if comps.len() == 0 {
        Err("path must name an entry"@)
    } else {
        Ok((comps.drop_last(), comps.last()))
    }
}

/// The directories and the entry a no-follow call walks to (see
/// [`nofollow_steps_spec`]); a refusal is an I/O error with its message.
pub fn nofollow_steps(path: &str) -> (r: Result<(Vec<String>, String), FsError>)
    ensures
        match nofollow_steps_spec(path@) {
            Ok((dirs, leaf)) => r matches Ok((d, l)) && string_views(d@) == dirs && l@ == leaf,
            Err(m) => r matches Err(FsError::Io(e)) && e@ == m,
        },
{
    if !(path.unicode_len() > 0 && path.get_char(0) == '/') {
        return Err(FsError::Io(String::from_str("no-follow filesystem operations require an absolute path")));
    }
    let comps = components_of(path);
    let mut out: Vec<String> = Vec::new();
    let mut i: usize = 0;
    while i < comps.len()
        invariant
            i <= comps@.len(),
            stack_view(comps@) == components(path@),
            is_absolute(path@),
            string_views(out@) == stack_view(comps@).subrange(0, i as int),
            forall|k: int| 0 <= k < i ==> stack_view(comps@)[k] != ".."@,
        decreases comps@.len() - i,
    {
        let c = &comps[i];
        proof {
            assert(stack_view(comps@)[i as int] == c@);
            reveal_strlit("..");
        }
        if c.len() == 2 && c[0] == '.' && c[1] == '.' {
            proof {
                assert(c@ =~= ".."@);
                assert(components(path@).contains(".."@));
            }
            return Err(FsError::Io(String::from_str("no-follow filesystem operations require a normalized path")));
        }
        let ghost before = out@;
        out.push(string_of(c));
        proof {
            assert(string_views(out@) =~= string_views(before).push(c@));
            assert(stack_view(comps@).subrange(0, i + 1) =~= stack_view(comps@).subrange(0, i as int).push(c@));
        }
        i = i + 1;
    }
    proof {
        assert(stack_view(comps@).subrange(0, comps@.len() as int) =~= stack_view(comps@));
        if components(path@).contains(".."@) {
            let k = choose|k: int| 0 <= k < components(path@).len() && components(path@)[k] == ".."@;
            assert(stack_view(comps@)[k] == ".."@);
        }
    }
    match out.pop() {
        None => Err(FsError::Io(String::from_str("path must name an entry"))),
        Some(leaf) => {
            proof {
                assert(string_views(out@) =~= components(path@).drop_last());
            }
            Ok((out, leaf))
        },
    }
}

} // verus!
