//! Reading and listing workspace files: window limits, byte and path
//! windows, glob matching, listing versions and the errors file calls map to.

use vstd::prelude::*;

use crate::decimal::{decimal, u64_decimal};
use crate::digest::{content_version, version_of};
use crate::domain::error::{ErrorBody, ErrorCode};
use crate::domain::files::{FindResult, ReadResult};
use crate::filesys::{FileMeta, FsError, WalkResult};
use crate::order::{sort_strings, sorted_lex};
use crate::pathname::strip_prefix_spec;
use crate::policy::path::join_components;
use crate::runner::output::{decode_lossy, is_valid_utf8, lossy_decode};
use crate::text::{
    chars_of, concat2, concat3, contains_run, ends_with, has_char, remove_char, replace_char,
    starts_with, str_eq, string_of, string_views, vec_contains_run, vec_ends_with, vec_has_char,
    vec_remove_char, vec_replace_char, vec_starts_with,
};

verus! {

/// Version reported for a path with nothing behind it.
pub const VERSION_ABSENT: &'static str = "absent";

/// The refusal text for a window limit out of range.
pub open spec fn limit_message(what: Seq<char>, max: u32) -> Seq<char> {
    what + " limit must be between 1 and "@ + decimal(max as nat)
}

/// A requested window size: omitted means `max`; zero or more than `max`
/// is refused with `OutputLimit`.
pub fn resolve_limit(requested: Option<u32>, max: u32, what: &str) -> (r: Result<usize, ErrorBody>)
    ensures
        ({
            let limit = match requested {
                Some(l) => l,
                None => max,
            };
            if limit == 0 || limit > max {
                r matches Err(e) && e.code == ErrorCode::OutputLimit && e.message@ == limit_message(
                    what@,
                    max,
                ) && e.operation_id is None
            } else {
                r == Ok::<usize, ErrorBody>(limit as usize)
            }
        }),
{
    let limit = match requested {
        Some(l) => l,
        None => max,
    };
    if limit == 0 || limit > max {
        let n = u64_decimal(max as u64);
        let m = concat3(what, " limit must be between 1 and ", n.as_str());
        return Err(ErrorBody::new(ErrorCode::OutputLimit, m.as_str()));
    }
    Ok(limit as usize)
}

/// Where a window of at most `limit` items from `offset` ends in a list of
/// `len` items.
pub open spec fn window_end(len: nat, offset: u64, limit: nat) -> nat {
    if offset + limit < len {
        (offset + limit) as nat
    } else {
        len
    }
}

/// At most `limit` bytes from `offset`, and whether bytes remain after
/// them. A window at or past the end is empty and not truncated.
pub fn byte_window(bytes: &[u8], offset: u64, limit: usize) -> (r: (Vec<u8>, bool))
    ensures
        offset >= bytes@.len() ==> r.0@ == Seq::<u8>::empty() && !r.1,
        offset < bytes@.len() ==> r.0@ == bytes@.subrange(
            offset as int,
            window_end(bytes@.len(), offset, limit as nat) as int,
        ) && r.1 == (window_end(bytes@.len(), offset, limit as nat) < bytes@.len()),
{
    let len = bytes.len();
    if offset >= len as u64 {
        return (Vec::new(), false);
    }
    let start = offset as usize;
    let end = if limit < len - start {
        start + limit
    } else {
        len
    };
    let mut out: Vec<u8> = Vec::new();
    let mut i = start;
    while i < end
        invariant
            start <= i <= end <= bytes@.len(),
            out@ == bytes@.subrange(start as int, i as int),
        decreases end - i,
    {
        out.push(bytes[i]);
        i = i + 1;
        proof {
            assert(out@ =~= bytes@.subrange(start as int, i as int));
        }
    }
    (out, end < len)
}

/// One window of a sorted path listing.
#[derive(Debug, Clone, PartialEq, Eq)]
pub struct PathPage {
    pub paths: Vec<String>,
    pub truncated: bool,
    pub incomplete: bool,
    pub next_offset: Option<u64>,
}

/// `page`, `truncated` and `next` describe the window of at most `limit`
/// items of `all` from `offset`.
pub open spec fn window_matches(
    all: Seq<Seq<char>>,
    offset: u64,
    limit: nat,
    page: Seq<Seq<char>>,
    truncated: bool,
    next: Option<u64>,
) -> bool {
    if offset >= all.len() {
        page.len() == 0 && !truncated && next is None
    } else {
        let end = window_end(all.len(), offset, limit);
        &&& page == all.subrange(offset as int, end as int)
        &&& truncated == (all.len() - offset > limit)
        &&& next == if truncated {
            Some(end as u64)
        } else {
            None::<u64>
        }
    }
}

/// At most `limit` paths from `offset`. `incomplete` passes on whether
/// the walk was cut short; `truncated` says whether paths remain after
/// this window, and only then is there a next offset, so a caller
/// following `next_offset` always makes progress.
pub fn path_window(paths: &Vec<String>, offset: u64, limit: usize, walk_truncated: bool) -> (r:
    PathPage)
    ensures
        r.incomplete == walk_truncated,
        window_matches(
            string_views(paths@),
            offset,
            limit as nat,
            string_views(r.paths@),
            r.truncated,
            r.next_offset,
        ),
{
    let len = paths.len();
    if offset >= len as u64 {
        return PathPage { paths: Vec::new(), truncated: false, incomplete: walk_truncated, next_offset: None };
    }
    let start = offset as usize;
    let remaining = len - start;
    let truncated = remaining > limit;
    let end = if limit < remaining {
        start + limit
    } else {
        len
    };
    let mut page: Vec<String> = Vec::new();
    let mut i = start;
    while i < end
        invariant
            start <= i <= end <= paths@.len(),
            string_views(page@) == string_views(paths@).subrange(start as int, i as int),
        decreases end - i,
    {
        let ghost before = page@;
        page.push(paths[i].clone());
        i = i + 1;
        proof {
            assert(string_views(page@) =~= string_views(paths@).subrange(start as int, i as int)) by {
                assert(string_views(page@) =~= string_views(before).push(paths@[i - 1]@));
            }
        }
    }
    let next_offset = if truncated {
        Some(offset + (end - start) as u64)
    } else {
        None
    };
    PathPage { paths: page, truncated, incomplete: walk_truncated, next_offset }
}

/// Whether a workspace-relative path matches a `find` glob: `*`, `**` and
/// `**/*` match everything; `*.ext` matches that suffix; a pattern without
/// `*` matches the path or its last components; otherwise the pattern
/// with its `*`s removed must occur in the path.
pub open spec fn glob_match_spec(pat: Seq<char>, path: Seq<char>) -> bool {
    if pat == "*"@ || pat == "**"@ || pat == "**/*"@ {
        true
    } else if starts_with(pat, "*."@) {
        ends_with(path, "."@ + pat.subrange(2, pat.len() as int))
    } else if !has_char(pat, '*') {
        path == pat || ends_with(path, "/"@ + pat)
    } else {
        let needle = remove_char(pat, '*');
        needle.len() == 0 || contains_run(path, needle)
    }
}

/// Whether `path` matches the glob `pat` (see [`glob_match_spec`]).
pub fn glob_match(pat: &str, path: &str) -> (r: bool)
    ensures
        r == glob_match_spec(pat@, path@),
{
    if str_eq(pat, "*") || str_eq(pat, "**") || str_eq(pat, "**/*") {
        return true;
    }
    let p = chars_of(pat);
    let s = chars_of(path);
    let star_dot = chars_of("*.");
    proof {
        reveal_strlit("*.");
    }
    if vec_starts_with(&p, &star_dot) {
        let mut suffix: Vec<char> = Vec::new();
        suffix.push('.');
        let mut i: usize = 2;
        proof {
            reveal_strlit(".");
            assert(suffix@ =~= "."@ + p@.subrange(2, 2));
        }
        while i < p.len()
            invariant
                2 <= i <= p@.len(),
                suffix@ == "."@ + p@.subrange(2, i as int),
            decreases p@.len() - i,
        {
            suffix.push(p[i]);
            i = i + 1;
            proof {
                reveal_strlit(".");
                assert(suffix@ =~= "."@ + p@.subrange(2, i as int));
            }
        }
        proof {
            reveal_strlit(".");
        }
        return vec_ends_with(&s, &suffix);
    }
    if !vec_has_char(&p, '*') {
        if str_eq(path, pat) {
            return true;
        }
        let slashed = chars_of(concat2("/", pat).as_str());
        return vec_ends_with(&s, &slashed);
    }
    let needle = vec_remove_char(&p, '*');
    needle.len() == 0 || vec_contains_run(&s, &needle)
}

/// The bytes a listing version digests: a completeness marker, then each
/// path's UTF-8 followed by a NUL.
pub open spec fn listing_bytes(paths: Seq<Seq<char>>, incomplete: bool) -> Seq<u8>
    decreases paths.len(),
{
    if paths.len() == 0 {
        if incomplete {
            vstd::utf8::encode_utf8("incomplete\0"@)
        } else {
            vstd::utf8::encode_utf8("complete\0"@)
        }
    } else {
        listing_bytes(paths.drop_last(), incomplete) + vstd::utf8::encode_utf8(paths.last())
            + seq![0u8]
    }
}

/// The version of a whole sorted listing and its completeness, so a
/// listing that changed between pages, or a partial one, never carries
/// the version of a complete one.
pub fn listing_version(paths: &Vec<String>, incomplete: bool) -> (r: String)
    ensures
        r@ == content_version(listing_bytes(string_views(paths@), incomplete)),
{
    let mut data: Vec<u8> = Vec::new();
    let head: &str = if incomplete {
        "incomplete\0"
    } else {
        "complete\0"
    };
    append_bytes(&mut data, head.as_bytes());
    proof {
        assert(string_views(paths@).subrange(0, 0) =~= Seq::<Seq<char>>::empty());
        assert(data@ =~= listing_bytes(Seq::<Seq<char>>::empty(), incomplete));
    }
    let mut i: usize = 0;
    while i < paths.len()
        invariant
            i <= paths@.len(),
            data@ == listing_bytes(string_views(paths@).subrange(0, i as int), incomplete),
        decreases paths@.len() - i,
    {
        let ghost sub = string_views(paths@).subrange(0, i + 1);
        proof {
            assert(sub.drop_last() =~= string_views(paths@).subrange(0, i as int));
            assert(sub.last() == paths@[i as int]@);
        }
        append_bytes(&mut data, paths[i].as_str().as_bytes());
        data.push(0u8);
        proof {
            assert(data@ =~= listing_bytes(sub, incomplete));
        }
        i = i + 1;
    }
    proof {
        assert(string_views(paths@).subrange(0, paths@.len() as int) =~= string_views(paths@));
    }
    version_of(data.as_slice())
}

fn append_bytes(data: &mut Vec<u8>, more: &[u8])
    ensures
        final(data)@ == old(data)@ + more@,
{
    let ghost start = data@;
    let mut i: usize = 0;
    while i < more.len()
        invariant
            i <= more@.len(),
            data@ == start + more@.subrange(0, i as int),
        decreases more@.len() - i,
    {
        data.push(more[i]);
        i = i + 1;
        proof {
            assert(data@ =~= start + more@.subrange(0, i as int));
        }
    }
    proof {
        assert(more@.subrange(0, more@.len() as int) =~= more@);
    }
}

/// The product code each filesystem error maps to.
pub open spec fn fs_error_code(e: FsError) -> ErrorCode {
    match e {
        FsError::NotFound => ErrorCode::FileNotFound,
        FsError::NotDirectory => ErrorCode::PathNotDirectory,
        FsError::SymlinkRejected => ErrorCode::SymlinkRejected,
        FsError::NotRegularFile => ErrorCode::SpecialFileRejected,
        FsError::Io(_) => ErrorCode::FileOperationFailed,
    }
}

/// A filesystem error as a product error, keeping its message.
pub fn fs_error_body(err: &FsError) -> (r: ErrorBody)
    ensures
        r.code == fs_error_code(*err),
        r.message@ == err.message_spec(),
        r.operation_id is None,
{
    let m = err.message();
    let code = match err {
        FsError::NotFound => ErrorCode::FileNotFound,
        FsError::NotDirectory => ErrorCode::PathNotDirectory,
        FsError::SymlinkRejected => ErrorCode::SymlinkRejected,
        FsError::NotRegularFile => ErrorCode::SpecialFileRejected,
        FsError::Io(_) => ErrorCode::FileOperationFailed,
    };
    ErrorBody::new(code, m.as_str())
}

/// The version of a path whose metadata could not be read: a missing
/// path is [`VERSION_ABSENT`], any other error is reported.
pub fn version_when_unreadable(err: &FsError) -> (r: Result<String, ErrorBody>)
    ensures
        match err {
            FsError::NotFound => r matches Ok(v) && v@ == VERSION_ABSENT@,
            _ => r matches Err(e) && e.code == fs_error_code(*err) && e.message@ == err.message_spec(),
        },
{
    match err {
        FsError::NotFound => Ok(String::from_str(VERSION_ABSENT)),
        _ => Err(fs_error_body(err)),
    }
}

/// What is at a resolved path, as the path sandbox sees it.
#[derive(Debug, Clone, Copy, PartialEq, Eq, Structural)]
pub enum EntryKind {
    /// Nothing there, or metadata could not be read.
    Missing,
    Symlink,
    /// A FIFO, socket or device.
    Special,
    /// A regular file or a directory.
    Plain,
}

/// The path sandbox refuses symlinks and special files at a resolved path.
pub fn check_entry(kind: EntryKind) -> (r: Result<(), ErrorBody>)
    ensures
        match kind {
            EntryKind::Symlink => r matches Err(e) && e.code == ErrorCode::SymlinkRejected
                && e.message@ == "symlink files are rejected"@,
            EntryKind::Special => r matches Err(e) && e.code == ErrorCode::SpecialFileRejected
                && e.message@ == "special files are rejected"@,
            _ => r is Ok,
        },
{
    match kind {
        EntryKind::Symlink => Err(ErrorBody::new(ErrorCode::SymlinkRejected, "symlink files are rejected")),
        EntryKind::Special => Err(ErrorBody::new(ErrorCode::SpecialFileRejected, "special files are rejected")),
        _ => Ok(()),
    }
}

/// Only a regular file that is not a symlink can be read.
pub fn check_readable(meta: FileMeta) -> (r: Result<(), ErrorBody>)
    ensures
        meta.is_symlink ==> (r matches Err(e) && e.code == ErrorCode::SymlinkRejected && e.message@
            == "symlink files are rejected"@),
        !meta.is_symlink && !meta.is_file ==> (r matches Err(e) && e.code
            == ErrorCode::SpecialFileRejected && e.message@ == "not a regular file"@),
        !meta.is_symlink && meta.is_file ==> r is Ok,
{
    if meta.is_symlink {
        return Err(ErrorBody::new(ErrorCode::SymlinkRejected, "symlink files are rejected"));
    }
    if !meta.is_file {
        return Err(ErrorBody::new(ErrorCode::SpecialFileRejected, "not a regular file"));
    }
    Ok(())
}

/// A workspace path as reported: backslashes become slashes.
pub fn normalize_rel(relative: &str) -> (r: String)
    ensures
        r@ == replace_char(relative@, '\\', '/'),
{
    let cs = chars_of(relative);
    string_of(&vec_replace_char(&cs, '\\', '/'))
}

/// The read answer for a window of a file's bytes: the window decoded
/// lossily (and flagged when it was not valid UTF-8), the whole file's
/// version, and the next offset when bytes remain.
pub fn read_window(relative: &str, bytes: &[u8], offset: u64, limit: usize) -> (r: ReadResult)
    ensures
        ({
            let w = if offset >= bytes@.len() {
                Seq::<u8>::empty()
            } else {
                bytes@.subrange(offset as int, window_end(bytes@.len(), offset, limit as nat) as int)
            };
            let truncated = offset < bytes@.len() && window_end(bytes@.len(), offset, limit as nat)
                < bytes@.len();
            &&& r.path@ == replace_char(relative@, '\\', '/')
            &&& r.content@ == lossy_decode(w)
            &&& r.version@ == content_version(bytes@)
            &&& r.truncated == truncated
            &&& r.offset == offset
            &&& r.byte_count == w.len()
            &&& r.content_lossy == !vstd::utf8::valid_utf8(w)
            &&& r.next_offset == if truncated {
                Some((offset + w.len()) as u64)
            } else {
                None::<u64>
            }
            &&& r.coordination is None
        }),
{
    let (slice, truncated) = byte_window(bytes, offset, limit);
    let lossy = !is_valid_utf8(slice.as_slice());
    let n = slice.len() as u64;
    proof {
        if truncated {
            assert(offset < bytes@.len());
            assert(offset + n <= bytes@.len());
            assert(bytes@.len() == bytes.len());
            assert(bytes.len() <= usize::MAX);
            assert(usize::MAX <= u64::MAX);
        }
    }
    let next_offset = if truncated {
        Some(offset + n)
    } else {
        None
    };
    ReadResult {
        path: normalize_rel(relative),
        content: decode_lossy(slice.as_slice()),
        version: version_of(bytes),
        truncated,
        offset,
        byte_count: n,
        content_lossy: lossy,
        next_offset,
        coordination: None,
    }
}

/// A walked file as `find` names it: relative to the root, with slashes.
pub open spec fn listed_name(root: Seq<char>, file: Seq<char>) -> Option<Seq<char>> {
    match strip_prefix_spec(root, file) {
        Some(rest) => Some(replace_char(join_components(rest), '\\', '/')),
        None => None,
    }
}

/// An empty or missing glob keeps everything.
pub open spec fn glob_keeps(glob: Option<Seq<char>>, name: Seq<char>) -> bool {
    match glob {
        Some(p) => p.len() == 0 || glob_match_spec(p, name),
        None => true,
    }
}

/// The names `find` lists, in walk order; `None` when a walked file is not
/// under the root.
pub open spec fn matched_names(root: Seq<char>, files: Seq<Seq<char>>, glob: Option<Seq<char>>) -> Option<
    Seq<Seq<char>>,
>
    decreases files.len(),
{
    if files.len() == 0 {
        Some(Seq::empty())
    } else {
        match matched_names(root, files.drop_last(), glob) {
            None => None,
            Some(prev) => match listed_name(root, files.last()) {
                None => None,
                Some(n) => Some(
                    if glob_keeps(glob, n) {
                        prev.push(n)
                    } else {
                        prev
                    },
                ),
            },
        }
    }
}

proof fn lemma_matched_none_sticky(root: Seq<char>, files: Seq<Seq<char>>, glob: Option<Seq<char>>, i: int)
    requires
        0 <= i <= files.len(),
        matched_names(root, files.subrange(0, i), glob) is None,
    ensures
        matched_names(root, files, glob) is None,
    decreases files.len() - i,
{
    if files.len() == i {
        assert(files.subrange(0, i) =~= files);
    } else {
        let f2 = files.drop_last();
        assert(f2.subrange(0, i) =~= files.subrange(0, i));
        lemma_matched_none_sticky(root, f2, glob, i);
    }
}

/// The `find` answer for a walk of the workspace root: walked files named
/// relative to the root and filtered by the glob, sorted, windowed from
/// `offset`, and versioned as a whole listing. A walked file outside the
/// root refuses the listing with `PathEscape`.
pub fn find_listing(root: &str, walked: &WalkResult, glob: Option<&str>, offset: u64, limit: usize) -> (r:
    Result<FindResult, ErrorBody>)
    ensures
        ({
            let g = match glob {
                Some(p) => Some(p@),
                None => None,
            };
            match matched_names(root@, string_views(walked.files@), g) {
                None => r matches Err(e) && e.code == ErrorCode::PathEscape && e.message@
                    == "find left workspace"@ && e.operation_id is None,
                Some(m) => r matches Ok(res) && exists|all: Seq<Seq<char>>|
                    #[trigger] sorted_lex(all) && all.to_multiset() == m.to_multiset()
                        && window_matches(
                        all,
                        offset,
                        limit as nat,
                        string_views(res.paths@),
                        res.truncated,
                        res.next_offset,
                    ) && res.listing_version@ == content_version(
                        listing_bytes(all, walked.truncated),
                    ) && res.offset == offset && res.incomplete == walked.truncated
                        && res.coordination is None,
            }
        }),
{
    let ghost g = match glob {
        Some(p) => Some(p@),
        None => None,
    };
    let mut names: Vec<String> = Vec::new();
    let mut i: usize = 0;
    proof {
        assert(string_views(walked.files@).subrange(0, 0) =~= Seq::<Seq<char>>::empty());
    }
    while i < walked.files.len()
        invariant
            i <= walked.files@.len(),
            g == (match glob {
                Some(p) => Some(p@),
                None => None::<Seq<char>>,
            }),
            matched_names(root@, string_views(walked.files@).subrange(0, i as int), g) == Some(
                string_views(names@),
            ),
        decreases walked.files@.len() - i,
    {
        let ghost sub = string_views(walked.files@).subrange(0, i + 1);
        proof {
            assert(sub.drop_last() =~= string_views(walked.files@).subrange(0, i as int));
            assert(sub.last() == walked.files@[i as int]@);
        }
        match crate::pathname::strip_prefix(root, walked.files[i].as_str()) {
            None => {
                proof {
                    lemma_matched_none_sticky(root@, string_views(walked.files@), g, i + 1);
                }
                return Err(ErrorBody::new(ErrorCode::PathEscape, "find left workspace"));
            },
            Some(rel) => {
                let name = normalize_rel(rel.as_str());
                let keep = match glob {
                    Some(p) => p.unicode_len() == 0 || glob_match(p, name.as_str()),
                    None => true,
                };
                if keep {
                    let ghost before = names@;
                    names.push(name);
                    proof {
                        assert(string_views(names@) =~= string_views(before).push(names@[before.len() as int]@));
                    }
                }
            },
        }
        i = i + 1;
    }
    proof {
        assert(string_views(walked.files@).subrange(0, walked.files@.len() as int) =~= string_views(
            walked.files@,
        ));
    }
    let sorted = sort_strings(names);
    let page = path_window(&sorted, offset, limit, walked.truncated);
    let version = listing_version(&sorted, page.incomplete);
    proof {
        assert(sorted_lex(string_views(sorted@)));
    }
    Ok(
        FindResult {
            paths: page.paths,
            truncated: page.truncated,
            offset,
            incomplete: page.incomplete,
            listing_version: version,
            next_offset: page.next_offset,
            coordination: None,
        },
    )
}

/// Following `next_offset` walks a listing without gaps, overlaps or
/// loops: a next window exists only while paths remain, starts exactly
/// where this one ended, and lies further on.
pub proof fn lemma_next_window_continues(
    all: Seq<Seq<char>>,
    offset: u64,
    limit: nat,
    page: Seq<Seq<char>>,
    truncated: bool,
    next: Option<u64>,
)
    requires
        window_matches(all, offset, limit, page, truncated, next),
        limit > 0,
        all.len() <= u64::MAX,
    ensures
        next matches Some(n) ==> n == offset + page.len() && n > offset && n < all.len(),
        next is None ==> offset + page.len() >= all.len(),
        page.len() <= limit,
{
}


/// A pattern with a `*` that is none of `*`, `**`, `**/*` or `*.ext`
/// matches every path in which the pattern, with its `*`s removed, occurs:
/// before it and after it anything may stand.
pub proof fn lemma_star_pattern_matches_containing_paths(
    pat: Seq<char>,
    before: Seq<char>,
    after: Seq<char>,
)
    requires
        has_char(pat, '*'),
        pat != "*"@,
        pat != "**"@,
        pat != "**/*"@,
        !starts_with(pat, "*."@),
    ensures
        glob_match_spec(pat, before + remove_char(pat, '*') + after),
{
    let needle = remove_char(pat, '*');
    let path = before + needle + after;
    assert(path.subrange(before.len() as int, (before.len() + needle.len()) as int) =~= needle);
    assert(contains_run(path, needle));
}


/// The other glob forms: `*`, `**` and `**/*` match every path; `*.ext`
/// matches exactly the paths ending in `.ext`; a pattern without `*`
/// matches that path itself and any path ending in `/` and the pattern.
pub proof fn lemma_glob_forms(ext: Seq<char>, pat: Seq<char>, path: Seq<char>, before: Seq<char>)
    ensures
        glob_match_spec("*"@, path),
        glob_match_spec("**"@, path),
        glob_match_spec("**/*"@, path),
        glob_match_spec(seq!['*', '.'] + ext, path) <==> ends_with(path, seq!['.'] + ext),
        !has_char(pat, '*') ==> glob_match_spec(pat, pat) && glob_match_spec(
            pat,
            before + seq!['/'] + pat,
        ),
{
    reveal_strlit("*");
    reveal_strlit("**");
    reveal_strlit("**/*");
    reveal_strlit("*.");
    reveal_strlit(".");
    let sp = seq!['*', '.'] + ext;
    assert(sp[1] == '.');
    assert(sp != "*"@ && sp != "**"@ && sp != "**/*"@) by {
        assert(("**"@)[1] == '*');
        assert(("**/*"@)[1] == '*');
        assert(("*"@).len() == 1);
    }
    assert(sp.subrange(0, 2) =~= "*."@);
    assert(starts_with(sp, "*."@));
    assert(sp.subrange(2, sp.len() as int) =~= ext);
    assert("."@ =~= seq!['.']);
    if !has_char(pat, '*') {
        assert(pat != "*"@ && pat != "**"@ && pat != "**/*"@) by {
            if pat == "*"@ || pat == "**"@ || pat == "**/*"@ {
                assert(pat[0] == '*');
            }
        }
        assert(!starts_with(pat, "*."@)) by {
            if starts_with(pat, "*."@) {
                assert(pat.subrange(0, 2)[0] == pat[0]);
            }
        }
        reveal_strlit("/");
        assert("/"@ =~= seq!['/']);
        assert(("/"@ + pat) =~= seq!['/'] + pat);
        let full = before + seq!['/'] + pat;
        assert(full.subrange(full.len() - (pat.len() + 1), full.len() as int) =~= seq!['/'] + pat);
    }
}

} // verus!
