//! Turning raw path fragments into absolute, dot-free paths.
//!
//! Paths are Unix paths held as text: components are separated by `/`, and a
//! path that starts with `/` is absolute. Nothing here touches the disk; the
//! working directory is handed in by the caller, who reads it once per batch.

use path_dedot::ParseDot;
use std::path::Path;
use vstd::prelude::*;

use crate::error::{ApplicationError, ApplicationResult};
use crate::exit::CWD_FAILURE;

verus! {

/// Whether a path starts at the root.
pub open spec fn is_absolute(path: Seq<char>) -> bool {
    path.len() > 0 && path[0] == '/'
}

/// A raw fragment anchored on a base directory: an absolute fragment stands
/// for itself, any other is appended to the base, after a separator unless
/// the base is empty or already ends in one.
pub open spec fn joined(base: Seq<char>, raw: Seq<char>) -> Seq<char> {
    if is_absolute(raw) {
        raw
    } else if base.len() > 0 && base.last() != '/' {
        base + seq!['/'] + raw
    } else {
        base + raw
    }
}

/// Whether the component that starts at `start` is `.` or `..`.
pub open spec fn is_dots_at(path: Seq<char>, start: int) -> bool {
    let ends_at = |i: int| i == path.len() || (i < path.len() && path[i] == '/');
    &&& 0 <= start < path.len()
    &&& path[start] == '.'
    &&& (ends_at(start + 1) || (start + 1 < path.len() && path[start + 1] == '.' && ends_at(
        start + 2,
    )))
}

/// Whether a path is absolute and has nothing left to collapse: it is the
/// root alone, or its components are separated by exactly one `/`, none of
/// them is `.` or `..`, and no separator trails.
pub open spec fn is_collapsed(path: Seq<char>) -> bool {
    &&& is_absolute(path)
    &&& path.len() > 1 ==> path.last() != '/'
    &&& forall|i: int|
        0 <= i < path.len() - 1 && #[trigger] path[i] == '/' ==> path[i + 1] != '/'
            && !is_dots_at(path, i + 1)
}

/// What [`path_dedot::ParseDot::parse_dot_from`] makes of an absolute `path`
/// when `cwd` is the working directory: the collapsed path, or nothing where
/// it fails.
pub uninterp spec fn dedot(path: Seq<char>, cwd: Seq<char>) -> Option<Seq<char>>;

/// The text of an optional string.
pub open spec fn text_of(text: Option<String>) -> Option<Seq<char>> {
    match text {
        Some(s) => Some(s@),
        None => None,
    }
}

/// Calls [`path_dedot::ParseDot::parse_dot_from`] on `path`, with `cwd` as the
/// directory that a leading `.` or `..` stands for.
///
/// Only an absolute path is handed over: on a path without a root that
/// function does not return once a `..` has taken the last component away.
///
/// Not proved, but taken from that function as it works on absolute Unix
/// paths: its result depends on the two texts alone; it never fails, and the
/// path comes back collapsed; and a path that is collapsed already comes back
/// as it went in.
#[verifier::external_body]
fn dedot_from(path: &str, cwd: &str) -> (collapsed: Option<String>)
    requires
        is_absolute(path@),
    ensures
        text_of(collapsed) == dedot(path@, cwd@),
        collapsed is Some && is_collapsed(collapsed->Some_0@),
        is_collapsed(path@) ==> text_of(collapsed) == Some(path@),
{
    match Path::new(path).parse_dot_from(Path::new(cwd)) {
        Ok(parsed) => Some(parsed.to_string_lossy().into_owned()),
        Err(_) => None,
    }
}

/// The path that a raw fragment resolves to under the working directory
/// `cwd`: the fragment is joined onto `cwd` and, if that gives an absolute
/// path, collapsed. A joined path without a root, or one that fails to
/// collapse, stands as it is.
pub open spec fn normal_form(cwd: Seq<char>, raw: Seq<char>) -> Seq<char> {
    if is_absolute(joined(cwd, raw)) {
        settled(joined(cwd, raw), dedot(joined(cwd, raw), cwd))
    } else {
        joined(cwd, raw)
    }
}

/// The path kept after an attempt to collapse `full`.
pub open spec fn settled(full: Seq<char>, collapsed: Option<Seq<char>>) -> Seq<char> {
    match collapsed {
        Some(path) => path,
        None => full,
    }
}

/// Joins a raw fragment onto a base directory.
pub fn join(base: &str, raw: &str) -> (full: String)
    ensures
        full@ == joined(base@, raw@),
{
    let raw_len: usize = raw.unicode_len();
    if raw_len > 0 && raw.get_char(0) == '/' {
        return raw.to_owned();
    }
    let base_len: usize = base.unicode_len();
    let mut full = base.to_owned();
    if base_len > 0 && base.get_char(base_len - 1) != '/' {
        proof {
            reveal_strlit("/");
            assert("/"@ =~= seq!['/']);
        }
        full.append("/");
    }
    full.append(raw);
    full
}

/// A path that went through the sanitizer: anchored on the working directory
/// and, where that made it absolute, free of `.` and `..`. It is never
/// checked against the disk.
#[derive(Debug)]
pub struct NormalizedPath {
    path: String,
}

impl View for NormalizedPath {
    type V = Seq<char>;

    closed spec fn view(&self) -> Seq<char> {
        self.path@
    }
}

impl NormalizedPath {
    /// Keeps the collapsed path, or falls back to the joined one where
    /// collapsing failed.
    pub fn resolve(full: String, collapsed: Option<String>) -> (path: NormalizedPath)
        ensures
            path@ == settled(full@, text_of(collapsed)),
    {
        match collapsed {
            Some(path) => NormalizedPath { path },
            None => NormalizedPath { path: full },
        }
    }

    /// Resolves one raw fragment under the working directory `cwd`. Under
    /// an absolute working directory the result is absolute and collapsed. A
    /// fragment whose joined path is collapsed already resolves to that
    /// path; so one that is itself absolute and collapsed resolves to itself,
    /// whatever the working directory.
    pub fn normalize(cwd: &str, raw: &str) -> (path: NormalizedPath)
        ensures
            path@ == normal_form(cwd@, raw@),
            is_absolute(cwd@) ==> is_collapsed(path@),
            is_collapsed(joined(cwd@, raw@)) ==> path@ == joined(cwd@, raw@),
            is_collapsed(raw@) ==> path@ == raw@,
    {
        let full = join(cwd, raw);
        let rooted = full.as_str().unicode_len() > 0 && full.as_str().get_char(0) == '/';
        if rooted {
            let collapsed = dedot_from(full.as_str(), cwd);
            NormalizedPath::resolve(full, collapsed)
        } else {
            NormalizedPath::resolve(full, None)
        }
    }

    /// The path as text.
    pub fn as_str(&self) -> (text: &str)
        ensures
            text@ == self@,
    {
        self.path.as_str()
    }

}

impl Clone for NormalizedPath {
    /// A copy of the path.
    fn clone(&self) -> (copy: NormalizedPath)
        ensures
            copy@ == self@,
    {
        NormalizedPath { path: self.path.clone() }
    }
}

/// The message of the error that a batch ends with when the working directory
/// cannot be determined for the given reason.
pub open spec fn cwd_failure_message(reason: Seq<char>) -> Seq<char> {
    "Failed to get current working directory. "@ + reason
}

/// Whether `paths` is what sanitizing `source` gives, when looking up the
/// working directory gave `cwd`.
pub open spec fn sanitized(
    cwd: Result<String, String>,
    source: Seq<String>,
    paths: ApplicationResult<Vec<NormalizedPath>>,
) -> bool {
    match cwd {
        Ok(dir) => {
            &&& paths is Ok
            &&& paths->Ok_0.len() == source.len()
            &&& forall|i: int|
                0 <= i < source.len() ==> (#[trigger] paths->Ok_0[i])@ == normal_form(
                    dir@,
                    source[i]@,
                )
            &&& forall|i: int|
                0 <= i < source.len() && is_collapsed(joined(dir@, source[i]@)) ==> (
                #[trigger] paths->Ok_0[i])@ == joined(dir@, source[i]@)
            &&& forall|i: int|
                0 <= i < source.len() && is_collapsed(source[i]@) ==> (
                #[trigger] paths->Ok_0[i])@ == source[i]@
            &&& is_absolute(dir@) ==> forall|i: int|
                0 <= i < source.len() ==> is_collapsed((#[trigger] paths->Ok_0[i])@)
        },
        Err(reason) => {
            &&& paths is Err
            &&& paths->Err_0 is RunError
            &&& paths->Err_0.spec_exit_code() == CWD_FAILURE
            &&& paths->Err_0.spec_message() == cwd_failure_message(reason@)
        },
    }
}

/// Resolves the entries of a removal batch.
pub struct EntrySanitizer;

impl EntrySanitizer {
    /// Resolves every raw entry of `source` under the working directory, in
    /// order and without dropping repeated entries. `cwd` is the outcome of
    /// looking up the working directory: the directory, or the reason why it
    /// could not be determined, in which case the whole batch fails. Under
    /// an absolute working directory every path that comes out is absolute
    /// and collapsed; an entry whose joined path is collapsed already comes
    /// out as that path, and one that is itself absolute and collapsed comes
    /// out unchanged.
    pub fn sanitize(self, cwd: Result<String, String>, source: Vec<String>) -> (paths:
        ApplicationResult<Vec<NormalizedPath>>)
        ensures
            sanitized(cwd, source@, paths),
    {
        match &cwd {
            Err(reason) => {
                let mut message = "Failed to get current working directory. ".to_owned();
                message.append(reason.as_str());
                Err(ApplicationError::RunError { exit_code: CWD_FAILURE, message })
            },
            Ok(dir) => {
                let mut paths: Vec<NormalizedPath> = Vec::new();
                let mut i: usize = 0;
                while i < source.len()
                    invariant
                        i <= source.len(),
                        paths.len() == i,
                        forall|k: int|
                            0 <= k < i ==> (#[trigger] paths[k])@ == normal_form(
                                dir@,
                                source[k]@,
                            ),
                        forall|k: int|
                            0 <= k < i && is_collapsed(joined(dir@, source[k]@)) ==> (
                            #[trigger] paths[k])@ == joined(dir@, source[k]@),
                        forall|k: int|
                            0 <= k < i && is_collapsed(source[k]@) ==> (#[trigger] paths[k])@
                                == source[k]@,
                        is_absolute(dir@) ==> forall|k: int|
                            0 <= k < i ==> is_collapsed((#[trigger] paths[k])@),
                    decreases source.len() - i,
                {
                    paths.push(NormalizedPath::normalize(dir.as_str(), source[i].as_str()));
                    i = i + 1;
                }
                Ok(paths)
            },
        }
    }
}

} // verus!
