//! Paths as character strings: taking a file name apart, swapping the file
//! name or the extension of a path, the default output path of a rendered
//! template, and the decisions behind canonicalizing a user-supplied path.
//! A separator is `/` or `\`; the extension dot is the last dot of the file
//! name, as long as it is not the name's first character.
use vstd::prelude::*;
use vstd::string::StringExecFns;
use crate::error::RenditError;
use crate::text::{chars_of, chars_eq_str, copy_range, string_from_chars};

verus! {

/// A path separator.
pub open spec fn is_sep_char(c: char) -> bool {
    c == '/' || c == '\\'
}

pub fn is_sep(c: char) -> (r: bool)
    ensures
        r == is_sep_char(c),
{
    c == '/' || c == '\\'
}

/// Where the file name begins: one past the last separator before `i`.
pub open spec fn file_name_start_from(s: Seq<char>, i: int) -> int
    recommends
        0 <= i <= s.len(),
    decreases i when 0 <= i <= s.len()
{
    if i <= 0 {
        0
    } else if is_sep_char(s[i - 1]) {
        i
    } else {
        file_name_start_from(s, i - 1)
    }
}

/// Where the file name of the whole path begins.
pub open spec fn file_name_start(s: Seq<char>) -> int {
    file_name_start_from(s, s.len() as int)
}

/// The end of the path once trailing separators are dropped.
pub open spec fn rstrip_seps(s: Seq<char>, i: int) -> int
    recommends
        0 <= i <= s.len(),
    decreases i when 0 <= i <= s.len()
{
    if i > 0 && is_sep_char(s[i - 1]) {
        rstrip_seps(s, i - 1)
    } else {
        i
    }
}

/// The file name as the filesystem sees it: the last component, trailing
/// separators dropped. A path whose last component is `.` or `..`, or that
/// ends at its root, has none — the name comes back empty.
pub open spec fn spec_file_name(s: Seq<char>) -> Seq<char> {
    let t = rstrip_seps(s, s.len() as int);
    let a = file_name_start_from(s, t);
    let f = s.subrange(a, t);
    if f == "."@ || f == ".."@ {
        Seq::empty()
    } else {
        f
    }
}

/// The path with its file name replaced by `name`.
pub open spec fn spec_with_file_name(s: Seq<char>, name: Seq<char>) -> Seq<char> {
    s.subrange(0, file_name_start(s)) + name
}

/// The position of the dot that introduces the extension, looking down from
/// `i` but never at or before `lo` (the file name's first character), or
/// `s.len()` when there is none.
pub open spec fn ext_dot_from(s: Seq<char>, i: int, lo: int) -> int
    recommends
        0 <= lo <= i <= s.len(),
    decreases i when 0 <= lo <= i <= s.len()
{
    if i <= lo {
        s.len() as int
    } else if s[i - 1] == '.' && i - 1 > lo {
        i - 1
    } else {
        ext_dot_from(s, i - 1, lo)
    }
}

/// The position of the extension dot of the whole path, or `s.len()`.
pub open spec fn ext_dot_pos(s: Seq<char>) -> int {
    ext_dot_from(s, s.len() as int, file_name_start(s))
}

/// The extension, when the file name has one.
pub open spec fn spec_extension(s: Seq<char>) -> Option<Seq<char>> {
    if ext_dot_pos(s) < s.len() {
        Some(s.subrange(ext_dot_pos(s) + 1, s.len() as int))
    } else {
        None
    }
}

/// The path with its extension replaced by `ext` (or, when it has none,
/// with `.ext` appended).
pub open spec fn spec_with_extension(s: Seq<char>, ext: Seq<char>) -> Seq<char> {
    s.subrange(0, ext_dot_pos(s)) + seq!['.'] + ext
}

/// Find where the file name of `v` begins.
fn find_file_name_start(v: &Vec<char>) -> (r: usize)
    ensures
        r as int == file_name_start(v@),
        r <= v@.len(),
{
    let mut i: usize = v.len();
    while i > 0 && !is_sep(v[i - 1])
        invariant
            i <= v@.len(),
            file_name_start(v@) == file_name_start_from(v@, i as int),
        decreases i,
    {
        i = i - 1;
    }
    i
}

/// Find the extension dot of `v`, `v.len()` when there is none.
fn find_ext_dot(v: &Vec<char>) -> (r: usize)
    ensures
        r as int == ext_dot_pos(v@),
        r <= v@.len(),
{
    let lo = find_file_name_start(v);
    let mut i: usize = v.len();
    loop
        invariant
            lo <= i <= v@.len(),
            lo as int == file_name_start(v@),
            ext_dot_pos(v@) == ext_dot_from(v@, i as int, lo as int),
        decreases i,
    {
        if i <= lo {
            return v.len();
        }
        if v[i - 1] == '.' && i - 1 > lo {
            return i - 1;
        }
        i = i - 1;
    }
}

/// The file name of a path, as the filesystem would see it.
pub fn file_name_of(path: &str) -> (r: String)
    ensures
        r@ == spec_file_name(path@),
{
    let v = chars_of(path);
    let mut t: usize = v.len();
    while t > 0 && is_sep(v[t - 1])
        invariant
            t <= v@.len(),
            rstrip_seps(v@, v@.len() as int) == rstrip_seps(v@, t as int),
        decreases t,
    {
        t = t - 1;
    }
    assert(rstrip_seps(v@, t as int) == t);
    let mut a: usize = t;
    while a > 0 && !is_sep(v[a - 1])
        invariant
            a <= t <= v@.len(),
            file_name_start_from(v@, t as int) == file_name_start_from(v@, a as int),
        decreases a,
    {
        a = a - 1;
    }
    let f = copy_range(&v, a, t);
    if chars_eq_str(&f, ".") || chars_eq_str(&f, "..") {
        String::new()
    } else {
        string_from_chars(f)
    }
}

/// The path with its file name replaced by `name`.
pub fn with_file_name(path: &str, name: &str) -> (r: String)
    ensures
        r@ == spec_with_file_name(path@, name@),
{
    let v = chars_of(path);
    let a = find_file_name_start(&v);
    let mut r = string_from_chars(copy_range(&v, 0, a));
    r.append(name);
    r
}

/// The extension of a path, when its file name has one.
pub fn extension_of(path: &str) -> (r: Option<String>)
    ensures
        r.deep_view() == spec_extension(path@),
{
    let v = chars_of(path);
    let p = find_ext_dot(&v);
    if p < v.len() {
        Some(string_from_chars(copy_range(&v, p + 1, v.len())))
    } else {
        None
    }
}

/// The path with its extension replaced by `ext` (or `.ext` appended when it
/// has none).
pub fn with_extension(path: &str, ext: &str) -> (r: String)
    ensures
        r@ == spec_with_extension(path@, ext@),
{
    let v = chars_of(path);
    let p = find_ext_dot(&v);
    let mut r = string_from_chars(copy_range(&v, 0, p));
    r.append(".");
    r.append(ext);
    proof {
        reveal_strlit(".");
        assert(r@ =~= spec_with_extension(path@, ext@));
    }
    r
}

/// The default output path for a rendered template: the template's own path
/// with its extension replaced by `rendered.<extension>` — just `rendered`
/// when it has none.
pub open spec fn spec_default_output_path(s: Seq<char>) -> Seq<char> {
    match spec_extension(s) {
        Some(x) => spec_with_extension(s, "rendered."@ + x),
        None => spec_with_extension(s, "rendered"@),
    }
}

pub fn default_output_path(path: &str) -> (r: String)
    ensures
        r@ == spec_default_output_path(path@),
{
    match extension_of(path) {
        Some(x) => {
            let mut e = "rendered.".to_owned();
            e.append(x.as_str());
            with_extension(path, e.as_str())
        },
        None => with_extension(path, "rendered"),
    }
}

/// The parts of a template's file name: the stem, an optional middle part,
/// and an optional extension — at most two dots, a trailing dot dropped as a
/// terminator.
pub struct FileParts {
    pub name: String,
    pub kind: Option<String>,
    pub extension: Option<String>,
}

/// The mathematical model of `FileParts`.
pub struct FilePartsModel {
    pub name: Seq<char>,
    pub kind: Option<Seq<char>>,
    pub extension: Option<Seq<char>>,
}

impl View for FileParts {
    type V = FilePartsModel;

    open spec fn view(&self) -> FilePartsModel {
        FilePartsModel {
            name: self.name@,
            kind: match &self.kind {
                Some(k) => Some(k@),
                None => None,
            },
            extension: match &self.extension {
                Some(x) => Some(x@),
                None => None,
            },
        }
    }
}

/// First dot of `s` in `[from, m)`, else `m`.
pub open spec fn find_dot(s: Seq<char>, from: int, m: int) -> int
    recommends
        0 <= from <= m <= s.len(),
    decreases m - from when 0 <= from <= m <= s.len()
{
    if from >= m {
        m
    } else if s[from] == '.' {
        from
    } else {
        find_dot(s, from + 1, m)
    }
}

/// How a file name splits into parts: around no dot, one dot, or two dots —
/// more than two leave the name unusable. A final dot is a terminator and is
/// dropped first; an empty file name is unusable.
pub open spec fn spec_file_parts(f: Seq<char>) -> Option<FilePartsModel> {
    if f.len() == 0 {
        None
    } else {
        let m = if f[f.len() - 1] == '.' {
            f.len() - 1
        } else {
            f.len() as int
        };
        let d1 = find_dot(f, 0, m);
        if d1 == m {
            Some(FilePartsModel { name: f.subrange(0, m), kind: None, extension: None })
        } else {
            let d2 = find_dot(f, d1 + 1, m);
            if d2 == m {
                Some(
                    FilePartsModel {
                        name: f.subrange(0, d1),
                        kind: None,
                        extension: Some(f.subrange(d1 + 1, m)),
                    },
                )
            } else {
                let d3 = find_dot(f, d2 + 1, m);
                if d3 == m {
                    Some(
                        FilePartsModel {
                            name: f.subrange(0, d1),
                            kind: Some(f.subrange(d1 + 1, d2)),
                            extension: Some(f.subrange(d2 + 1, m)),
                        },
                    )
                } else {
                    None
                }
            }
        }
    }
}

/// First dot of `v` in `[from, m)`, else `m`.
fn find_dot_exec(v: &Vec<char>, from: usize, m: usize) -> (r: usize)
    requires
        from <= m <= v@.len(),
    ensures
        r as int == find_dot(v@, from as int, m as int),
        from <= r <= m,
{
    let mut i: usize = from;
    while i < m && v[i] != '.'
        invariant
            from <= i <= m <= v@.len(),
            find_dot(v@, from as int, m as int) == find_dot(v@, i as int, m as int),
        decreases m - i,
    {
        i = i + 1;
    }
    i
}

impl FileParts {
    /// Split a file name into its parts; a name that splits into none or too
    /// many is refused.
    pub fn from_file_name(file_name: &str) -> (r: Result<FileParts, RenditError>)
        ensures
            match spec_file_parts(file_name@) {
                Some(mo) => r matches Ok(p) && p@ == mo,
                None => r matches Err(e) && e is IllegalPath,
            },
    {
        let v = chars_of(file_name);
        let n = v.len();
        if n == 0 {
            return Err(RenditError::IllegalPath);
        }
        let m: usize = if v[n - 1] == '.' {
            n - 1
        } else {
            n
        };
        let d1 = find_dot_exec(&v, 0, m);
        if d1 == m {
            return Ok(
                FileParts {
                    name: string_from_chars(copy_range(&v, 0, m)),
                    kind: None,
                    extension: None,
                },
            );
        }
        let d2 = find_dot_exec(&v, d1 + 1, m);
        if d2 == m {
            return Ok(
                FileParts {
                    name: string_from_chars(copy_range(&v, 0, d1)),
                    kind: None,
                    extension: Some(string_from_chars(copy_range(&v, d1 + 1, m))),
                },
            );
        }
        let d3 = find_dot_exec(&v, d2 + 1, m);
        if d3 == m {
            return Ok(
                FileParts {
                    name: string_from_chars(copy_range(&v, 0, d1)),
                    kind: Some(string_from_chars(copy_range(&v, d1 + 1, d2))),
                    extension: Some(string_from_chars(copy_range(&v, d2 + 1, m))),
                },
            );
        }
        Err(RenditError::IllegalPath)
    }
}

/// A template file: its path and the parts of its file name.
pub struct TemplateFile {
    pub path: String,
    pub parts: FileParts,
}

impl TemplateFile {
    /// Take a template's path apart; a path without a usable file name is
    /// refused.
    pub fn from_path(path: &str) -> (r: Result<TemplateFile, RenditError>)
        ensures
            match spec_file_parts(spec_file_name(path@)) {
                Some(mo) => r matches Ok(t) && t.parts@ == mo && t.path@ == path@,
                None => r matches Err(e) && e is IllegalPath,
            },
    {
        let fname = file_name_of(path);
        match FileParts::from_file_name(fname.as_str()) {
            Ok(parts) => Ok(TemplateFile { path: path.to_owned(), parts }),
            Err(e) => Err(e),
        }
    }
}

/// An absolute, canonical path — or the caller's best effort at one, since
/// canonicalization tolerates paths that do not exist yet.
#[derive(Clone, Debug)]
pub struct AbsolutePath {
    path: String,
}

impl View for AbsolutePath {
    type V = Seq<char>;

    closed spec fn view(&self) -> Seq<char> {
        self.path@
    }
}

impl AbsolutePath {
    /// Wrap an already-resolved path.
    pub fn new(path: String) -> (r: AbsolutePath)
        ensures
            r@ == path@,
    {
        AbsolutePath { path }
    }

    /// Hand the path back out.
    pub fn into_inner(self) -> (r: String)
        ensures
            r@ == self@,
    {
        self.path
    }

    /// Borrow the path.
    pub fn as_str(&self) -> (r: &str)
        ensures
            r@ == self@,
    {
        self.path.as_str()
    }
}

/// Whether the path already names a root: it opens with a separator.
pub open spec fn spec_has_root(s: Seq<char>) -> bool {
    s.len() > 0 && is_sep_char(s[0])
}

/// Backslashes replaced by forward slashes.
pub open spec fn spec_slashed(s: Seq<char>) -> Seq<char> {
    s.map_values(|c: char| if c == '\\' { '/' } else { c })
}

/// A rooted path is kept as given; a relative one has its backslashes
/// replaced first, so canonicalization meets one separator style.
pub open spec fn spec_normalize_input(s: Seq<char>) -> Seq<char> {
    if spec_has_root(s) {
        s
    } else {
        spec_slashed(s)
    }
}

/// Prepare a user-supplied path for canonicalization.
pub fn normalize_input(path: &str) -> (r: String)
    ensures
        r@ == spec_normalize_input(path@),
{
    let v = chars_of(path);
    if v.len() > 0 && is_sep(v[0]) {
        return path.to_owned();
    }
    let mut w: Vec<char> = Vec::new();
    let mut i: usize = 0;
    while i < v.len()
        invariant
            i <= v@.len(),
            w@ == spec_slashed(v@.subrange(0, i as int)),
        decreases v@.len() - i,
    {
        if v[i] == '\\' {
            w.push('/');
        } else {
            w.push(v[i]);
        }
        assert(w@ =~= spec_slashed(v@.subrange(0, i + 1 as int)));
        i = i + 1;
    }
    assert(v@.subrange(0, v@.len() as int) =~= v@);
    string_from_chars(w)
}

/// What the filesystem answered to one canonicalization attempt.
pub enum CanonOutcome {
    /// The canonical path.
    Resolved(String),
    /// The path does not exist yet.
    NotFound,
    /// Any other failure (say, a parent that is no directory).
    OtherFailure,
}

/// What to do after the first canonicalization attempt.
pub enum FirstStep {
    /// The resolution is settled: use this path.
    Done(String),
    /// The path does not exist yet: touch a placeholder there and try once
    /// more.
    TouchAndRetry,
}

/// Decide after the first attempt: an answer is final; a path that does not
/// exist yet calls for the touch-and-retry dance; any other failure keeps
/// the input path unchanged, for someone downstream to complain about.
pub fn after_first_attempt(input: &str, outcome: CanonOutcome) -> (r: FirstStep)
    ensures
        match outcome {
            CanonOutcome::Resolved(p) => r matches FirstStep::Done(q) && q@ == p@,
            CanonOutcome::NotFound => r is TouchAndRetry,
            CanonOutcome::OtherFailure => r matches FirstStep::Done(q) && q@ == input@,
        },
{
    match outcome {
        CanonOutcome::Resolved(p) => FirstStep::Done(p),
        CanonOutcome::NotFound => FirstStep::TouchAndRetry,
        CanonOutcome::OtherFailure => FirstStep::Done(input.to_owned()),
    }
}

/// The close of the touch-and-retry dance.
pub struct RetryClose {
    /// The path resolution settles on.
    pub result: String,
    /// Remove the placeholder at that path, best effort.
    pub remove_placeholder: bool,
}

/// Decide after the placeholder was touched and canonicalization tried once
/// more. Only a successful retry leaves a placeholder worth removing; a
/// failed touch or a failed retry keeps the input path.
pub fn after_retry(input: &str, touch_ok: bool, outcome: CanonOutcome) -> (r: RetryClose)
    ensures
        !touch_ok ==> r.result@ == input@ && !r.remove_placeholder,
        touch_ok ==> match outcome {
            CanonOutcome::Resolved(p) => r.result@ == p@ && r.remove_placeholder,
            CanonOutcome::NotFound => r.result@ == input@ && !r.remove_placeholder,
            CanonOutcome::OtherFailure => r.result@ == input@ && !r.remove_placeholder,
        },
{
    if !touch_ok {
        return RetryClose { result: input.to_owned(), remove_placeholder: false };
    }
    match outcome {
        CanonOutcome::Resolved(p) => RetryClose { result: p, remove_placeholder: true },
        CanonOutcome::NotFound => RetryClose {
            result: input.to_owned(),
            remove_placeholder: false,
        },
        CanonOutcome::OtherFailure => RetryClose {
            result: input.to_owned(),
            remove_placeholder: false,
        },
    }
}

/// A text the glob walker takes without refusing the pattern: free of the
/// alternation and character-class openers whose unclosed forms it rejects
/// outright, and not ending in a backslash, which it reads as an escape
/// with nothing left to escape.
pub open spec fn glob_safe(s: Seq<char>) -> bool {
    &&& forall|i: int| 0 <= i < s.len() ==> s[i] != '{' && s[i] != '}' && s[i] != '['
    &&& (s.len() > 0 ==> s[s.len() - 1] != '\\')
}

/// Whether a path may stand in a glob without the walker refusing it.
pub fn is_glob_safe(path: &str) -> (r: bool)
    ensures
        r == glob_safe(path@),
{
    let v = chars_of(path);
    let n = v.len();
    if n > 0 && v[n - 1] == '\\' {
        return false;
    }
    let mut i: usize = 0;
    while i < n
        invariant
            i <= n,
            n == v@.len(),
            v@ == path@,
            forall|t: int| 0 <= t < i ==> v@[t] != '{' && v@[t] != '}' && v@[t] != '[',
        decreases n - i,
    {
        if v[i] == '{' || v[i] == '}' || v[i] == '[' {
            return false;
        }
        i = i + 1;
    }
    true
}

} // verus!
