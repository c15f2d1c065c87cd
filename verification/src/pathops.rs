//! Path computations of `std::path`, on UTF-8 paths, as the rest of the crate
//! uses them, and the classification of a directory entry by what the file
//! system reports of it.
use vstd::prelude::*;

verus! {

/// The path that `Path::join` builds from `base` and `rel`.
pub uninterp spec fn joined_path(base: Seq<char>, rel: Seq<char>) -> Seq<char>;

/// Whether `Path::starts_with` finds `base` as a whole-component prefix of `path`.
pub uninterp spec fn path_has_prefix(path: Seq<char>, base: Seq<char>) -> bool;

/// What `Path::strip_prefix` leaves of `path` once `base` is taken off.
pub uninterp spec fn stripped_path(path: Seq<char>, base: Seq<char>) -> Seq<char>;

/// What `Path::file_name` gives for `path`: its final component, if any.
pub uninterp spec fn final_component(path: Seq<char>) -> Option<Seq<char>>;

/// What `Path::parent` gives for `path`: the path without its final component.
pub uninterp spec fn parent_path(path: Seq<char>) -> Option<Seq<char>>;

/// Whether a `.` or `..` component follows the separator at `i` in `p`.
pub open spec fn dot_component_after(p: Seq<char>, i: int) -> bool {
    ||| i + 2 == p.len() && p[i + 1] == '.'
    ||| i + 2 < p.len() && p[i + 1] == '.' && p[i + 2] == '/'
    ||| i + 3 == p.len() && p[i + 1] == '.' && p[i + 2] == '.'
    ||| i + 3 < p.len() && p[i + 1] == '.' && p[i + 2] == '.' && p[i + 3] == '/'
}

/// A path every platform's `std::path` reads the same way: it starts at the
/// root `/`, uses `/` alone as separator, never doubles a separator or ends
/// with one (but for the root itself), holds no `\` or `:` (so no Windows
/// prefix), and has no `.` or `..` component. Its components are the root
/// and the texts between separators, as written.
pub open spec fn plain_rooted_path(p: Seq<char>) -> bool {
    &&& p.len() >= 1
    &&& p[0] == '/'
    &&& forall|i: int| 0 <= i < p.len() ==> #[trigger] p[i] != '\\' && p[i] != ':'
    &&& forall|i: int| 0 <= i < p.len() - 1 && #[trigger] p[i] == '/' ==> p[i + 1] != '/'
    &&& p.len() > 1 ==> p[p.len() - 1] != '/'
    &&& forall|i: int| 0 <= i < p.len() && #[trigger] p[i] == '/' ==> !dot_component_after(p, i)
}

/// The root path `/`.
pub open spec fn root_path() -> Seq<char> {
    seq!['/']
}

/// `p` lies below `base` as written: `base` is the root, or `p` is `base`,
/// or `p` continues `base` with a separator.
pub open spec fn textually_below(p: Seq<char>, base: Seq<char>) -> bool {
    ||| base == root_path()
    ||| p == base
    ||| p.len() > base.len() && p.subrange(0, base.len() as int) == base && p[base.len() as int] == '/'
}

/// What is left of `p` below `base` (where `p` lies below it): nothing for
/// `base` itself, otherwise the text after `base` and its separator.
pub open spec fn text_below(p: Seq<char>, base: Seq<char>) -> Seq<char> {
    if p == base {
        Seq::empty()
    } else if base == root_path() {
        p.subrange(1, p.len() as int)
    } else {
        p.subrange(base.len() + 1 as int, p.len() as int)
    }
}

/// The position of the last `/` in `p`, or -1.
pub open spec fn last_separator(p: Seq<char>) -> int
    decreases p.len(),
{
    if p.len() == 0 {
        -1
    } else if p.last() == '/' {
        p.len() - 1
    } else {
        last_separator(p.drop_last())
    }
}

/// Whether `p` ends in a `..` component written with `/`.
pub open spec fn ends_in_parent_dir(p: Seq<char>) -> bool {
    ||| p == seq!['.', '.']
    ||| p.len() >= 3 && p[p.len() - 3] == '/' && p[p.len() - 2] == '.' && p[p.len() - 1] == '.'
}

/// The view of an optional string.
pub open spec fn opt_view(o: Option<String>) -> Option<Seq<char>> {
    match o {
        Some(s) => Some(s@),
        None => None,
    }
}

/// `Path::join` (std). The result is named by `joined_path`. What counts as
/// an absolute `rel` that replaces `base`, and how a relative one is
/// adjoined, differ between platforms, so nothing more is said of it.
#[verifier::external_body]
pub(crate) fn path_join(base: &str, rel: &str) -> (r: String)
    ensures
        r@ == joined_path(base@, rel@),
{
    std::path::Path::new(base).join(rel).to_string_lossy().into_owned()
}

/// `Path::starts_with` (std): whether `base` is a prefix of `path`, comparing
/// whole components. Named by `path_has_prefix`. For plain rooted paths,
/// whose components are the texts between `/` (repeated separators,
/// trailing separators and `.` being what `Path::components` documents it
/// normalises, and none of them occurring), this is `textually_below`.
#[verifier::external_body]
pub(crate) fn path_starts_with(path: &str, base: &str) -> (r: bool)
    ensures
        r == path_has_prefix(path@, base@),
        plain_rooted_path(path@) && plain_rooted_path(base@) ==> r == textually_below(path@, base@),
{
    std::path::Path::new(path).starts_with(base)
}

/// `Path::strip_prefix` (std). As documented, it fails exactly when
/// `starts_with` is false; what it leaves otherwise is named by
/// `stripped_path`: the remaining components, which for plain rooted paths
/// are the text after `base` and its separator.
#[verifier::external_body]
pub(crate) fn path_strip_prefix(path: &str, base: &str) -> (r: Option<String>)
    ensures
        r is Some <==> path_has_prefix(path@, base@),
        r matches Some(s) ==> s@ == stripped_path(path@, base@),
        plain_rooted_path(path@) && plain_rooted_path(base@) ==> (r is Some <==> textually_below(
            path@,
            base@,
        )),
        plain_rooted_path(path@) && plain_rooted_path(base@) && textually_below(path@, base@) ==> (r
            is Some && r.unwrap()@ == text_below(path@, base@)),
{
    match std::path::Path::new(path).strip_prefix(base) {
        Ok(p) => Some(p.to_string_lossy().into_owned()),
        Err(_) => None,
    }
}

/// `Path::file_name` (std): the final component of `path`, if there is one.
/// Named by `final_component`. As documented, there is none where the path
/// ends in `..`; for a plain rooted path it is the text after the last `/`,
/// and the root has none.
#[verifier::external_body]
pub(crate) fn path_file_name(path: &str) -> (r: Option<String>)
    ensures
        opt_view(r) == final_component(path@),
        ends_in_parent_dir(path@) ==> r is None,
        plain_rooted_path(path@) ==> (if path@ == root_path() {
            r is None
        } else {
            r is Some && r.unwrap()@ == path@.subrange(last_separator(path@) + 1, path@.len() as int)
        }),
{
    match std::path::Path::new(path).file_name() {
        Some(n) => Some(n.to_string_lossy().into_owned()),
        None => None,
    }
}

/// `Path::parent` (std): `path` without its final component, if there is
/// one. Named by `parent_path`.
///
/// As documented, there is none for the empty path or the root; for a plain
/// rooted path it is the text before the last `/`, or the root where that
/// `/` is the first character.
#[verifier::external_body]
pub(crate) fn path_parent(path: &str) -> (r: Option<String>)
    ensures
        opt_view(r) == parent_path(path@),
        path@.len() == 0 ==> r is None,
        plain_rooted_path(path@) ==> (if path@ == root_path() {
            r is None
        } else if last_separator(path@) == 0 {
            r is Some && r.unwrap()@ == root_path()
        } else {
            r is Some && r.unwrap()@ == path@.subrange(0, last_separator(path@))
        }),
{
    match std::path::Path::new(path).parent() {
        Some(p) => Some(p.to_string_lossy().into_owned()),
        None => None,
    }
}

/// The kind of a directory entry, as the scanner and the download handlers
/// tell them apart.
#[derive(Clone, Copy, Debug, PartialEq, Eq, Structural)]
pub enum EntryKind {
    Symlink,
    Dir,
    File,
    Other,
}

/// A symbolic link counts as a link whatever it points to; otherwise a
/// directory, then a regular file; anything else is another kind.
pub open spec fn kind_of(is_symlink: bool, is_dir: bool, is_file: bool) -> EntryKind {
    if is_symlink {
        EntryKind::Symlink
    } else if is_dir {
        EntryKind::Dir
    } else if is_file {
        EntryKind::File
    } else {
        EntryKind::Other
    }
}

impl EntryKind {
    /// Classifies an entry from what the file system reports of it.
    pub fn classify(is_symlink: bool, is_dir: bool, is_file: bool) -> (r: EntryKind)
        ensures
            r == kind_of(is_symlink, is_dir, is_file),
    {
        if is_symlink {
            EntryKind::Symlink
        } else if is_dir {
            EntryKind::Dir
        } else if is_file {
            EntryKind::File
        } else {
            EntryKind::Other
        }
    }
}

/// Why the directory of the running program could not be found.
#[derive(Debug, PartialEq, Eq)]
pub enum ExeDirError {
    /// The program's own path could not be read; the text says why.
    CurrentExe(String),
    /// The program's path has no parent.
    NoParent,
    /// The program's directory is not valid UTF-8.
    NotUtf8,
}

impl ExeDirError {
    /// The message the error is reported with.
    pub fn message(&self) -> (r: String)
        ensures
            self matches ExeDirError::CurrentExe(e) ==> r@ == "get current_exe_path failed!, err: "@
                + e@,
            self is NoParent ==> r@ == "get exe_dir failed!"@,
            self is NotUtf8 ==> r@ == "convert exe_dir failed!"@,
    {
        match self {
            ExeDirError::CurrentExe(e) => {
                let mut s = String::from_str("get current_exe_path failed!, err: ");
                s.append(e.as_str());
                s
            },
            ExeDirError::NoParent => String::from_str("get exe_dir failed!"),
            ExeDirError::NotUtf8 => String::from_str("convert exe_dir failed!"),
        }
    }
}

/// The directory that holds the program whose path is `exe_path`: its
/// parent, or `NoParent` where the path has none.
pub fn exe_dir_of(exe_path: &str) -> (r: Result<String, ExeDirError>)
    ensures
        parent_path(exe_path@) is None ==> r == Err::<String, ExeDirError>(ExeDirError::NoParent),
        parent_path(exe_path@) matches Some(p) ==> (r matches Ok(d) && d@ == p),
        plain_rooted_path(exe_path@) ==> (if exe_path@ == root_path() {
            r is Err
        } else if last_separator(exe_path@) == 0 {
            r is Ok && r.unwrap()@ == root_path()
        } else {
            r is Ok && r.unwrap()@ == exe_path@.subrange(0, last_separator(exe_path@))
        }),
{
    match path_parent(exe_path) {
        Some(p) => Ok(p),
        None => Err(ExeDirError::NoParent),
    }
}

} // verus!
