//! How the file server answers download and sync requests: which path a
//! request names, and, from what the file system reports of that path,
//! what to send back.
use crate::pathops::{
    final_component, joined_path, plain_rooted_path, textually_below, kind_of, path_file_name, path_has_prefix, path_join,
    path_starts_with, path_strip_prefix, EntryKind,
};
use vstd::prelude::*;

verus! {

/// What the file system reports of a requested path.
pub struct PathFacts {
    /// Whether the path leads to something (following links).
    pub exists: bool,
    pub is_symlink: bool,
    pub is_dir: bool,
    pub is_file: bool,
}

/// A plain answer: an HTTP status and a text body.
#[derive(Debug)]
pub struct Reply {
    pub status: u16,
    pub body: String,
}

/// Whether `r` answers with `status` and the text `body`.
pub open spec fn is_reply(r: Reply, status: u16, body: Seq<char>) -> bool {
    r.status == status && r.body@ == body
}

fn reply(status: u16, body: &str) -> (r: Reply)
    ensures
        is_reply(r, status, body@),
{
    Reply { status, body: body.to_owned() }
}

/// The query of a download request: the file, relative to the served directory.
pub struct DownloadQuery {
    file: String,
}

/// The query of a sync request: the file, relative to the served directory.
pub struct SyncQuery {
    file: String,
}

impl DownloadQuery {
    pub closed spec fn spec_file(&self) -> Seq<char> {
        self.file@
    }

    pub fn new(file: String) -> (r: Self)
        ensures
            r.spec_file() == file@,
    {
        DownloadQuery { file }
    }

    pub fn file(&self) -> (r: &str)
        ensures
            r@ == self.spec_file(),
    {
        self.file.as_str()
    }

    /// The path the request names: the requested file joined onto `base`.
    pub fn target_path(&self, base: &str) -> (r: String)
        ensures
            r@ == joined_path(base@, self.spec_file()),
    {
        path_join(base, self.file.as_str())
    }
}

impl SyncQuery {
    pub closed spec fn spec_file(&self) -> Seq<char> {
        self.file@
    }

    pub fn new(file: String) -> (r: Self)
        ensures
            r.spec_file() == file@,
    {
        SyncQuery { file }
    }

    pub fn file(&self) -> (r: &str)
        ensures
            r@ == self.spec_file(),
    {
        self.file.as_str()
    }

    /// The path the request names: the requested file joined onto `base`.
    pub fn target_path(&self, base: &str) -> (r: String)
        ensures
            r@ == joined_path(base@, self.spec_file()),
    {
        path_join(base, self.file.as_str())
    }
}

/// The next step of answering a download.
pub enum DownloadStep {
    /// Answer with this text.
    Reply(Reply),
    /// The path is a symbolic link: read where it points and answer with that.
    SendLinkTarget,
    /// The path is a regular file: send its bytes as an attachment named `filename`.
    SendFile { filename: String },
}

/// How a download of `path` from below `base` proceeds. A path not below
/// `base` or that does not exist is not found; one without a final name is
/// not found either; a directory is refused; a link is answered with its
/// target and a regular file with its contents.
pub open spec fn download_plan(
    base: Seq<char>,
    path: Seq<char>,
    facts: PathFacts,
    step: DownloadStep,
) -> bool {
    if !path_has_prefix(path, base) {
        step matches DownloadStep::Reply(r) && is_reply(r, 404, "err: 1"@)
    } else if !facts.exists {
        step matches DownloadStep::Reply(r) && is_reply(r, 404, "err: 2"@)
    } else {
        match final_component(path) {
            None => step matches DownloadStep::Reply(r) && is_reply(r, 404, "err: 4"@),
            Some(name) => match kind_of(facts.is_symlink, facts.is_dir, facts.is_file) {
                EntryKind::Symlink => step is SendLinkTarget,
                EntryKind::Dir => step matches DownloadStep::Reply(r) && is_reply(r, 400, "is dir"@),
                EntryKind::File => step matches DownloadStep::SendFile { filename } && filename@ == name,
                EntryKind::Other => step matches DownloadStep::Reply(r) && is_reply(
                    r,
                    400,
                    "unexpect type"@,
                ),
            },
        }
    }
}

/// The first decision on a download of `path`, before anything is asked of
/// the file system: a path whose components do not begin with those of
/// `base` is not found at once (`Some`); otherwise the answer depends on
/// what the file system reports (`None`, go on with `download_step`).
pub fn download_precheck(base: &str, path: &str) -> (r: Option<Reply>)
    ensures
        r is Some <==> !path_has_prefix(path@, base@),
        r matches Some(rep) ==> is_reply(rep, 404, "err: 1"@),
        plain_rooted_path(path@) && plain_rooted_path(base@) ==> (r is Some <==> !textually_below(
            path@,
            base@,
        )),
{
    if !path_starts_with(path, base) {
        Some(reply(404, "err: 1"))
    } else {
        None
    }
}

/// Decides how to answer a download of `path` (the request's target path)
/// from the directory `base`, given what the file system reports of `path`.
pub fn download_step(base: &str, path: &str, facts: &PathFacts) -> (r: DownloadStep)
    ensures
        download_plan(base@, path@, *facts, r),
        plain_rooted_path(path@) && plain_rooted_path(base@) && !textually_below(path@, base@) ==> (r matches DownloadStep::Reply(rep) && is_reply(rep, 404, "err: 1"@)),
        // Below the directory, existing and named: a link is answered with
        // its target whatever it points to; otherwise a directory is
        // refused, a regular file is sent under its final name, and anything
        // else is refused.
        path_has_prefix(path@, base@) && facts.exists && final_component(path@) is Some && facts.is_symlink
            ==> r is SendLinkTarget,
        path_has_prefix(path@, base@) && facts.exists && final_component(path@) is Some && !facts.is_symlink
            && facts.is_dir ==> (r matches DownloadStep::Reply(rep) && is_reply(rep, 400, "is dir"@)),
        path_has_prefix(path@, base@) && facts.exists && final_component(path@) is Some && !facts.is_symlink
            && !facts.is_dir && facts.is_file ==> (r matches DownloadStep::SendFile { filename } && Some(
            filename@,
        ) == final_component(path@)),
        path_has_prefix(path@, base@) && facts.exists && final_component(path@) is Some && !facts.is_symlink
            && !facts.is_dir && !facts.is_file ==> (r matches DownloadStep::Reply(rep) && is_reply(
            rep,
            400,
            "unexpect type"@,
        )),
        // Outside the directory, missing, or without a final name: not found.
        !path_has_prefix(path@, base@) ==> (r matches DownloadStep::Reply(rep) && is_reply(rep, 404, "err: 1"@)),
        path_has_prefix(path@, base@) && !facts.exists ==> (r matches DownloadStep::Reply(rep) && is_reply(
            rep,
            404,
            "err: 2"@,
        )),
        path_has_prefix(path@, base@) && facts.exists && final_component(path@) is None ==> (r matches DownloadStep::Reply(rep) && is_reply(rep, 404, "err: 4"@)),
{
    if !path_starts_with(path, base) {
        return DownloadStep::Reply(reply(404, "err: 1"));
    }
    if !facts.exists {
        return DownloadStep::Reply(reply(404, "err: 2"));
    }
    match path_strip_prefix(path, base) {
        Some(_) => {},
        None => {
            return DownloadStep::Reply(reply(404, "err: 3"));
        },
    }
    let filename = match path_file_name(path) {
        Some(n) => n,
        None => {
            return DownloadStep::Reply(reply(404, "err: 4"));
        },
    };
    match EntryKind::classify(facts.is_symlink, facts.is_dir, facts.is_file) {
        EntryKind::Symlink => DownloadStep::SendLinkTarget,
        EntryKind::Dir => DownloadStep::Reply(reply(400, "is dir")),
        EntryKind::File => DownloadStep::SendFile { filename },
        EntryKind::Other => DownloadStep::Reply(reply(400, "unexpect type")),
    }
}

/// The answer for a link whose target reads as `target` (`None` where the
/// link could not be read or its target is not UTF-8).
pub fn link_target_reply(target: Option<String>) -> (r: Reply)
    ensures
        target matches Some(t) ==> is_reply(r, 200, t@),
        target is None ==> is_reply(r, 500, "read symlink error"@),
{
    match target {
        Some(t) => Reply { status: 200, body: t },
        None => reply(500, "read symlink error"),
    }
}

/// The answer when the file to send could not be opened.
pub fn open_failed_reply() -> (r: Reply)
    ensures
        is_reply(r, 500, "err: 1001"@),
{
    reply(500, "err: 1001")
}

/// Whether the `http` crate accepts `bytes` as a header value: every byte is
/// a tab, or at least 32 and not 127.
pub open spec fn header_bytes_valid(bytes: Seq<u8>) -> bool {
    forall|i: int| 0 <= i < bytes.len() ==> #[trigger] bytes[i] == 9 || (bytes[i] >= 32 && bytes[i] != 127)
}

/// `HeaderValue::from_str` (http crate, as re-exported by axum): succeeds
/// exactly when every byte of the text is a tab, or at least 32 and not 127
/// (its `try_from_generic` tests each byte with `is_valid`).
#[verifier::external_body]
fn header_value_accepts(text: &str) -> (r: bool)
    ensures
        r == header_bytes_valid(vstd::utf8::encode_utf8(text@)),
{
    axum::http::HeaderValue::from_str(text).is_ok()
}

/// The `Content-Disposition` text that sends the file as the attachment
/// `filename`, or, where a header cannot carry that text, the answer 500
/// "err: 1002".
pub fn attachment_header(filename: &str) -> (r: Result<String, Reply>)
    ensures
        ({
            let text = "attachment; filename=\""@ + filename@ + "\""@;
            &&& header_bytes_valid(vstd::utf8::encode_utf8(text)) ==> (r matches Ok(t) && t@ == text)
            &&& !header_bytes_valid(vstd::utf8::encode_utf8(text)) ==> (r matches Err(rep) && is_reply(
                rep,
                500,
                "err: 1002"@,
            ))
        }),
{
    let text = attachment_header_text(filename);
    if header_value_accepts(text.as_str()) {
        Ok(text)
    } else {
        Err(header_rejected_reply())
    }
}

/// The answer when the attachment header cannot carry the file's name.
pub fn header_rejected_reply() -> (r: Reply)
    ensures
        is_reply(r, 500, "err: 1002"@),
{
    reply(500, "err: 1002")
}

/// The `Content-Disposition` text that sends a file as the attachment `filename`.
pub fn attachment_header_text(filename: &str) -> (r: String)
    ensures
        r@ == "attachment; filename=\""@ + filename@ + "\""@,
{
    let mut s = String::from_str("attachment; filename=\"");
    s.append(filename);
    s.append("\"");
    s
}

/// The next step of answering a sync request (the older protocol, which
/// answers with bare bytes and an empty body for anything it cannot send).
#[derive(Clone, Copy, Debug, PartialEq, Eq, Structural)]
pub enum SyncStep {
    /// Answer with no bytes.
    Empty,
    /// Answer with the bytes of the link's target.
    SendLinkTarget,
    /// Answer with the file's bytes.
    SendFile,
}

/// How a sync of `path` from below `base` proceeds: only an existing path
/// below `base` is sent, a link as its target, a regular file as its bytes.
pub open spec fn sync_plan(base: Seq<char>, path: Seq<char>, facts: PathFacts) -> SyncStep {
    if facts.exists && path_has_prefix(path, base) {
        match kind_of(facts.is_symlink, facts.is_dir, facts.is_file) {
            EntryKind::Symlink => SyncStep::SendLinkTarget,
            EntryKind::File => SyncStep::SendFile,
            _ => SyncStep::Empty,
        }
    } else {
        SyncStep::Empty
    }
}

/// Whether a sync of `path` may go on to ask the file system about it:
/// only when its components begin with those of `base`.
pub fn sync_precheck(base: &str, path: &str) -> (r: bool)
    ensures
        r == path_has_prefix(path@, base@),
        !r ==> forall|facts: PathFacts| sync_plan(base@, path@, facts) == SyncStep::Empty,
        plain_rooted_path(path@) && plain_rooted_path(base@) ==> r == textually_below(path@, base@),
{
    path_starts_with(path, base)
}

/// Decides how to answer a sync of `path` from the directory `base`.
pub fn sync_step(base: &str, path: &str, facts: &PathFacts) -> (r: SyncStep)
    ensures
        r == sync_plan(base@, path@, *facts),
        plain_rooted_path(path@) && plain_rooted_path(base@) && !textually_below(path@, base@) ==> r
            == SyncStep::Empty,
        // Only an existing path below the directory is sent: a link (whatever
        // it points to) as its target, a regular file that is neither a link
        // nor a directory as its bytes; anything else gives nothing.
        r == SyncStep::SendLinkTarget <==> (facts.exists && path_has_prefix(path@, base@) && facts.is_symlink),
        r == SyncStep::SendFile <==> (facts.exists && path_has_prefix(path@, base@) && !facts.is_symlink
            && !facts.is_dir && facts.is_file),
        r == SyncStep::Empty <==> !(facts.exists && path_has_prefix(path@, base@) && (facts.is_symlink || (
        !facts.is_dir && facts.is_file))),
{
    if facts.exists {
        if path_starts_with(path, base) {
            match EntryKind::classify(facts.is_symlink, facts.is_dir, facts.is_file) {
                EntryKind::Symlink => {
                    return SyncStep::SendLinkTarget;
                },
                EntryKind::Dir => {
                    return SyncStep::Empty;
                },
                EntryKind::File => {
                    return SyncStep::SendFile;
                },
                EntryKind::Other => {
                    return SyncStep::Empty;
                },
            }
        }
    }
    SyncStep::Empty
}

/// The bytes a sync answers for a link whose target reads as `target`: the
/// target's UTF-8 bytes, or nothing where it could not be read.
pub fn link_target_bytes(target: Option<String>) -> (r: Vec<u8>)
    ensures
        target matches Some(t) ==> r@ == vstd::utf8::encode_utf8(t@),
        target is None ==> r@.len() == 0,
{
    match target {
        Some(t) => t.as_str().as_bytes_vec(),
        None => Vec::new(),
    }
}

/// A download or a sync of a path whose components do not begin with those
/// of the served directory is refused whatever the file system reports:
/// the download is answered with a reply, the sync with nothing. (The test
/// compares components as written: a `..` component is not resolved.)
pub proof fn lemma_outside_paths_refused(
    base: Seq<char>,
    path: Seq<char>,
    facts: PathFacts,
    step: DownloadStep,
)
    requires
        !path_has_prefix(path, base),
        download_plan(base, path, facts, step),
    ensures
        step is Reply,
        sync_plan(base, path, facts) == SyncStep::Empty,
{
}

/// Whatever else the file system reports, a symbolic link below the
/// directory is answered with its target, by a download and by a sync alike.
pub proof fn lemma_links_answered_with_target(
    base: Seq<char>,
    path: Seq<char>,
    facts: PathFacts,
    step: DownloadStep,
)
    requires
        path_has_prefix(path, base),
        facts.exists,
        facts.is_symlink,
        final_component(path) is Some,
        download_plan(base, path, facts, step),
    ensures
        step is SendLinkTarget,
        sync_plan(base, path, facts) == SyncStep::SendLinkTarget,
{
}

/// A sync sends the bytes of exactly the existing regular files below the
/// directory that are not links or directories, and the target of exactly
/// the links below it; everything else gives nothing.
pub proof fn lemma_sync_by_facts(base: Seq<char>, path: Seq<char>, facts: PathFacts)
    ensures
        sync_plan(base, path, facts) == SyncStep::SendLinkTarget <==> (facts.exists && path_has_prefix(path, base)
            && facts.is_symlink),
        sync_plan(base, path, facts) == SyncStep::SendFile <==> (facts.exists && path_has_prefix(path, base)
            && !facts.is_symlink && !facts.is_dir && facts.is_file),
{
}

/// A download of an existing, named path below the directory goes by the
/// facts: a link first, then a directory, then a regular file.
pub proof fn lemma_download_by_facts(base: Seq<char>, path: Seq<char>, facts: PathFacts, step: DownloadStep)
    requires
        path_has_prefix(path, base),
        facts.exists,
        final_component(path) is Some,
        download_plan(base, path, facts, step),
    ensures
        facts.is_symlink <==> step is SendLinkTarget,
        step is SendFile <==> (!facts.is_symlink && !facts.is_dir && facts.is_file),
        step matches DownloadStep::SendFile { filename } ==> Some(filename@) == final_component(path),
        !facts.is_symlink && facts.is_dir ==> (step matches DownloadStep::Reply(r) && r.status == 400),
{
}

} // verus!
