//! The directory scanner: how each walked entry becomes a line of the file
//! list, and when the background worker rescans.
use crate::data::{FileInfo, FileInfoView, FileType, ServerStatus};
use crate::digest::{md5_digest, md5_hex};
use crate::pathops::{
    kind_of, path_has_prefix, path_strip_prefix, plain_rooted_path, stripped_path, text_below, textually_below,
    EntryKind,
};
use crate::text::hex_text;
use vstd::prelude::*;

verus! {

/// Why a scan stopped.
#[derive(Clone, Copy, Debug, PartialEq, Eq, Structural)]
pub enum Error {
    ScanError,
}

/// One entry met while walking the scanned directory, with what the file
/// system reported of it.
pub struct ScanEntry {
    /// The entry's full path.
    pub path: String,
    pub is_symlink: bool,
    pub is_dir: bool,
    pub is_file: bool,
    /// The length the entry's metadata reports.
    pub size: u64,
    /// The file's bytes, for a regular file; `None` where they could not be read.
    pub content: Option<Vec<u8>>,
}

/// The list line for an entry at `rel` of kind `kind`, if the kind is listed.
pub open spec fn listed_entry(
    rel: Seq<char>,
    kind: EntryKind,
    size: u64,
    content: Option<Seq<u8>>,
) -> Option<FileInfoView> {
    match kind {
        EntryKind::Symlink => Some(
            FileInfoView { relative_path: rel, file_type: FileType::Symlink, size, hash: Seq::empty() },
        ),
        EntryKind::Dir => Some(
            FileInfoView { relative_path: rel, file_type: FileType::Dir, size: 0, hash: Seq::empty() },
        ),
        EntryKind::File => match content {
            Some(c) => Some(
                FileInfoView {
                    relative_path: rel,
                    file_type: FileType::File,
                    size,
                    hash: hex_text(md5_digest(c)),
                },
            ),
            None => None,
        },
        EntryKind::Other => None,
    }
}

/// A walked entry as plain values.
pub struct ScanEntryView {
    pub path: Seq<char>,
    pub is_symlink: bool,
    pub is_dir: bool,
    pub is_file: bool,
    pub size: u64,
    pub content: Option<Seq<u8>>,
}

impl View for ScanEntry {
    type V = ScanEntryView;

    open spec fn view(&self) -> ScanEntryView {
        ScanEntryView {
            path: self.path@,
            is_symlink: self.is_symlink,
            is_dir: self.is_dir,
            is_file: self.is_file,
            size: self.size,
            content: match self.content {
                Some(c) => Some(c@),
                None => None,
            },
        }
    }
}

/// What one walked entry `e` contributes to the listing of the directory
/// `base`: nothing for the directory itself; a failed scan for an entry not
/// below it or a regular file whose bytes could not be read; otherwise the
/// entry's list line, if its kind is listed.
pub open spec fn entry_outcome(base: Seq<char>, e: ScanEntryView) -> Result<Option<FileInfoView>, Error> {
    let kind = kind_of(e.is_symlink, e.is_dir, e.is_file);
    if e.path == base {
        Ok(None)
    } else if !path_has_prefix(e.path, base) {
        Err(Error::ScanError)
    } else if kind == EntryKind::File && e.content is None {
        Err(Error::ScanError)
    } else {
        Ok(listed_entry(stripped_path(e.path, base), kind, e.size, e.content))
    }
}

/// The result of scanning one entry, as plain values.
pub open spec fn outcome_view(r: Result<Option<FileInfo>, Error>) -> Result<Option<FileInfoView>, Error> {
    match r {
        Ok(Some(f)) => Ok(Some(f@)),
        Ok(None) => Ok(None),
        Err(e) => Err(e),
    }
}

/// The views of a list of file entries.
pub open spec fn file_views(files: Seq<FileInfo>) -> Seq<FileInfoView> {
    files.map_values(|f: FileInfo| f@)
}

/// The listing a walk over `entries` (in walk order) gives: the list lines
/// of the entries in that order, or the first failure.
pub open spec fn walk_listing(base: Seq<char>, entries: Seq<ScanEntryView>) -> Result<Seq<FileInfoView>, Error>
    decreases entries.len(),
{
    if entries.len() == 0 {
        Ok(Seq::empty())
    } else {
        match walk_listing(base, entries.drop_last()) {
            Err(e) => Err(e),
            Ok(listing) => match entry_outcome(base, entries.last()) {
                Err(e) => Err(e),
                Ok(None) => Ok(listing),
                Ok(Some(f)) => Ok(listing.push(f)),
            },
        }
    }
}

/// One step of a walk: once the listing holds what the entries walked so far
/// give, adding the next entry's outcome gives the listing of the longer walk.
pub proof fn lemma_walk_step(base: Seq<char>, entries: Seq<ScanEntryView>, e: ScanEntryView)
    ensures
        walk_listing(base, entries.push(e)) == match walk_listing(base, entries) {
            Err(x) => Err(x),
            Ok(listing) => match entry_outcome(base, e) {
                Err(x) => Err(x),
                Ok(None) => Ok(listing),
                Ok(Some(f)) => Ok(listing.push(f)),
            },
        },
{
    assert(entries.push(e).drop_last() =~= entries);
}

/// A failure is final: once some walked entry fails the scan, no later
/// entry can rescue it.
pub proof fn lemma_walk_failure_sticks(base: Seq<char>, entries: Seq<ScanEntryView>, more: Seq<ScanEntryView>)
    requires
        walk_listing(base, entries) is Err,
    ensures
        walk_listing(base, entries + more) == walk_listing(base, entries),
    decreases more.len(),
{
    if more.len() == 0 {
        assert(entries + more =~= entries);
    } else {
        lemma_walk_failure_sticks(base, entries, more.drop_last());
        assert((entries + more).drop_last() =~= entries + more.drop_last());
    }
}

/// Walks a directory and lists what it holds.
pub struct Scanner {
    base_path: String,
}

impl Scanner {
    /// The directory whose contents the scanner lists.
    pub closed spec fn spec_base_path(&self) -> Seq<char> {
        self.base_path@
    }

    pub fn new() -> (r: Self)
        ensures
            r.spec_base_path() == Seq::<char>::empty(),
    {
        Scanner { base_path: String::new() }
    }

    pub fn set_base_path(&mut self, base_path: &str)
        ensures
            final(self).spec_base_path() == base_path@,
    {
        self.base_path = base_path.to_owned();
    }

    pub fn base_path(&self) -> (r: &str)
        ensures
            r@ == self.spec_base_path(),
    {
        self.base_path.as_str()
    }

    /// What one walked entry contributes to the file list. The directory
    /// itself is not listed (`Ok(None)`); an entry that is not below it, or a
    /// regular file that could not be read, stops the scan; a symbolic link,
    /// a directory or a regular file is listed by its path relative to the
    /// directory; other kinds are passed over.
    pub fn scan_entry(&self, entry: &ScanEntry) -> (r: Result<Option<FileInfo>, Error>)
        ensures
            outcome_view(r) == entry_outcome(self.spec_base_path(), entry@),
            // A readable regular file below the directory is listed with the
            // MD5 of the whole of its contents.
            entry.path@ != self.spec_base_path() && path_has_prefix(entry.path@, self.spec_base_path())
                && !entry.is_symlink && !entry.is_dir && entry.is_file && entry.content is Some ==> (r matches Ok(
                Some(f),
            ) && f.file_type == FileType::File && f.size == entry.size && f.relative_path@ == stripped_path(
                entry.path@,
                self.spec_base_path(),
            ) && f.hash@ == hex_text(md5_digest(entry.content.unwrap()@))),
            // An unreadable regular file fails the scan.
            entry.path@ != self.spec_base_path() && path_has_prefix(entry.path@, self.spec_base_path())
                && !entry.is_symlink && !entry.is_dir && entry.is_file && entry.content is None ==> r is Err,
            // A link is listed as a link, with its own size and no hash.
            entry.path@ != self.spec_base_path() && path_has_prefix(entry.path@, self.spec_base_path())
                && entry.is_symlink ==> (r matches Ok(Some(f)) && f.file_type == FileType::Symlink && f.size
                == entry.size && f.hash@.len() == 0 && f.relative_path@ == stripped_path(
                entry.path@,
                self.spec_base_path(),
            )),
            // A directory is listed as a directory, of size 0 and no hash.
            entry.path@ != self.spec_base_path() && path_has_prefix(entry.path@, self.spec_base_path())
                && !entry.is_symlink && entry.is_dir ==> (r matches Ok(Some(f)) && f.file_type == FileType::Dir
                && f.size == 0 && f.hash@.len() == 0 && f.relative_path@ == stripped_path(
                entry.path@,
                self.spec_base_path(),
            )),
            // Anything else below the directory is passed over.
            entry.path@ != self.spec_base_path() && path_has_prefix(entry.path@, self.spec_base_path())
                && !entry.is_symlink && !entry.is_dir && !entry.is_file ==> r matches Ok(None),
            // The directory itself is not listed; what is not below it fails.
            entry.path@ == self.spec_base_path() ==> r matches Ok(None),
            entry.path@ != self.spec_base_path() && !path_has_prefix(entry.path@, self.spec_base_path())
                ==> r is Err,
            plain_rooted_path(entry.path@) && plain_rooted_path(self.spec_base_path()) ==> {
                &&& !textually_below(entry.path@, self.spec_base_path()) ==> r is Err
                &&& (r matches Ok(Some(f)) ==> f.relative_path@ == text_below(
                    entry.path@,
                    self.spec_base_path(),
                ))
            },
    {
        if entry.path == self.base_path {
            return Ok(None);
        }
        let rel = match path_strip_prefix(entry.path.as_str(), self.base_path.as_str()) {
            Some(p) => p,
            None => {
                return Err(Error::ScanError);
            },
        };
        let kind = EntryKind::classify(entry.is_symlink, entry.is_dir, entry.is_file);
        match kind {
            EntryKind::Symlink => {
                Ok(Some(FileInfo { relative_path: rel, file_type: FileType::Symlink, size: entry.size, hash: String::new() }))
            },
            EntryKind::Dir => {
                Ok(Some(FileInfo { relative_path: rel, file_type: FileType::Dir, size: 0, hash: String::new() }))
            },
            EntryKind::File => {
                match &entry.content {
                    Some(c) => {
                        let hash = md5_hex(c.as_slice());
                        Ok(Some(FileInfo { relative_path: rel, file_type: FileType::File, size: entry.size, hash }))
                    },
                    None => Err(Error::ScanError),
                }
            },
            EntryKind::Other => Ok(None),
        }
    }

    /// Adds what one walked entry contributes to `files`, the listing so
    /// far: its list line, if any, at the end. On a failure `files` is left
    /// as it was and the failure is returned.
    pub fn add_entry(&self, files: &mut Vec<FileInfo>, entry: &ScanEntry) -> (r: Result<(), Error>)
        ensures
            match entry_outcome(self.spec_base_path(), entry@) {
                Err(e) => r == Err::<(), Error>(e) && final(files)@ == old(files)@,
                Ok(None) => r is Ok && final(files)@ == old(files)@,
                Ok(Some(f)) => r is Ok && file_views(final(files)@) == file_views(old(files)@).push(f),
            },
    {
        match self.scan_entry(entry) {
            Ok(Some(f)) => {
                files.push(f);
                assert(file_views(files@) =~= file_views(old(files)@).push(files@.last()@));
                Ok(())
            },
            Ok(None) => Ok(()),
            Err(e) => Err(e),
        }
    }
}

/// What the scan worker does next.
#[derive(Clone, Copy, Debug, PartialEq, Eq, Structural)]
pub enum WorkerAction {
    /// The server is not running: mark the scan as waiting, then pause.
    Rest,
    /// Scan now, then pause.
    Scan,
    /// Wait until the directory changes, then mark the scan as waiting, let
    /// the changes settle, scan, and pause.
    AwaitChange,
}

/// Where the scan worker is within a round.
#[derive(Clone, Copy, Debug, PartialEq, Eq, Structural)]
pub enum WorkerPhase {
    /// At the start of a round, about to look at the server's status.
    Round,
    /// Waiting for the directory to change, polling the server's status.
    AwaitingChange,
    /// The directory changed: waiting until changes stop coming.
    Settling,
}

/// What the scan worker learns.
#[derive(Clone, Copy, Debug, PartialEq, Eq, Structural)]
pub enum WorkerEvent {
    /// A round starts and the server shows this status.
    Round(ServerStatus),
    /// Waiting for a change, a poll interval passed without one; the server
    /// shows this status.
    PollTimeout(ServerStatus),
    /// The directory changed.
    Changed,
    /// No change came for a settling interval.
    Quiet,
}

/// What the scan worker does on an event.
#[derive(Clone, Copy, Debug, PartialEq, Eq, Structural)]
pub enum WorkerStep {
    /// Mark the scan as waiting, then pause before the next round.
    Rest,
    /// Scan, then pause before the next round.
    Scan,
    /// Wait (one poll interval at a time) for the directory to change.
    AwaitChange,
    /// Go on waiting for a change.
    KeepWaiting,
    /// Give up waiting and start the next round at once.
    Restart,
    /// Mark the scan as waiting, then wait for the changes to settle.
    MarkWaitAndSettle,
    /// Go on waiting for the changes to settle.
    Settle,
    /// The event does not belong to this phase: nothing happens.
    Ignore,
}

/// The scan worker's memory: whether the directory has been scanned since
/// the server last started, and where it is within a round.
pub struct ScanWorker {
    pub is_check: bool,
    pub phase: WorkerPhase,
}

/// The worker's memory after `event` and what it does, given its memory
/// before. A round starts as `worker_action` decides; waiting for a change,
/// it gives up once the server stops and settles once the directory
/// changes; settling, each further change prolongs it, and quiet ends it
/// with a scan.
pub open spec fn worker_step(is_check: bool, phase: WorkerPhase, event: WorkerEvent) -> (
    bool,
    WorkerPhase,
    WorkerStep,
) {
    match (phase, event) {
        (WorkerPhase::Round, WorkerEvent::Round(status)) => match worker_action(is_check, status) {
            WorkerAction::Rest => (false, WorkerPhase::Round, WorkerStep::Rest),
            WorkerAction::Scan => (true, WorkerPhase::Round, WorkerStep::Scan),
            WorkerAction::AwaitChange => (true, WorkerPhase::AwaitingChange, WorkerStep::AwaitChange),
        },
        (WorkerPhase::AwaitingChange, WorkerEvent::PollTimeout(status)) => if keeps_waiting(status) {
            (is_check, WorkerPhase::AwaitingChange, WorkerStep::KeepWaiting)
        } else {
            (is_check, WorkerPhase::Round, WorkerStep::Restart)
        },
        (WorkerPhase::AwaitingChange, WorkerEvent::Changed) => (
            is_check,
            WorkerPhase::Settling,
            WorkerStep::MarkWaitAndSettle,
        ),
        (WorkerPhase::Settling, WorkerEvent::Changed) => (is_check, WorkerPhase::Settling, WorkerStep::Settle),
        (WorkerPhase::Settling, WorkerEvent::Quiet) => (true, WorkerPhase::Round, WorkerStep::Scan),
        _ => (is_check, phase, WorkerStep::Ignore),
    }
}

/// The worker's memory after a sequence of events, and what it did on each.
pub open spec fn worker_run(is_check: bool, phase: WorkerPhase, events: Seq<WorkerEvent>) -> (
    bool,
    WorkerPhase,
    Seq<WorkerStep>,
)
    decreases events.len(),
{
    if events.len() == 0 {
        (is_check, phase, Seq::empty())
    } else {
        let first = worker_step(is_check, phase, events[0]);
        let rest = worker_run(first.0, first.1, events.drop_first());
        (rest.0, rest.1, seq![first.2] + rest.2)
    }
}

/// `n` changes in a row.
pub open spec fn changes(n: nat) -> Seq<WorkerEvent> {
    Seq::new(n, |i: int| WorkerEvent::Changed)
}

/// `n` settling steps in a row.
pub open spec fn settles(n: nat) -> Seq<WorkerStep> {
    Seq::new(n, |i: int| WorkerStep::Settle)
}

/// The action for a round that sees `status`, given whether a scan has
/// already been made since the server started.
pub open spec fn worker_action(is_check: bool, status: ServerStatus) -> WorkerAction {
    if status == ServerStatus::Started {
        if is_check {
            WorkerAction::AwaitChange
        } else {
            WorkerAction::Scan
        }
    } else {
        WorkerAction::Rest
    }
}

/// Whether, waiting for a change, the worker keeps waiting when the server
/// shows `status` (it gives up once the server is stopping or stopped).
pub open spec fn keeps_waiting(status: ServerStatus) -> bool {
    !(status == ServerStatus::Stopping || status == ServerStatus::Stopped)
}

impl ScanWorker {
    pub fn new() -> (r: Self)
        ensures
            !r.is_check,
            r.phase == WorkerPhase::Round,
    {
        ScanWorker { is_check: false, phase: WorkerPhase::Round }
    }

    /// Moves the worker on by one event and says what to do.
    pub fn on_event(&mut self, event: WorkerEvent) -> (r: WorkerStep)
        ensures
            (final(self).is_check, final(self).phase, r) == worker_step(
                old(self).is_check,
                old(self).phase,
                event,
            ),
            // A round: the first after the server started scans, later ones
            // wait for a change; while the server does not run the worker
            // rests and forgets its first scan.
            old(self).phase == WorkerPhase::Round && event == WorkerEvent::Round(ServerStatus::Started)
                && !old(self).is_check ==> r == WorkerStep::Scan && final(self).is_check && final(self).phase
                == WorkerPhase::Round,
            old(self).phase == WorkerPhase::Round && event == WorkerEvent::Round(ServerStatus::Started)
                && old(self).is_check ==> r == WorkerStep::AwaitChange && final(self).phase
                == WorkerPhase::AwaitingChange,
            forall|s: ServerStatus|
                old(self).phase == WorkerPhase::Round && event == WorkerEvent::Round(s) && s
                    != ServerStatus::Started ==> r == WorkerStep::Rest && !final(self).is_check
                    && final(self).phase == WorkerPhase::Round,
            // Waiting for a change, a poll gives up exactly when the server
            // is stopping or stopped.
            forall|s: ServerStatus|
                old(self).phase == WorkerPhase::AwaitingChange && event == WorkerEvent::PollTimeout(s) ==> {
                    &&& (r == WorkerStep::Restart <==> (s == ServerStatus::Stopping || s == ServerStatus::Stopped))
                    &&& (r == WorkerStep::Restart ==> final(self).phase == WorkerPhase::Round)
                    &&& (r != WorkerStep::Restart ==> r == WorkerStep::KeepWaiting && final(self).phase
                        == WorkerPhase::AwaitingChange)
                },
            // A change starts the settling; further changes prolong it; quiet
            // ends it with a scan.
            old(self).phase == WorkerPhase::AwaitingChange && event == WorkerEvent::Changed ==> r
                == WorkerStep::MarkWaitAndSettle && final(self).phase == WorkerPhase::Settling,
            old(self).phase == WorkerPhase::Settling && event == WorkerEvent::Changed ==> r == WorkerStep::Settle
                && final(self).phase == WorkerPhase::Settling,
            old(self).phase == WorkerPhase::Settling && event == WorkerEvent::Quiet ==> r == WorkerStep::Scan
                && final(self).phase == WorkerPhase::Round,
    {
        match (self.phase, event) {
            (WorkerPhase::Round, WorkerEvent::Round(status)) => match self.next_action(status) {
                WorkerAction::Rest => WorkerStep::Rest,
                WorkerAction::Scan => WorkerStep::Scan,
                WorkerAction::AwaitChange => {
                    self.phase = WorkerPhase::AwaitingChange;
                    WorkerStep::AwaitChange
                },
            },
            (WorkerPhase::AwaitingChange, WorkerEvent::PollTimeout(status)) => {
                if ScanWorker::keep_waiting(status) {
                    WorkerStep::KeepWaiting
                } else {
                    self.phase = WorkerPhase::Round;
                    WorkerStep::Restart
                }
            },
            (WorkerPhase::AwaitingChange, WorkerEvent::Changed) => {
                self.phase = WorkerPhase::Settling;
                WorkerStep::MarkWaitAndSettle
            },
            (WorkerPhase::Settling, WorkerEvent::Changed) => WorkerStep::Settle,
            (WorkerPhase::Settling, WorkerEvent::Quiet) => {
                self.is_check = true;
                self.phase = WorkerPhase::Round;
                WorkerStep::Scan
            },
            _ => WorkerStep::Ignore,
        }
    }

    /// Decides a round from the server's status. A first round after the
    /// server started scans at once; later rounds wait for a change; while
    /// the server does not run, the worker rests and forgets its first scan.
    pub fn next_action(&mut self, status: ServerStatus) -> (r: WorkerAction)
        ensures
            r == worker_action(old(self).is_check, status),
            final(self).is_check == (status == ServerStatus::Started),
            final(self).phase == old(self).phase,
    {
        match status {
            ServerStatus::Started => {
                if self.is_check {
                    WorkerAction::AwaitChange
                } else {
                    self.is_check = true;
                    WorkerAction::Scan
                }
            },
            _ => {
                self.is_check = false;
                WorkerAction::Rest
            },
        }
    }

    /// Whether to keep waiting for a change when the server shows `status`.
    pub fn keep_waiting(status: ServerStatus) -> (r: bool)
        ensures
            r == keeps_waiting(status),
    {
        match status {
            ServerStatus::Stopping | ServerStatus::Stopped => false,
            _ => true,
        }
    }
}

/// The worker scans only while the server is started, and it never waits
/// for a change before it has scanned once since the server started.
pub proof fn lemma_worker_scans_only_when_started(is_check: bool, status: ServerStatus)
    ensures
        worker_action(is_check, status) != WorkerAction::Rest ==> status == ServerStatus::Started,
        worker_action(is_check, status) == WorkerAction::AwaitChange ==> is_check,
        worker_action(false, ServerStatus::Started) == WorkerAction::Scan,
{
}

/// A scan follows a burst of changes exactly once: waiting for a change,
/// the first change marks the scan as waiting, each further change within
/// the settling interval only prolongs the wait, and the quiet that ends
/// the burst brings the one scan, after which a new round begins.
pub proof fn lemma_burst_scans_once(n: nat)
    ensures
        worker_run(true, WorkerPhase::AwaitingChange, seq![WorkerEvent::Changed] + changes(n).push(WorkerEvent::Quiet))
            == (true, WorkerPhase::Round, seq![WorkerStep::MarkWaitAndSettle] + settles(n).push(WorkerStep::Scan)),
{
    let evs = seq![WorkerEvent::Changed] + changes(n).push(WorkerEvent::Quiet);
    assert(evs[0] == WorkerEvent::Changed);
    assert(evs.drop_first() =~= changes(n).push(WorkerEvent::Quiet));
    lemma_settling_burst(n);
    assert(seq![WorkerStep::MarkWaitAndSettle] + settles(n).push(WorkerStep::Scan)
        =~= seq![WorkerStep::MarkWaitAndSettle] + settles(n).push(WorkerStep::Scan));
}

/// Settling, `n` more changes and then quiet give `n` settling steps and
/// one scan.
pub proof fn lemma_settling_burst(n: nat)
    ensures
        worker_run(true, WorkerPhase::Settling, changes(n).push(WorkerEvent::Quiet))
            == (true, WorkerPhase::Round, settles(n).push(WorkerStep::Scan)),
    decreases n,
{
    let evs = changes(n).push(WorkerEvent::Quiet);
    if n == 0 {
        assert(evs.drop_first() =~= Seq::<WorkerEvent>::empty());
        assert(evs[0] == WorkerEvent::Quiet);
        assert(worker_step(true, WorkerPhase::Settling, evs[0]) == (true, WorkerPhase::Round, WorkerStep::Scan));
        assert(worker_run(true, WorkerPhase::Round, evs.drop_first()) == (
            true,
            WorkerPhase::Round,
            Seq::<WorkerStep>::empty(),
        ));
        assert(seq![WorkerStep::Scan] + Seq::<WorkerStep>::empty() =~= settles(0).push(WorkerStep::Scan));
    } else {
        assert(evs[0] == WorkerEvent::Changed);
        assert(worker_step(true, WorkerPhase::Settling, evs[0]) == (true, WorkerPhase::Settling, WorkerStep::Settle));
        assert(evs.drop_first() =~= changes((n - 1) as nat).push(WorkerEvent::Quiet));
        lemma_settling_burst((n - 1) as nat);
        assert(seq![WorkerStep::Settle] + settles((n - 1) as nat).push(WorkerStep::Scan)
            =~= settles(n).push(WorkerStep::Scan));
    }
}

/// The worker scans only on the first round after the server started or on
/// the quiet that ends a settling; waiting for a change never scans; and it
/// settles only after a change.
pub proof fn lemma_scan_only_after_quiet(is_check: bool, phase: WorkerPhase, event: WorkerEvent)
    ensures
        worker_step(is_check, phase, event).2 == WorkerStep::Scan ==> (phase == WorkerPhase::Round
            && event == WorkerEvent::Round(ServerStatus::Started) && !is_check) || (phase
            == WorkerPhase::Settling && event == WorkerEvent::Quiet),
        phase == WorkerPhase::AwaitingChange ==> worker_step(is_check, phase, event).2 != WorkerStep::Scan,
        phase != WorkerPhase::Settling && worker_step(is_check, phase, event).1 == WorkerPhase::Settling
            ==> event == WorkerEvent::Changed,
{
}

/// Waiting for a change, a poll timeout gives up (and a new round begins)
/// exactly when the server is stopping or stopped; otherwise the worker goes
/// on waiting.
pub proof fn lemma_poll_gives_up_when_stopped(is_check: bool, status: ServerStatus)
    ensures
        (worker_step(is_check, WorkerPhase::AwaitingChange, WorkerEvent::PollTimeout(status)).2
            == WorkerStep::Restart) <==> (status == ServerStatus::Stopping || status == ServerStatus::Stopped),
        status == ServerStatus::Stopping || status == ServerStatus::Stopped ==> worker_step(
            is_check,
            WorkerPhase::AwaitingChange,
            WorkerEvent::PollTimeout(status),
        ).1 == WorkerPhase::Round,
        !(status == ServerStatus::Stopping || status == ServerStatus::Stopped) ==> worker_step(
            is_check,
            WorkerPhase::AwaitingChange,
            WorkerEvent::PollTimeout(status),
        ) == (is_check, WorkerPhase::AwaitingChange, WorkerStep::KeepWaiting),
{
}

/// A readable regular file below the directory is listed with the MD5 of
/// the whole of its contents: two such files get equal hashes exactly when
/// their contents' digests are equal.
pub proof fn lemma_file_hash_is_whole_content(base: Seq<char>, e: ScanEntryView)
    requires
        e.path != base,
        path_has_prefix(e.path, base),
        !e.is_symlink,
        !e.is_dir,
        e.is_file,
        e.content is Some,
    ensures
        entry_outcome(base, e) matches Ok(Some(f)) && f.file_type == FileType::File && f.size == e.size
            && f.hash == hex_text(md5_digest(e.content.unwrap())) && f.relative_path == stripped_path(e.path, base),
{
}

/// A symbolic link is listed as a link whatever it points to, and a
/// directory as a directory; neither gets a hash.
pub proof fn lemma_links_and_dirs_listed(base: Seq<char>, e: ScanEntryView)
    requires
        e.path != base,
        path_has_prefix(e.path, base),
        e.is_symlink || e.is_dir,
    ensures
        entry_outcome(base, e) matches Ok(Some(f)) && f.hash.len() == 0 && (if e.is_symlink {
            f.file_type == FileType::Symlink && f.size == e.size
        } else {
            f.file_type == FileType::Dir && f.size == 0
        }),
{
}

} // verus!
