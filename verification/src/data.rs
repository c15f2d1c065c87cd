//! The shared application state: the server's run status, the result of the
//! latest directory scan, and the announcement served to clients.
use vstd::prelude::*;

verus! {

/// Whether the file server is meant to serve (the control window switches it).
#[derive(Clone, Copy, Debug, PartialEq, Eq, Structural)]
pub enum ServerStatus {
    Starting,
    Started,
    Stopping,
    Stopped,
}

impl ServerStatus {
    /// The numeric code of the status: 10, 20, 30, 40 in declaration order.
    pub fn code(&self) -> (c: i8)
        ensures
            c == server_status_code(*self),
    {
        match self {
            ServerStatus::Starting => 10,
            ServerStatus::Started => 20,
            ServerStatus::Stopping => 30,
            ServerStatus::Stopped => 40,
        }
    }
}

pub open spec fn server_status_code(s: ServerStatus) -> i8 {
    match s {
        ServerStatus::Starting => 10,
        ServerStatus::Started => 20,
        ServerStatus::Stopping => 30,
        ServerStatus::Stopped => 40,
    }
}

/// The state of the directory scan.
#[derive(Clone, Copy, Debug, PartialEq, Eq, Structural)]
pub enum ScanStatus {
    Wait,
    Scanning,
    Failed,
    Completed,
}

pub open spec fn scan_status_code(s: ScanStatus) -> i8 {
    match s {
        ScanStatus::Wait => 10,
        ScanStatus::Scanning => 20,
        ScanStatus::Failed => 30,
        ScanStatus::Completed => 40,
    }
}

impl ScanStatus {
    /// The number that stands for the status in the JSON file list.
    pub fn code(&self) -> (c: i8)
        ensures
            c == scan_status_code(*self),
    {
        match self {
            ScanStatus::Wait => 10,
            ScanStatus::Scanning => 20,
            ScanStatus::Failed => 30,
            ScanStatus::Completed => 40,
        }
    }
}

/// The kind of a directory entry in the file list.
#[derive(Clone, Copy, Debug, PartialEq, Eq, Structural)]
pub enum FileType {
    Unknown,
    File,
    Dir,
    Symlink,
}

pub open spec fn file_type_code(t: FileType) -> i8 {
    match t {
        FileType::Unknown => 0,
        FileType::File => 1,
        FileType::Dir => 2,
        FileType::Symlink => 4,
    }
}

impl FileType {
    /// The number that stands for the kind in the JSON file list.
    pub fn code(&self) -> (c: i8)
        ensures
            c == file_type_code(*self),
    {
        match self {
            FileType::Unknown => 0,
            FileType::File => 1,
            FileType::Dir => 2,
            FileType::Symlink => 4,
        }
    }
}

/// One entry of the file list, relative to the scanned directory.
#[derive(Debug)]
pub struct FileInfo {
    pub relative_path: String,
    pub file_type: FileType,
    pub size: u64,
    pub hash: String,
}

/// What a file-list entry says, as plain values.
pub struct FileInfoView {
    pub relative_path: Seq<char>,
    pub file_type: FileType,
    pub size: u64,
    pub hash: Seq<char>,
}

impl View for FileInfo {
    type V = FileInfoView;

    open spec fn view(&self) -> FileInfoView {
        FileInfoView {
            relative_path: self.relative_path@,
            file_type: self.file_type,
            size: self.size,
            hash: self.hash@,
        }
    }
}

impl FileInfo {
    /// An entry with empty path and hash, of unknown kind and size zero.
    pub fn new() -> (r: Self)
        ensures
            r@.relative_path == Seq::<char>::empty(),
            r@.file_type == FileType::Unknown,
            r@.size == 0,
            r@.hash == Seq::<char>::empty(),
    {
        FileInfo { relative_path: String::new(), file_type: FileType::Unknown, size: 0, hash: String::new() }
    }
}

/// The result of the latest scan of the served directory.
pub struct ServerFileInfo {
    pub scan_status: ScanStatus,
    pub last_scan_finish_time: i64,
    pub files: Vec<FileInfo>,
}

impl ServerFileInfo {
    /// The state before any scan: waiting, never finished, no files.
    pub fn new() -> (r: Self)
        ensures
            r.scan_status == ScanStatus::Wait,
            r.last_scan_finish_time == 0,
            r.files@.len() == 0,
    {
        Self::default()
    }
}

impl Default for ServerFileInfo {
    fn default() -> (r: Self)
        ensures
            r.scan_status == ScanStatus::Wait,
            r.last_scan_finish_time == 0,
            r.files@.len() == 0,
    {
        ServerFileInfo { scan_status: ScanStatus::Wait, last_scan_finish_time: 0, files: Vec::new() }
    }
}

/// The announcement shown to clients.
pub struct Announcement {
    content: String,
    hash: String,
}

impl Announcement {
    /// The announcement's hash text (empty unless set by the library).
    pub fn hash(&self) -> (r: &str)
        ensures
            r@ == self.spec_hash(),
    {
        self.hash.as_str()
    }

    pub closed spec fn spec_hash(&self) -> Seq<char> {
        self.hash@
    }

    /// The announcement's text, as the contracts see it.
    pub closed spec fn spec_content(&self) -> Seq<char> {
        self.content@
    }

    /// The announcement's text.
    pub fn content(&self) -> (r: &str)
        ensures
            r@ == self.spec_content(),
    {
        self.content.as_str()
    }

    /// Replaces the announcement's text; the hash stays as it was.
    pub fn set_content(&mut self, content: String)
        ensures
            final(self).spec_content() == content@,
            final(self).spec_hash() == old(self).spec_hash(),
    {
        self.content = content;
    }
}

impl Default for Announcement {
    fn default() -> (r: Self)
        ensures
            r.spec_content() == Seq::<char>::empty(),
            r.spec_hash() == Seq::<char>::empty(),
    {
        Announcement { content: String::new(), hash: String::new() }
    }
}

/// Everything the server, the scanner and the control window share.
pub struct AppData {
    pub server_status: ServerStatus,
    pub server_file_info: ServerFileInfo,
    pub announcement: Announcement,
}

impl AppData {
    pub fn new() -> (r: Self)
        ensures
            r.server_status == ServerStatus::Stopped,
            r.server_file_info.scan_status == ScanStatus::Wait,
            r.server_file_info.last_scan_finish_time == 0,
            r.server_file_info.files@.len() == 0,
            r.announcement.spec_content() == Seq::<char>::empty(),
            r.announcement.spec_hash() == Seq::<char>::empty(),
    {
        Self::default()
    }

    /// The state the program starts in: the server serving, no scan yet,
    /// and the configured announcement.
    pub fn starting_with(announcement: String) -> (r: Self)
        ensures
            r.server_status == ServerStatus::Started,
            r.server_file_info.scan_status == ScanStatus::Wait,
            r.server_file_info.last_scan_finish_time == 0,
            r.server_file_info.files@.len() == 0,
            r.announcement.spec_content() == announcement@,
            r.announcement.spec_hash() == Seq::<char>::empty(),
    {
        let mut d = AppData::new();
        d.server_status = ServerStatus::Started;
        d.announcement.set_content(announcement);
        d
    }

    /// A scan begins: the status shows that the list is being rebuilt.
    pub fn begin_scan(&mut self)
        ensures
            final(self).server_file_info.scan_status == ScanStatus::Scanning,
            final(self).server_file_info.files@ == old(self).server_file_info.files@,
            final(self).server_file_info.last_scan_finish_time
                == old(self).server_file_info.last_scan_finish_time,
            final(self).server_status == old(self).server_status,
            final(self).announcement == old(self).announcement,
    {
        self.server_file_info.scan_status = ScanStatus::Scanning;
    }

    /// A scan finished at `finish_time`: the list is replaced by `files`.
    pub fn complete_scan(&mut self, files: Vec<FileInfo>, finish_time: i64)
        ensures
            final(self).server_file_info.scan_status == ScanStatus::Completed,
            final(self).server_file_info.files@ == files@,
            final(self).server_file_info.last_scan_finish_time == finish_time,
            final(self).server_status == old(self).server_status,
            final(self).announcement == old(self).announcement,
    {
        self.server_file_info.files = files;
        self.server_file_info.scan_status = ScanStatus::Completed;
        self.server_file_info.last_scan_finish_time = finish_time;
    }

    /// A scan failed: the previous list stays, the status says so.
    pub fn fail_scan(&mut self)
        ensures
            final(self).server_file_info.scan_status == ScanStatus::Failed,
            final(self).server_file_info.files@ == old(self).server_file_info.files@,
            final(self).server_file_info.last_scan_finish_time
                == old(self).server_file_info.last_scan_finish_time,
            final(self).server_status == old(self).server_status,
            final(self).announcement == old(self).announcement,
    {
        self.server_file_info.scan_status = ScanStatus::Failed;
    }

    /// The scan waits (for the server to start, or for the next change).
    pub fn wait_scan(&mut self)
        ensures
            final(self).server_file_info.scan_status == ScanStatus::Wait,
            final(self).server_file_info.files@ == old(self).server_file_info.files@,
            final(self).server_file_info.last_scan_finish_time
                == old(self).server_file_info.last_scan_finish_time,
            final(self).server_status == old(self).server_status,
            final(self).announcement == old(self).announcement,
    {
        self.server_file_info.scan_status = ScanStatus::Wait;
    }
}

impl Default for AppData {
    fn default() -> (r: Self)
        ensures
            r.server_status == ServerStatus::Stopped,
            r.server_file_info.scan_status == ScanStatus::Wait,
            r.server_file_info.last_scan_finish_time == 0,
            r.server_file_info.files@.len() == 0,
            r.announcement.spec_content() == Seq::<char>::empty(),
            r.announcement.spec_hash() == Seq::<char>::empty(),
    {
        AppData {
            server_status: ServerStatus::Stopped,
            server_file_info: ServerFileInfo::new(),
            announcement: Announcement::default(),
        }
    }
}

} // verus!
