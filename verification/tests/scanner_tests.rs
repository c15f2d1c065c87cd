use seaport::data::{FileType, ServerStatus};
use seaport::digest::md5_hex;
use seaport::scanner::{Error, ScanEntry, ScanWorker, Scanner, WorkerAction, WorkerEvent, WorkerPhase, WorkerStep};

fn entry(path: &str, is_symlink: bool, is_dir: bool, is_file: bool, size: u64, content: Option<Vec<u8>>) -> ScanEntry {
    ScanEntry { path: path.to_string(), is_symlink, is_dir, is_file, size, content }
}

fn scanner() -> Scanner {
    let mut s = Scanner::new();
    assert_eq!(s.base_path(), "");
    s.set_base_path("/srv/game");
    assert_eq!(s.base_path(), "/srv/game");
    s
}

#[test]
fn base_directory_itself_is_not_listed() {
    let s = scanner();
    assert!(matches!(s.scan_entry(&entry("/srv/game", false, true, false, 4096, None)), Ok(None)));
}

#[test]
fn regular_file_is_listed_with_its_hash() {
    let s = scanner();
    let r = s.scan_entry(&entry("/srv/game/worlds/a.db", false, false, true, 3, Some(b"abc".to_vec())));
    let f = r.unwrap().unwrap();
    assert_eq!(f.relative_path, "worlds/a.db");
    assert_eq!(f.file_type, FileType::File);
    assert_eq!(f.size, 3);
    assert_eq!(f.hash, md5_hex(b"abc"));
    assert_eq!(f.hash, "900150983cd24fb0d6963f7d28e17f72");
}

#[test]
fn directory_and_link_have_no_hash() {
    let s = scanner();
    let d = s.scan_entry(&entry("/srv/game/worlds", false, true, false, 4096, None)).unwrap().unwrap();
    assert_eq!(d.relative_path, "worlds");
    assert_eq!(d.file_type, FileType::Dir);
    assert_eq!(d.size, 0);
    assert_eq!(d.hash, "");
    let l = s.scan_entry(&entry("/srv/game/link", true, true, false, 11, None)).unwrap().unwrap();
    assert_eq!(l.file_type, FileType::Symlink);
    assert_eq!(l.size, 11);
    assert_eq!(l.hash, "");
}

#[test]
fn other_kinds_are_skipped() {
    let s = scanner();
    assert!(matches!(s.scan_entry(&entry("/srv/game/fifo", false, false, false, 0, None)), Ok(None)));
}

#[test]
fn entries_outside_base_or_unreadable_fail_the_scan() {
    let s = scanner();
    assert_eq!(s.scan_entry(&entry("/etc/passwd", false, false, true, 1, Some(vec![1]))).unwrap_err(), Error::ScanError);
    assert_eq!(s.scan_entry(&entry("/srv/gamex/a", false, false, true, 1, Some(vec![1]))).unwrap_err(), Error::ScanError);
    assert_eq!(s.scan_entry(&entry("/srv/game/a", false, false, true, 1, None)).unwrap_err(), Error::ScanError);
}

#[test]
fn worker_scans_once_then_waits_for_changes() {
    let mut w = ScanWorker::new();
    assert_eq!(w.next_action(ServerStatus::Stopped), WorkerAction::Rest);
    assert_eq!(w.next_action(ServerStatus::Started), WorkerAction::Scan);
    assert_eq!(w.next_action(ServerStatus::Started), WorkerAction::AwaitChange);
    assert_eq!(w.next_action(ServerStatus::Stopping), WorkerAction::Rest);
    assert!(!w.is_check);
    assert_eq!(w.next_action(ServerStatus::Started), WorkerAction::Scan);
}

#[test]
fn waiting_stops_when_the_server_stops() {
    assert!(ScanWorker::keep_waiting(ServerStatus::Started));
    assert!(ScanWorker::keep_waiting(ServerStatus::Starting));
    assert!(!ScanWorker::keep_waiting(ServerStatus::Stopping));
    assert!(!ScanWorker::keep_waiting(ServerStatus::Stopped));
}

#[test]
fn listing_grows_in_walk_order_and_stops_at_failure() {
    let s = scanner();
    let mut files = vec![];
    assert!(s.add_entry(&mut files, &entry("/srv/game", false, true, false, 4096, None)).is_ok());
    assert!(files.is_empty());
    assert!(s.add_entry(&mut files, &entry("/srv/game/b", false, true, false, 4096, None)).is_ok());
    assert!(s.add_entry(&mut files, &entry("/srv/game/b/a", false, false, true, 2, Some(b"hi".to_vec()))).is_ok());
    assert!(s.add_entry(&mut files, &entry("/srv/game/fifo", false, false, false, 0, None)).is_ok());
    assert_eq!(files.len(), 2);
    assert_eq!(files[0].relative_path, "b");
    assert_eq!(files[1].relative_path, "b/a");
    assert_eq!(files[1].hash, md5_hex(b"hi"));
    assert_eq!(s.add_entry(&mut files, &entry("/srv/game/c", false, false, true, 1, None)), Err(Error::ScanError));
    assert_eq!(files.len(), 2);
}

#[test]
fn burst_of_changes_gives_one_scan() {
    let mut w = ScanWorker::new();
    assert_eq!(w.on_event(WorkerEvent::Round(ServerStatus::Started)), WorkerStep::Scan);
    assert_eq!(w.phase, WorkerPhase::Round);
    assert_eq!(w.on_event(WorkerEvent::Round(ServerStatus::Started)), WorkerStep::AwaitChange);
    assert_eq!(w.on_event(WorkerEvent::PollTimeout(ServerStatus::Started)), WorkerStep::KeepWaiting);
    assert_eq!(w.on_event(WorkerEvent::Changed), WorkerStep::MarkWaitAndSettle);
    assert_eq!(w.on_event(WorkerEvent::Changed), WorkerStep::Settle);
    assert_eq!(w.on_event(WorkerEvent::Changed), WorkerStep::Settle);
    assert_eq!(w.on_event(WorkerEvent::Quiet), WorkerStep::Scan);
    assert_eq!(w.phase, WorkerPhase::Round);
    assert!(w.is_check);
    assert_eq!(w.on_event(WorkerEvent::Round(ServerStatus::Started)), WorkerStep::AwaitChange);
}

#[test]
fn waiting_is_abandoned_when_the_server_stops() {
    let mut w = ScanWorker::new();
    w.on_event(WorkerEvent::Round(ServerStatus::Started));
    w.on_event(WorkerEvent::Round(ServerStatus::Started));
    assert_eq!(w.on_event(WorkerEvent::PollTimeout(ServerStatus::Stopping)), WorkerStep::Restart);
    assert_eq!(w.phase, WorkerPhase::Round);
    assert_eq!(w.on_event(WorkerEvent::Quiet), WorkerStep::Ignore);
    assert_eq!(w.on_event(WorkerEvent::Round(ServerStatus::Stopped)), WorkerStep::Rest);
    assert!(!w.is_check);
}
