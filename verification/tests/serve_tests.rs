use seaport::pathops::{exe_dir_of, EntryKind, ExeDirError};
use seaport::serve::{
    attachment_header, attachment_header_text, download_precheck, download_step, header_rejected_reply, link_target_bytes, link_target_reply,
    open_failed_reply, sync_precheck, sync_step, DownloadQuery, DownloadStep, PathFacts, SyncQuery, SyncStep,
};

fn facts(exists: bool, is_symlink: bool, is_dir: bool, is_file: bool) -> PathFacts {
    PathFacts { exists, is_symlink, is_dir, is_file }
}

fn reply_of(step: DownloadStep) -> (u16, String) {
    match step {
        DownloadStep::Reply(r) => (r.status, r.body),
        _ => panic!("expected a reply"),
    }
}

fn std_join(base: &str, rel: &str) -> String {
    std::path::Path::new(base).join(rel).to_str().unwrap().to_string()
}

#[test]
fn queries_join_onto_the_base() {
    let q = DownloadQuery::new("worlds".to_string());
    assert_eq!(q.file(), "worlds");
    let joined = q.target_path("srv");
    assert_eq!(joined, std_join("srv", "worlds"));
    assert_ne!(joined, "worlds");
    assert_ne!(joined, "srv");
    assert!(joined.starts_with("srv") && joined.ends_with("worlds") && joined.len() == 10);
    let s = SyncQuery::new("b".to_string());
    assert_eq!(s.file(), "b");
    assert_eq!(s.target_path("base"), std_join("base", "b"));
}

#[test]
fn prechecks_refuse_paths_outside_base_first() {
    let r = download_precheck("/srv/game", "/etc/passwd").unwrap();
    assert_eq!((r.status, r.body.as_str()), (404, "err: 1"));
    assert!(download_precheck("/srv/game", "/srv/game/a.db").is_none());
    assert!(!sync_precheck("/srv/game", "/etc/passwd"));
    assert!(sync_precheck("/srv/game", "/srv/game/a.db"));
}

#[test]
fn attachment_header_is_checked() {
    assert_eq!(attachment_header("a.db").unwrap(), "attachment; filename=\"a.db\"");
    assert_eq!(attachment_header("世界.db").unwrap(), "attachment; filename=\"世界.db\"");
    let r = attachment_header("a\nb").unwrap_err();
    assert_eq!((r.status, r.body.as_str()), (500, "err: 1002"));
    assert!(attachment_header("tab\there").is_ok());
    assert!(attachment_header("del\u{7f}").is_err());
}

#[test]
fn download_outside_base_is_not_found() {
    let (status, body) = reply_of(download_step("/srv/game", "/etc/passwd", &facts(true, false, false, true)));
    assert_eq!((status, body.as_str()), (404, "err: 1"));
    let (status, body) = reply_of(download_step("/srv/game", "/srv/gamex/a", &facts(true, false, false, true)));
    assert_eq!((status, body.as_str()), (404, "err: 1"));
}

#[test]
fn download_of_missing_or_nameless_path() {
    let (status, body) = reply_of(download_step("/srv/game", "/srv/game/none", &facts(false, false, false, false)));
    assert_eq!((status, body.as_str()), (404, "err: 2"));
    let (status, body) = reply_of(download_step("/srv/game", "/srv/game/..", &facts(true, false, true, false)));
    assert_eq!((status, body.as_str()), (404, "err: 4"));
    // `..` is compared as written, not resolved, as std's component test does.
    match download_step("/srv/game", "/srv/game/../x", &facts(true, false, false, true)) {
        DownloadStep::SendFile { filename } => assert_eq!(filename, "x"),
        _ => panic!("expected the file to be sent"),
    }
}

#[test]
fn download_by_kind() {
    let (status, body) = reply_of(download_step("/srv/game", "/srv/game/worlds", &facts(true, false, true, false)));
    assert_eq!((status, body.as_str()), (400, "is dir"));
    let (status, body) = reply_of(download_step("/srv/game", "/srv/game/dev", &facts(true, false, false, false)));
    assert_eq!((status, body.as_str()), (400, "unexpect type"));
    assert!(matches!(
        download_step("/srv/game", "/srv/game/link", &facts(true, true, true, false)),
        DownloadStep::SendLinkTarget
    ));
    match download_step("/srv/game", "/srv/game/worlds/a.db", &facts(true, false, false, true)) {
        DownloadStep::SendFile { filename } => assert_eq!(filename, "a.db"),
        _ => panic!("expected the file to be sent"),
    }
}

#[test]
fn download_follow_up_replies() {
    let r = link_target_reply(Some("../other".to_string()));
    assert_eq!((r.status, r.body.as_str()), (200, "../other"));
    let r = link_target_reply(None);
    assert_eq!((r.status, r.body.as_str()), (500, "read symlink error"));
    let r = open_failed_reply();
    assert_eq!((r.status, r.body.as_str()), (500, "err: 1001"));
    let r = header_rejected_reply();
    assert_eq!((r.status, r.body.as_str()), (500, "err: 1002"));
    assert_eq!(attachment_header_text("a.db"), "attachment; filename=\"a.db\"");
}

#[test]
fn sync_sends_only_links_and_files_below_base() {
    assert_eq!(sync_step("/srv/game", "/srv/game/a", &facts(true, false, false, true)), SyncStep::SendFile);
    assert_eq!(sync_step("/srv/game", "/srv/game/l", &facts(true, true, false, false)), SyncStep::SendLinkTarget);
    assert_eq!(sync_step("/srv/game", "/srv/game/d", &facts(true, false, true, false)), SyncStep::Empty);
    assert_eq!(sync_step("/srv/game", "/srv/game/x", &facts(false, false, false, false)), SyncStep::Empty);
    assert_eq!(sync_step("/srv/game", "/etc/passwd", &facts(true, false, false, true)), SyncStep::Empty);
    assert_eq!(link_target_bytes(Some("ab".to_string())), b"ab".to_vec());
    assert_eq!(link_target_bytes(Some("é".to_string())), vec![0xc3, 0xa9]);
    assert!(link_target_bytes(None).is_empty());
}

#[test]
fn classification_prefers_links_then_directories() {
    assert_eq!(EntryKind::classify(true, true, false), EntryKind::Symlink);
    assert_eq!(EntryKind::classify(false, true, true), EntryKind::Dir);
    assert_eq!(EntryKind::classify(false, false, true), EntryKind::File);
    assert_eq!(EntryKind::classify(false, false, false), EntryKind::Other);
}

#[test]
fn exe_dir_is_the_parent() {
    assert_eq!(exe_dir_of("/opt/seaport/seaport").unwrap(), "/opt/seaport");
    assert_eq!(exe_dir_of("/").unwrap_err(), ExeDirError::NoParent);
    assert_eq!(exe_dir_of("").unwrap_err(), ExeDirError::NoParent);
    assert_eq!(exe_dir_of("/seaport").unwrap(), "/");
    assert_eq!(ExeDirError::NoParent.message(), "get exe_dir failed!");
    assert_eq!(ExeDirError::NotUtf8.message(), "convert exe_dir failed!");
    assert_eq!(
        ExeDirError::CurrentExe("gone".to_string()).message(),
        "get current_exe_path failed!, err: gone"
    );
}
