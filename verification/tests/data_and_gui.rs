use seaport::data::{AppData, FileInfo, FileType, ScanStatus, ServerFileInfo, ServerStatus};
use seaport::gui::{
    about_text, calc_dir_input_width, format_last_scan_finish_time, try_format_last_scan_finish_time, scan_indicator, server_indicator,
    window_title, ButtonStyle, GuiAction, GuiMessage, GuiState, APP_NAME,
};

#[test]
fn fresh_state_is_stopped_and_waiting() {
    let d = AppData::new();
    assert_eq!(d.server_status, ServerStatus::Stopped);
    assert_eq!(d.server_file_info.scan_status, ScanStatus::Wait);
    assert_eq!(d.server_file_info.last_scan_finish_time, 0);
    assert!(d.server_file_info.files.is_empty());
    assert_eq!(d.announcement.content(), "");
    assert_eq!(d.announcement.hash(), "");
    let s = ServerFileInfo::new();
    assert_eq!(s.scan_status, ScanStatus::Wait);
    let f = FileInfo::new();
    assert_eq!(f.relative_path, "");
    assert_eq!(f.file_type, FileType::Unknown);
    assert_eq!(f.size, 0);
    assert_eq!(f.hash, "");
}

#[test]
fn startup_state_serves_with_the_announcement() {
    let d = AppData::starting_with("hello".to_string());
    assert_eq!(d.server_status, ServerStatus::Started);
    assert_eq!(d.announcement.content(), "hello");
}

#[test]
fn codes_match_the_wire_format() {
    assert_eq!(ScanStatus::Wait.code(), 10);
    assert_eq!(ScanStatus::Scanning.code(), 20);
    assert_eq!(ScanStatus::Failed.code(), 30);
    assert_eq!(ScanStatus::Completed.code(), 40);
    assert_eq!(FileType::Unknown.code(), 0);
    assert_eq!(FileType::File.code(), 1);
    assert_eq!(FileType::Dir.code(), 2);
    assert_eq!(FileType::Symlink.code(), 4);
    assert_eq!(ServerStatus::Started.code(), 20);
    assert_eq!(ServerStatus::Stopped.code(), 40);
}

#[test]
fn scan_transitions_keep_or_replace_the_list() {
    let mut d = AppData::new();
    d.begin_scan();
    assert_eq!(d.server_file_info.scan_status, ScanStatus::Scanning);
    let mut f = FileInfo::new();
    f.relative_path = "a".to_string();
    d.announcement.set_content("note".to_string());
    d.complete_scan(vec![f], 1234);
    assert_eq!(d.announcement.content(), "note");
    assert_eq!(d.server_file_info.scan_status, ScanStatus::Completed);
    assert_eq!(d.server_file_info.files.len(), 1);
    assert_eq!(d.server_file_info.last_scan_finish_time, 1234);
    d.fail_scan();
    assert_eq!(d.server_file_info.scan_status, ScanStatus::Failed);
    assert_eq!(d.server_file_info.files.len(), 1);
    d.wait_scan();
    assert_eq!(d.server_file_info.scan_status, ScanStatus::Wait);
}

#[test]
fn start_and_stop_requests() {
    let mut g = GuiState::new();
    let mut d = AppData::new();
    let a = g.update(&mut d, GuiMessage::StartServer);
    assert_eq!(a, GuiAction::PauseThenStart);
    assert_eq!(d.server_status, ServerStatus::Starting);
    d.complete(a);
    assert_eq!(d.server_status, ServerStatus::Started);
    let again = g.update(&mut d, GuiMessage::StartServer);
    assert_eq!(again, GuiAction::Nothing);
    assert_eq!(d.server_status, ServerStatus::Started);
    let stop = g.update(&mut d, GuiMessage::StopServer);
    assert_eq!(stop, GuiAction::PauseThenStop);
    assert_eq!(d.server_status, ServerStatus::Stopping);
    d.complete(stop);
    assert_eq!(d.server_status, ServerStatus::Stopped);
    assert_eq!(g.update(&mut d, GuiMessage::StopServer), GuiAction::Nothing);
    assert_eq!(g.update(&mut d, GuiMessage::Exit), GuiAction::Exit);
}

#[test]
fn about_box_opens_and_closes() {
    let mut g = GuiState::new();
    let mut d = AppData::new();
    assert!(!g.is_show_modal);
    assert_eq!(g.update(&mut d, GuiMessage::OpenModal), GuiAction::Nothing);
    assert!(g.is_show_modal);
    g.update(&mut d, GuiMessage::Noop);
    assert!(g.is_show_modal);
    g.update(&mut d, GuiMessage::CloseModal);
    assert!(!g.is_show_modal);
    assert_eq!(d.server_status, ServerStatus::Stopped);
}

#[test]
fn indicators_follow_the_status() {
    assert_eq!(
        server_indicator(ServerStatus::Started),
        (ButtonStyle::Positive, ButtonStyle::Secondary, ButtonStyle::Primary)
    );
    assert_eq!(
        server_indicator(ServerStatus::Stopped),
        (ButtonStyle::Destructive, ButtonStyle::Primary, ButtonStyle::Secondary)
    );
    assert_eq!(
        server_indicator(ServerStatus::Stopping),
        (ButtonStyle::Secondary, ButtonStyle::Secondary, ButtonStyle::Secondary)
    );
    assert_eq!(scan_indicator(ScanStatus::Wait), (ButtonStyle::Secondary, String::new()));
    assert_eq!(scan_indicator(ScanStatus::Completed), (ButtonStyle::Positive, "刷新文件列表成功".to_string()));
    assert_eq!(scan_indicator(ScanStatus::Failed).0, ButtonStyle::Destructive);
}

#[test]
fn directory_field_width_is_clamped() {
    assert_eq!(calc_dir_input_width(""), 250);
    assert_eq!(calc_dir_input_width("/srv/valheim/data"), 250);
    assert_eq!(calc_dir_input_width("/home/user/servers/valheim/wor"), 300);
    assert_eq!(calc_dir_input_width(&"x".repeat(100)), 380);
    assert_eq!(calc_dir_input_width("文件夹文件夹文件夹文"), 300);
}

#[test]
fn last_scan_text() {
    assert_eq!(format_last_scan_finish_time(0), "等待刷新");
    assert_eq!(format_last_scan_finish_time(1_700_000_000), "上次刷新时间：2023-11-15 06:13:20");
    assert_eq!(try_format_last_scan_finish_time(0).as_deref(), Some("等待刷新"));
    assert_eq!(try_format_last_scan_finish_time(1_700_000_000).as_deref(), Some("上次刷新时间：2023-11-15 06:13:20"));
    assert!(try_format_last_scan_finish_time(i64::MAX).is_none());
}

#[test]
fn title_and_about() {
    assert_eq!(APP_NAME, "Valheim Server Toolkit");
    assert_eq!(window_title("1.2.0", ""), "Valheim Server Toolkit - v1.2.0");
    assert_eq!(window_title("1.2.0", "My Server"), "Valheim Server Toolkit - v1.2.0  My Server");
    assert_eq!(
        about_text("1.2.0"),
        "Valheim Server Toolkit\n\nVersion 1.2.0\n\nCopyright © 2023 清新池塘"
    );
}
