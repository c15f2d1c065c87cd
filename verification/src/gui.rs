//! The control window's logic: how its buttons change the server's status,
//! and what it shows for each status.
use crate::data::{AppData, ScanStatus, ServerStatus};
use crate::pathops::opt_view;
use crate::timefmt::{display_text, format_timestamp_to_datetime, timestamp_in_range, try_format_timestamp_to_datetime};
use vstd::prelude::*;

verus! {

/// The program's name, shown in the window title and the about box.
pub const APP_NAME: &'static str = "Valheim Server Toolkit";

/// The program's version, shown in the window title and the about box.
pub const VERSION_TEXT: &'static str = "0.1.0";

/// What the window's controls ask for.
#[derive(Clone, Copy, Debug, PartialEq, Eq, Structural)]
pub enum GuiMessage {
    StartServer,
    StopServer,
    Exit,
    OpenModal,
    CloseModal,
    Noop,
}

/// What the window does after handling a message.
#[derive(Clone, Copy, Debug, PartialEq, Eq, Structural)]
pub enum GuiAction {
    /// Nothing more.
    Nothing,
    /// The server is starting: pause briefly, still holding the shared
    /// state, then complete the start.
    PauseThenStart,
    /// The server is stopping: pause briefly, then complete the stop.
    PauseThenStop,
    /// End the program.
    Exit,
}

/// The window's own state: whether the about box is open.
pub struct GuiState {
    pub is_show_modal: bool,
}

/// The action a message leads to when the server shows `status`.
pub open spec fn gui_action(status: ServerStatus, msg: GuiMessage) -> GuiAction {
    match msg {
        GuiMessage::StartServer => if status == ServerStatus::Started {
            GuiAction::Nothing
        } else {
            GuiAction::PauseThenStart
        },
        GuiMessage::StopServer => if status == ServerStatus::Stopped {
            GuiAction::Nothing
        } else {
            GuiAction::PauseThenStop
        },
        GuiMessage::Exit => GuiAction::Exit,
        _ => GuiAction::Nothing,
    }
}

/// The server status right after a message is handled (before any pause).
pub open spec fn status_during(status: ServerStatus, msg: GuiMessage) -> ServerStatus {
    match gui_action(status, msg) {
        GuiAction::PauseThenStart => ServerStatus::Starting,
        GuiAction::PauseThenStop => ServerStatus::Stopping,
        _ => status,
    }
}

/// The server status once a message is handled and its pause is over.
pub open spec fn status_after(status: ServerStatus, msg: GuiMessage) -> ServerStatus {
    match gui_action(status, msg) {
        GuiAction::PauseThenStart => ServerStatus::Started,
        GuiAction::PauseThenStop => ServerStatus::Stopped,
        _ => status,
    }
}

/// Whether the about box is shown after `msg`, when it was `shown` before.
pub open spec fn modal_after(shown: bool, msg: GuiMessage) -> bool {
    match msg {
        GuiMessage::OpenModal => true,
        GuiMessage::CloseModal => false,
        _ => shown,
    }
}

impl GuiState {
    pub fn new() -> (r: Self)
        ensures
            !r.is_show_modal,
    {
        GuiState { is_show_modal: false }
    }

    /// Handles a message: start and stop requests move the server into
    /// its transitional status (unless it is already where the request
    /// leads); the about box opens and closes.
    pub fn update(&mut self, data: &mut AppData, msg: GuiMessage) -> (r: GuiAction)
        ensures
            r == gui_action(old(data).server_status, msg),
            final(data).server_status == status_during(old(data).server_status, msg),
            final(data).server_file_info == old(data).server_file_info,
            final(data).announcement == old(data).announcement,
            final(self).is_show_modal == modal_after(old(self).is_show_modal, msg),
    {
        match msg {
            GuiMessage::StartServer => {
                if data.server_status == ServerStatus::Started {
                    return GuiAction::Nothing;
                }
                data.server_status = ServerStatus::Starting;
                GuiAction::PauseThenStart
            },
            GuiMessage::StopServer => {
                if data.server_status == ServerStatus::Stopped {
                    return GuiAction::Nothing;
                }
                data.server_status = ServerStatus::Stopping;
                GuiAction::PauseThenStop
            },
            GuiMessage::Exit => GuiAction::Exit,
            GuiMessage::CloseModal => {
                self.is_show_modal = false;
                GuiAction::Nothing
            },
            GuiMessage::OpenModal => {
                self.is_show_modal = true;
                GuiAction::Nothing
            },
            GuiMessage::Noop => GuiAction::Nothing,
        }
    }
}

impl AppData {
    /// Completes what a handled message began, once its pause is over.
    pub fn complete(&mut self, action: GuiAction)
        ensures
            action == GuiAction::PauseThenStart ==> final(self).server_status == ServerStatus::Started,
            action == GuiAction::PauseThenStop ==> final(self).server_status == ServerStatus::Stopped,
            action != GuiAction::PauseThenStart && action != GuiAction::PauseThenStop
                ==> final(self).server_status == old(self).server_status,
            final(self).server_file_info == old(self).server_file_info,
            final(self).announcement == old(self).announcement,
    {
        match action {
            GuiAction::PauseThenStart => {
                self.server_status = ServerStatus::Started;
            },
            GuiAction::PauseThenStop => {
                self.server_status = ServerStatus::Stopped;
            },
            _ => {},
        }
    }
}

/// A start request always leaves the server started, a stop request
/// stopped; asking twice is the same as asking once, and a stop undoes a
/// start. Other messages leave the status alone.
pub proof fn lemma_start_stop(status: ServerStatus, msg: GuiMessage)
    ensures
        status_after(status, GuiMessage::StartServer) == ServerStatus::Started,
        status_after(status, GuiMessage::StopServer) == ServerStatus::Stopped,
        status_after(status_after(status, msg), msg) == status_after(status, msg),
        status_after(status_after(status, GuiMessage::StartServer), GuiMessage::StopServer)
            == ServerStatus::Stopped,
        msg != GuiMessage::StartServer && msg != GuiMessage::StopServer ==> status_after(status, msg)
            == status,
{
}

/// The look of a button.
#[derive(Clone, Copy, Debug, PartialEq, Eq, Structural)]
pub enum ButtonStyle {
    Primary,
    Secondary,
    Positive,
    Destructive,
}

/// The looks of the status light, the start button and the stop button.
pub open spec fn server_styles(status: ServerStatus) -> (ButtonStyle, ButtonStyle, ButtonStyle) {
    match status {
        ServerStatus::Starting => (ButtonStyle::Secondary, ButtonStyle::Secondary, ButtonStyle::Primary),
        ServerStatus::Started => (ButtonStyle::Positive, ButtonStyle::Secondary, ButtonStyle::Primary),
        ServerStatus::Stopping => (ButtonStyle::Secondary, ButtonStyle::Secondary, ButtonStyle::Secondary),
        ServerStatus::Stopped => (ButtonStyle::Destructive, ButtonStyle::Primary, ButtonStyle::Secondary),
    }
}

/// The looks of the status light, the start button and the stop button for
/// the server's status: only the action that changes the status stands out.
pub fn server_indicator(status: ServerStatus) -> (r: (ButtonStyle, ButtonStyle, ButtonStyle))
    ensures
        r == server_styles(status),
        // The light is green only while started and red only while stopped;
        // the start button stands out only while stopped, the stop button
        // only while starting or started.
        (r.0 == ButtonStyle::Positive) <==> status == ServerStatus::Started,
        (r.0 == ButtonStyle::Destructive) <==> status == ServerStatus::Stopped,
        (r.1 == ButtonStyle::Primary) <==> status == ServerStatus::Stopped,
        (r.2 == ButtonStyle::Primary) <==> (status == ServerStatus::Starting || status == ServerStatus::Started),
{
    match status {
        ServerStatus::Starting => (ButtonStyle::Secondary, ButtonStyle::Secondary, ButtonStyle::Primary),
        ServerStatus::Started => (ButtonStyle::Positive, ButtonStyle::Secondary, ButtonStyle::Primary),
        ServerStatus::Stopping => (ButtonStyle::Secondary, ButtonStyle::Secondary, ButtonStyle::Secondary),
        ServerStatus::Stopped => (ButtonStyle::Destructive, ButtonStyle::Primary, ButtonStyle::Secondary),
    }
}

/// The look of the scan light and the text beside it.
pub open spec fn scan_look(status: ScanStatus) -> (ButtonStyle, Seq<char>) {
    match status {
        ScanStatus::Wait => (ButtonStyle::Secondary, ""@),
        ScanStatus::Scanning => (ButtonStyle::Primary, "刷新文件列表中"@),
        ScanStatus::Failed => (ButtonStyle::Destructive, "刷新文件列表表失败"@),
        ScanStatus::Completed => (ButtonStyle::Positive, "刷新文件列表成功"@),
    }
}

/// The look of the scan light and the text beside it for the scan's status.
pub fn scan_indicator(status: ScanStatus) -> (r: (ButtonStyle, String))
    ensures
        r.0 == scan_look(status).0,
        r.1@ == scan_look(status).1,
        status == ScanStatus::Wait ==> r.0 == ButtonStyle::Secondary && r.1@.len() == 0,
        status == ScanStatus::Scanning ==> r.0 == ButtonStyle::Primary && r.1@ == "刷新文件列表中"@,
        status == ScanStatus::Failed ==> r.0 == ButtonStyle::Destructive && r.1@ == "刷新文件列表表失败"@,
        status == ScanStatus::Completed ==> r.0 == ButtonStyle::Positive && r.1@ == "刷新文件列表成功"@,
{
    match status {
        ScanStatus::Wait => {
            proof {
                reveal_strlit("");
            }
            (ButtonStyle::Secondary, String::from_str(""))
        },
        ScanStatus::Scanning => (ButtonStyle::Primary, String::from_str("刷新文件列表中")),
        ScanStatus::Failed => (ButtonStyle::Destructive, String::from_str("刷新文件列表表失败")),
        ScanStatus::Completed => (ButtonStyle::Positive, String::from_str("刷新文件列表成功")),
    }
}

/// The scan light tells every scan status apart: each status has its own
/// look (and so its own text), and the light is blue while scanning, green
/// only once a scan completed, red only after a failure.
pub proof fn lemma_scan_look_distinguishes(a: ScanStatus, b: ScanStatus)
    ensures
        scan_look(a).0 == scan_look(b).0 ==> a == b,
        scan_look(a).0 == ButtonStyle::Primary <==> a == ScanStatus::Scanning,
        scan_look(a).0 == ButtonStyle::Positive <==> a == ScanStatus::Completed,
        scan_look(a).0 == ButtonStyle::Destructive <==> a == ScanStatus::Failed,
{
}

/// The width of the directory field: ten units per byte of the directory's
/// path (counted as a 16-bit number, as the window does), kept between 250
/// and 380.
pub open spec fn dir_input_width(byte_len: nat) -> int {
    let w: nat = (byte_len % 65536) * 10;
    if w < 250 {
        250
    } else if w > 380 {
        380
    } else {
        w as int
    }
}

/// The width of the field that shows the served directory `dir`.
pub fn calc_dir_input_width(dir: &str) -> (r: u16)
    requires
        vstd::utf8::encode_utf8(dir@).len() <= usize::MAX,
        (vstd::utf8::encode_utf8(dir@).len() % 65536) * 10 <= u16::MAX,
    ensures
        r == dir_input_width(vstd::utf8::encode_utf8(dir@).len()),
        250 <= r <= 380,
{
    let min: u16 = 250;
    let max: u16 = 380;
    let len: usize = dir.len();
    assert(len as nat == vstd::utf8::encode_utf8(dir@).len());
    let m: usize = len % 65536;
    assert(m < 65536);
    let len16: u16 = m as u16;
    assert(len16 as nat == vstd::utf8::encode_utf8(dir@).len() % 65536);
    let mut width: u16 = len16 * 10;
    if width < min {
        width = min;
    } else if width > max {
        width = max;
    }
    width
}

/// What the window says of the last scan finished at `timestamp` (0 when
/// none has finished yet), where chrono can represent that time.
pub open spec fn last_scan_text(timestamp: int) -> Option<Seq<char>> {
    if timestamp == 0 {
        Some("等待刷新"@)
    } else {
        match display_text(timestamp) {
            Some(t) => Some("上次刷新时间："@ + t),
            None => None,
        }
    }
}

/// What the window says of the last scan: that none has finished yet, or
/// when the last one finished.
pub fn format_last_scan_finish_time(timestamp: i64) -> (r: String)
    requires
        last_scan_text(timestamp as int) is Some,
    ensures
        last_scan_text(timestamp as int) == Some(r@),
{
    if timestamp == 0 {
        return String::from_str("等待刷新");
    }
    let dt = format_timestamp_to_datetime(timestamp);
    let mut s = String::from_str("上次刷新时间：");
    s.append(dt.as_str());
    s
}

/// The last-scan text, or `None` where chrono cannot represent the time.
pub fn try_format_last_scan_finish_time(timestamp: i64) -> (r: Option<String>)
    ensures
        opt_view(r) == last_scan_text(timestamp as int),
        timestamp_in_range(timestamp as int) ==> r is Some,
{
    if timestamp != 0 {
        match try_format_timestamp_to_datetime(timestamp) {
            Some(_) => {},
            None => {
                return None;
            },
        }
    }
    Some(format_last_scan_finish_time(timestamp))
}

/// The window title: the program's name and version, then the configured
/// title, if there is one, after two spaces.
pub open spec fn title_text(version: Seq<char>, config_title: Seq<char>) -> Seq<char> {
    let t = APP_NAME@ + " - v"@ + version;
    if config_title.len() > 0 {
        t + "  "@ + config_title
    } else {
        t
    }
}

pub fn window_title(version: &str, config_title: &str) -> (r: String)
    ensures
        r@ == title_text(version@, config_title@),
{
    let mut t = String::from_str(APP_NAME);
    t.append(" - v");
    t.append(version);
    if !config_title.is_empty() {
        t.append("  ");
        t.append(config_title);
    }
    t
}

/// The text of the about box.
pub fn about_text(version: &str) -> (r: String)
    ensures
        r@ == APP_NAME@ + "\n\nVersion "@ + version@ + "\n\nCopyright © 2023 清新池塘"@,
{
    let mut t = String::from_str(APP_NAME);
    t.append("\n\nVersion ");
    t.append(version);
    t.append("\n\nCopyright © 2023 清新池塘");
    t
}

} // verus!
