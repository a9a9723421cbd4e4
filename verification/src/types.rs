//! Plain data shared by the command modules: capture selection, app settings,
//! device and recording listings, and the editor write-lock state.

use vstd::prelude::*;

use crate::text::{push_str, same_text, string_of};

verus! {

/// Which side holds the editor write-lock.
#[derive(Debug, Clone, Copy, PartialEq, Eq, Structural)]
pub enum EditorWriterKind {
    Ui,
    Agent,
}

/// Editor write-lock state: who holds which project, and since when.
#[derive(Debug, Clone)]
pub struct EditorSession {
    /// The locked project's path while held; `None` when idle.
    pub project_path: Option<String>,
    /// The holder's side while held; `None` when idle.
    pub writer: Option<EditorWriterKind>,
    /// The holder's free-form identifier (`"ui:<user>"`, `"agent:<id>"`).
    pub writer_id: String,
    /// Unix-epoch ms when the lock was acquired.
    pub acquired_at_ms: i64,
    /// Unix-epoch ms of the last mutation under the lock.
    pub last_activity_at_ms: i64,
}

/// The mathematical content of an [`EditorSession`].
pub struct SessionView {
    pub project_path: Option<Seq<char>>,
    pub writer: Option<EditorWriterKind>,
    pub writer_id: Seq<char>,
    pub acquired_at_ms: i64,
    pub last_activity_at_ms: i64,
}

/// The view of an optional string.
pub open spec fn opt_view(o: Option<String>) -> Option<Seq<char>> {
    match o {
        Some(s) => Some(s@),
        None => None,
    }
}

impl View for EditorSession {
    type V = SessionView;

    open spec fn view(&self) -> SessionView {
        SessionView {
            project_path: opt_view(self.project_path),
            writer: self.writer,
            writer_id: self.writer_id@,
            acquired_at_ms: self.acquired_at_ms,
            last_activity_at_ms: self.last_activity_at_ms,
        }
    }
}

/// The idle lock state.
pub open spec fn idle_session() -> SessionView {
    SessionView {
        project_path: None,
        writer: None,
        writer_id: Seq::empty(),
        acquired_at_ms: 0,
        last_activity_at_ms: 0,
    }
}

impl EditorSession {
    /// Inactivity window after which the lock is reclaimable.
    pub const TTL_MS: i64 = 60_000;

    /// A session that nobody holds.
    pub fn idle() -> (s: EditorSession)
        ensures
            s@ == idle_session(),
    {
        EditorSession {
            project_path: None,
            writer: None,
            writer_id: String::new(),
            acquired_at_ms: 0,
            last_activity_at_ms: 0,
        }
    }
}

impl Default for EditorSession {
    fn default() -> (s: EditorSession)
        ensures
            s@ == idle_session(),
    {
        EditorSession::idle()
    }
}

/// A region selection in physical virtual-desktop pixels.
#[derive(Debug, Clone, Copy, PartialEq, Eq, Structural)]
pub struct RegionRect {
    pub x: i32,
    pub y: i32,
    pub width: u32,
    pub height: u32,
}

/// What the next recording captures besides the picture.
#[derive(Debug, Clone)]
pub struct RecordingOptions {
    pub system_audio: bool,
    pub microphone: bool,
    pub microphone_device_id: Option<String>,
    pub camera: bool,
    pub camera_device_id: Option<String>,
    pub fps: Option<u32>,
    pub quality: Option<String>,
}

/// The mathematical content of [`RecordingOptions`].
pub struct OptionsView {
    pub system_audio: bool,
    pub microphone: bool,
    pub microphone_device_id: Option<Seq<char>>,
    pub camera: bool,
    pub camera_device_id: Option<Seq<char>>,
    pub fps: Option<u32>,
    pub quality: Option<Seq<char>>,
}

impl View for RecordingOptions {
    type V = OptionsView;

    open spec fn view(&self) -> OptionsView {
        OptionsView {
            system_audio: self.system_audio,
            microphone: self.microphone,
            microphone_device_id: opt_view(self.microphone_device_id),
            camera: self.camera,
            camera_device_id: opt_view(self.camera_device_id),
            fps: self.fps,
            quality: opt_view(self.quality),
        }
    }
}

/// The options a fresh intent starts with: system audio on, everything else
/// off or unset.
pub open spec fn default_options() -> OptionsView {
    OptionsView {
        system_audio: true,
        microphone: false,
        microphone_device_id: None,
        camera: false,
        camera_device_id: None,
        fps: None,
        quality: None,
    }
}

impl Default for RecordingOptions {
    fn default() -> (o: RecordingOptions)
        ensures
            o@ == default_options(),
    {
        RecordingOptions {
            system_audio: true,
            microphone: false,
            microphone_device_id: None,
            camera: false,
            camera_device_id: None,
            fps: None,
            quality: None,
        }
    }
}

/// Staging configuration for the next recording, shared by the panel and the
/// command line.
#[derive(Debug, Clone)]
pub struct CaptureIntent {
    /// `"display"`, `"window"` or `"region"`; `None` until a source is chosen.
    pub target_type: Option<String>,
    pub target_id: u32,
    pub region: Option<RegionRect>,
    pub options: RecordingOptions,
    /// Pre-roll seconds; `None` inherits the global default.
    pub countdown: Option<u32>,
    pub active_profile_id: Option<String>,
}

/// The mathematical content of [`CaptureIntent`].
pub struct IntentView {
    pub target_type: Option<Seq<char>>,
    pub target_id: u32,
    pub region: Option<RegionRect>,
    pub options: OptionsView,
    pub countdown: Option<u32>,
    pub active_profile_id: Option<Seq<char>>,
}

impl View for CaptureIntent {
    type V = IntentView;

    open spec fn view(&self) -> IntentView {
        IntentView {
            target_type: opt_view(self.target_type),
            target_id: self.target_id,
            region: self.region,
            options: self.options@,
            countdown: self.countdown,
            active_profile_id: opt_view(self.active_profile_id),
        }
    }
}

/// The intent before anything is selected.
pub open spec fn default_intent() -> IntentView {
    IntentView {
        target_type: None,
        target_id: 0,
        region: None,
        options: default_options(),
        countdown: None,
        active_profile_id: None,
    }
}

impl Default for CaptureIntent {
    fn default() -> (i: CaptureIntent)
        ensures
            i@ == default_intent(),
    {
        CaptureIntent {
            target_type: None,
            target_id: 0,
            region: None,
            options: RecordingOptions::default(),
            countdown: None,
            active_profile_id: None,
        }
    }
}

/// A monitor the picker offers.
#[derive(Debug, Clone)]
pub struct DisplayInfo {
    pub id: u32,
    pub name: String,
    pub x: i32,
    pub y: i32,
    pub width: u32,
    pub height: u32,
    pub is_primary: bool,
    pub thumbnail: Option<String>,
    /// Current refresh rate in Hz, `0` when the platform does not report it.
    pub refresh_hz: u32,
}

/// A window the picker offers.
#[derive(Debug, Clone)]
pub struct WindowInfo {
    pub id: u32,
    pub pid: u32,
    pub app_name: String,
    pub title: String,
    pub x: i32,
    pub y: i32,
    pub width: u32,
    pub height: u32,
    pub is_minimized: bool,
    pub thumbnail: Option<String>,
}

/// A file in the recordings library.
#[derive(Debug, Clone)]
pub struct RecordingEntry {
    pub filename: String,
    pub path: String,
    pub size_bytes: u64,
    /// Birth time in epoch seconds, or the modification time where the
    /// filesystem reports no birth time.
    pub created: u64,
    /// Last-modified time in epoch seconds.
    pub modified: u64,
    /// A legacy bundle the editor must migrate first.
    pub needs_migration: bool,
}

/// What starting a recording reports back.
#[derive(Debug, Clone)]
pub struct RecordingStartResult {
    pub warnings: Vec<String>,
}

/// A camera the picker offers, with its health classification.
#[derive(Debug, Clone)]
pub struct CameraDeviceInfo {
    pub id: String,
    pub name: String,
    pub status: String,
    pub status_message: Option<String>,
}

/// The outcome of validating one camera.
#[derive(Debug, Clone)]
pub struct CameraValidationResult {
    pub id: String,
    pub name: String,
    pub status: String,
    pub status_message: Option<String>,
    pub probed_at_unix_ms: u64,
}

/// The source the user picked last.
#[derive(Debug, Clone, Default)]
pub struct LastSource {
    /// `"monitor"`, `"window"` or `"region"`.
    pub kind: String,
    pub id: u32,
    pub label: String,
    pub region_x: Option<i32>,
    pub region_y: Option<i32>,
    pub region_width: Option<u32>,
    pub region_height: Option<u32>,
}

/// Persisted application settings.
#[derive(Debug, Clone)]
pub struct AppConfig {
    pub output_dir: Option<String>,
    pub last_source: Option<LastSource>,
    /// Closing the main window hides it to the tray.
    pub close_to_tray: bool,
    /// The floating recording panel is excluded from screen capture.
    pub hide_panel_from_capture: bool,
    /// Behaviour analytics, strictly opt-in.
    pub telemetry_product: bool,
    /// Crash reporting, opt-out.
    pub telemetry_errors: bool,
    pub install_id: Option<String>,
    /// Self-hosting override of the cloud API base URL.
    pub cloud_api_url: Option<String>,
    pub diagnostic_logging: bool,
    pub window_transparency: bool,
    /// Install the command-line tool on first launch.
    pub cli_auto_install: bool,
    pub cli_install_attempted: bool,
}

/// Whether a fresh install tries to put the command-line tool on the PATH.
pub fn default_cli_auto_install() -> (b: bool)
    ensures
        b,
{
    true
}

/// Whether closing the main window hides it to the tray by default.
pub fn default_close_to_tray() -> (b: bool)
    ensures
        b,
{
    true
}

/// Whether the recording panel is kept out of captures by default.
pub fn default_hide_panel_from_capture() -> (b: bool)
    ensures
        b,
{
    true
}

/// Whether crash reporting is on by default.
pub fn default_telemetry_errors() -> (b: bool)
    ensures
        b,
{
    true
}

impl Default for AppConfig {
    fn default() -> (c: AppConfig)
        ensures
            c.output_dir is None,
            c.last_source is None,
            c.close_to_tray,
            c.hide_panel_from_capture,
            !c.telemetry_product,
            c.telemetry_errors,
            c.install_id is None,
            c.cloud_api_url is None,
            !c.diagnostic_logging,
            !c.window_transparency,
            c.cli_auto_install,
            !c.cli_install_attempted,
    {
        AppConfig {
            output_dir: None,
            last_source: None,
            close_to_tray: default_close_to_tray(),
            hide_panel_from_capture: default_hide_panel_from_capture(),
            telemetry_product: false,
            telemetry_errors: default_telemetry_errors(),
            install_id: None,
            cloud_api_url: None,
            diagnostic_logging: false,
            window_transparency: false,
            cli_auto_install: default_cli_auto_install(),
            cli_install_attempted: false,
        }
    }
}

impl AppConfig {
    /// Record the telemetry consent mirrored from the frontend; an install id
    /// is kept only when one is given and it is not empty.
    pub fn set_telemetry_consent(&mut self, product: bool, errors: bool, install_id: Option<String>)
        ensures
            final(self).telemetry_product == product,
            final(self).telemetry_errors == errors,
            (install_id matches Some(id) && id@.len() > 0) ==> final(self).install_id == install_id,
            !(install_id matches Some(id) && id@.len() > 0) ==> final(self).install_id
                == old(self).install_id,
            final(self).output_dir == old(self).output_dir,
            final(self).last_source == old(self).last_source,
            final(self).close_to_tray == old(self).close_to_tray,
            final(self).hide_panel_from_capture == old(self).hide_panel_from_capture,
            final(self).cloud_api_url == old(self).cloud_api_url,
            final(self).diagnostic_logging == old(self).diagnostic_logging,
            final(self).window_transparency == old(self).window_transparency,
            final(self).cli_auto_install == old(self).cli_auto_install,
            final(self).cli_install_attempted == old(self).cli_install_attempted,
    {
        self.telemetry_product = product;
        self.telemetry_errors = errors;
        match install_id {
            Some(id) => {
                if !id.as_str().is_empty() {
                    self.install_id = Some(id);
                }
            },
            None => {},
        }
    }
}

/// Encoder settings for one export quality.
#[derive(Debug, Clone, Copy)]
pub struct ExportProfile {
    pub max_width: Option<u32>,
    pub max_height: Option<u32>,
    pub mp4_crf: u32,
    pub mp4_preset: &'static str,
    pub mp4_nvenc_cq: u32,
    pub webm_crf: u32,
    pub gif_fps: u32,
}

/// The GIF loop setting as sent: a word, a number (`None` when it does not
/// fit an `i64`), or something else.
#[derive(Debug, Clone)]
pub enum GifLoop {
    Text(String),
    Number(Option<i64>),
    Other,
}

/// Per-export GIF settings from the editor.
#[derive(Debug, Clone)]
pub struct GifSettings {
    /// Frame-rate override; `None` uses the quality profile's rate.
    pub fps: Option<u32>,
    /// `"low"`, `"medium"` or `"high"`: palette size.
    pub quality: String,
    /// `"infinite"`, `"once"` or a play count.
    pub loop_setting: GifLoop,
    /// `"bayer"`, `"sierra2"` or `"none"`.
    pub dither: String,
}

fn owned_text(s: &str) -> (r: String)
    ensures
        r@ == s@,
{
    let mut out: Vec<char> = Vec::new();
    push_str(&mut out, s);
    string_of(out.as_slice())
}

/// The quality a GIF export takes when none is given.
pub fn default_gif_quality() -> (s: String)
    ensures
        s@ == "medium"@,
{
    owned_text("medium")
}

/// The dither a GIF export takes when none is given.
pub fn default_gif_dither() -> (s: String)
    ensures
        s@ == "bayer"@,
{
    owned_text("bayer")
}

impl Default for GifSettings {
    fn default() -> (g: GifSettings)
        ensures
            g.fps is None,
            g.quality@ == "medium"@,
            g.loop_setting matches GifLoop::Text(t) && t@ == "infinite"@,
            g.dither@ == "bayer"@,
    {
        GifSettings {
            fps: None,
            quality: default_gif_quality(),
            loop_setting: GifLoop::Text(owned_text("infinite")),
            dither: default_gif_dither(),
        }
    }
}

/// FFmpeg's `-loop` value for a loop setting: `0` loops forever, `-1` plays
/// once, `n` repeats; a count below `-1` is raised to `-1`, and anything
/// unreadable loops forever.
pub open spec fn loop_arg(l: GifLoop) -> int {
    match l {
        GifLoop::Text(s) => if s@ == "once"@ {
            -1
        } else {
            0
        },
        GifLoop::Number(Some(n)) => if n < -1 {
            -1
        } else {
            n as int
        },
        _ => 0,
    }
}

/// The palette size for a GIF quality: 64 for low, 256 for high, 128
/// otherwise.
pub open spec fn palette_size(quality: Seq<char>) -> u32 {
    if quality == "low"@ {
        64
    } else if quality == "high"@ {
        256
    } else {
        128
    }
}

impl GifSettings {
    /// FFmpeg's `-loop` argument for this export.
    pub fn ffmpeg_loop_arg(&self) -> (n: i64)
        ensures
            n == loop_arg(self.loop_setting),
    {
        match &self.loop_setting {
            GifLoop::Text(s) => {
                if same_text(s.as_str(), "once") {
                    -1
                } else {
                    0
                }
            },
            GifLoop::Number(m) => match m {
                Some(n) => {
                    if *n < -1 {
                        -1
                    } else {
                        *n
                    }
                },
                None => 0,
            },
            GifLoop::Other => 0,
        }
    }

    /// The palette size, capped at GIF's 256 colours.
    pub fn max_colors(&self) -> (n: u32)
        ensures
            n == palette_size(self.quality@),
    {
        if same_text(self.quality.as_str(), "low") {
            64
        } else if same_text(self.quality.as_str(), "high") {
            256
        } else {
            128
        }
    }
}

} // verus!
