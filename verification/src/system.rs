//! Device listings and their health classification, the capture-support
//! matrix per platform, FFmpeg diagnostics, and the checks behind renaming a
//! recording.

use vstd::prelude::*;

use crate::error::AppError;
use crate::text::{
    str_texts, texts, ascii_lower, chars_of, contains, has_prefix, has_substring, push_str, same_text, starts_with,
    string_of, to_ascii_lowercase, trim, trimmed,
};
use crate::types::{opt_view, CameraDeviceInfo, CameraValidationResult};

verus! {

/// Whether an audio endpoint records (an input) or reads an output back.
#[derive(Debug, Clone, Copy, PartialEq, Eq, Structural)]
pub enum AudioDirection {
    Input,
    Loopback,
}

/// An audio endpoint as the capture backend names it.
#[derive(Debug, Clone)]
pub struct AudioDevice {
    pub id: String,
    pub name: String,
    pub direction: AudioDirection,
    pub is_default: bool,
}

/// A microphone the picker offers.
#[derive(Debug, Clone)]
pub struct AudioDeviceInfo {
    pub id: String,
    pub name: String,
    pub is_default: bool,
}

fn owned(s: &str) -> (r: String)
    ensures
        r@ == s@,
{
    let mut out: Vec<char> = Vec::new();
    push_str(&mut out, s);
    string_of(out.as_slice())
}

/// The row for a backend that names no devices: what will actually be
/// captured.
pub fn default_microphone() -> (d: AudioDeviceInfo)
    ensures
        d.id@ == "default"@,
        d.name@ == "System default"@,
        d.is_default,
{
    AudioDeviceInfo { id: owned("default"), name: owned("System default"), is_default: true }
}

/// The picker row for one input device: listed under its id when it has no
/// name.
pub open spec fn mic_row(d: AudioDevice, r: AudioDeviceInfo) -> bool {
    &&& r.id@ == d.id@
    &&& r.name@ == (if d.name@.len() == 0 {
        d.id@
    } else {
        d.name@
    })
    &&& r.is_default == d.is_default
}

/// The input devices among `ds`, in order.
pub open spec fn inputs(ds: Seq<AudioDevice>) -> Seq<AudioDevice> {
    ds.filter(|d: AudioDevice| d.direction == AudioDirection::Input)
}

/// The microphones among the backend's audio devices: loopback endpoints are
/// dropped, and a nameless device is listed under its id.
pub fn microphones(devices: &Vec<AudioDevice>) -> (r: Vec<AudioDeviceInfo>)
    ensures
        r@.len() == inputs(devices@).len(),
        forall|i: int| 0 <= i < r@.len() ==> mic_row(inputs(devices@)[i], #[trigger] r@[i]),
{
    let mut r: Vec<AudioDeviceInfo> = Vec::new();
    let mut i: usize = 0;
    while i < devices.len()
        invariant
            i <= devices.len(),
            r@.len() == inputs(devices@.subrange(0, i as int)).len(),
            forall|k: int|
                0 <= k < r@.len() ==> mic_row(
                    inputs(devices@.subrange(0, i as int))[k],
                    #[trigger] r@[k],
                ),
        decreases devices.len() - i,
    {
        let d = &devices[i];
        proof {
            let pre = devices@.subrange(0, i as int);
            assert(devices@.subrange(0, i + 1) =~= pre.push(devices@[i as int]));
            pre.lemma_filter_push(
                devices@[i as int],
                |d: AudioDevice| d.direction == AudioDirection::Input,
            );
        }
        if d.direction == AudioDirection::Input {
            let name = if d.name.as_str().is_empty() {
                d.id.clone()
            } else {
                d.name.clone()
            };
            r.push(AudioDeviceInfo { id: d.id.clone(), name, is_default: d.is_default });
        }
        i = i + 1;
    }
    assert(devices@.subrange(0, devices@.len() as int) =~= devices@);
    r
}

/// How healthy a camera looks from its name alone: a status and an optional
/// explanation.
pub open spec fn camera_class(name: Seq<char>) -> (Seq<char>, Option<Seq<char>>) {
    let n = ascii_lower(name);
    if has_substring(n, "droidcam"@) || has_substring(n, "epoccam"@) || has_substring(
        n,
        "nvidia broadcast"@,
    ) {
        ("warning"@, Some("Virtual camera source may enumerate but produce no frames."@))
    } else if has_substring(n, "obs virtual camera"@) || has_substring(n, "snap camera"@) {
        ("unknown"@, Some("Virtual camera source requires live validation."@))
    } else {
        ("ready"@, None)
    }
}

fn has(hay: &Vec<char>, pat: &str) -> (b: bool)
    ensures
        b == has_substring(hay@, pat@),
{
    let p = chars_of(pat);
    contains(hay.as_slice(), p.as_slice())
}

/// Classify a camera by its name, ignoring ASCII case: virtual cameras known
/// to enumerate without frames are a warning, those that need a live check
/// are unknown, anything else is ready.
pub fn classify_camera_name(name: &str) -> (r: (String, Option<String>))
    ensures
        r.0@ == camera_class(name@).0,
        opt_view(r.1) == camera_class(name@).1,
{
    let raw = chars_of(name);
    let n = to_ascii_lowercase(raw.as_slice());
    if has(&n, "droidcam") || has(&n, "epoccam") || has(&n, "nvidia broadcast") {
        (
            owned("warning"),
            Some(owned("Virtual camera source may enumerate but produce no frames.")),
        )
    } else if has(&n, "obs virtual camera") || has(&n, "snap camera") {
        (owned("unknown"), Some(owned("Virtual camera source requires live validation.")))
    } else {
        (owned("ready"), None)
    }
}

/// The picker row for a camera: the friendly name is both its id (what a
/// saved profile holds) and its label.
pub fn camera_device_info(name: String) -> (d: CameraDeviceInfo)
    ensures
        d.id@ == name@,
        d.name@ == name@,
        d.status@ == camera_class(name@).0,
        opt_view(d.status_message) == camera_class(name@).1,
{
    let (status, status_message) = classify_camera_name(name.as_str());
    CameraDeviceInfo { id: name.clone(), name, status, status_message }
}

/// The outcome of validating the camera `device_id` against the current
/// device list: an error row when it is gone, else its listed status or, where
/// a live probe ran, the probe's verdict.
pub fn camera_validation(
    devices: Vec<CameraDeviceInfo>,
    device_id: String,
    probed_at_unix_ms: u64,
    probe: Option<(String, Option<String>)>,
) -> (r: CameraValidationResult)
    ensures
        r.probed_at_unix_ms == probed_at_unix_ms,
        (forall|i: int| 0 <= i < devices@.len() ==> (#[trigger] devices@[i]).id@ != device_id@)
            ==> {
            &&& r.id@ == device_id@
            &&& r.name@ == device_id@
            &&& r.status@ == "error"@
            &&& opt_view(r.status_message) == Some("Camera device is no longer available."@)
        },
        (exists|i: int| 0 <= i < devices@.len() && (#[trigger] devices@[i]).id@ == device_id@)
            ==> exists|i: int|
            {
                &&& 0 <= i < devices@.len()
                &&& (#[trigger] devices@[i]).id@ == device_id@
                &&& forall|j: int| 0 <= j < i ==> devices@[j].id@ != device_id@
                &&& r.id@ == devices@[i].id@
                &&& r.name@ == devices@[i].name@
                &&& match probe {
                    Some(p) => r.status@ == p.0@ && opt_view(r.status_message) == opt_view(p.1),
                    None => r.status@ == devices@[i].status@ && opt_view(r.status_message)
                        == opt_view(devices@[i].status_message),
                }
            },
{
    let mut i: usize = 0;
    while i < devices.len()
        invariant
            i <= devices.len(),
            forall|j: int| 0 <= j < i ==> devices@[j].id@ != device_id@,
        decreases devices.len() - i,
    {
        if same_text(devices[i].id.as_str(), device_id.as_str()) {
            let d = &devices[i];
            let (status, status_message) = match probe {
                Some(p) => p,
                None => (d.status.clone(), match &d.status_message {
                    Some(m) => Some(m.clone()),
                    None => None,
                }),
            };
            return CameraValidationResult {
                id: d.id.clone(),
                name: d.name.clone(),
                status,
                status_message,
                probed_at_unix_ms,
            };
        }
        i = i + 1;
    }
    CameraValidationResult {
        id: device_id.clone(),
        name: device_id,
        status: owned("error"),
        status_message: Some(owned("Camera device is no longer available.")),
        probed_at_unix_ms,
    }
}

/// The DirectShow input a live camera probe opens: `video=<id>`, unless the
/// id already carries the prefix.
pub fn dshow_input(device_id: &str) -> (s: String)
    ensures
        has_prefix(device_id@, "video="@) ==> s@ == device_id@,
        !has_prefix(device_id@, "video="@) ==> s@ == "video="@ + device_id@,
{
    let id = chars_of(device_id);
    let prefix = chars_of("video=");
    if starts_with(id.as_slice(), prefix.as_slice()) {
        owned(device_id)
    } else {
        let mut out: Vec<char> = Vec::new();
        push_str(&mut out, "video=");
        push_str(&mut out, device_id);
        string_of(out.as_slice())
    }
}

/// The verdict of a one-frame camera probe, from its exit status and its
/// error output (compared ignoring ASCII case).
pub open spec fn probe_class(success: bool, stderr: Seq<char>) -> (Seq<char>, Option<Seq<char>>) {
    let e = ascii_lower(stderr);
    if success {
        ("ready"@, None)
    } else if has_substring(e, "device not found"@) || has_substring(e, "could not find"@)
        || has_substring(e, "no such file"@) {
        ("error"@, Some("Camera device was not found."@))
    } else if has_substring(e, "busy"@) || has_substring(e, "already in use"@) {
        ("warning"@, Some("Camera appears to be busy or unavailable for capture."@))
    } else {
        ("warning"@, Some("Camera probe failed. Preview validation will confirm liveliness."@))
    }
}

/// Classify a one-frame camera probe.
pub fn classify_camera_probe(success: bool, stderr: &str) -> (r: (String, Option<String>))
    ensures
        r.0@ == probe_class(success, stderr@).0,
        opt_view(r.1) == probe_class(success, stderr@).1,
{
    if success {
        return (owned("ready"), None);
    }
    let raw = chars_of(stderr);
    let e = to_ascii_lowercase(raw.as_slice());
    if has(&e, "device not found") || has(&e, "could not find") || has(&e, "no such file") {
        (owned("error"), Some(owned("Camera device was not found.")))
    } else if has(&e, "busy") || has(&e, "already in use") {
        (owned("warning"), Some(owned("Camera appears to be busy or unavailable for capture.")))
    } else {
        (
            owned("warning"),
            Some(owned("Camera probe failed. Preview validation will confirm liveliness.")),
        )
    }
}

/// Why a capture input is or is not usable.
#[derive(Debug, Clone, Copy, PartialEq, Eq, Structural)]
pub enum CapabilityStatus {
    /// Works on this device now.
    Supported,
    /// The platform cannot do it.
    Unsupported,
    /// Intended, but not built for this platform yet.
    Planned,
}

/// One row of the capture-support matrix.
#[derive(Debug, Clone)]
pub struct CaptureCapability {
    /// `"screen"`, `"window"`, `"region"`, `"systemAudio"`, `"microphone"`,
    /// `"camera"` or `"cursor"`.
    pub key: String,
    pub label: String,
    pub supported: bool,
    /// Refines `supported`: `Supported` exactly when it is true.
    pub status: CapabilityStatus,
    /// The native API used.
    pub backend: String,
    /// A caveat: a permission, a fallback, a limitation.
    pub note: Option<String>,
}

/// The capture-support matrix for one platform.
#[derive(Debug, Clone)]
pub struct CaptureCapabilities {
    /// `"windows"`, `"macos"`, `"linux"` or `"other"`.
    pub platform: String,
    /// The active screen-capture backend.
    pub screen_backend: String,
    pub capabilities: Vec<CaptureCapability>,
}

/// `c` is the row with these fields.
pub open spec fn is_row(
    c: CaptureCapability,
    key: Seq<char>,
    label: Seq<char>,
    supported: bool,
    status: CapabilityStatus,
    backend: Seq<char>,
    note: Option<Seq<char>>,
) -> bool {
    &&& c.key@ == key
    &&& c.label@ == label
    &&& c.supported == supported
    &&& c.status == status
    &&& c.backend@ == backend
    &&& opt_view(c.note) == note
}

/// The status of a row that is either supported or not.
pub open spec fn status_of(supported: bool) -> CapabilityStatus {
    if supported {
        CapabilityStatus::Supported
    } else {
        CapabilityStatus::Unsupported
    }
}

/// The view of an optional note.
pub open spec fn note_view(note: Option<&str>) -> Option<Seq<char>> {
    match note {
        Some(n) => Some(n@),
        None => None,
    }
}

fn note_of(note: Option<&str>) -> (r: Option<String>)
    ensures
        opt_view(r) == note_view(note),
{
    match note {
        Some(n) => Some(owned(n)),
        None => None,
    }
}

/// A row that the platform either supports or cannot support.
pub fn cap(key: &str, label: &str, supported: bool, backend: &str, note: Option<&str>) -> (c:
    CaptureCapability)
    ensures
        is_row(c, key@, label@, supported, status_of(supported), backend@, note_view(note)),
{
    CaptureCapability {
        key: owned(key),
        label: owned(label),
        supported,
        status: if supported {
            CapabilityStatus::Supported
        } else {
            CapabilityStatus::Unsupported
        },
        backend: owned(backend),
        note: note_of(note),
    }
}

/// A row planned for the platform but not built yet.
pub fn cap_planned(key: &str, label: &str, backend: &str, note: Option<&str>) -> (c:
    CaptureCapability)
    ensures
        is_row(c, key@, label@, false, CapabilityStatus::Planned, backend@, note_view(note)),
{
    CaptureCapability {
        key: owned(key),
        label: owned(label),
        supported: false,
        status: CapabilityStatus::Planned,
        backend: owned(backend),
        note: note_of(note),
    }
}

/// What the capture backend reports about pointer and audio access.
#[derive(Debug, Clone, Copy)]
pub struct KitCapabilities {
    /// The session reports the pointer position to applications.
    pub cursor_pointer: bool,
    /// The session reports button presses to applications.
    pub cursor_buttons: bool,
    /// The output mix can be recorded.
    pub audio_loopback: bool,
}

/// The cursor row, from what the capture backend reports.
pub open spec fn is_cursor_row(c: CaptureCapability, kit: KitCapabilities, backend: Seq<char>) -> bool {
    is_row(
        c,
        "cursor"@,
        "Cursor tracking"@,
        kit.cursor_pointer,
        status_of(kit.cursor_pointer),
        backend,
        if !kit.cursor_pointer {
            Some(
                "Your session does not report the pointer to applications, so cursor tracking is off."@,
            )
        } else if !kit.cursor_buttons {
            Some("Movement is tracked, but clicks cannot be detected on this session."@)
        } else {
            None
        },
    )
}

/// The cursor row: off where the session hides the pointer, with a note
/// where clicks cannot be seen.
pub fn cursor_cap(kit: KitCapabilities, backend: &str) -> (c: CaptureCapability)
    ensures
        is_cursor_row(c, kit, backend@),
{
    let note = if !kit.cursor_pointer {
        Some(
            "Your session does not report the pointer to applications, so cursor tracking is off.",
        )
    } else if !kit.cursor_buttons {
        Some("Movement is tracked, but clicks cannot be detected on this session.")
    } else {
        None
    };
    cap("cursor", "Cursor tracking", kit.cursor_pointer, backend, note)
}

/// The platform the app was built for.
#[derive(Debug, Clone, Copy, PartialEq, Eq, Structural)]
pub enum Platform {
    Windows,
    Macos,
    Linux,
    Other,
}

/// Which display servers the session advertises (Linux).
#[derive(Debug, Clone, Copy)]
pub struct DisplayEnv {
    /// `WAYLAND_DISPLAY` is set.
    pub wayland: bool,
    /// `DISPLAY` is set.
    pub x11: bool,
}

/// The Linux screen backend and its note: Wayland first (XWayland sets both
/// variables, and X11 capture under it is black), then X11.
pub open spec fn linux_screen(env: DisplayEnv) -> (Seq<char>, Option<Seq<char>>) {
    if env.wayland {
        (
            "PipeWire (xdg-desktop-portal)"@,
            Some("Approve the screen-share prompt at the start of each recording."@),
        )
    } else if env.x11 {
        ("X11 (XGetImage)"@, None)
    } else {
        ("None"@, Some("No display server detected — set WAYLAND_DISPLAY or DISPLAY."@))
    }
}

/// The matrix for Windows.
pub open spec fn windows_matrix(r: CaptureCapabilities, kit: KitCapabilities) -> bool {
    let c = r.capabilities@;
    let b = "DXGI Desktop Duplication"@;
    &&& r.platform@ == "windows"@
    &&& r.screen_backend@ == b
    &&& c.len() == 7
    &&& is_row(c[0], "screen"@, "Full-screen recording"@, true, CapabilityStatus::Supported, b, None)
    &&& is_row(
        c[1],
        "window"@,
        "Window capture"@,
        true,
        CapabilityStatus::Supported,
        "Windows Graphics Capture"@,
        Some("Records the window's own surface, so overlapping windows stay out."@),
    )
    &&& is_row(c[2], "region"@, "Region capture"@, true, CapabilityStatus::Supported, b, None)
    &&& is_row(
        c[3],
        "systemAudio"@,
        "System audio"@,
        true,
        CapabilityStatus::Supported,
        "WASAPI loopback"@,
        None,
    )
    &&& is_row(c[4], "microphone"@, "Microphone"@, true, CapabilityStatus::Supported, "WASAPI"@, None)
    &&& is_row(
        c[5],
        "camera"@,
        "Webcam"@,
        true,
        CapabilityStatus::Supported,
        "Media Foundation"@,
        Some("DirectShow-only virtual cameras are not listed."@),
    )
    &&& is_cursor_row(c[6], kit, "Win32 GetCursorInfo"@)
}

/// The matrix for macOS.
pub open spec fn macos_matrix(r: CaptureCapabilities, kit: KitCapabilities) -> bool {
    let c = r.capabilities@;
    let b = "ScreenCaptureKit"@;
    &&& r.platform@ == "macos"@
    &&& r.screen_backend@ == b
    &&& c.len() == 7
    &&& is_row(
        c[0],
        "screen"@,
        "Full-screen recording"@,
        true,
        CapabilityStatus::Supported,
        b,
        Some("Requires Screen Recording permission (System Settings → Privacy & Security)."@),
    )
    &&& is_row(
        c[1],
        "window"@,
        "Window capture"@,
        true,
        CapabilityStatus::Supported,
        b,
        Some("Records the window's own surface, so overlapping windows stay out."@),
    )
    &&& is_row(c[2], "region"@, "Region capture"@, true, CapabilityStatus::Supported, b, None)
    &&& is_row(
        c[3],
        "systemAudio"@,
        "System audio"@,
        true,
        CapabilityStatus::Supported,
        b,
        Some(
            "Carries the Screen Recording grant: macOS taps the output mix through the same stream."@,
        ),
    )
    &&& is_row(
        c[4],
        "microphone"@,
        "Microphone"@,
        true,
        CapabilityStatus::Supported,
        "AVFoundation"@,
        Some("Uses the Microphone permission, separate from Screen Recording."@),
    )
    &&& is_row(c[5], "camera"@, "Webcam"@, true, CapabilityStatus::Supported, "AVFoundation"@, None)
    &&& is_cursor_row(c[6], kit, "CoreGraphics"@)
}

/// The matrix for Linux.
pub open spec fn linux_matrix(r: CaptureCapabilities, env: DisplayEnv, kit: KitCapabilities) -> bool {
    let c = r.capabilities@;
    let b = linux_screen(env).0;
    let audio = kit.audio_loopback;
    &&& r.platform@ == "linux"@
    &&& r.screen_backend@ == b
    &&& c.len() == 7
    &&& is_row(
        c[0],
        "screen"@,
        "Full-screen recording"@,
        true,
        CapabilityStatus::Supported,
        b,
        linux_screen(env).1,
    )
    &&& is_row(c[1], "window"@, "Window capture"@, true, CapabilityStatus::Supported, b, None)
    &&& is_row(c[2], "region"@, "Region capture"@, true, CapabilityStatus::Supported, b, None)
    &&& is_row(
        c[3],
        "systemAudio"@,
        "System audio"@,
        audio,
        status_of(audio),
        "PipeWire"@,
        Some("Reads the default sink's monitor; needs a running PipeWire daemon."@),
    )
    &&& is_row(c[4], "microphone"@, "Microphone"@, audio, status_of(audio), "PipeWire"@, None)
    &&& is_row(c[5], "camera"@, "Webcam"@, true, CapabilityStatus::Supported, "V4L2"@, None)
    &&& is_cursor_row(c[6], kit, "X11 XQueryPointer"@)
}

/// The matrix for a platform with no backend wired: every row planned.
pub open spec fn other_matrix(r: CaptureCapabilities) -> bool {
    let c = r.capabilities@;
    let p = "Not implemented yet"@;
    &&& r.platform@ == "other"@
    &&& r.screen_backend@ == p
    &&& c.len() == 7
    &&& is_row(
        c[0],
        "screen"@,
        "Full-screen recording"@,
        false,
        CapabilityStatus::Planned,
        p,
        Some("Screen capture isn't available for this platform yet."@),
    )
    &&& is_row(c[1], "window"@, "Window capture"@, false, CapabilityStatus::Planned, p, None)
    &&& is_row(c[2], "region"@, "Region capture"@, false, CapabilityStatus::Planned, p, None)
    &&& is_row(c[3], "systemAudio"@, "System audio"@, false, CapabilityStatus::Planned, p, None)
    &&& is_row(c[4], "microphone"@, "Microphone"@, false, CapabilityStatus::Planned, p, None)
    &&& is_row(c[5], "camera"@, "Webcam"@, false, CapabilityStatus::Planned, p, None)
    &&& is_row(c[6], "cursor"@, "Cursor tracking"@, false, CapabilityStatus::Planned, p, None)
}

fn windows_capabilities(kit: KitCapabilities) -> (r: CaptureCapabilities)
    ensures
        windows_matrix(r, kit),
{
    let b = "DXGI Desktop Duplication";
    let mut c: Vec<CaptureCapability> = Vec::new();
    c.push(cap("screen", "Full-screen recording", true, b, None));
    c.push(
        cap(
            "window",
            "Window capture",
            true,
            "Windows Graphics Capture",
            Some("Records the window's own surface, so overlapping windows stay out."),
        ),
    );
    c.push(cap("region", "Region capture", true, b, None));
    c.push(cap("systemAudio", "System audio", true, "WASAPI loopback", None));
    c.push(cap("microphone", "Microphone", true, "WASAPI", None));
    c.push(
        cap(
            "camera",
            "Webcam",
            true,
            "Media Foundation",
            Some("DirectShow-only virtual cameras are not listed."),
        ),
    );
    c.push(cursor_cap(kit, "Win32 GetCursorInfo"));
    CaptureCapabilities { platform: owned("windows"), screen_backend: owned(b), capabilities: c }
}

fn macos_capabilities(kit: KitCapabilities) -> (r: CaptureCapabilities)
    ensures
        macos_matrix(r, kit),
{
    let b = "ScreenCaptureKit";
    let mut c: Vec<CaptureCapability> = Vec::new();
    c.push(
        cap(
            "screen",
            "Full-screen recording",
            true,
            b,
            Some("Requires Screen Recording permission (System Settings → Privacy & Security)."),
        ),
    );
    c.push(
        cap(
            "window",
            "Window capture",
            true,
            b,
            Some("Records the window's own surface, so overlapping windows stay out."),
        ),
    );
    c.push(cap("region", "Region capture", true, b, None));
    c.push(
        cap(
            "systemAudio",
            "System audio",
            true,
            b,
            Some(
                "Carries the Screen Recording grant: macOS taps the output mix through the same stream.",
            ),
        ),
    );
    c.push(
        cap(
            "microphone",
            "Microphone",
            true,
            "AVFoundation",
            Some("Uses the Microphone permission, separate from Screen Recording."),
        ),
    );
    c.push(cap("camera", "Webcam", true, "AVFoundation", None));
    c.push(cursor_cap(kit, "CoreGraphics"));
    CaptureCapabilities { platform: owned("macos"), screen_backend: owned(b), capabilities: c }
}

fn linux_capabilities(env: DisplayEnv, kit: KitCapabilities) -> (r: CaptureCapabilities)
    ensures
        linux_matrix(r, env, kit),
{
    let (b, note): (&str, Option<&str>) = if env.wayland {
        (
            "PipeWire (xdg-desktop-portal)",
            Some("Approve the screen-share prompt at the start of each recording."),
        )
    } else if env.x11 {
        ("X11 (XGetImage)", None)
    } else {
        ("None", Some("No display server detected — set WAYLAND_DISPLAY or DISPLAY."))
    };
    let audio = kit.audio_loopback;
    let mut c: Vec<CaptureCapability> = Vec::new();
    c.push(cap("screen", "Full-screen recording", true, b, note));
    c.push(cap("window", "Window capture", true, b, None));
    c.push(cap("region", "Region capture", true, b, None));
    c.push(
        cap(
            "systemAudio",
            "System audio",
            audio,
            "PipeWire",
            Some("Reads the default sink's monitor; needs a running PipeWire daemon."),
        ),
    );
    c.push(cap("microphone", "Microphone", audio, "PipeWire", None));
    c.push(cap("camera", "Webcam", true, "V4L2", None));
    c.push(cursor_cap(kit, "X11 XQueryPointer"));
    CaptureCapabilities { platform: owned("linux"), screen_backend: owned(b), capabilities: c }
}

fn other_capabilities() -> (r: CaptureCapabilities)
    ensures
        other_matrix(r),
{
    let p = "Not implemented yet";
    let mut c: Vec<CaptureCapability> = Vec::new();
    c.push(
        cap_planned(
            "screen",
            "Full-screen recording",
            p,
            Some("Screen capture isn't available for this platform yet."),
        ),
    );
    c.push(cap_planned("window", "Window capture", p, None));
    c.push(cap_planned("region", "Region capture", p, None));
    c.push(cap_planned("systemAudio", "System audio", p, None));
    c.push(cap_planned("microphone", "Microphone", p, None));
    c.push(cap_planned("camera", "Webcam", p, None));
    c.push(cap_planned("cursor", "Cursor tracking", p, None));
    CaptureCapabilities { platform: owned("other"), screen_backend: owned(p), capabilities: c }
}

/// The capture-support matrix for a platform, from the session's display
/// servers and what the capture backend reports.
pub fn build_capture_capabilities(platform: Platform, env: DisplayEnv, kit: KitCapabilities) -> (r:
    CaptureCapabilities)
    ensures
        platform == Platform::Windows ==> windows_matrix(r, kit),
        platform == Platform::Macos ==> macos_matrix(r, kit),
        platform == Platform::Linux ==> linux_matrix(r, env, kit),
        platform == Platform::Other ==> other_matrix(r),
{
    match platform {
        Platform::Windows => windows_capabilities(kit),
        Platform::Macos => macos_capabilities(kit),
        Platform::Linux => linux_capabilities(env, kit),
        Platform::Other => other_capabilities(),
    }
}

/// In every matrix a row is supported exactly when its status says so.
pub proof fn law_supported_iff_status_supported(
    r: CaptureCapabilities,
    platform: Platform,
    env: DisplayEnv,
    kit: KitCapabilities,
    i: int,
)
    requires
        platform == Platform::Windows ==> windows_matrix(r, kit),
        platform == Platform::Macos ==> macos_matrix(r, kit),
        platform == Platform::Linux ==> linux_matrix(r, env, kit),
        platform == Platform::Other ==> other_matrix(r),
        0 <= i < r.capabilities@.len(),
    ensures
        r.capabilities@[i].supported <==> r.capabilities@[i].status == CapabilityStatus::Supported,
{
}

/// The resolved tool paths, version line and encoder availability, for bug
/// reports.
#[derive(Debug, Clone)]
pub struct FfmpegDiagnostics {
    pub ffmpeg_path: String,
    pub ffprobe_path: String,
    pub version: Option<String>,
    pub h264_encoder: String,
    pub encoders_present: Vec<String>,
    pub encoders_missing: Vec<String>,
}

/// The encoders every export format needs.
pub open spec fn required_encoders() -> Seq<Seq<char>> {
    seq!["libx264"@, "aac"@, "libvpx-vp9"@, "libopus"@]
}

/// The hardware encoders reported when present.
pub open spec fn hardware_encoders() -> Seq<Seq<char>> {
    seq![
        "h264_videotoolbox"@,
        "h264_nvenc"@,
        "h264_amf"@,
        "h264_qsv"@,
        "hevc_videotoolbox"@,
        "hevc_nvenc"@,
        "hevc_amf"@,
        "hevc_qsv"@,
    ]
}

/// Whether `table` mentions a name.
pub open spec fn in_table(table: Seq<char>) -> spec_fn(Seq<char>) -> bool {
    |n: Seq<char>| has_substring(table, n)
}

/// Whether `table` does not mention a name.
pub open spec fn not_in_table(table: Seq<char>) -> spec_fn(Seq<char>) -> bool {
    |n: Seq<char>| !has_substring(table, n)
}

/// The names among `names` that `table` mentions, in order.
pub open spec fn mentioned(names: Seq<Seq<char>>, table: Seq<char>) -> Seq<Seq<char>> {
    names.filter(in_table(table))
}

/// The names among `names` that `table` does not mention, in order.
pub open spec fn unmentioned(names: Seq<Seq<char>>, table: Seq<char>) -> Seq<Seq<char>> {
    names.filter(not_in_table(table))
}

fn sort_names(names: &[&str], table: &Vec<char>, present: &mut Vec<String>, missing: &mut Vec<String>, keep_missing: bool)
    ensures
        texts(final(present)@) == texts(old(present)@)
            + mentioned(str_texts(names@), table@),
        keep_missing ==> texts(final(missing)@) == texts(old(missing)@) + unmentioned(str_texts(names@), table@),
        !keep_missing ==> final(missing)@ == old(missing)@,
{
    let ghost p0 = texts(present@);
    let ghost m0 = texts(missing@);
    let ghost all = str_texts(names@);
    let mut i: usize = 0;
    while i < names.len()
        invariant
            i <= names.len(),
            all == str_texts(names@),
            texts(present@) == p0 + mentioned(all.subrange(0, i as int), table@),
            keep_missing ==> texts(missing@) == m0 + unmentioned(
                all.subrange(0, i as int),
                table@,
            ),
            !keep_missing ==> missing@ == old(missing)@,
        decreases names.len() - i,
    {
        let name = names[i];
        let pat = chars_of(name);
        let found = contains(table.as_slice(), pat.as_slice());
        proof {
            let pre = all.subrange(0, i as int);
            assert(all.subrange(0, i + 1) =~= pre.push(all[i as int]));
            pre.lemma_filter_push(all[i as int], in_table(table@));
            pre.lemma_filter_push(all[i as int], not_in_table(table@));
            assert(all[i as int] == name@);
        }
        if found {
            assert(in_table(table@)(name@));
            assert(mentioned(all.subrange(0, i + 1), table@) == mentioned(all.subrange(0, i as int), table@).push(name@));
            let ghost before = present@;
            present.push(owned(name));
            assert(texts(present@) =~= texts(before).push(name@));
            assert(texts(present@) =~= p0 + mentioned(
                all.subrange(0, i + 1),
                table@,
            ));
        } else if keep_missing {
            let ghost before = missing@;
            missing.push(owned(name));
            assert(texts(missing@) =~= texts(before).push(name@));
            assert(texts(missing@) =~= m0 + unmentioned(
                all.subrange(0, i + 1),
                table@,
            ));
        }
        i = i + 1;
    }
    assert(all.subrange(0, names@.len() as int) =~= all);
}

/// Sort the encoders by what the `-encoders` table mentions: required ones
/// into present or missing, hardware ones into present when there. Without a
/// table every required encoder is missing.
pub fn encoder_report(table: Option<&str>) -> (r: (Vec<String>, Vec<String>))
    ensures
        table matches Some(t) ==> texts(r.0@) == mentioned(
            required_encoders(),
            t@,
        ) + mentioned(hardware_encoders(), t@) && texts(r.1@) == unmentioned(
            required_encoders(),
            t@,
        ),
        table is None ==> r.0@.len() == 0 && texts(r.1@)
            == required_encoders(),
{
    let required: [&str; 4] = ["libx264", "aac", "libvpx-vp9", "libopus"];
    let mut present: Vec<String> = Vec::new();
    let mut missing: Vec<String> = Vec::new();
    match table {
        Some(t) => {
            let text = chars_of(t);
            let hardware: [&str; 8] = [
                "h264_videotoolbox",
                "h264_nvenc",
                "h264_amf",
                "h264_qsv",
                "hevc_videotoolbox",
                "hevc_nvenc",
                "hevc_amf",
                "hevc_qsv",
            ];
            proof {
                reveal_strlit("libx264");
            }
            sort_names(required.as_slice(), &text, &mut present, &mut missing, true);
            sort_names(hardware.as_slice(), &text, &mut present, &mut missing, false);
            assert(str_texts(required@) =~= required_encoders());
            assert(str_texts(hardware@) =~= hardware_encoders());
            assert(texts(present@) =~= mentioned(required_encoders(), t@)
                + mentioned(hardware_encoders(), t@));
        },
        None => {
            let mut i: usize = 0;
            while i < 4
                invariant
                    i <= 4,
                    str_texts(required@) == required_encoders(),
                    present@.len() == 0,
                    texts(missing@) == required_encoders().subrange(0, i as int),
                decreases 4 - i,
            {
                assert(required_encoders()[i as int] == required@[i as int]@);
                let ghost before = missing@;
                missing.push(owned(required[i]));
                assert(texts(missing@) =~= texts(before).push(required_encoders()[i as int]));
                i = i + 1;
                assert(texts(missing@) =~= required_encoders().subrange(
                    0,
                    i as int,
                ));
            }
            assert(required_encoders().subrange(0, 4) =~= required_encoders());
        },
    }
    (present, missing)
}

/// How verbose the log is.
#[derive(Debug, Clone, Copy, PartialEq, Eq, Structural)]
pub enum LogLevel {
    Debug,
    Info,
    Warn,
}

/// The log level for the diagnostic-logging setting: debug when it is on,
/// else info in debug builds and warnings only in release builds.
pub fn log_level_for(diagnostic: bool, debug_build: bool) -> (l: LogLevel)
    ensures
        diagnostic ==> l == LogLevel::Debug,
        !diagnostic && debug_build ==> l == LogLevel::Info,
        !diagnostic && !debug_build ==> l == LogLevel::Warn,
{
    if diagnostic {
        LogLevel::Debug
    } else if debug_build {
        LogLevel::Info
    } else {
        LogLevel::Warn
    }
}

/// A character Windows refuses in file names.
pub open spec fn is_illegal_name_char(c: char) -> bool {
    c == '<' || c == '>' || c == ':' || c == '"' || c == '|' || c == '?' || c == '*'
}

/// Why a new file name is refused, if it is: empty once trimmed, a path
/// rather than a name, or a character Windows refuses.
pub open spec fn name_problem(new_name: Seq<char>) -> Option<Seq<char>> {
    let t = trim(new_name);
    if t.len() == 0 {
        Some("Name cannot be empty"@)
    } else if t.contains('/') || t.contains('\\') || has_substring(t, ".."@) {
        Some("Name cannot contain path separators"@)
    } else if exists|i: int| 0 <= i < t.len() && is_illegal_name_char(t[i]) {
        Some("Name contains illegal characters"@)
    } else {
        None
    }
}

fn has_char(s: &Vec<char>, c: char) -> (b: bool)
    ensures
        b == s@.contains(c),
{
    let mut i: usize = 0;
    while i < s.len()
        invariant
            i <= s.len(),
            forall|k: int| 0 <= k < i ==> s@[k] != c,
        decreases s.len() - i,
    {
        if s[i] == c {
            assert(s@[i as int] == c);
            return true;
        }
        i = i + 1;
    }
    false
}

/// Check a new file name, handing back the trimmed name when it is usable.
pub fn check_new_name(new_name: &str) -> (r: Result<Vec<char>, AppError>)
    ensures
        name_problem(new_name@) is None ==> (r matches Ok(t) && t@ == trim(new_name@)),
        name_problem(new_name@) matches Some(m) ==> (r matches Err(AppError::Message(e)) && e@
            == m),
{
    let raw = chars_of(new_name);
    let t = trimmed(raw.as_slice());
    if t.len() == 0 {
        return Err(AppError::Message(owned("Name cannot be empty")));
    }
    let dots = chars_of("..");
    if has_char(&t, '/') || has_char(&t, '\\') || contains(t.as_slice(), dots.as_slice()) {
        return Err(AppError::Message(owned("Name cannot contain path separators")));
    }
    let mut i: usize = 0;
    while i < t.len()
        invariant
            i <= t.len(),
            t@ == trim(new_name@),
            t@.len() > 0,
            !t@.contains('/'),
            !t@.contains('\\'),
            !has_substring(t@, ".."@),
            forall|k: int| 0 <= k < i ==> !is_illegal_name_char(t@[k]),
        decreases t.len() - i,
    {
        let c = t[i];
        if c == '<' || c == '>' || c == ':' || c == '"' || c == '|' || c == '?' || c == '*' {
            assert(is_illegal_name_char(t@[i as int]));
            return Err(AppError::Message(owned("Name contains illegal characters")));
        }
        i = i + 1;
    }
    Ok(t)
}

/// A file name has an extension when a dot follows its first character
/// (`Path::extension`; `"."` names no file).
pub open spec fn has_extension(name: Seq<char>) -> bool {
    name != seq!['.'] && exists|i: int| 0 < i < name.len() && name[i] == '.'
}

/// The name a renamed file gets: the user's name when it carries an
/// extension, else the user's name with the original extension kept.
pub open spec fn renamed_to(name: Seq<char>, original_ext: Option<Seq<char>>) -> Seq<char> {
    if has_extension(name) {
        name
    } else {
        match original_ext {
            Some(e) => name + seq!['.'] + e,
            None => name,
        }
    }
}

/// The final file name for a rename of a file whose extension was
/// `original_ext`.
pub fn final_file_name(name: &Vec<char>, original_ext: Option<&str>) -> (r: String)
    ensures
        r@ == renamed_to(name@, match original_ext {
            Some(e) => Some(e@),
            None => None,
        }),
{
    let mut has_dot = false;
    let mut i: usize = 1;
    while i < name.len()
        invariant
            1 <= i,
            i <= name.len() || name.len() == 0,
            has_dot == exists|k: int| 0 < k < i && k < name.len() && name@[k] == '.',
        decreases name.len() - i,
    {
        if name[i] == '.' {
            has_dot = true;
        }
        i = i + 1;
    }
    let is_dot = name.len() == 1 && name[0] == '.';
    proof {
        if is_dot {
            assert(name@ =~= seq!['.']);
        }
        if name@ == seq!['.'] {
            assert(is_dot);
        }
    }
    let mut out: Vec<char> = name.clone();
    if !(has_dot && !is_dot) {
        match original_ext {
            Some(e) => {
                out.push('.');
                push_str(&mut out, e);
            },
            None => {},
        }
    }
    string_of(out.as_slice())
}

} // verus!
