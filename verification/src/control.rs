//! Decisions of the local control channel between the command line and a
//! running app: who may call, which method a request names, how a partial
//! patch merges into the capture intent, and which events a watcher gets.

use rand::Rng;
use vstd::prelude::*;

use crate::text::{push_str, same_text, string_of};
use crate::types::{opt_view, CaptureIntent, IntentView, OptionsView, RecordingOptions, RegionRect};

verus! {

/// A partial edit of the capture intent, one field per key the command line
/// may send. The outer `None` means the key was absent; for nullable keys
/// `Some(None)` means the key was sent as `null` (or as a value of the wrong
/// shape), which clears the field.
#[derive(Debug, Clone)]
pub struct IntentPatch {
    pub target_type: Option<Option<String>>,
    /// Present only when the key holds an unsigned integer.
    pub target_id: Option<u64>,
    pub region: Option<Option<RegionRect>>,
    /// Present only when the key holds a boolean.
    pub system_audio: Option<bool>,
    /// Present only when the key holds a boolean.
    pub microphone: Option<bool>,
    pub microphone_device_id: Option<Option<String>>,
    /// Present only when the key holds a boolean.
    pub camera: Option<bool>,
    pub camera_device_id: Option<Option<String>>,
    pub fps: Option<Option<u64>>,
    pub quality: Option<Option<String>>,
    pub countdown: Option<Option<u64>>,
}

/// The view of a present-or-absent nullable string.
pub open spec fn key_view(o: Option<Option<String>>) -> Option<Option<Seq<char>>> {
    match o {
        Some(inner) => Some(opt_view(inner)),
        None => None,
    }
}

/// The mathematical content of an [`IntentPatch`].
pub struct PatchView {
    pub target_type: Option<Option<Seq<char>>>,
    pub target_id: Option<u64>,
    pub region: Option<Option<RegionRect>>,
    pub system_audio: Option<bool>,
    pub microphone: Option<bool>,
    pub microphone_device_id: Option<Option<Seq<char>>>,
    pub camera: Option<bool>,
    pub camera_device_id: Option<Option<Seq<char>>>,
    pub fps: Option<Option<u64>>,
    pub quality: Option<Option<Seq<char>>>,
    pub countdown: Option<Option<u64>>,
}

impl View for IntentPatch {
    type V = PatchView;

    open spec fn view(&self) -> PatchView {
        PatchView {
            target_type: key_view(self.target_type),
            target_id: self.target_id,
            region: self.region,
            system_audio: self.system_audio,
            microphone: self.microphone,
            microphone_device_id: key_view(self.microphone_device_id),
            camera: self.camera,
            camera_device_id: key_view(self.camera_device_id),
            fps: self.fps,
            quality: key_view(self.quality),
            countdown: self.countdown,
        }
    }
}

/// The patch that mentions no key.
pub open spec fn empty_patch() -> PatchView {
    PatchView {
        target_type: None,
        target_id: None,
        region: None,
        system_audio: None,
        microphone: None,
        microphone_device_id: None,
        camera: None,
        camera_device_id: None,
        fps: None,
        quality: None,
        countdown: None,
    }
}

impl Default for IntentPatch {
    fn default() -> (p: IntentPatch)
        ensures
            p@ == empty_patch(),
    {
        IntentPatch {
            target_type: None,
            target_id: None,
            region: None,
            system_audio: None,
            microphone: None,
            microphone_device_id: None,
            camera: None,
            camera_device_id: None,
            fps: None,
            quality: None,
            countdown: None,
        }
    }
}

/// A value replaced where the key was sent, kept where it was absent.
pub open spec fn merge<T>(key: Option<T>, current: T) -> T {
    match key {
        Some(v) => v,
        None => current,
    }
}

/// A nullable count narrowed to 32 bits the way `as u32` does.
pub open spec fn narrowed(n: Option<u64>) -> Option<u32> {
    match n {
        Some(v) => Some(v as u32),
        None => None,
    }
}

/// The capture options after merging a patch.
pub open spec fn patched_options(o: OptionsView, p: PatchView) -> OptionsView {
    OptionsView {
        system_audio: merge(p.system_audio, o.system_audio),
        microphone: merge(p.microphone, o.microphone),
        microphone_device_id: merge(p.microphone_device_id, o.microphone_device_id),
        camera: merge(p.camera, o.camera),
        camera_device_id: merge(p.camera_device_id, o.camera_device_id),
        fps: match p.fps {
            Some(f) => narrowed(f),
            None => o.fps,
        },
        quality: merge(p.quality, o.quality),
    }
}

/// The intent after merging a patch: each key that was sent replaces its
/// field, each absent key leaves it as it was.
pub open spec fn patched(i: IntentView, p: PatchView) -> IntentView {
    IntentView {
        target_type: merge(p.target_type, i.target_type),
        target_id: match p.target_id {
            Some(n) => n as u32,
            None => i.target_id,
        },
        region: merge(p.region, i.region),
        options: patched_options(i.options, p),
        countdown: match p.countdown {
            Some(c) => narrowed(c),
            None => i.countdown,
        },
        active_profile_id: i.active_profile_id,
    }
}

fn narrow(n: Option<u64>) -> (r: Option<u32>)
    ensures
        r == narrowed(n),
{
    match n {
        Some(v) => Some(v as u32),
        None => None,
    }
}

fn take_text(o: &Option<String>) -> (r: Option<String>)
    ensures
        opt_view(r) == opt_view(*o),
{
    match o {
        Some(s) => Some(s.clone()),
        None => None,
    }
}

fn patch_audio(options: &mut RecordingOptions, patch: &IntentPatch)
    ensures
        final(options)@ == (OptionsView {
            system_audio: merge(patch@.system_audio, old(options)@.system_audio),
            microphone: merge(patch@.microphone, old(options)@.microphone),
            microphone_device_id: merge(
                patch@.microphone_device_id,
                old(options)@.microphone_device_id,
            ),
            ..old(options)@
        }),
{
    if let Some(b) = patch.system_audio {
        options.system_audio = b;
    }
    if let Some(b) = patch.microphone {
        options.microphone = b;
    }
    if let Some(v) = &patch.microphone_device_id {
        options.microphone_device_id = take_text(v);
    }
}

fn patch_video(options: &mut RecordingOptions, patch: &IntentPatch)
    ensures
        final(options)@ == patched_options(old(options)@, patch@),
{
    patch_audio(options, patch);
    if let Some(b) = patch.camera {
        options.camera = b;
    }
    if let Some(v) = &patch.camera_device_id {
        options.camera_device_id = take_text(v);
    }
    if let Some(f) = patch.fps {
        options.fps = narrow(f);
    }
    if let Some(v) = &patch.quality {
        options.quality = take_text(v);
    }
}

/// Merge a partial patch into the intent. Key presence is authoritative: a
/// key sent as `null` clears its field, an absent key leaves it untouched.
pub fn apply_patch(intent: &mut CaptureIntent, patch: &IntentPatch)
    ensures
        final(intent)@ == patched(old(intent)@, patch@),
{
    if let Some(v) = &patch.target_type {
        intent.target_type = take_text(v);
    }
    if let Some(n) = patch.target_id {
        intent.target_id = n as u32;
    }
    if let Some(r) = patch.region {
        intent.region = r;
    }
    patch_video(&mut intent.options, patch);
    if let Some(c) = patch.countdown {
        intent.countdown = narrow(c);
    }
}

/// A patch that mentions no key leaves the intent as it was.
pub proof fn law_empty_patch_is_identity(i: IntentView)
    ensures
        patched(i, empty_patch()) == i,
{
}

/// Merging the same patch twice gives what merging it once gives.
pub proof fn law_patch_idempotent(i: IntentView, p: PatchView)
    ensures
        patched(patched(i, p), p) == patched(i, p),
{
}

/// Key presence is authoritative for the nullable device ids: an absent key
/// preserves the id, a key sent as `null` clears it, a key sent with a value
/// sets it.
pub proof fn law_patch_null_clears_absent_preserves(i: IntentView, p: PatchView)
    ensures
        p.microphone_device_id is None ==> patched(i, p).options.microphone_device_id
            == i.options.microphone_device_id,
        p.microphone_device_id == Some(None::<Seq<char>>)
            ==> patched(i, p).options.microphone_device_id is None,
        p.microphone_device_id matches Some(Some(d)) ==> patched(
            i,
            p,
        ).options.microphone_device_id == Some(d),
        p.camera_device_id is None ==> patched(i, p).options.camera_device_id
            == i.options.camera_device_id,
        p.camera_device_id == Some(None::<Seq<char>>)
            ==> patched(i, p).options.camera_device_id is None,
{
}

/// Every key the patch sends sets its field to the sent value (a count
/// narrowed to 32 bits, a `null` clearing a nullable field), every key it
/// leaves out keeps its field, and the active profile is never touched.
pub proof fn law_patch_sets_sent_keys_keeps_absent(i: IntentView, p: PatchView)
    ensures
        ({
            let r = patched(i, p);
            &&& (p.target_type matches Some(v) ==> r.target_type == v)
            &&& (p.target_type is None ==> r.target_type == i.target_type)
            &&& (p.target_id matches Some(n) ==> r.target_id == n as u32)
            &&& (p.target_id is None ==> r.target_id == i.target_id)
            &&& (p.region matches Some(v) ==> r.region == v)
            &&& (p.region is None ==> r.region == i.region)
            &&& (p.system_audio matches Some(b) ==> r.options.system_audio == b)
            &&& (p.system_audio is None ==> r.options.system_audio == i.options.system_audio)
            &&& (p.microphone matches Some(b) ==> r.options.microphone == b)
            &&& (p.microphone is None ==> r.options.microphone == i.options.microphone)
            &&& (p.microphone_device_id matches Some(v) ==> r.options.microphone_device_id == v)
            &&& (p.microphone_device_id is None ==> r.options.microphone_device_id
                == i.options.microphone_device_id)
            &&& (p.camera matches Some(b) ==> r.options.camera == b)
            &&& (p.camera is None ==> r.options.camera == i.options.camera)
            &&& (p.camera_device_id matches Some(v) ==> r.options.camera_device_id == v)
            &&& (p.camera_device_id is None ==> r.options.camera_device_id
                == i.options.camera_device_id)
            &&& (p.fps == Some(None::<u64>) ==> r.options.fps is None)
            &&& (p.fps matches Some(Some(f)) ==> r.options.fps == Some(f as u32))
            &&& (p.fps is None ==> r.options.fps == i.options.fps)
            &&& (p.quality matches Some(v) ==> r.options.quality == v)
            &&& (p.quality is None ==> r.options.quality == i.options.quality)
            &&& (p.countdown == Some(None::<u64>) ==> r.countdown is None)
            &&& (p.countdown matches Some(Some(c)) ==> r.countdown == Some(c as u32))
            &&& (p.countdown is None ==> r.countdown == i.countdown)
            &&& r.active_profile_id == i.active_profile_id
        }),
{
}

/// The event groups a watcher asked for, as sent: `None` when the request
/// named no list, and each entry `None` when it was not a string.
pub open spec fn groups_view(g: Option<Vec<Option<String>>>) -> Option<Seq<Option<Seq<char>>>> {
    match g {
        Some(v) => Some(v@.map_values(|o: Option<String>| opt_view(o))),
        None => None,
    }
}

/// Whether a watcher gets group `name`: every group when the list is absent
/// or empty, else the groups the list names.
pub open spec fn wants(groups: Option<Seq<Option<Seq<char>>>>, name: Seq<char>) -> bool {
    match groups {
        Some(gs) => if gs.len() == 0 {
            true
        } else {
            exists|k: int| 0 <= k < gs.len() && gs[k] == Some(name)
        },
        None => true,
    }
}

/// The concrete event names a watcher subscribes to, sorted and without
/// repeats.
pub open spec fn watch_names_spec(groups: Option<Seq<Option<Seq<char>>>>) -> Seq<Seq<char>> {
    (if wants(groups, "selection"@) {
        seq!["capture-intent:changed"@]
    } else {
        Seq::empty()
    }) + (if wants(groups, "profiles"@) {
        seq!["recording-profiles:changed"@]
    } else {
        Seq::empty()
    }) + (if wants(groups, "rec"@) {
        seq!["recording:started"@, "recording:stopped"@]
    } else {
        Seq::empty()
    })
}

fn group_is(g: &Option<String>, name: &str) -> (b: bool)
    ensures
        b == (opt_view(*g) == Some(name@)),
{
    match g {
        Some(s) => same_text(s.as_str(), name),
        None => false,
    }
}

fn wanted(groups: &Option<Vec<Option<String>>>, name: &str) -> (b: bool)
    ensures
        b == wants(groups_view(*groups), name@),
{
    match groups {
        None => true,
        Some(gs) => {
            if gs.len() == 0 {
                return true;
            }
            let ghost gv = gs@.map_values(|o: Option<String>| opt_view(o));
            assert(groups_view(*groups) == Some(gv));
            let mut k: usize = 0;
            while k < gs.len()
                invariant
                    k <= gs.len(),
                    gv == gs@.map_values(|o: Option<String>| opt_view(o)),
                    groups_view(*groups) == Some(gv),
                    gv.len() > 0,
                    forall|j: int| 0 <= j < k ==> gv[j] != Some(name@),
                decreases gs.len() - k,
            {
                if group_is(&gs[k], name) {
                    assert(gv[k as int] == Some(name@));
                    assert(wants(groups_view(*groups), name@));
                    return true;
                }
                k = k + 1;
            }
            false
        },
    }
}

fn owned(s: &str) -> (r: String)
    ensures
        r@ == s@,
{
    let mut out: Vec<char> = Vec::new();
    push_str(&mut out, s);
    string_of(out.as_slice())
}

/// Resolve the requested event groups (`rec`, `selection`, `profiles`) to
/// event names; an absent or empty list selects everything.
pub fn watch_event_names(groups: &Option<Vec<Option<String>>>) -> (names: Vec<String>)
    ensures
        names@.map_values(|s: String| s@) == watch_names_spec(groups_view(*groups)),
{
    let mut names: Vec<String> = Vec::new();
    if wanted(groups, "selection") {
        names.push(owned("capture-intent:changed"));
    }
    if wanted(groups, "profiles") {
        names.push(owned("recording-profiles:changed"));
    }
    if wanted(groups, "rec") {
        names.push(owned("recording:started"));
        names.push(owned("recording:stopped"));
    }
    assert(names@.map_values(|s: String| s@) =~= watch_names_spec(groups_view(*groups)));
    names
}

/// Without a list of groups a watcher gets every event.
pub proof fn law_watch_defaults_to_all()
    ensures
        watch_names_spec(None) == seq![
            "capture-intent:changed"@,
            "recording-profiles:changed"@,
            "recording:started"@,
            "recording:stopped"@,
        ],
{
    assert(watch_names_spec(None) =~= seq![
        "capture-intent:changed"@,
        "recording-profiles:changed"@,
        "recording:started"@,
        "recording:stopped"@,
    ]);
}

/// What the server does with an authenticated or unauthenticated request.
#[derive(Debug, Clone, Copy, PartialEq, Eq, Structural)]
pub enum Route {
    /// The token does not match: answer `unauthorized`.
    Unauthorized,
    /// A `watch` request takes over the connection.
    Watch,
    /// Any other method is dispatched and answered once.
    Dispatch,
}

/// Decide how to serve a request: a wrong token is refused before the method
/// is looked at.
pub fn route_request(expected_token: &str, token: &str, method: &str) -> (r: Route)
    ensures
        token@ != expected_token@ ==> r == Route::Unauthorized,
        token@ == expected_token@ && method@ == "watch"@ ==> r == Route::Watch,
        token@ == expected_token@ && method@ != "watch"@ ==> r == Route::Dispatch,
{
    if !same_text(token, expected_token) {
        Route::Unauthorized
    } else if same_text(method, "watch") {
        Route::Watch
    } else {
        Route::Dispatch
    }
}

/// The error a refused request is answered with.
pub fn unauthorized_message() -> (s: String)
    ensures
        s@ == "unauthorized"@,
{
    owned("unauthorized")
}

/// The methods the control server answers.
#[derive(Debug, Clone, Copy, PartialEq, Eq, Structural)]
pub enum ControlMethod {
    Status,
    RecStatus,
    IntentGet,
    IntentReset,
    IntentPatch,
    ProfileList,
    ProfileUse,
    AppScreenshot,
    RecStart,
    RecStop,
    RecPause,
    RecResume,
    ScreenRead,
}

/// The method a wire name selects.
pub open spec fn method_spec(m: Seq<char>) -> Option<ControlMethod> {
    if m == "status"@ {
        Some(ControlMethod::Status)
    } else if m == "rec.status"@ {
        Some(ControlMethod::RecStatus)
    } else if m == "intent.get"@ {
        Some(ControlMethod::IntentGet)
    } else if m == "intent.reset"@ {
        Some(ControlMethod::IntentReset)
    } else if m == "intent.patch"@ {
        Some(ControlMethod::IntentPatch)
    } else if m == "profile.list"@ {
        Some(ControlMethod::ProfileList)
    } else if m == "profile.use"@ {
        Some(ControlMethod::ProfileUse)
    } else if m == "app.screenshot"@ {
        Some(ControlMethod::AppScreenshot)
    } else if m == "rec.start"@ {
        Some(ControlMethod::RecStart)
    } else if m == "rec.stop"@ {
        Some(ControlMethod::RecStop)
    } else if m == "rec.pause"@ {
        Some(ControlMethod::RecPause)
    } else if m == "rec.resume"@ {
        Some(ControlMethod::RecResume)
    } else if m == "screen.read"@ {
        Some(ControlMethod::ScreenRead)
    } else {
        None
    }
}

/// Look a method name up; an unknown one is answered `unknown method: <name>`.
pub fn parse_method(m: &str) -> (r: Result<ControlMethod, String>)
    ensures
        method_spec(m@) matches Some(c) ==> r == Ok::<ControlMethod, String>(c),
        method_spec(m@) is None ==> (r matches Err(e) && e@ == "unknown method: "@ + m@),
{
    if same_text(m, "status") {
        Ok(ControlMethod::Status)
    } else if same_text(m, "rec.status") {
        Ok(ControlMethod::RecStatus)
    } else if same_text(m, "intent.get") {
        Ok(ControlMethod::IntentGet)
    } else if same_text(m, "intent.reset") {
        Ok(ControlMethod::IntentReset)
    } else if same_text(m, "intent.patch") {
        Ok(ControlMethod::IntentPatch)
    } else if same_text(m, "profile.list") {
        Ok(ControlMethod::ProfileList)
    } else if same_text(m, "profile.use") {
        Ok(ControlMethod::ProfileUse)
    } else if same_text(m, "app.screenshot") {
        Ok(ControlMethod::AppScreenshot)
    } else if same_text(m, "rec.start") {
        Ok(ControlMethod::RecStart)
    } else if same_text(m, "rec.stop") {
        Ok(ControlMethod::RecStop)
    } else if same_text(m, "rec.pause") {
        Ok(ControlMethod::RecPause)
    } else if same_text(m, "rec.resume") {
        Ok(ControlMethod::RecResume)
    } else if same_text(m, "screen.read") {
        Ok(ControlMethod::ScreenRead)
    } else {
        let mut out: Vec<char> = Vec::new();
        push_str(&mut out, "unknown method: ");
        push_str(&mut out, m);
        Err(string_of(out.as_slice()))
    }
}

/// A string parameter a method cannot do without, or the error that names it.
pub fn required_param(value: Option<String>, missing: &str) -> (r: Result<String, String>)
    ensures
        value matches Some(v) ==> (r matches Ok(s) && s@ == v@),
        value is None ==> (r matches Err(e) && e@ == missing@),
{
    match value {
        Some(v) => Ok(v),
        None => Err(owned(missing)),
    }
}

/// The source and options `rec.start` records with.
#[derive(Debug, Clone)]
pub struct StartParams {
    pub target_type: String,
    pub target_id: u32,
    pub region: Option<RegionRect>,
    pub options: Option<RecordingOptions>,
}

/// Explicit target flags are a one-off; without them the stored capture
/// intent is recorded, and an intent with no source is refused.
pub fn start_target(explicit: Option<StartParams>, intent: CaptureIntent) -> (r: Result<
    StartParams,
    String,
>)
    ensures
        explicit matches Some(p) ==> (r matches Ok(q) && q.target_type@ == p.target_type@
            && q.target_id == p.target_id && q.region == p.region && q.options == p.options),
        explicit is None && intent.target_type is Some ==> (r matches Ok(q) && Some(
            q.target_type@,
        ) == opt_view(intent.target_type) && q.target_id == intent.target_id && q.region
            == intent.region && q.options == Some(intent.options)),
        explicit is None && intent.target_type is None ==> (r matches Err(e) && e@
            == "no source selected. Pass --screen/--window/--region, or run `recast select ...` first."@),
{
    match explicit {
        Some(p) => Ok(p),
        None => match intent.target_type {
            Some(tt) => Ok(
                StartParams {
                    target_type: tt,
                    target_id: intent.target_id,
                    region: intent.region,
                    options: Some(intent.options),
                },
            ),
            None => Err(
                owned(
                    "no source selected. Pass --screen/--window/--region, or run `recast select ...` first.",
                ),
            ),
        },
    }
}

/// The client's reading of a response line: its result (absent means
/// `null`) when `ok`, else its error or `unknown error`.
pub fn response_outcome<T>(ok: bool, result: Option<T>, error: Option<String>) -> (r: Result<
    Option<T>,
    String,
>)
    ensures
        ok ==> r == Ok::<Option<T>, String>(result),
        !ok && error is Some ==> (r matches Err(e) && e@ == error->0@),
        !ok && error is None ==> (r matches Err(e) && e@ == "unknown error"@),
{
    if ok {
        Ok(result)
    } else {
        match error {
            Some(e) => Err(e),
            None => Err(owned("unknown error")),
        }
    }
}

/// Heartbeat frames keep an idle watch alive and are not shown to the user.
pub fn is_heartbeat(event: Option<&str>) -> (b: bool)
    ensures
        b == (event matches Some(e) && e@ == "ping"@),
{
    match event {
        Some(e) => same_text(e, "ping"),
        None => false,
    }
}

/// A random value below 16 from `rand::thread_rng().gen_range(0..16)`.
/// Claimed: it is below 16; nothing else (it is random).
#[verifier::external_body]
fn random_nibble() -> (n: u8)
    ensures
        n < 16,
{
    rand::thread_rng().gen_range(0..16u8)
}

/// A control-channel token: 32 random lowercase hex digits.
pub open spec fn is_token(t: Seq<char>) -> bool {
    t.len() == 32 && forall|i: int| 0 <= i < 32 ==> is_hex_digit(#[trigger] t[i])
}

/// A lowercase hexadecimal digit.
pub open spec fn is_hex_digit(c: char) -> bool {
    ('0' <= c && c <= '9') || ('a' <= c && c <= 'f')
}

/// The token the control server writes for its clients: 32 random lowercase
/// hex digits.
pub fn new_control_token() -> (t: String)
    ensures
        is_token(t@),
{
    let mut v: Vec<char> = Vec::new();
    let mut i: usize = 0;
    while i < 32
        invariant
            i <= 32,
            v@.len() == i,
            forall|k: int| 0 <= k < i ==> is_hex_digit(#[trigger] v@[k]),
        decreases 32 - i,
    {
        let n = random_nibble();
        let c: char = if n < 10 {
            (48u8 + n) as char
        } else {
            (87u8 + n) as char
        };
        v.push(c);
        i = i + 1;
    }
    string_of(v.as_slice())
}

/// The answer when the app is not running and the caller asked not to
/// launch it.
pub fn not_running_message(err: &str) -> (s: String)
    ensures
        s@ == "Recast is not running ("@ + err@ + "). Launch it, or drop --no-launch to auto-start."@,
{
    let mut out: Vec<char> = Vec::new();
    push_str(&mut out, "Recast is not running (");
    push_str(&mut out, err);
    push_str(&mut out, "). Launch it, or drop --no-launch to auto-start.");
    string_of(out.as_slice())
}

} // verus!
