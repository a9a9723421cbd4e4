//! Recording profiles: saved capture presets that the panel, the picker and
//! the command line read from one store, and how one is applied to the
//! capture intent.

use vstd::prelude::*;

use rand::Rng;

use crate::text::{
    ascii_lower, chars_of, eq_ignore_ascii_case, hex_run, push_hex_run, push_str, same_text,
    string_of,
};
use crate::types::{opt_view, CaptureIntent, IntentView, OptionsView};

verus! {

/// A saved capture preset.
#[derive(Debug, Clone)]
pub struct RecordingProfile {
    pub id: String,
    pub name: String,
    pub system_audio: bool,
    pub microphone: bool,
    /// Audio device id; `None` means the system default when applied.
    pub mic_device_id: Option<String>,
    /// Display label of the saved microphone.
    pub mic_label: Option<String>,
    pub camera: bool,
    /// The camera's friendly name, which the recorder consumes.
    pub camera_label: Option<String>,
    /// The browser's media-device id, which the camera preview consumes.
    pub camera_device_id: Option<String>,
    /// Countdown override in seconds; `None` inherits the global one.
    pub countdown: Option<u32>,
    pub is_default: bool,
}

/// The persisted profile set and the profile-system switch.
#[derive(Debug, Clone)]
pub struct ProfilesState {
    pub profiles: Vec<RecordingProfile>,
    pub enabled: bool,
}

/// The profile set as handed to the frontend and the command line;
/// `initialized` is false while the set is the in-memory seed.
#[derive(Debug, Clone)]
pub struct ProfilesSnapshot {
    pub profiles: Vec<RecordingProfile>,
    pub enabled: bool,
    pub initialized: bool,
}

/// The value a missing `enabled` flag takes.
pub fn default_true() -> (b: bool)
    ensures
        b,
{
    true
}

impl Default for ProfilesState {
    fn default() -> (s: ProfilesState)
        ensures
            s.profiles@.len() == 0,
            s.enabled,
    {
        ProfilesState { profiles: Vec::new(), enabled: true }
    }
}

/// The bytes of a version-4, variant-1 UUID built from 16 random bytes.
pub open spec fn v4_bytes(b: Seq<u8>) -> Seq<u8> {
    b.update(6, (b[6] & 0x0fu8) | 0x40u8).update(8, (b[8] & 0x3fu8) | 0x80u8)
}

/// The canonical lowercase `8-4-4-4-12` text of the UUID made from `b`.
pub open spec fn uuid_v4_text(b: Seq<u8>) -> Seq<char> {
    let v = v4_bytes(b);
    hex_run(v, 0, 4) + seq!['-'] + hex_run(v, 4, 6) + seq!['-'] + hex_run(v, 6, 8) + seq!['-']
        + hex_run(v, 8, 10) + seq!['-'] + hex_run(v, 10, 16)
}

/// `t` is the text of a version-4 UUID.
pub open spec fn is_uuid_v4(t: Seq<char>) -> bool {
    exists|b: Seq<u8>| b.len() == 16 && t == uuid_v4_text(b)
}

/// Sixteen bytes from `rand::thread_rng`. Nothing is claimed of their values.
#[verifier::external_body]
fn random_bytes16() -> (b: Vec<u8>)
    ensures
        b@.len() == 16,
{
    let bytes: [u8; 16] = rand::thread_rng().gen();
    bytes.to_vec()
}

/// The UUID text of 16 bytes, with the version and variant bits set.
pub fn format_uuid_v4(bytes: Vec<u8>) -> (s: String)
    requires
        bytes@.len() == 16,
    ensures
        s@ == uuid_v4_text(bytes@),
{
    let ghost orig = bytes@;
    let mut b = bytes;
    let six: u8 = (b[6] & 0x0f) | 0x40;
    b.set(6, six);
    let eight: u8 = (b[8] & 0x3f) | 0x80;
    b.set(8, eight);
    assert(b@ =~= v4_bytes(orig));
    let mut out: Vec<char> = Vec::new();
    push_hex_run(&mut out, b.as_slice(), 0, 4);
    out.push('-');
    push_hex_run(&mut out, b.as_slice(), 4, 6);
    out.push('-');
    push_hex_run(&mut out, b.as_slice(), 6, 8);
    out.push('-');
    push_hex_run(&mut out, b.as_slice(), 8, 10);
    out.push('-');
    push_hex_run(&mut out, b.as_slice(), 10, 16);
    assert(out@ =~= uuid_v4_text(orig));
    string_of(out.as_slice())
}

/// A fresh random version-4 UUID.
pub fn new_id() -> (s: String)
    ensures
        is_uuid_v4(s@),
{
    let b = random_bytes16();
    let ghost bv = b@;
    let s = format_uuid_v4(b);
    assert(bv.len() == 16 && s@ == uuid_v4_text(bv));
    s
}

/// `p` is the seed profile with the given name and toggles.
pub open spec fn is_seed(
    p: RecordingProfile,
    name: Seq<char>,
    microphone: bool,
    camera: bool,
    is_default: bool,
) -> bool {
    &&& is_uuid_v4(p.id@)
    &&& p.name@ == name
    &&& p.system_audio
    &&& p.microphone == microphone
    &&& p.mic_device_id is None
    &&& p.mic_label is None
    &&& p.camera == camera
    &&& p.camera_label is None
    &&& p.camera_device_id is None
    &&& p.countdown is None
    &&& p.is_default == is_default
}

/// The three first-launch profiles, in order.
pub open spec fn is_seed_set(ps: Seq<RecordingProfile>) -> bool {
    &&& ps.len() == 3
    &&& is_seed(ps[0], "Screen only"@, false, false, true)
    &&& is_seed(ps[1], "Tutorial"@, true, false, false)
    &&& is_seed(ps[2], "Presentation"@, true, true, false)
}

fn seed(name: &str, microphone: bool, camera: bool, is_default: bool) -> (p: RecordingProfile)
    ensures
        is_seed(p, name@, microphone, camera, is_default),
{
    let id = new_id();
    let mut n: Vec<char> = Vec::new();
    push_str(&mut n, name);
    RecordingProfile {
        id,
        name: string_of(n.as_slice()),
        system_audio: true,
        microphone,
        mic_device_id: None,
        mic_label: None,
        camera,
        camera_label: None,
        camera_device_id: None,
        countdown: None,
        is_default,
    }
}

/// The first-launch set: screen only (the default), tutorial with the
/// microphone, presentation with microphone and camera.
pub fn seed_profiles() -> (ps: Vec<RecordingProfile>)
    ensures
        is_seed_set(ps@),
{
    let mut ps: Vec<RecordingProfile> = Vec::new();
    ps.push(seed("Screen only", false, false, true));
    ps.push(seed("Tutorial", true, false, false));
    ps.push(seed("Presentation", true, true, false));
    proof {
        reveal_strlit("Screen only");
        reveal_strlit("Tutorial");
        reveal_strlit("Presentation");
    }
    ps
}

impl ProfilesState {
    /// The in-memory set used before any profiles were saved: the seed,
    /// with the profile system on.
    pub fn seeded() -> (s: ProfilesState)
        ensures
            is_seed_set(s.profiles@),
            s.enabled,
    {
        ProfilesState { profiles: seed_profiles(), enabled: true }
    }
}

/// The camera pointer a profile hands the recorder: its friendly name,
/// falling back to the browser id.
pub open spec fn camera_pointer(p: RecordingProfile) -> Option<Seq<char>> {
    match p.camera_label {
        Some(l) => Some(l@),
        None => opt_view(p.camera_device_id),
    }
}

/// The intent after applying a profile: capture toggles, device pointers
/// (cleared where the capability is off), countdown and the active profile;
/// the source and the frame rate and quality are left alone.
pub open spec fn applied(i: IntentView, p: RecordingProfile) -> IntentView {
    IntentView {
        options: OptionsView {
            system_audio: p.system_audio,
            microphone: p.microphone,
            microphone_device_id: if p.microphone {
                opt_view(p.mic_device_id)
            } else {
                None
            },
            camera: p.camera,
            camera_device_id: if p.camera {
                camera_pointer(p)
            } else {
                None
            },
            ..i.options
        },
        countdown: p.countdown,
        active_profile_id: Some(p.id@),
        ..i
    }
}

fn clone_opt(o: &Option<String>) -> (r: Option<String>)
    ensures
        opt_view(r) == opt_view(*o),
{
    match o {
        Some(s) => Some(s.clone()),
        None => None,
    }
}

/// Map a profile onto the capture intent.
pub fn apply_profile_to_intent(intent: &mut CaptureIntent, profile: &RecordingProfile)
    ensures
        final(intent)@ == applied(old(intent)@, *profile),
{
    intent.options.system_audio = profile.system_audio;
    intent.options.microphone = profile.microphone;
    intent.options.microphone_device_id = if profile.microphone {
        clone_opt(&profile.mic_device_id)
    } else {
        None
    };
    intent.options.camera = profile.camera;
    intent.options.camera_device_id = if profile.camera {
        match &profile.camera_label {
            Some(l) => Some(l.clone()),
            None => clone_opt(&profile.camera_device_id),
        }
    } else {
        None
    };
    intent.countdown = profile.countdown;
    intent.active_profile_id = Some(profile.id.clone());
}

/// Applying a profile twice leaves the intent as applying it once.
pub proof fn law_apply_profile_idempotent(i: IntentView, p: RecordingProfile)
    ensures
        applied(applied(i, p), p) == applied(i, p),
{
}

/// Applying a profile never changes the selected source.
pub proof fn law_apply_profile_keeps_source(i: IntentView, p: RecordingProfile)
    ensures
        applied(i, p).target_type == i.target_type,
        applied(i, p).target_id == i.target_id,
        applied(i, p).region == i.region,
{
}

/// Profile `p` matches `id` by name, up to ASCII case.
pub open spec fn name_matches(p: RecordingProfile, id: Seq<char>) -> bool {
    ascii_lower(p.name@) == ascii_lower(id)
}

/// The index of the profile that `id` selects: the first whose id equals it,
/// else the first whose name equals it up to ASCII case.
pub open spec fn selects(ps: Seq<RecordingProfile>, id: Seq<char>, i: int) -> bool {
    &&& 0 <= i < ps.len()
    &&& {
        ||| (ps[i].id@ == id && forall|j: int| 0 <= j < i ==> ps[j].id@ != id)
        ||| ((forall|j: int| 0 <= j < ps.len() ==> ps[j].id@ != id) && name_matches(ps[i], id)
            && forall|j: int| 0 <= j < i ==> !name_matches(ps[j], id))
    }
}

/// No profile matches `id`, by id or by name.
pub open spec fn selects_none(ps: Seq<RecordingProfile>, id: Seq<char>) -> bool {
    forall|j: int| 0 <= j < ps.len() ==> ps[j].id@ != id && !name_matches(ps[j], id)
}

/// The profile `id` selects, by id first, then by case-insensitive name.
pub fn find_profile(profiles: &Vec<RecordingProfile>, id: &str) -> (r: Option<usize>)
    ensures
        r matches Some(i) ==> selects(profiles@, id@, i as int),
        r is None ==> selects_none(profiles@, id@),
{
    let mut i: usize = 0;
    while i < profiles.len()
        invariant
            i <= profiles.len(),
            forall|j: int| 0 <= j < i ==> profiles@[j].id@ != id@,
        decreases profiles.len() - i,
    {
        if same_text(profiles[i].id.as_str(), id) {
            return Some(i);
        }
        i = i + 1;
    }
    let key = chars_of(id);
    let mut k: usize = 0;
    while k < profiles.len()
        invariant
            k <= profiles.len(),
            key@ == id@,
            forall|j: int| 0 <= j < profiles.len() ==> profiles@[j].id@ != id@,
            forall|j: int| 0 <= j < k ==> !name_matches(profiles@[j], id@),
        decreases profiles.len() - k,
    {
        let name = chars_of(profiles[k].name.as_str());
        if eq_ignore_ascii_case(name.as_slice(), key.as_slice()) {
            return Some(k);
        }
        k = k + 1;
    }
    None
}

/// Apply the profile that `id` selects to `intent` and hand the updated
/// intent back, or say that none matches.
pub fn use_profile_by_id(profiles: &Vec<RecordingProfile>, intent: CaptureIntent, id: &str) -> (r:
    Result<CaptureIntent, String>)
    ensures
        selects_none(profiles@, id@) ==> (r matches Err(e) && e@ == "no profile matching '"@ + id@
            + "'"@),
        !selects_none(profiles@, id@) ==> (r matches Ok(next) && exists|i: int|
            selects(profiles@, id@, i) && next@ == applied(intent@, #[trigger] profiles@[i])),
{
    match find_profile(profiles, id) {
        Some(i) => {
            let mut next = intent;
            apply_profile_to_intent(&mut next, &profiles[i]);
            assert(selects(profiles@, id@, i as int));
            Ok(next)
        },
        None => {
            let mut out: Vec<char> = Vec::new();
            push_str(&mut out, "no profile matching '");
            push_str(&mut out, id);
            push_str(&mut out, "'");
            Err(string_of(out.as_slice()))
        },
    }
}

} // verus!
