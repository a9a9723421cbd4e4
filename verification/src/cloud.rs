//! Recast Cloud upload and share: the decisions the uploader makes around
//! its network calls, and the error lines shown to the user.

use vstd::prelude::*;

use crate::error::AppError;
use crate::text::{ascii_lower, ascii_upper, chars_of, dec_digits, eq_ignore_ascii_case, is_ascii_text, push_decimal, push_str, same_text, string_of, trim, trimmed};
use crate::types::opt_view;

verus! {

/// The view of an optional optional string.
pub open spec fn opt_opt_view(o: Option<Option<String>>) -> Option<Option<Seq<char>>> {
    match o {
        Some(inner) => Some(opt_view(inner)),
        None => None,
    }
}

/// What `serde_json` finds at `key` of the JSON document `body`: `None` when
/// `body` is not JSON or has no such member, `Some(None)` when the member is
/// not a string, `Some(Some(s))` when it is the string `s`.
pub uninterp spec fn json_member_spec(body: Seq<char>, key: Seq<char>) -> Option<Option<Seq<char>>>;

/// As [`json_member_spec`], for the member `inner` of the member `outer`.
pub uninterp spec fn json_nested_member_spec(
    body: Seq<char>,
    outer: Seq<char>,
    inner: Seq<char>,
) -> Option<Option<Seq<char>>>;

/// Parses `body` with `serde_json::from_str` and reads `key` with
/// `Value::get` and `Value::as_str`. Claimed: the result is
/// [`json_member_spec`] of the arguments, a function of them alone.
#[verifier::external_body]
fn json_member(body: &str, key: &str) -> (r: Option<Option<String>>)
    ensures
        opt_opt_view(r) == json_member_spec(body@, key@),
{
    let v: serde_json::Value = match serde_json::from_str(body) {
        Ok(v) => v,
        Err(_) => return None,
    };
    v.get(key).map(|m| m.as_str().map(str::to_string))
}

/// Parses `body` with `serde_json::from_str` and reads `outer`, then `inner`,
/// with `Value::get`, and the string with `Value::as_str`. Claimed: the result
/// is [`json_nested_member_spec`] of the arguments, a function of them alone.
#[verifier::external_body]
fn json_nested_member(body: &str, outer: &str, inner: &str) -> (r: Option<Option<String>>)
    ensures
        opt_opt_view(r) == json_nested_member_spec(body@, outer@, inner@),
{
    let v: serde_json::Value = match serde_json::from_str(body) {
        Ok(v) => v,
        Err(_) => return None,
    };
    v.get(outer).and_then(|d| d.get(inner)).map(|m| m.as_str().map(str::to_string))
}

/// The API's machine reason in an error body: `denial.reason` when that
/// member exists, else the top-level `reason`; only a string counts.
pub open spec fn reason_spec(body: Seq<char>) -> Option<Seq<char>> {
    let picked = match json_nested_member_spec(body, "denial"@, "reason"@) {
        Some(n) => Some(n),
        None => json_member_spec(body, "reason"@),
    };
    match picked {
        Some(Some(s)) => Some(s),
        _ => None,
    }
}

/// The machine reason an API error body carries, if any.
pub fn reason_of(body: &str) -> (r: Option<String>)
    ensures
        opt_view(r) == reason_spec(body@),
{
    let picked = match json_nested_member(body, "denial", "reason") {
        Some(n) => Some(n),
        None => json_member(body, "reason"),
    };
    match picked {
        Some(Some(s)) => Some(s),
        _ => None,
    }
}

/// The `Authorization` header value for a session token.
pub fn bearer(token: &str) -> (r: String)
    ensures
        r@ == "Bearer "@ + token@,
{
    let mut out: Vec<char> = Vec::new();
    push_str(&mut out, "Bearer ");
    push_str(&mut out, token);
    string_of(out.as_slice())
}

/// The session token, or the error shown when nobody is signed in.
pub fn token_or_err(token: Option<String>) -> (r: Result<String, String>)
    ensures
        token matches Some(t) ==> (r matches Ok(u) && u@ == t@),
        token is None ==> (r matches Err(e) && e@ == "Not signed in to Recast Cloud"@),
{
    match token {
        Some(t) => Ok(t),
        None => Err("Not signed in to Recast Cloud".to_string()),
    }
}

/// `Some(r)` equals the literal `lit`.
pub open spec fn reason_is(reason: Option<Seq<char>>, lit: Seq<char>) -> bool {
    reason == Some(lit)
}

/// The user-facing line for a failed upload init.
pub open spec fn init_error_text(status: u16, reason: Option<Seq<char>>) -> Seq<char> {
    if reason_is(reason, "storage_over_cap"@) {
        "You're out of cloud storage. Upgrade or free up space."@
    } else if reason_is(reason, "active_recasts_over_cap"@) {
        "You've hit your active share-link limit. Delete one or upgrade."@
    } else if reason_is(reason, "duration_over_cap"@) {
        "This recording is longer than your plan allows for cloud sharing."@
    } else if reason_is(reason, "resolution_over_cap"@) {
        "Your plan caps cloud sharing at 720p. Export at 720p, or upgrade for HD."@
    } else if status == 401 {
        "Your Recast Cloud session expired. Sign in again."@
    } else if status == 403 {
        "You don't have access to that workspace."@
    } else {
        "Upload init failed ("@ + dec_digits(status as nat) + ")."@
    }
}

/// The user-facing line for a failed upload completion.
pub open spec fn complete_error_text(status: u16, reason: Option<Seq<char>>) -> Seq<char> {
    if reason_is(reason, "upload_missing"@) {
        "The upload didn't arrive — please try again."@
    } else if reason_is(reason, "empty_upload"@) {
        "The uploaded file was empty — please try again."@
    } else if reason_is(reason, "storage_over_cap"@) {
        "You're out of cloud storage. Upgrade or free up space."@
    } else if reason_is(reason, "resolution_over_cap"@) {
        "Your plan caps cloud sharing at 720p. Export at 720p, or upgrade for HD."@
    } else {
        "Finalize failed ("@ + dec_digits(status as nat) + ")."@
    }
}

fn reason_eq(reason: &Option<String>, lit: &str) -> (b: bool)
    ensures
        b == reason_is(opt_view(*reason), lit@),
{
    match reason {
        Some(r) => same_text(r.as_str(), lit),
        None => false,
    }
}

fn status_line(prefix: &str, status: u16) -> (r: String)
    ensures
        r@ == prefix@ + dec_digits(status as nat) + ")."@,
{
    let mut out: Vec<char> = Vec::new();
    push_str(&mut out, prefix);
    push_decimal(&mut out, status as u64);
    push_str(&mut out, ").");
    string_of(out.as_slice())
}

/// The one-liner for a failed upload init, given the status and the API's
/// machine reason: a known reason wins over the status.
pub fn init_error_message(status: u16, reason: &Option<String>) -> (r: String)
    ensures
        r@ == init_error_text(status, opt_view(*reason)),
{
    if reason_eq(reason, "storage_over_cap") {
        "You're out of cloud storage. Upgrade or free up space.".to_string()
    } else if reason_eq(reason, "active_recasts_over_cap") {
        "You've hit your active share-link limit. Delete one or upgrade.".to_string()
    } else if reason_eq(reason, "duration_over_cap") {
        "This recording is longer than your plan allows for cloud sharing.".to_string()
    } else if reason_eq(reason, "resolution_over_cap") {
        "Your plan caps cloud sharing at 720p. Export at 720p, or upgrade for HD.".to_string()
    } else if status == 401 {
        "Your Recast Cloud session expired. Sign in again.".to_string()
    } else if status == 403 {
        "You don't have access to that workspace.".to_string()
    } else {
        status_line("Upload init failed (", status)
    }
}

/// The one-liner for a failed upload completion, given the status and the
/// API's machine reason.
pub fn complete_error_message(status: u16, reason: &Option<String>) -> (r: String)
    ensures
        r@ == complete_error_text(status, opt_view(*reason)),
{
    if reason_eq(reason, "upload_missing") {
        "The upload didn't arrive — please try again.".to_string()
    } else if reason_eq(reason, "empty_upload") {
        "The uploaded file was empty — please try again.".to_string()
    } else if reason_eq(reason, "storage_over_cap") {
        "You're out of cloud storage. Upgrade or free up space.".to_string()
    } else if reason_eq(reason, "resolution_over_cap") {
        "Your plan caps cloud sharing at 720p. Export at 720p, or upgrade for HD.".to_string()
    } else {
        status_line("Finalize failed (", status)
    }
}

/// Turn a failed upload init (status and response body) into one line.
pub fn humanize_init_error(status: u16, body: &str) -> (r: String)
    ensures
        r@ == init_error_text(status, reason_spec(body@)),
{
    let reason = reason_of(body);
    init_error_message(status, &reason)
}

/// Turn a failed upload completion (status and response body) into one line.
pub fn humanize_complete_error(status: u16, body: &str) -> (r: String)
    ensures
        r@ == complete_error_text(status, reason_spec(body@)),
{
    let reason = reason_of(body);
    complete_error_message(status, &reason)
}

/// An HTTP success status (`2xx`).
pub open spec fn is_success_spec(status: u16) -> bool {
    200 <= status <= 299
}

/// Whether `status` is a success (`2xx`).
pub fn is_success(status: u16) -> (b: bool)
    ensures
        b == is_success_spec(status),
{
    200 <= status && status <= 299
}

/// A delete of the cloud copy succeeded: `2xx`, or `404` (already gone), so
/// the local manifest can heal.
pub fn delete_succeeded(status: u16) -> (b: bool)
    ensures
        b == (is_success_spec(status) || status == 404),
{
    is_success(status) || status == 404
}

/// The workspace the caller named, unless it named an empty one.
pub fn explicit_workspace(provided: Option<String>) -> (r: Option<String>)
    ensures
        provided matches Some(w) && w@.len() > 0 ==> r == provided,
        !(provided matches Some(w) && w@.len() > 0) ==> r is None,
{
    match provided {
        Some(w) => {
            if w.as_str().is_empty() {
                None
            } else {
                Some(w)
            }
        },
        None => None,
    }
}

/// The default workspace a profile answer names: its `defaultWorkspaceId`
/// string, read only from a success answer.
pub fn profile_workspace(status: u16, body: &str) -> (r: Option<String>)
    ensures
        !is_success_spec(status) ==> r is None,
        is_success_spec(status) ==> opt_view(r) == match json_member_spec(
            body@,
            "defaultWorkspaceId"@,
        ) {
            Some(Some(w)) => Some(w),
            _ => None,
        },
{
    if !is_success(status) {
        return None;
    }
    match json_member(body, "defaultWorkspaceId") {
        Some(Some(w)) => Some(w),
        _ => None,
    }
}

/// The share-access wire value for a requested visibility: `"workspace"`
/// maps onto the legacy `"team"`; anything unknown is refused.
pub open spec fn visibility_spec(v: Seq<char>) -> Option<Seq<char>> {
    if v == "public"@ {
        Some("public"@)
    } else if v == "workspace"@ || v == "team"@ {
        Some("team"@)
    } else if v == "private"@ {
        Some("private"@)
    } else {
        None
    }
}

/// Map a requested share visibility onto the access endpoint's value.
pub fn map_visibility(v: &str) -> (r: Result<String, AppError>)
    ensures
        visibility_spec(v@) matches Some(w) ==> (r matches Ok(s) && s@ == w),
        visibility_spec(v@) is None ==> (r matches Err(AppError::Message(m)) && m@
            == "Unknown visibility: "@ + v@),
{
    if same_text(v, "public") {
        Ok("public".to_string())
    } else if same_text(v, "workspace") || same_text(v, "team") {
        Ok("team".to_string())
    } else if same_text(v, "private") {
        Ok("private".to_string())
    } else {
        let mut out: Vec<char> = Vec::new();
        push_str(&mut out, "Unknown visibility: ");
        push_str(&mut out, v);
        Err(AppError::Message(string_of(out.as_slice())))
    }
}

/// A share-settings field as sent: `None` leaves it unchanged, an empty
/// string clears it (`null`), anything else sets it.
pub fn settings_value(field: Option<String>) -> (r: Option<Option<String>>)
    ensures
        field is None ==> r is None,
        field matches Some(v) ==> (v@.len() == 0 ==> r == Some(None::<String>)) && (v@.len() > 0
            ==> r == Some(Some(v))),
{
    match field {
        None => None,
        Some(v) => {
            if v.as_str().is_empty() {
                Some(None)
            } else {
                Some(Some(v))
            }
        },
    }
}

/// Whether any of the signed upload's header names is `Content-Type`, in
/// any ASCII case.
pub fn has_content_type(header_names: &Vec<String>) -> (b: bool)
    ensures
        b == exists|i: int|
            0 <= i < header_names.len() && ascii_lower(#[trigger] header_names@[i]@)
                == ascii_lower("content-type"@),
{
    let target = chars_of("content-type");
    let mut i: usize = 0;
    while i < header_names.len()
        invariant
            i <= header_names.len(),
            target@ == "content-type"@,
            forall|j: int|
                0 <= j < i ==> ascii_lower(#[trigger] header_names@[j]@) != ascii_lower(
                    "content-type"@,
                ),
        decreases header_names.len() - i,
    {
        let name = chars_of(header_names[i].as_str());
        if eq_ignore_ascii_case(name.as_slice(), target.as_slice()) {
            return true;
        }
        i = i + 1;
    }
    false
}

/// A local export's cloud copy, as the manifest records it.
#[derive(Debug, Clone, Default)]
pub struct CloudUploadRecord {
    pub recast_id: String,
    pub slug: String,
    pub share_url: String,
    /// Unix seconds.
    pub uploaded_at: u64,
}

/// The result of a successful upload and share.
#[derive(Debug, Clone)]
pub struct CloudShareResult {
    pub recast_id: String,
    pub slug: String,
    pub share_url: String,
}

/// The mathematical content of a [`CloudUploadRecord`].
pub struct RecordView {
    pub recast_id: Seq<char>,
    pub slug: Seq<char>,
    pub share_url: Seq<char>,
    pub uploaded_at: u64,
}

impl View for CloudUploadRecord {
    type V = RecordView;

    open spec fn view(&self) -> RecordView {
        RecordView {
            recast_id: self.recast_id@,
            slug: self.slug@,
            share_url: self.share_url@,
            uploaded_at: self.uploaded_at,
        }
    }
}

/// Which local exports have a cloud copy, keyed by local file path.
#[derive(Debug, Clone)]
pub struct UploadManifest {
    pub entries: Vec<(String, CloudUploadRecord)>,
}

/// Some entry is keyed by `path`.
pub open spec fn keyed(e: Seq<(String, CloudUploadRecord)>, path: Seq<char>) -> bool {
    exists|i: int| 0 <= i < e.len() && e[i].0@ == path
}

/// The entry keyed by `path` (meaningful when [`keyed`]).
pub open spec fn entry_for(e: Seq<(String, CloudUploadRecord)>, path: Seq<char>) -> RecordView {
    e[choose|i: int| 0 <= i < e.len() && e[i].0@ == path].1@
}

/// Some entry at or after position `i` is keyed by `path`.
pub open spec fn keyed_from(e: Seq<(String, CloudUploadRecord)>, i: int, path: Seq<char>) -> bool {
    exists|k: int| i <= k < e.len() && e[k].0@ == path
}

/// The manifest as a map from local path to record.
pub open spec fn manifest_map(e: Seq<(String, CloudUploadRecord)>) -> Map<Seq<char>, RecordView> {
    Map::new(|p: Seq<char>| keyed(e, p), |p: Seq<char>| entry_for(e, p))
}

/// No two entries share a path.
pub open spec fn paths_unique(e: Seq<(String, CloudUploadRecord)>) -> bool {
    forall|i: int, j: int| 0 <= i < e.len() && 0 <= j < e.len() && i != j ==> e[i].0@ != e[j].0@
}

impl View for UploadManifest {
    type V = Map<Seq<char>, RecordView>;

    open spec fn view(&self) -> Map<Seq<char>, RecordView> {
        manifest_map(self.entries@)
    }
}

/// The manifest without the records of one cloud recast.
pub open spec fn without_recast(m: Map<Seq<char>, RecordView>, recast_id: Seq<char>) -> Map<
    Seq<char>,
    RecordView,
> {
    Map::new(|p: Seq<char>| m.contains_key(p) && m[p].recast_id != recast_id, |p: Seq<char>| m[p])
}

fn copy_record(r: &CloudUploadRecord) -> (c: CloudUploadRecord)
    ensures
        c@ == r@,
{
    CloudUploadRecord {
        recast_id: r.recast_id.clone(),
        slug: r.slug.clone(),
        share_url: r.share_url.clone(),
        uploaded_at: r.uploaded_at,
    }
}

impl UploadManifest {
    /// An empty manifest.
    pub fn new() -> (m: UploadManifest)
        ensures
            m@ == Map::<Seq<char>, RecordView>::empty(),
            m.wf(),
    {
        let m = UploadManifest { entries: Vec::new() };
        assert(m@ =~= Map::<Seq<char>, RecordView>::empty());
        m
    }

    /// Entries are keyed by distinct paths.
    pub open spec fn wf(&self) -> bool {
        paths_unique(self.entries@)
    }

    fn position(&self, path: &str) -> (r: Option<usize>)
        requires
            self.wf(),
        ensures
            r matches Some(i) ==> i < self.entries@.len() && self.entries@[i as int].0@ == path@
                && keyed(self.entries@, path@) && entry_for(self.entries@, path@)
                == self.entries@[i as int].1@,
            r is None ==> !keyed(self.entries@, path@),
    {
        let mut i: usize = 0;
        while i < self.entries.len()
            invariant
                i <= self.entries.len(),
                paths_unique(self.entries@),
                forall|k: int| 0 <= k < i ==> self.entries@[k].0@ != path@,
            decreases self.entries.len() - i,
        {
            if same_text(self.entries[i].0.as_str(), path) {
                proof {
                    let e = self.entries@;
                    assert(e[i as int].0@ == path@);
                    let c = choose|c: int| 0 <= c < e.len() && e[c].0@ == path@;
                    if c != i {
                        assert(e[c].0@ != e[i as int].0@);
                    }
                }
                return Some(i);
            }
            i = i + 1;
        }
        None
    }

    /// The record of the export at `path`, if it has a cloud copy.
    pub fn get(&self, path: &str) -> (r: Option<CloudUploadRecord>)
        requires
            self.wf(),
        ensures
            r matches Some(rec) ==> self@.contains_key(path@) && rec@ == self@[path@],
            r is None ==> !self@.contains_key(path@),
    {
        match self.position(path) {
            Some(i) => Some(copy_record(&self.entries[i].1)),
            None => None,
        }
    }

    /// Record the cloud copy of the export at `path`, replacing any earlier
    /// one.
    pub fn record_upload(&mut self, path: String, record: CloudUploadRecord)
        requires
            old(self).wf(),
        ensures
            final(self).wf(),
            final(self)@ == old(self)@.insert(path@, record@),
    {
        let ghost before = self.entries@;
        let ghost pv = path@;
        let ghost rv = record@;
        match self.position(path.as_str()) {
            Some(i) => {
                self.entries.set(i, (path, record));
                let ghost after = self.entries@;
                assert forall|a: int, b: int|
                    0 <= a < after.len() && 0 <= b < after.len() && a != b implies after[a].0@
                    != after[b].0@ by {
                    if a != i && b != i {
                        assert(after[a] == before[a] && after[b] == before[b]);
                    } else if a == i {
                        assert(after[b] == before[b]);
                        assert(before[i as int].0@ == pv);
                    } else {
                        assert(after[a] == before[a]);
                        assert(before[i as int].0@ == pv);
                    }
                }
                assert forall|p: Seq<char>| #[trigger] keyed(after, p) implies entry_for(after, p)
                    == manifest_map(before).insert(pv, rv)[p] by {
                    let c = choose|c: int| 0 <= c < after.len() && after[c].0@ == p;
                    if p == pv {
                        if c != i {
                            assert(after[c].0@ != after[i as int].0@);
                        }
                    } else {
                        assert(c != i);
                        assert(after[c] == before[c]);
                        assert(keyed(before, p));
                        let d = choose|d: int| 0 <= d < before.len() && before[d].0@ == p;
                        if d != c {
                            assert(before[d].0@ != before[c].0@);
                        }
                    }
                }
                assert forall|p: Seq<char>| #[trigger] manifest_map(before).insert(pv, rv).contains_key(
                    p,
                ) implies keyed(after, p) by {
                    if p == pv {
                        assert(after[i as int].0@ == p);
                    } else {
                        let d = choose|d: int| 0 <= d < before.len() && before[d].0@ == p;
                        assert(after[d] == before[d]);
                    }
                }
                assert forall|p: Seq<char>| keyed(after, p) implies #[trigger] manifest_map(
                    before,
                ).insert(pv, rv).contains_key(p) by {
                    let c = choose|c: int| 0 <= c < after.len() && after[c].0@ == p;
                    if c != i {
                        assert(after[c] == before[c]);
                    }
                }
                assert(self@ =~= manifest_map(before).insert(pv, rv));
            },
            None => {
                self.entries.push((path, record));
                let ghost after = self.entries@;
                let ghost n = before.len() as int;
                assert forall|a: int, b: int|
                    0 <= a < after.len() && 0 <= b < after.len() && a != b implies after[a].0@
                    != after[b].0@ by {
                    if a < n && b < n {
                        assert(after[a] == before[a] && after[b] == before[b]);
                    } else if a == n {
                        assert(after[b] == before[b]);
                    } else {
                        assert(after[a] == before[a]);
                    }
                }
                assert forall|p: Seq<char>| #[trigger] keyed(after, p) implies entry_for(after, p)
                    == manifest_map(before).insert(pv, rv)[p] by {
                    let c = choose|c: int| 0 <= c < after.len() && after[c].0@ == p;
                    if p == pv {
                        if c != n {
                            assert(after[c] == before[c]);
                        }
                    } else {
                        assert(after[c] == before[c]);
                        let d = choose|d: int| 0 <= d < before.len() && before[d].0@ == p;
                        if d != c {
                            assert(before[d].0@ != before[c].0@);
                        }
                    }
                }
                assert forall|p: Seq<char>| #[trigger] manifest_map(before).insert(pv, rv).contains_key(
                    p,
                ) implies keyed(after, p) by {
                    if p == pv {
                        assert(after[n].0@ == p);
                    } else {
                        let d = choose|d: int| 0 <= d < before.len() && before[d].0@ == p;
                        assert(after[d] == before[d]);
                    }
                }
                assert forall|p: Seq<char>| keyed(after, p) implies #[trigger] manifest_map(
                    before,
                ).insert(pv, rv).contains_key(p) by {
                    let c = choose|c: int| 0 <= c < after.len() && after[c].0@ == p;
                    if c != n {
                        assert(after[c] == before[c]);
                    }
                }
                assert(self@ =~= manifest_map(before).insert(pv, rv));
            },
        }
    }

    fn remove_at(&mut self, i: usize)
        requires
            old(self).wf(),
            i < old(self).entries@.len(),
        ensures
            final(self).wf(),
            final(self).entries@ == old(self).entries@.remove(i as int),
    {
        let ghost before = self.entries@;
        self.entries.remove(i);
        let ghost after = self.entries@;
        assert forall|a: int, b: int|
            0 <= a < after.len() && 0 <= b < after.len() && a != b implies after[a].0@
            != after[b].0@ by {
            let a0 = if a < i {
                a
            } else {
                a + 1
            };
            let b0 = if b < i {
                b
            } else {
                b + 1
            };
            assert(after[a] == before[a0] && after[b] == before[b0]);
        }
    }

    /// Forget the export at `path`; `true` when there was a record to drop.
    pub fn forget_path(&mut self, path: &str) -> (changed: bool)
        requires
            old(self).wf(),
        ensures
            final(self).wf(),
            final(self)@ == old(self)@.remove(path@),
            changed == old(self)@.contains_key(path@),
    {
        let ghost before = self.entries@;
        match self.position(path) {
            Some(i) => {
                self.remove_at(i);
                let ghost after = self.entries@;
                assert forall|p: Seq<char>| #[trigger] keyed(after, p) implies entry_for(after, p)
                    == manifest_map(before).remove(path@)[p] && p != path@ by {
                    let c = choose|c: int| 0 <= c < after.len() && after[c].0@ == p;
                    let c0 = if c < i {
                        c
                    } else {
                        c + 1
                    };
                    assert(after[c] == before[c0]);
                    if p == path@ {
                        assert(before[c0].0@ != before[i as int].0@);
                    }
                    let d = choose|d: int| 0 <= d < before.len() && before[d].0@ == p;
                    if d != c0 {
                        assert(before[d].0@ != before[c0].0@);
                    }
                }
                assert forall|p: Seq<char>| #[trigger] manifest_map(before).remove(path@).contains_key(
                    p,
                ) implies keyed(after, p) by {
                    let d = choose|d: int| 0 <= d < before.len() && before[d].0@ == p;
                    assert(d != i);
                    let d1 = if d < i {
                        d
                    } else {
                        d - 1
                    };
                    assert(after[d1] == before[d]);
                }
                assert(self@ =~= manifest_map(before).remove(path@));
                true
            },
            None => {
                assert(self@ =~= manifest_map(before).remove(path@));
                false
            },
        }
    }

    /// Forget every export recorded against the cloud recast `recast_id`;
    /// `true` when any record was dropped.
    pub fn forget_by_recast_id(&mut self, recast_id: &str) -> (changed: bool)
        requires
            old(self).wf(),
        ensures
            final(self).wf(),
            final(self)@ == without_recast(old(self)@, recast_id@),
            changed == exists|p: Seq<char>|
                old(self)@.contains_key(p) && #[trigger] old(self)@[p].recast_id == recast_id@,
    {
        let ghost m0 = self@;
        let ghost e0 = self.entries@;
        proof {
            assert forall|k: int| 0 <= k < e0.len() implies m0.contains_key(#[trigger] e0[k].0@)
                && m0[e0[k].0@] == e0[k].1@ by {
                assert(keyed(e0, e0[k].0@));
                let c = choose|c: int| 0 <= c < e0.len() && e0[c].0@ == e0[k].0@;
                if c != k {
                    assert(e0[c].0@ != e0[k].0@);
                }
            }
        }
        let mut changed = false;
        let mut i: usize = 0;
        while i < self.entries.len()
            invariant
                i <= self.entries.len(),
                self.wf(),
                forall|k: int|
                    0 <= k < self.entries@.len() ==> m0.contains_key(#[trigger] self.entries@[k].0@)
                        && m0[self.entries@[k].0@] == self.entries@[k].1@,
                forall|k: int| 0 <= k < i ==> (#[trigger] self.entries@[k]).1@.recast_id != recast_id@,
                forall|p: Seq<char>|
                    m0.contains_key(p) && #[trigger] m0[p].recast_id != recast_id@ ==> keyed(
                        self.entries@,
                        p,
                    ),
                changed == exists|p: Seq<char>|
                    m0.contains_key(p) && #[trigger] m0[p].recast_id == recast_id@ && !keyed(
                        self.entries@,
                        p,
                    ),
            decreases self.entries.len() - i,
        {
            if same_text(self.entries[i].1.recast_id.as_str(), recast_id) {
                let ghost before = self.entries@;
                let ghost pi = before[i as int].0@;
                self.remove_at(i);
                changed = true;
                proof {
                    let after = self.entries@;
                    assert(m0.contains_key(before[i as int].0@));
                    assert(m0[pi].recast_id == recast_id@);
                    assert(!keyed(after, pi)) by {
                        if keyed(after, pi) {
                            let k = choose|k: int| 0 <= k < after.len() && after[k].0@ == pi;
                            let k0 = if k < i {
                                k
                            } else {
                                k + 1
                            };
                            assert(after[k] == before[k0]);
                        }
                    }
                    assert forall|k: int| 0 <= k < after.len() implies m0.contains_key(
                        #[trigger] after[k].0@,
                    ) && m0[after[k].0@] == after[k].1@ by {
                        let k0 = if k < i {
                            k
                        } else {
                            k + 1
                        };
                        assert(after[k] == before[k0]);
                        assert(m0.contains_key(before[k0].0@));
                    }
                    assert forall|k: int| 0 <= k < i implies (#[trigger] after[k]).1@.recast_id
                        != recast_id@ by {
                        assert(after[k] == before[k]);
                        assert(before[k].1@.recast_id != recast_id@);
                    }
                    assert forall|p: Seq<char>|
                        m0.contains_key(p) && #[trigger] m0[p].recast_id != recast_id@ implies keyed(
                        after,
                        p,
                    ) by {
                        assert(keyed(before, p));
                        let k = choose|k: int| 0 <= k < before.len() && before[k].0@ == p;
                        assert(m0.contains_key(before[k].0@));
                        assert(k != i);
                        let k1 = if k < i {
                            k
                        } else {
                            k - 1
                        };
                        assert(after[k1] == before[k]);
                    }
                }
            } else {
                i = i + 1;
            }
        }
        proof {
            let e = self.entries@;
            assert forall|p: Seq<char>| #[trigger] keyed(e, p) implies m0.contains_key(p)
                && m0[p].recast_id != recast_id@ && entry_for(e, p) == m0[p] by {
                let k = choose|k: int| 0 <= k < e.len() && e[k].0@ == p;
                assert(m0.contains_key(e[k].0@));
                assert(e[k].1@.recast_id != recast_id@);
            }
            assert forall|p: Seq<char>|
                m0.contains_key(p) && m0[p].recast_id != recast_id@ implies #[trigger] keyed(e, p) by {
                assert(m0[p].recast_id != recast_id@);
            }
            assert(self@ =~= without_recast(m0, recast_id@));
            if changed {
                let p = choose|p: Seq<char>|
                    m0.contains_key(p) && #[trigger] m0[p].recast_id == recast_id@ && !keyed(e, p);
                assert(m0.contains_key(p) && m0[p].recast_id == recast_id@);
            } else {
                assert forall|p: Seq<char>| m0.contains_key(p) implies #[trigger] m0[p].recast_id
                    != recast_id@ by {
                    if m0[p].recast_id == recast_id@ {
                        assert(keyed(e0, p));
                        let k = choose|k: int| 0 <= k < e0.len() && e0[k].0@ == p;
                        assert(m0.contains_key(e0[k].0@));
                        assert(!keyed(e, p));
                    }
                }
            }
        }
        changed
    }
}

/// What a read of the manifest gives back of a write: the recorded export
/// reads back its record, and every other export keeps its own.
pub proof fn law_recorded_upload_reads_back(
    m: Map<Seq<char>, RecordView>,
    path: Seq<char>,
    record: RecordView,
    other: Seq<char>,
)
    requires
        other != path,
    ensures
        m.insert(path, record).contains_key(path),
        m.insert(path, record)[path] == record,
        m.insert(path, record).contains_key(other) == m.contains_key(other),
        m.contains_key(other) ==> m.insert(path, record)[other] == m[other],
{
}

/// A forgotten export has no record afterwards, and forgetting it again
/// changes nothing.
pub proof fn law_forget_path_is_final(m: Map<Seq<char>, RecordView>, path: Seq<char>)
    ensures
        !m.remove(path).contains_key(path),
        m.remove(path).remove(path) == m.remove(path),
{
    assert(m.remove(path).remove(path) =~= m.remove(path));
}

/// After forgetting a cloud recast, no record points at it, and records of
/// other recasts are untouched.
pub proof fn law_forget_recast_leaves_no_record(
    m: Map<Seq<char>, RecordView>,
    recast_id: Seq<char>,
    p: Seq<char>,
)
    ensures
        without_recast(m, recast_id).contains_key(p) ==> without_recast(m, recast_id)[p].recast_id
            != recast_id,
        m.contains_key(p) && m[p].recast_id != recast_id ==> without_recast(
            m,
            recast_id,
        ).contains_key(p) && without_recast(m, recast_id)[p] == m[p],
{
}

/// The fields of an upload-init request, from the probed export.
#[derive(Debug, Clone)]
pub struct InitRequest {
    pub title: String,
    pub duration_sec: u64,
    pub size_bytes: u64,
    pub width: u32,
    pub height: u32,
    pub fps: u32,
    /// Omitted when there is no workspace (or an empty one).
    pub workspace_id: Option<String>,
    /// Present (true) only when a caption track will be uploaded.
    pub has_captions: bool,
}

/// Build the upload-init request: the title trimmed, an empty workspace
/// omitted.
pub fn init_request(
    title: &str,
    duration_sec: u64,
    size_bytes: u64,
    width: u32,
    height: u32,
    fps: u32,
    workspace: Option<String>,
    has_captions: bool,
) -> (r: InitRequest)
    ensures
        r.title@ == trim(title@),
        r.duration_sec == duration_sec,
        r.size_bytes == size_bytes,
        r.width == width,
        r.height == height,
        r.fps == fps,
        (workspace matches Some(w) && w@.len() > 0) ==> r.workspace_id == workspace,
        !(workspace matches Some(w) && w@.len() > 0) ==> r.workspace_id is None,
        r.has_captions == has_captions,
{
    let t = chars_of(title);
    let trimmed_title = trimmed(t.as_slice());
    InitRequest {
        title: string_of(trimmed_title.as_slice()),
        duration_sec,
        size_bytes,
        width,
        height,
        fps,
        workspace_id: explicit_workspace(workspace),
        has_captions,
    }
}

/// What `str::to_uppercase` makes of a string.
pub uninterp spec fn uppercase_spec(s: Seq<char>) -> Seq<char>;

/// Uppercases with `str::to_uppercase` (full Unicode case mapping). Claimed:
/// the result is [`uppercase_spec`] of the argument, a function of it alone,
/// and on ASCII text it is the ASCII uppercase (the Unicode mapping of the
/// ASCII letters); for other text it is not stated.
#[verifier::external_body]
fn uppercase(s: &str) -> (r: String)
    ensures
        r@ == uppercase_spec(s@),
        is_ascii_text(s@) ==> r@ == ascii_upper(s@),
{
    s.to_uppercase()
}

/// Whether the storage provider's signed upload is a `PUT`, the only method
/// the desktop uploader speaks.
pub fn upload_method_supported(method: &str) -> (b: bool)
    ensures
        b == (uppercase_spec(method@) == "PUT"@),
{
    let u = uppercase(method);
    same_text(u.as_str(), "PUT")
}

/// The error when the provider asks for another method.
pub fn unsupported_provider_message() -> (s: String)
    ensures
        s@ == "This storage provider isn't supported by the desktop uploader yet."@,
{
    let mut out: Vec<char> = Vec::new();
    push_str(&mut out, "This storage provider isn't supported by the desktop uploader yet.");
    string_of(out.as_slice())
}

/// Whether a best-effort side upload (poster, captions) is a `PUT`, in any
/// ASCII case.
pub fn side_upload_is_put(method: &str) -> (b: bool)
    ensures
        b == (ascii_lower(method@) == ascii_lower("PUT"@)),
{
    let m = chars_of(method);
    let p = chars_of("PUT");
    eq_ignore_ascii_case(m.as_slice(), p.as_slice())
}

} // verus!
