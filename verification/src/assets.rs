//! Downloadable assets: the manifest that lists them, the SHA-256 check a
//! download must pass, and the tally of one install run.

use vstd::prelude::*;

use sha2::Digest;

use crate::paths::{has_suffix, join_path, joined_path, open_dir, plain_file_name, portable_path};
use crate::text::{
    ascii_lower, chars_of, eq_ignore_ascii_case, hex_lower, hex_run, push_str, same_text,
    string_of,
};

verus! {

/// One downloadable asset.
#[derive(Debug, Clone)]
pub struct AssetEntry {
    pub id: String,
    pub filename: String,
    pub url: String,
    /// Expected SHA-256 of the file, in hexadecimal.
    pub sha256: String,
    pub size: Option<u64>,
    pub version: Option<String>,
}

/// The list of assets a manifest URL serves.
#[derive(Debug, Clone)]
pub struct Manifest {
    pub version: Option<String>,
    pub assets: Vec<AssetEntry>,
}

/// An asset that could not be installed, and why.
#[derive(Debug, Clone)]
pub struct FailedAsset {
    pub id: String,
    pub reason: String,
}

/// What one install run did with each asset.
#[derive(Debug, Clone)]
pub struct AssetInstallResult {
    pub installed: Vec<String>,
    pub skipped: Vec<String>,
    pub failed: Vec<FailedAsset>,
    pub cache_dir: String,
}

/// The SHA-256 digest of a byte string.
pub uninterp spec fn sha256_spec(data: Seq<u8>) -> Seq<u8>;

/// Hashes with `sha2::Sha256::digest`. Claimed: the 32-byte result is
/// [`sha256_spec`] of the data, a function of it alone.
#[verifier::external_body]
fn sha256_digest(data: &[u8]) -> (d: Vec<u8>)
    ensures
        d@ == sha256_spec(data@),
        d@.len() == 32,
{
    sha2::Sha256::digest(data).to_vec()
}

/// The lowercase hexadecimal SHA-256 of the data.
pub open spec fn sha256_hex_spec(data: Seq<u8>) -> Seq<char> {
    hex_run(sha256_spec(data), 0, 32)
}

/// The lowercase hexadecimal SHA-256 of the data.
pub fn sha256_hex(data: &[u8]) -> (s: String)
    ensures
        s@ == sha256_hex_spec(data@),
{
    let d = sha256_digest(data);
    hex_lower(d.as_slice())
}

/// A computed digest matches the expected one, ignoring ASCII case.
pub open spec fn digest_matches_spec(got: Seq<char>, expected: Seq<char>) -> bool {
    ascii_lower(got) == ascii_lower(expected)
}

/// Whether a computed digest matches the expected one.
pub fn digest_matches(got: &str, expected: &str) -> (b: bool)
    ensures
        b == digest_matches_spec(got@, expected@),
{
    let g = chars_of(got);
    let e = chars_of(expected);
    eq_ignore_ascii_case(g.as_slice(), e.as_slice())
}

/// Accept a download whose digest matches, or say which digests differed.
pub fn check_digest(got: &str, expected: &str) -> (r: Result<(), String>)
    ensures
        digest_matches_spec(got@, expected@) ==> r is Ok,
        !digest_matches_spec(got@, expected@) ==> (r matches Err(m) && m@ == "sha256 mismatch (expected "@
            + expected@ + ", got "@ + got@ + ")"@),
{
    if digest_matches(got, expected) {
        Ok(())
    } else {
        let mut out: Vec<char> = Vec::new();
        push_str(&mut out, "sha256 mismatch (expected ");
        push_str(&mut out, expected);
        push_str(&mut out, ", got ");
        push_str(&mut out, got);
        push_str(&mut out, ")");
        Err(string_of(out.as_slice()))
    }
}

/// Check downloaded bytes against the entry's expected SHA-256.
pub fn verify_download(data: &[u8], expected: &str) -> (r: Result<(), String>)
    ensures
        digest_matches_spec(sha256_hex_spec(data@), expected@) ==> r is Ok,
        !digest_matches_spec(sha256_hex_spec(data@), expected@) ==> (r matches Err(m) && m@
            == "sha256 mismatch (expected "@ + expected@ + ", got "@ + sha256_hex_spec(data@)
            + ")"@),
{
    let got = sha256_hex(data);
    check_digest(got.as_str(), expected)
}

/// What to do with an asset's target file before downloading.
#[derive(Debug, Clone, Copy, PartialEq, Eq, Structural)]
pub enum CachedAction {
    /// The cached file is intact: count the asset as skipped.
    Skip,
    /// The cached file is stale or unreadable: remove it, then download.
    Replace,
    /// Nothing cached: download.
    Download,
}

/// The action for an asset given its cached file: absent (`None`), or
/// present with its digest (`Some(Some(hex))`) or unreadable (`Some(None)`).
pub open spec fn cached_action_spec(cached: Option<Option<Seq<char>>>, expected: Seq<char>) -> CachedAction {
    match cached {
        None => CachedAction::Download,
        Some(Some(h)) => if digest_matches_spec(h, expected) {
            CachedAction::Skip
        } else {
            CachedAction::Replace
        },
        Some(None) => CachedAction::Replace,
    }
}

/// Decide what to do with an asset's cached file.
pub fn cached_action(cached: &Option<Option<String>>, expected: &str) -> (a: CachedAction)
    ensures
        a == cached_action_spec(
            match cached {
                Some(Some(h)) => Some(Some(h@)),
                Some(None) => Some(None),
                None => None,
            },
            expected@,
        ),
{
    match cached {
        None => CachedAction::Download,
        Some(Some(h)) => {
            if digest_matches(h.as_str(), expected) {
                CachedAction::Skip
            } else {
                CachedAction::Replace
            }
        },
        Some(None) => CachedAction::Replace,
    }
}

impl AssetInstallResult {
    /// A run that has done nothing yet.
    pub fn new(cache_dir: String) -> (r: AssetInstallResult)
        ensures
            r.installed@.len() == 0,
            r.skipped@.len() == 0,
            r.failed@.len() == 0,
            r.cache_dir@ == cache_dir@,
    {
        AssetInstallResult {
            installed: Vec::new(),
            skipped: Vec::new(),
            failed: Vec::new(),
            cache_dir,
        }
    }

    /// Count an asset whose cached copy was intact.
    pub fn record_skipped(&mut self, id: String)
        ensures
            final(self).skipped@ == old(self).skipped@.push(id),
            final(self).installed@ == old(self).installed@,
            final(self).failed@ == old(self).failed@,
            final(self).cache_dir == old(self).cache_dir,
    {
        self.skipped.push(id);
    }

    /// Count a download: installed when it succeeded, failed with its reason
    /// otherwise.
    pub fn record_download(&mut self, id: String, outcome: Result<(), String>)
        ensures
            outcome is Ok ==> final(self).installed@ == old(self).installed@.push(id)
                && final(self).failed@ == old(self).failed@,
            outcome matches Err(reason) ==> {
                &&& final(self).installed@ == old(self).installed@
                &&& final(self).failed@.len() == old(self).failed@.len() + 1
                &&& final(self).failed@.last().id == id
                &&& final(self).failed@.last().reason == reason
                &&& final(self).failed@.drop_last() == old(self).failed@
            },
            final(self).skipped@ == old(self).skipped@,
            final(self).cache_dir == old(self).cache_dir,
    {
        match outcome {
            Ok(()) => self.installed.push(id),
            Err(reason) => {
                let ghost before = self.failed@;
                self.failed.push(FailedAsset { id, reason });
                assert(self.failed@.drop_last() =~= before);
            },
        }
    }
}

/// The manifest entry with this id, the first if several share it.
pub fn find_asset(manifest: &Manifest, id: &str) -> (r: Option<usize>)
    ensures
        r matches Some(i) ==> i < manifest.assets@.len() && manifest.assets@[i as int].id@ == id@
            && forall|j: int| 0 <= j < i ==> manifest.assets@[j].id@ != id@,
        r is None ==> forall|j: int|
            0 <= j < manifest.assets@.len() ==> manifest.assets@[j].id@ != id@,
{
    let mut i: usize = 0;
    while i < manifest.assets.len()
        invariant
            i <= manifest.assets.len(),
            forall|j: int| 0 <= j < i ==> manifest.assets@[j].id@ != id@,
        decreases manifest.assets.len() - i,
    {
        if same_text(manifest.assets[i].id.as_str(), id) {
            return Some(i);
        }
        i = i + 1;
    }
    None
}

/// Where the cached copy of asset `id` would be: the file name of its
/// manifest entry (the first with that id) in the assets directory `dir`,
/// joined as [`join_path`] states it; `None` when the manifest lists no
/// such asset. Whether the file is there is for the caller to look.
pub fn cached_asset_file(manifest: &Manifest, dir: &str, id: &str) -> (r: Option<String>)
    ensures
        r is None <==> forall|j: int|
            0 <= j < manifest.assets@.len() ==> manifest.assets@[j].id@ != id@,
        r matches Some(p) ==> exists|i: int|
            {
                &&& 0 <= i < manifest.assets@.len()
                &&& manifest.assets@[i].id@ == id@
                &&& forall|j: int| 0 <= j < i ==> manifest.assets@[j].id@ != id@
                &&& (plain_file_name(manifest.assets@[i].filename@) ==> has_suffix(
                    p@,
                    manifest.assets@[i].filename@,
                ))
                &&& (portable_path(dir@) && open_dir(dir@) && plain_file_name(
                    manifest.assets@[i].filename@,
                ) ==> joined_path(dir@, manifest.assets@[i].filename@, p@))
            },
{
    match find_asset(manifest, id) {
        Some(i) => {
            let p = join_path(dir, manifest.assets[i].filename.as_str());
            assert(manifest.assets@[i as int].id@ == id@);
            Some(p)
        },
        None => None,
    }
}

} // verus!
