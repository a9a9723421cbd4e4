//! The faststart remux: which exports get their `moov` atom moved to the
//! front, and where the remux writes before it replaces the export.

use vstd::prelude::*;

use crate::paths::{
    after_last_slash, clean_dir, dir_text, extension_of, file_stem_of, has_suffix, last_index,
    names_plain_file, path_piece, plain_file_name, renamed_path, std_ext, std_stem,
    with_file_name_of,
};
use crate::text::{push_str, same_text, string_of};

verus! {

/// The MP4-family formats whose exports are remuxed for streaming.
pub open spec fn is_mp4_family(format: Seq<char>) -> bool {
    format == "mp4"@ || format == "mov"@ || format == "m4v"@
}

/// Whether an export in `format` is remuxed with `+faststart`.
pub fn needs_faststart(format: &str) -> (b: bool)
    ensures
        b == is_mp4_family(format@),
{
    same_text(format, "mp4") || same_text(format, "mov") || same_text(format, "m4v")
}

/// The view of an optional string, empty when absent.
pub open spec fn or_empty(o: Option<String>) -> Seq<char> {
    match o {
        Some(s) => s@,
        None => Seq::empty(),
    }
}

/// The remux's file name: the export's stem, `.faststart.`, and its
/// extension (either empty when the path has none).
pub fn faststart_file_name(stem: Option<String>, ext: Option<String>) -> (r: String)
    ensures
        r@ == or_empty(stem) + ".faststart."@ + or_empty(ext),
{
    let mut out: Vec<char> = Vec::new();
    match &stem {
        Some(s) => push_str(&mut out, s.as_str()),
        None => {},
    }
    push_str(&mut out, ".faststart.");
    match &ext {
        Some(e) => push_str(&mut out, e.as_str()),
        None => {},
    }
    string_of(out.as_slice())
}

/// The remux's file name from the export's stem and extension, as text.
pub open spec fn faststart_name(stem: Option<Seq<char>>, ext: Option<Seq<char>>) -> Seq<char> {
    (match stem {
        Some(s) => s,
        None => Seq::empty(),
    }) + ".faststart."@ + (match ext {
        Some(e) => e,
        None => Seq::empty(),
    })
}

pub open spec fn opt_seq(o: Option<String>) -> Option<Seq<char>> {
    match o {
        Some(s) => Some(s@),
        None => None,
    }
}

/// The remux name of a file named `n`: its stem, `.faststart.`, and its
/// extension, as `std::path` splits them.
pub open spec fn remux_name(n: Seq<char>) -> Seq<char> {
    faststart_name(Some(std_stem(n)), std_ext(n))
}

/// Of a plain file name, the remux name is plain too: its stem and
/// extension are pieces of it.
pub proof fn lemma_remux_name_plain(n: Seq<char>)
    requires
        plain_file_name(n),
    ensures
        plain_file_name(remux_name(n)),
{
    reveal_strlit(".faststart.");
    let lit = ".faststart."@;
    let stem = std_stem(n);
    let ext: Seq<char> = match std_ext(n) {
        Some(e) => e,
        None => Seq::empty(),
    };
    match last_index(n, '.') {
        Some(k) => {
            lemma_last_index_in_range(n, '.');
        },
        None => {},
    }
    assert forall|c: char| c == '/' || c == '\\' || c == ':' implies !stem.contains(c) by {
        if stem.contains(c) {
            let i = choose|i: int| 0 <= i < stem.len() && stem[i] == c;
            assert(n[i] == c);
        }
    }
    assert forall|c: char| c == '/' || c == '\\' || c == ':' implies !ext.contains(c) by {
        if ext.contains(c) {
            let i = choose|i: int| 0 <= i < ext.len() && ext[i] == c;
            let k = last_index(n, '.')->0;
            assert(n[k + 1 + i] == c);
        }
    }
    let m = remux_name(n);
    assert(m =~= stem + lit + ext);
    assert forall|c: char| c == '/' || c == '\\' || c == ':' implies !m.contains(c) by {
        if m.contains(c) {
            let i = choose|i: int| 0 <= i < m.len() && m[i] == c;
            if i < stem.len() {
                assert(stem[i] == c);
            } else if i < stem.len() + lit.len() {
                assert(lit[i - stem.len()] == c);
            } else {
                assert(ext[i - stem.len() - lit.len()] == c);
            }
        }
    }
    assert(m.len() >= 11);
}

/// The last index of `c` in `s` lies inside `s` and holds `c`.
pub proof fn lemma_last_index_in_range(s: Seq<char>, c: char)
    requires
        last_index(s, c) is Some,
    ensures
        0 <= last_index(s, c)->0 < s.len(),
        s[last_index(s, c)->0] == c,
    decreases s.len(),
{
    if s.last() != c {
        lemma_last_index_in_range(s.drop_last(), c);
    }
}

/// The remux target beside the export: the export's path with its file
/// name replaced by [`faststart_file_name`] of its stem and extension. The
/// stem and extension are pieces of the path (the extension without a dot);
/// when that name is a plain file name, the target ends with it. Of a
/// portable path naming a plain file, with a clean directory part, the
/// target is that directory, one separator and [`remux_name`] of the file:
/// `dir/My Recording (1).faststart.mp4` for `dir/My Recording (1).mp4`.
/// Which pieces they are otherwise, and what precedes the name, the
/// platform's path rules decide.
pub fn temp_sibling(path: &str) -> (r: String)
    ensures
        exists|stem: Option<Seq<char>>, ext: Option<Seq<char>>|
            {
                &&& (stem is Some ==> path_piece(path@, stem->0))
                &&& (ext is Some ==> path_piece(path@, ext->0) && !ext->0.contains('.'))
                &&& (plain_file_name(#[trigger] faststart_name(stem, ext)) ==> has_suffix(
                    r@,
                    faststart_name(stem, ext),
                ))
            },
        names_plain_file(path@) && clean_dir(dir_text(path@)) ==> renamed_path(
            path@,
            remux_name(after_last_slash(path@)),
            r@,
        ),
{
    let stem = file_stem_of(path);
    let ext = extension_of(path);
    let ghost sv = opt_seq(stem);
    let ghost ev = opt_seq(ext);
    let name = faststart_file_name(stem, ext);
    assert(name@ == faststart_name(sv, ev));
    proof {
        if names_plain_file(path@) {
            lemma_remux_name_plain(after_last_slash(path@));
            assert(name@ == remux_name(after_last_slash(path@)));
        }
    }
    let r = with_file_name_of(path, name.as_str());
    assert(plain_file_name(faststart_name(sv, ev)) ==> has_suffix(r@, faststart_name(sv, ev)));
    r
}

} // verus!
