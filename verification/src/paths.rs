//! The few `std::path` questions the library asks about file paths. What a
//! platform calls a file name or an extension differs between operating
//! systems (Windows also splits at `\`, reads drive and UNC prefixes, and in
//! a verbatim `\\?\` path does not split at `/`), so the claims below are of
//! two kinds. Some hold on every platform: a component is a non-empty piece
//! of the path's own text. The rest are made only of a portable path (see
//! [`portable_path`]), whose components every platform reads the same way:
//! separated by `/`, with no prefix. The decisions built on these calls take
//! their results as arguments.

use vstd::prelude::*;

use crate::text::has_substring;

verus! {

/// A path that every platform splits the same way: it holds no `\` and no
/// `:` (so no Windows prefix, verbatim path or drive), and it does not open
/// with two slashes (which Windows reads as a UNC prefix).
pub open spec fn portable_path(p: Seq<char>) -> bool {
    &&& !p.contains('\\')
    &&& !p.contains(':')
    &&& !(p.len() >= 2 && p[0] == '/' && p[1] == '/')
}

/// A piece of a path's text that `std::path` hands out as (part of) a
/// component: taken from the path itself, and, when the path holds no `\`,
/// free of `/` (only a Windows verbatim path, which needs a `\`, keeps `/`
/// inside a component).
pub open spec fn path_piece(path: Seq<char>, piece: Seq<char>) -> bool {
    has_substring(path, piece) && (!path.contains('\\') ==> !piece.contains('/'))
}

/// The index of the last `c` in `s`, if any.
pub open spec fn last_index(s: Seq<char>, c: char) -> Option<int>
    decreases s.len(),
{
    if s.len() == 0 {
        None
    } else if s.last() == c {
        Some(s.len() - 1)
    } else {
        last_index(s.drop_last(), c)
    }
}

/// The text after the last `/` (all of it when there is none).
pub open spec fn after_last_slash(p: Seq<char>) -> Seq<char> {
    match last_index(p, '/') {
        Some(i) => p.skip(i + 1),
        None => p,
    }
}

/// The text before the last `/` (nothing when there is none).
pub open spec fn dir_text(p: Seq<char>) -> Seq<char> {
    match last_index(p, '/') {
        Some(i) => p.take(i),
        None => Seq::empty(),
    }
}

/// A directory text that `std::path` keeps as it is when it drops the
/// final component: it does not end in a `/` or in a `/.` component, which
/// the parent normalizes away.
pub open spec fn clean_dir(d: Seq<char>) -> bool {
    &&& !(d.len() > 0 && d.last() == '/')
    &&& !(d.len() >= 2 && d.last() == '.' && d[d.len() - 2] == '/')
}

/// A name that every platform reads as one plain relative component: not
/// empty, not `.` or `..`, and free of `/`, `\` and `:` (so it holds no
/// separator, root or drive prefix).
pub open spec fn plain_file_name(n: Seq<char>) -> bool {
    &&& n.len() > 0
    &&& n != seq!['.']
    &&& n != seq!['.', '.']
    &&& !n.contains('/')
    &&& !n.contains('\\')
    &&& !n.contains(':')
}

/// The portable path `p` names the file `after_last_slash(p)`: that text is
/// a plain name.
pub open spec fn names_plain_file(p: Seq<char>) -> bool {
    portable_path(p) && plain_file_name(after_last_slash(p))
}

/// The stem of a file name as `Path::file_stem` documents it: the part
/// before the final `.`; the whole name when it has no `.`, or when its
/// only `.` is the first character.
pub open spec fn std_stem(n: Seq<char>) -> Seq<char> {
    match last_index(n, '.') {
        Some(k) => if k > 0 {
            n.take(k)
        } else {
            n
        },
        None => n,
    }
}

/// The extension of a file name as `Path::extension` documents it: the part
/// after the final `.`; none when the name has no `.`, or when its only `.`
/// is the first character.
pub open spec fn std_ext(n: Seq<char>) -> Option<Seq<char>> {
    match last_index(n, '.') {
        Some(k) => if k > 0 {
            Some(n.skip(k + 1))
        } else {
            None
        },
        None => None,
    }
}

pub open spec fn opt_text(o: Option<String>) -> Option<Seq<char>> {
    match o {
        Some(s) => Some(s@),
        None => None,
    }
}

/// `r` is the portable path `p` with its file name replaced by `name`:
/// `name` alone when `p` has no `/`; else the text before the last `/`, one
/// separator (`/`, or `\` on Windows), and `name`.
pub open spec fn renamed_path(p: Seq<char>, name: Seq<char>, r: Seq<char>) -> bool {
    let d = dir_text(p);
    if last_index(p, '/') is None {
        r == name
    } else {
        &&& r.len() == d.len() + 1 + name.len()
        &&& r.take(d.len() as int) == d
        &&& (r[d.len() as int] == '/' || r[d.len() as int] == '\\')
        &&& r.skip((d.len() + 1) as int) == name
    }
}

/// The last component of `path` (`Path::file_name`), if it names a file.
/// Claimed: such a component is a non-empty [`path_piece`] of the path (a
/// `Normal` component is a slice of the path between separators); and of a
/// portable path whose text after the last `/` is a plain name, it is that
/// name (its final component). Which component it is otherwise depends on
/// the platform and is not stated.
#[verifier::external_body]
pub(crate) fn file_name_of(path: &str) -> (r: Option<String>)
    ensures
        r matches Some(n) ==> n@.len() > 0 && path_piece(path@, n@),
        names_plain_file(path@) ==> opt_text(r) == Some(after_last_slash(path@)),
{
    std::path::Path::new(path).file_name().map(|n| n.to_string_lossy().into_owned())
}

/// The file name without its extension (`Path::file_stem`). Claimed: it is
/// a [`path_piece`] of the path (a prefix of the file name); and of a
/// portable path naming a plain file, it is [`std_stem`] of that name, as
/// the documentation defines the stem. Otherwise which piece it is depends
/// on the platform and is not stated.
#[verifier::external_body]
pub(crate) fn file_stem_of(path: &str) -> (r: Option<String>)
    ensures
        r matches Some(n) ==> path_piece(path@, n@),
        names_plain_file(path@) ==> opt_text(r) == Some(std_stem(after_last_slash(path@))),
{
    std::path::Path::new(path).file_stem().map(|n| n.to_string_lossy().into_owned())
}

/// The extension of the file name (`Path::extension`). Claimed: it is a
/// [`path_piece`] of the path that holds no `.` (it follows the file name's
/// last dot); and of a portable path naming a plain file, it is
/// [`std_ext`] of that name, as the documentation defines the extension.
/// Otherwise which piece it is depends on the platform and is not stated.
#[verifier::external_body]
pub(crate) fn extension_of(path: &str) -> (r: Option<String>)
    ensures
        r matches Some(e) ==> path_piece(path@, e@) && !e@.contains('.'),
        names_plain_file(path@) ==> opt_text(r) == std_ext(after_last_slash(path@)),
{
    std::path::Path::new(path).extension().map(|n| n.to_string_lossy().into_owned())
}

/// `s` ends with `suf`.
pub open spec fn has_suffix(s: Seq<char>, suf: Seq<char>) -> bool {
    suf.len() <= s.len() && s.subrange(s.len() - suf.len(), s.len() as int) == suf
}

/// `path` with its file name replaced (`Path::with_file_name`, which pops
/// the file name if there is one, leaving the parent, and pushes `name`).
/// Claimed: a plain relative `name` is appended, so the result ends with
/// it; and when `path` is portable, names a plain file and has a clean
/// directory part, the result is that directory text, one separator (the
/// platform's own, or the `/` of a root) and `name` ([`renamed_path`]).
/// Otherwise the rest of the result depends on the platform's path rules
/// and is not stated.
#[verifier::external_body]
pub(crate) fn with_file_name_of(path: &str, name: &str) -> (r: String)
    ensures
        plain_file_name(name@) ==> has_suffix(r@, name@),
        names_plain_file(path@) && clean_dir(dir_text(path@)) && plain_file_name(name@)
            ==> renamed_path(path@, name@, r@),
{
    std::path::Path::new(path).with_file_name(name).to_string_lossy().into_owned()
}

/// `r` is the directory `dir` with the plain name `name` pushed onto it: the
/// directory text, one separator (the platform's own: `/`, or `\` on
/// Windows) and the name.
pub open spec fn joined_path(dir: Seq<char>, name: Seq<char>, r: Seq<char>) -> bool {
    &&& r.len() == dir.len() + 1 + name.len()
    &&& r.take(dir.len() as int) == dir
    &&& (r[dir.len() as int] == '/' || r[dir.len() as int] == '\\')
    &&& r.skip((dir.len() + 1) as int) == name
}

/// A directory text that `push` extends with a separator: not empty and
/// not already ending in `/`.
pub open spec fn open_dir(dir: Seq<char>) -> bool {
    dir.len() > 0 && dir.last() != '/'
}

/// `dir` joined with `name` (`Path::join`, which pushes `name` onto a copy
/// of `dir`). Claimed: a plain relative `name` extends the path, so the
/// result ends with it; and onto a portable directory that does not end in
/// a separator it is pushed after one separator ([`joined_path`]). How a
/// Windows directory (with a drive or `\`) is joined is not stated.
#[verifier::external_body]
pub(crate) fn join_path(dir: &str, name: &str) -> (r: String)
    ensures
        plain_file_name(name@) ==> has_suffix(r@, name@),
        portable_path(dir@) && open_dir(dir@) && plain_file_name(name@) ==> joined_path(
            dir@,
            name@,
            r@,
        ),
{
    std::path::Path::new(dir).join(name).to_string_lossy().into_owned()
}

} // verus!
