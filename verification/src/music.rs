//! The music cache's file naming: a track id becomes a safe file name.

use vstd::prelude::*;

use crate::error::AppError;
use crate::text::{chars_of, push_str, string_of};

verus! {

/// An ASCII letter or digit.
pub open spec fn is_ascii_alphanumeric(c: char) -> bool {
    ('a' <= c && c <= 'z') || ('A' <= c && c <= 'Z') || ('0' <= c && c <= '9')
}

/// The id with every character that is not an ASCII letter or digit
/// replaced by `_`.
pub open spec fn sanitized(id: Seq<char>) -> Seq<char> {
    Seq::new(id.len(), |i: int| if is_ascii_alphanumeric(id[i]) { id[i] } else { '_' })
}

/// The cache file name for a track id: the sanitized id and `.mp3`; an empty
/// id is refused.
pub fn music_file_name(id: &str) -> (r: Result<String, AppError>)
    ensures
        id@.len() == 0 ==> (r matches Err(AppError::Message(m)) && m@ == "empty music id"@),
        id@.len() > 0 ==> (r matches Ok(name) && name@ == sanitized(id@) + ".mp3"@),
{
    let chars = chars_of(id);
    let mut safe: Vec<char> = Vec::new();
    let mut i: usize = 0;
    while i < chars.len()
        invariant
            i <= chars.len(),
            safe@ == sanitized(chars@).subrange(0, i as int),
        decreases chars.len() - i,
    {
        let c = chars[i];
        let keep = ('a' <= c && c <= 'z') || ('A' <= c && c <= 'Z') || ('0' <= c && c <= '9');
        safe.push(if keep {
            c
        } else {
            '_'
        });
        i = i + 1;
        assert(safe@ =~= sanitized(chars@).subrange(0, i as int));
    }
    if safe.len() == 0 {
        let mut m: Vec<char> = Vec::new();
        push_str(&mut m, "empty music id");
        return Err(AppError::Message(string_of(m.as_slice())));
    }
    assert(sanitized(chars@).subrange(0, chars@.len() as int) =~= sanitized(chars@));
    push_str(&mut safe, ".mp3");
    Ok(string_of(safe.as_slice()))
}

} // verus!
