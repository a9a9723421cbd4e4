//! The recordings and exports library listing: which files it shows and in
//! what order.

use vstd::prelude::*;

use crate::text::{same_text, str_texts};
use crate::types::RecordingEntry;

verus! {

/// Whether a file whose extension is `ext` is listed under `exts`. A file
/// without an extension counts as having the empty one.
pub open spec fn listed_ext(ext: Option<Seq<char>>, exts: Seq<Seq<char>>) -> bool {
    match ext {
        Some(e) => exts.contains(e),
        None => exts.contains(Seq::<char>::empty()),
    }
}

/// Whether a file with extension `ext` belongs in a listing of `exts`.
pub fn has_listed_extension(ext: Option<&str>, exts: &[&str]) -> (b: bool)
    ensures
        b == listed_ext(
            match ext {
                Some(e) => Some(e@),
                None => None,
            },
            str_texts(exts@),
        ),
{
    let e: &str = match ext {
        Some(e) => e,
        None => "",
    };
    proof {
        reveal_strlit("");
        assert(ext is None ==> e@ =~= Seq::<char>::empty());
    }
    let mut i: usize = 0;
    while i < exts.len()
        invariant
            i <= exts.len(),
            forall|k: int| 0 <= k < i ==> exts@[k]@ != e@,
            ext is None ==> e@ == Seq::<char>::empty(),
            ext matches Some(x) ==> x@ == e@,
        decreases exts.len() - i,
    {
        if same_text(exts[i], e) {
            assert(str_texts(exts@)[i as int] == e@);
            assert(str_texts(exts@).contains(e@));
            return true;
        }
        i = i + 1;
    }
    proof {
        if str_texts(exts@).contains(e@) {
            let k = choose|k: int| 0 <= k < str_texts(exts@).len() && str_texts(exts@)[k] == e@;
            assert(exts@[k]@ == e@);
        }
    }
    false
}

/// Entry `a` of `s` is listed before entry `b`: it was modified later, or at
/// the same time and came first.
pub open spec fn comes_before(s: Seq<RecordingEntry>, a: int, b: int) -> bool {
    s[a].modified > s[b].modified || (s[a].modified == s[b].modified && a < b)
}

/// `r` is `s` rearranged by the index map `p` (entry `i` of `r` is entry
/// `p[i]` of `s`) so that entries run newest first, ties kept in the order
/// they came in.
pub open spec fn arranged_newest_first(s: Seq<RecordingEntry>, r: Seq<RecordingEntry>, p: Seq<int>) -> bool {
    &&& p.len() == s.len()
    &&& r.len() == s.len()
    &&& forall|i: int| 0 <= i < p.len() ==> 0 <= #[trigger] p[i] < s.len() && r[i] == s[p[i]]
    &&& forall|i: int, j: int|
        0 <= i < j < p.len() ==> comes_before(s, #[trigger] p[i], #[trigger] p[j])
}

/// Sort a listing newest-first by modification time; entries modified at the
/// same second keep their order (a stable sort).
pub fn newest_first(entries: Vec<RecordingEntry>) -> (r: Vec<RecordingEntry>)
    ensures
        exists|p: Seq<int>| arranged_newest_first(entries@, r@, p),
{
    let ghost orig = entries@;
    let total: usize = entries.len();
    let ghost n = total as nat;
    let mut rest = entries;
    let mut out: Vec<RecordingEntry> = Vec::new();
    let ghost mut p: Seq<int> = Seq::empty();
    let mut k: usize = 0;
    while rest.len() > 0
        invariant
            n == orig.len(),
            n == total,
            k + rest@.len() == n,
            rest@ == orig.subrange(k as int, n as int),
            out@.len() == k,
            p.len() == k,
            forall|i: int| 0 <= i < k ==> 0 <= #[trigger] p[i] < k && out@[i] == orig[p[i]],
            forall|i: int, j: int| 0 <= i < j < k ==> comes_before(orig, #[trigger] p[i], #[trigger] p[j]),
        decreases rest@.len(),
    {
        let e = rest.remove(0);
        assert(e == orig[k as int]);
        assert(rest@ =~= orig.subrange(k + 1, n as int));
        let mut pos: usize = 0;
        while pos < out.len() && out[pos].modified >= e.modified
            invariant
                pos <= out@.len(),
                forall|i: int| 0 <= i < pos ==> out@[i].modified >= e.modified,
            decreases out@.len() - pos,
        {
            pos = pos + 1;
        }
        proof {
            assert forall|i: int| pos <= i < k implies out@[i].modified < e.modified by {
                if i > pos {
                    assert(comes_before(orig, p[pos as int], p[i]));
                }
            }
        }
        let ghost old_out = out@;
        let ghost old_p = p;
        out.insert(pos, e);
        proof {
            p = old_p.insert(pos as int, k as int);
            old_p.insert_ensures(pos as int, k as int);
            old_out.insert_ensures(pos as int, e);
            assert forall|i: int| 0 <= i < k + 1 implies 0 <= #[trigger] p[i] < k + 1 && out@[i] == orig[p[i]] by {
                if i < pos {
                } else if i == pos {
                } else {
                    assert(p[i] == old_p[i - 1]);
                    assert(out@[i] == old_out[i - 1]);
                }
            }
            assert forall|i: int, j: int| 0 <= i < j < k + 1 implies comes_before(orig, #[trigger] p[i], #[trigger] p[j]) by {
                if j < pos {
                } else if j == pos {
                    assert(old_out[i].modified >= e.modified);
                } else if i < pos {
                    assert(p[j] == old_p[j - 1]);
                } else if i == pos {
                    assert(p[j] == old_p[j - 1]);
                    assert(old_out[j - 1].modified < e.modified);
                } else {
                    assert(p[i] == old_p[i - 1]);
                    assert(p[j] == old_p[j - 1]);
                }
            }
        }
        k = k + 1;
    }
    assert(arranged_newest_first(orig, out@, p));
    out
}

} // verus!
