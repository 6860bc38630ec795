//! Splitting text into lines the way `str::lines` does.
use vstd::prelude::*;
use crate::paths::{lemma_split_on_nonempty, split_chars, split_on};
use crate::text::{chars_of, slice_chars};

verus! {

/// A line without the carriage return that ended it.
pub open spec fn strip_cr(l: Seq<char>) -> Seq<char> {
    if l.len() > 0 && l.last() == '\r' {
        l.drop_last()
    } else {
        l
    }
}

/// The lines of a text: the pieces between `\n`, each without a `\r` right
/// before its `\n`; a final line ending is optional and an empty text has no
/// lines.
pub open spec fn lines(s: Seq<char>) -> Seq<Seq<char>> {
    let parts = split_on(s, '\n');
    let ended = parts.drop_last().map_values(|l: Seq<char>| strip_cr(l));
    if s.len() == 0 || s.last() == '\n' {
        ended
    } else {
        ended.push(parts.last())
    }
}

fn strip_cr_exec(l: &Vec<char>) -> (r: Vec<char>)
    ensures
        r@ == strip_cr(l@),
{
    if l.len() > 0 && l[l.len() - 1] == '\r' {
        slice_chars(l, 0, l.len() - 1)
    } else {
        slice_chars(l, 0, l.len())
    }
}

/// The lines of a character vector.
pub fn lines_of(s: &Vec<char>) -> (r: Vec<Vec<char>>)
    ensures
        r@.len() == lines(s@).len(),
        forall|k: int| 0 <= k < r@.len() ==> #[trigger] r@[k]@ == lines(s@)[k],
{
    let parts = split_chars(s, '\n');
    proof {
        lemma_split_on_nonempty(s@, '\n');
    }
    let ghost p = split_on(s@, '\n');
    let n = parts.len() - 1;
    let mut out: Vec<Vec<char>> = Vec::new();
    for k in 0..n
        invariant
            n == parts@.len() - 1,
            parts@.len() == p.len(),
            forall|j: int| 0 <= j < parts@.len() ==> #[trigger] parts@[j]@ == p[j],
            out@.len() == k,
            forall|j: int| 0 <= j < k ==> #[trigger] out@[j]@ == strip_cr(p[j]),
    {
        let l = strip_cr_exec(&parts[k]);
        out.push(l);
    }
    let ends = s.len() == 0 || s[s.len() - 1] == '\n';
    if !ends {
        let last = slice_chars(&parts[n], 0, parts[n].len());
        out.push(last);
    }
    proof {
        let ended = p.drop_last().map_values(|l: Seq<char>| strip_cr(l));
        assert forall|k: int| 0 <= k < out@.len() implies #[trigger] out@[k]@ == lines(s@)[k] by {
            if k < n {
                assert(ended[k] == strip_cr(p[k]));
            }
        }
    }
    out
}

/// The lines of a string.
pub fn str_lines(s: &str) -> (r: Vec<Vec<char>>)
    ensures
        r@.len() == lines(s@).len(),
        forall|k: int| 0 <= k < r@.len() ==> #[trigger] r@[k]@ == lines(s@)[k],
{
    let v = chars_of(s);
    lines_of(&v)
}

} // verus!
