//! File-system paths handled as strings: joining, splitting into components,
//! and the file name, stem and extension of a path, with the meaning that
//! `std::path::Path` gives them for `/`-separated paths.
use vstd::prelude::*;
use crate::text::{chars_of, matches_at, owned, push_char, push_str, slice_chars};

verus! {

/// The pieces of `s` between occurrences of `sep` (what `str::split` gives),
/// always at least one piece.
pub open spec fn split_on(s: Seq<char>, sep: char) -> Seq<Seq<char>>
    decreases s.len(),
{
    if s.len() == 0 {
        seq![seq![]]
    } else {
        let init = split_on(s.drop_last(), sep);
        if s.last() == sep {
            init.push(seq![])
        } else {
            init.update(init.len() - 1, init.last().push(s.last()))
        }
    }
}

pub proof fn lemma_split_on_nonempty(s: Seq<char>, sep: char)
    ensures
        split_on(s, sep).len() >= 1,
    decreases s.len(),
{
    if s.len() > 0 {
        lemma_split_on_nonempty(s.drop_last(), sep);
    }
}

/// Splits a character vector on a separator.
pub fn split_chars(s: &Vec<char>, sep: char) -> (r: Vec<Vec<char>>)
    ensures
        r@.len() == split_on(s@, sep).len(),
        forall|k: int| 0 <= k < r@.len() ==> #[trigger] r@[k]@ == split_on(s@, sep)[k],
{
    let mut parts: Vec<Vec<char>> = Vec::new();
    parts.push(Vec::new());
    let mut i: usize = 0;
    proof {
        assert(s@.take(0) =~= Seq::<char>::empty());
    }
    while i < s.len()
        invariant
            i <= s.len(),
            parts@.len() == split_on(s@.take(i as int), sep).len(),
            parts@.len() >= 1,
            forall|k: int| 0 <= k < parts@.len() ==> #[trigger] parts@[k]@ == split_on(s@.take(i as int), sep)[k],
        decreases s.len() - i,
    {
        let ghost prev = split_on(s@.take(i as int), sep);
        proof {
            assert(s@.take(i + 1).drop_last() =~= s@.take(i as int));
            assert(s@.take(i + 1).last() == s@[i as int]);
        }
        if s[i] == sep {
            parts.push(Vec::new());
        } else {
            let last = parts.len() - 1;
            let mut piece = parts.pop().unwrap();
            piece.push(s[i]);
            parts.push(piece);
            proof {
                assert(parts@[last as int]@ == prev.last().push(s@[i as int]));
            }
        }
        i = i + 1;
    }
    proof {
        assert(s@.take(s.len() as int) =~= s@);
    }
    parts
}

/// Whether a path is absolute (starts at the root).
pub open spec fn is_absolute(p: Seq<char>) -> bool {
    p.len() > 0 && p[0] == '/'
}

/// The normal components of a path: its `/`-separated pieces without empty
/// pieces and without `.` pieces.
pub open spec fn components(p: Seq<char>) -> Seq<Seq<char>> {
    keep_components(split_on(p, '/'))
}

/// The pieces that are neither empty nor `.`.
pub open spec fn keep_components(pieces: Seq<Seq<char>>) -> Seq<Seq<char>>
    decreases pieces.len(),
{
    if pieces.len() == 0 {
        seq![]
    } else {
        let init = keep_components(pieces.drop_last());
        let last = pieces.last();
        if last.len() == 0 || last == seq!['.'] {
            init
        } else {
            init.push(last)
        }
    }
}

/// `base` is a leading part of `p`, component by component
/// (what `Path::starts_with` answers).
pub open spec fn path_starts_with(p: Seq<char>, base: Seq<char>) -> bool {
    let pc = components(p);
    let bc = components(base);
    &&& is_absolute(p) == is_absolute(base)
    &&& bc.len() <= pc.len()
    &&& pc.subrange(0, bc.len() as int) == bc
}

/// The last normal component of a path, unless it is `..` or there is none
/// (what `Path::file_name` gives).
pub open spec fn file_name(p: Seq<char>) -> Option<Seq<char>> {
    let c = components(p);
    if c.len() == 0 || c.last() == seq!['.', '.'] {
        None
    } else {
        Some(c.last())
    }
}

/// The name split at its last dot: the part before it, unless that part is
/// empty (a name such as `.bashrc` has no extension).
pub open spec fn last_dot(name: Seq<char>) -> Option<int> {
    if exists|i: int| 0 < i < name.len() && name[i] == '.' {
        Some(choose|i: int| 0 < i < name.len() && name[i] == '.' && forall|j: int| i < j < name.len() ==> name[j] != '.')
    } else {
        None
    }
}

/// The file stem of a path (what `Path::file_stem` gives).
pub open spec fn file_stem(p: Seq<char>) -> Option<Seq<char>> {
    match file_name(p) {
        None => None,
        Some(n) => match last_dot(n) {
            None => Some(n),
            Some(i) => Some(n.subrange(0, i)),
        },
    }
}

/// The extension of a path (what `Path::extension` gives).
pub open spec fn extension(p: Seq<char>) -> Option<Seq<char>> {
    match file_name(p) {
        None => None,
        Some(n) => match last_dot(n) {
            None => None,
            Some(i) => Some(n.subrange(i + 1, n.len() as int)),
        },
    }
}

/// `base` joined with `name` (what `Path::join` gives for a relative name):
/// an absolute `name` replaces `base`, and a separator is put between them
/// unless `base` is empty or already ends with one.
pub open spec fn join(base: Seq<char>, name: Seq<char>) -> Seq<char> {
    if is_absolute(name) {
        name
    } else if base.len() == 0 {
        name
    } else if base.last() == '/' {
        base + name
    } else {
        base + seq!['/'] + name
    }
}

/// Joins a path and a name.
pub fn path_join(base: &str, name: &str) -> (r: String)
    ensures
        r@ == join(base@, name@),
{
    let bv = chars_of(base);
    let nv = chars_of(name);
    if nv.len() > 0 && nv[0] == '/' {
        return owned(name);
    }
    if bv.len() == 0 {
        return owned(name);
    }
    let mut s = owned(base);
    if bv[bv.len() - 1] != '/' {
        push_char(&mut s, '/');
    }
    push_str(&mut s, name);
    s
}

fn keep_pieces(pieces: &Vec<Vec<char>>) -> (r: Vec<Vec<char>>)
    ensures
        r@.len() == keep_components(pieces@.map_values(|v: Vec<char>| v@)).len(),
        forall|k: int| 0 <= k < r@.len() ==> #[trigger] r@[k]@ == keep_components(pieces@.map_values(|v: Vec<char>| v@))[k],
{
    let ghost all = pieces@.map_values(|v: Vec<char>| v@);
    let mut out: Vec<Vec<char>> = Vec::new();
    let mut i: usize = 0;
    while i < pieces.len()
        invariant
            i <= pieces.len(),
            all == pieces@.map_values(|v: Vec<char>| v@),
            out@.len() == keep_components(all.take(i as int)).len(),
            forall|k: int| 0 <= k < out@.len() ==> #[trigger] out@[k]@ == keep_components(all.take(i as int))[k],
        decreases pieces.len() - i,
    {
        proof {
            assert(all.take(i + 1).drop_last() =~= all.take(i as int));
            assert(all.take(i + 1).last() == pieces@[i as int]@);
        }
        let p = &pieces[i];
        let is_dot = p.len() == 1 && p[0] == '.';
        proof {
            if p@.len() == 1 {
                assert(is_dot == (p@ =~= seq!['.']));
            }
        }
        if p.len() != 0 && !is_dot {
            out.push(p.clone());
        }
        i = i + 1;
    }
    proof {
        assert(all.take(pieces@.len() as int) =~= all);
    }
    out
}

/// The normal components of a path.
pub fn path_components(p: &Vec<char>) -> (r: Vec<Vec<char>>)
    ensures
        r@.len() == components(p@).len(),
        forall|k: int| 0 <= k < r@.len() ==> #[trigger] r@[k]@ == components(p@)[k],
{
    let pieces = split_chars(p, '/');
    proof {
        assert(pieces@.map_values(|v: Vec<char>| v@) =~= split_on(p@, '/'));
    }
    keep_pieces(&pieces)
}

/// Whether `p` starts with `base`, component by component.
pub fn path_has_base(p: &str, base: &str) -> (r: bool)
    ensures
        r == path_starts_with(p@, base@),
{
    let pv = chars_of(p);
    let bv = chars_of(base);
    let pc = path_components(&pv);
    let bc = path_components(&bv);
    let p_abs = pv.len() > 0 && pv[0] == '/';
    let b_abs = bv.len() > 0 && bv[0] == '/';
    if p_abs != b_abs || bc.len() > pc.len() {
        return false;
    }
    let mut k: usize = 0;
    while k < bc.len()
        invariant
            pv@ == p@,
            bv@ == base@,
            is_absolute(p@) == is_absolute(base@),
            k <= bc.len() <= pc.len(),
            pc@.len() == components(pv@).len(),
            bc@.len() == components(bv@).len(),
            forall|m: int| 0 <= m < pc@.len() ==> #[trigger] pc@[m]@ == components(pv@)[m],
            forall|m: int| 0 <= m < bc@.len() ==> #[trigger] bc@[m]@ == components(bv@)[m],
            forall|m: int| 0 <= m < k ==> components(pv@)[m] == components(bv@)[m],
        decreases bc.len() - k,
    {
        let a = &pc[k];
        let b = &bc[k];
        let same = a.len() == b.len() && matches_at(a, b, 0);
        proof {
            if a@.len() == b@.len() {
                assert(a@.subrange(0, b@.len() as int) =~= a@);
            }
        }
        if !same {
            proof {
                assert(a@ != b@);
                assert(pc@[k as int]@ == components(pv@)[k as int]);
                assert(bc@[k as int]@ == components(bv@)[k as int]);
                let sub = components(pv@).subrange(0, components(bv@).len() as int);
                assert(sub[k as int] == components(pv@)[k as int]);
                assert(sub != components(bv@));
            }
            return false;
        }
        k = k + 1;
    }
    proof {
        assert(components(pv@).subrange(0, components(bv@).len() as int) =~= components(bv@));
    }
    true
}

/// The file name of a path.
pub fn path_file_name(p: &str) -> (r: Option<Vec<char>>)
    ensures
        match r {
            Some(v) => file_name(p@) == Some(v@),
            None => file_name(p@) is None,
        },
{
    let pv = chars_of(p);
    let pc = path_components(&pv);
    if pc.len() == 0 {
        return None;
    }
    let last = &pc[pc.len() - 1];
    let is_dotdot = last.len() == 2 && last[0] == '.' && last[1] == '.';
    proof {
        if last@.len() == 2 {
            assert(is_dotdot == (last@ =~= seq!['.', '.']));
        }
    }
    if is_dotdot {
        None
    } else {
        Some(last.clone())
    }
}

/// Finds the last dot of a name that is not its first character.
fn find_last_dot(name: &Vec<char>) -> (r: Option<usize>)
    ensures
        match r {
            Some(i) => last_dot(name@) == Some(i as int) && 0 < i < name@.len(),
            None => last_dot(name@) is None,
        },
{
    let mut i: usize = name.len();
    while i > 1
        invariant
            i <= name.len(),
            forall|j: int| i <= j < name.len() ==> name@[j] != '.',
        decreases i,
    {
        if name[i - 1] == '.' {
            let k = i - 1;
            proof {
                let w = choose|x: int| 0 < x < name@.len() && name@[x] == '.' && forall|j: int| x < j < name@.len() ==> name@[j] != '.';
                assert(0 < k < name@.len() && name@[k as int] == '.' && forall|j: int| k < j < name@.len() ==> name@[j] != '.');
                if w < k {
                    assert(name@[k as int] != '.');
                } else if w > k {
                    assert(name@[w] != '.');
                }
            }
            return Some(k);
        }
        i = i - 1;
    }
    None
}

/// The file stem of a path.
pub fn path_file_stem(p: &str) -> (r: Option<Vec<char>>)
    ensures
        match r {
            Some(v) => file_stem(p@) == Some(v@),
            None => file_stem(p@) is None,
        },
{
    match path_file_name(p) {
        None => None,
        Some(n) => match find_last_dot(&n) {
            None => Some(n),
            Some(i) => Some(slice_chars(&n, 0, i)),
        },
    }
}

/// The extension of a path.
pub fn path_extension(p: &str) -> (r: Option<Vec<char>>)
    ensures
        match r {
            Some(v) => extension(p@) == Some(v@),
            None => extension(p@) is None,
        },
{
    match path_file_name(p) {
        None => None,
        Some(n) => match find_last_dot(&n) {
            None => None,
            Some(i) => Some(slice_chars(&n, i + 1, n.len())),
        },
    }
}


/// Two paths name the same place: both absolute or both relative, with the
/// same normal components (what `==` on paths answers).
pub open spec fn same_path(a: Seq<char>, b: Seq<char>) -> bool {
    is_absolute(a) == is_absolute(b) && components(a) == components(b)
}

/// See `same_path`.
pub fn paths_equal(a: &str, b: &str) -> (r: bool)
    ensures
        r == same_path(a@, b@),
{
    let r = path_has_base(a, b) && path_has_base(b, a);
    proof {
        let ca = components(a@);
        let cb = components(b@);
        if path_starts_with(a@, b@) && path_starts_with(b@, a@) {
            assert(ca.len() == cb.len());
            assert(ca =~= ca.subrange(0, cb.len() as int));
        }
        if same_path(a@, b@) {
            assert(ca.subrange(0, cb.len() as int) =~= cb);
            assert(cb.subrange(0, ca.len() as int) =~= ca);
        }
    }
    r
}

} // verus!
