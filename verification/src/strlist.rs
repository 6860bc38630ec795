//! Lists of text values (folders, files) that behave as ordered sets where
//! the library adds to them.
use vstd::prelude::*;
use crate::text::str_eq;

verus! {

/// The character sequences of a list of strings.
pub open spec fn views(v: Seq<String>) -> Seq<Seq<char>> {
    v.map_values(|s: String| s@)
}

/// `s` with every occurrence of `x` left out, order kept.
pub open spec fn without(s: Seq<Seq<char>>, x: Seq<char>) -> Seq<Seq<char>>
    decreases s.len(),
{
    if s.len() == 0 {
        seq![]
    } else if s.last() == x {
        without(s.drop_last(), x)
    } else {
        without(s.drop_last(), x).push(s.last())
    }
}

/// `s` with `x` appended unless it is already there.
pub open spec fn push_absent(s: Seq<Seq<char>>, x: Seq<char>) -> Seq<Seq<char>> {
    if s.contains(x) { s } else { s.push(x) }
}

/// Pushing a string pushes its view.
pub proof fn lemma_views_push(v: Seq<String>, x: String)
    ensures
        views(v.push(x)) == views(v).push(x@),
{
    assert(views(v.push(x)) =~= views(v).push(x@));
}

/// A copy of a list.
pub fn copy_list(v: &Vec<String>) -> (r: Vec<String>)
    ensures
        r@ == v@,
{
    let mut r: Vec<String> = Vec::new();
    for i in 0..v.len()
        invariant
            r@ == v@.take(i as int),
    {
        r.push(v[i].clone());
        proof {
            assert(r@ =~= v@.take(i + 1));
        }
    }
    proof {
        assert(v@.take(v@.len() as int) =~= v@);
    }
    r
}

/// Whether the list holds `x`.
pub fn contains_str(v: &Vec<String>, x: &str) -> (b: bool)
    ensures
        b <==> views(v@).contains(x@),
{
    let mut i: usize = 0;
    while i < v.len()
        invariant
            i <= v.len(),
            forall|j: int| 0 <= j < i ==> v@[j]@ != x@,
        decreases v.len() - i,
    {
        if str_eq(v[i].as_str(), x) {
            proof {
                assert(views(v@)[i as int] == x@);
            }
            return true;
        }
        i = i + 1;
    }
    proof {
        assert forall|j: int| 0 <= j < views(v@).len() implies views(v@)[j] != x@ by {
            assert(views(v@)[j] == v@[j]@);
        }
    }
    false
}

/// Appends `x` unless the list already holds it; tells whether it was added.
pub fn push_unique(v: &mut Vec<String>, x: String) -> (added: bool)
    ensures
        views(final(v)@) == push_absent(views(old(v)@), x@),
        added <==> !views(old(v)@).contains(x@),
{
    if contains_str(v, x.as_str()) {
        false
    } else {
        let ghost before = v@;
        let ghost xs = x;
        v.push(x);
        proof {
            lemma_views_push(before, xs);
        }
        true
    }
}

/// Removes every occurrence of `x`, keeping the order of the rest.
pub fn remove_all(v: &mut Vec<String>, x: &str)
    ensures
        views(final(v)@) == without(views(old(v)@), x@),
{
    let mut out: Vec<String> = Vec::new();
    let ghost src = views(v@);
    proof {
        assert(src.take(0) =~= Seq::<Seq<char>>::empty());
    }
    for i in 0..v.len()
        invariant
            src == views(v@),
            views(out@) == without(src.take(i as int), x@),
    {
        proof {
            assert(src.take(i + 1).drop_last() =~= src.take(i as int));
            assert(src[i as int] == v@[i as int]@);
        }
        if !str_eq(v[i].as_str(), x) {
            let ghost before = out@;
            let item = v[i].clone();
            out.push(item);
            proof {
                lemma_views_push(before, item);
            }
        }
    }
    proof {
        assert(src.take(src.len() as int) =~= src);
    }
    *v = out;
}

/// `without` leaves no occurrence of what it removes, and keeps everything
/// else.
pub proof fn lemma_without(s: Seq<Seq<char>>, x: Seq<char>)
    ensures
        !without(s, x).contains(x),
        forall|y: Seq<char>| y != x ==> (#[trigger] without(s, x).contains(y) <==> s.contains(y)),
    decreases s.len(),
{
    if s.len() > 0 {
        lemma_without(s.drop_last(), x);
        let w = without(s.drop_last(), x);
        assert forall|y: Seq<char>| y != x implies (#[trigger] without(s, x).contains(y) <==> s.contains(y)) by {
            if s.contains(y) {
                let i = choose|i: int| 0 <= i < s.len() && s[i] == y;
                if i < s.len() - 1 {
                    assert(s.drop_last()[i] == y);
                    assert(s.drop_last().contains(y));
                    assert(w.contains(y));
                    let j = choose|j: int| 0 <= j < w.len() && w[j] == y;
                    if s.last() != x {
                        assert(w.push(s.last())[j] == y);
                    }
                } else if s.last() != x {
                    assert(w.push(s.last())[w.len() as int] == y);
                }
            }
            if without(s, x).contains(y) {
                let j = choose|j: int| 0 <= j < without(s, x).len() && without(s, x)[j] == y;
                if j < w.len() {
                    assert(w.contains(y));
                    let i = choose|i: int| 0 <= i < s.drop_last().len() && s.drop_last()[i] == y;
                    assert(s[i] == y);
                } else {
                    assert(s[s.len() - 1] == y);
                }
            }
        }
        if without(s, x).contains(x) {
            let j = choose|j: int| 0 <= j < without(s, x).len() && without(s, x)[j] == x;
            if j < w.len() {
                assert(w.contains(x));
            }
        }
    }
}

} // verus!
