//! Character-sequence helpers shared by the rest of the library: conversions
//! between `&str`, `String` and `Vec<char>`, decimal and hexadecimal rendering,
//! searching and simple rewriting of character sequences.
use vstd::prelude::*;

verus! {

// ---------------------------------------------------------------------------
// Conversions
// ---------------------------------------------------------------------------

/// Appends one character to a `String` (`String::push`).
#[verifier::external_body]
pub(crate) fn push_char(s: &mut String, c: char)
    ensures
        final(s)@ == old(s)@.push(c),
{
    s.push(c)
}

/// The characters of a string slice, in order.
pub fn chars_of(s: &str) -> (r: Vec<char>)
    ensures
        r@ == s@,
{
    let mut v: Vec<char> = Vec::new();
    for c in it: s.chars()
        invariant
            v@ == it.seq().take(it.index() as int),
            it.seq() == s@,
    {
        v.push(c);
    }
    v
}

/// The string made of the given characters.
pub fn string_of(v: &Vec<char>) -> (r: String)
    ensures
        r@ == v@,
{
    let mut s = String::new();
    for i in 0..v.len()
        invariant
            s@ == v@.take(i as int),
    {
        push_char(&mut s, v[i]);
    }
    s
}

/// Appends the characters of `v` to `s`.
pub fn push_chars(s: &mut String, v: &Vec<char>)
    ensures
        final(s)@ == old(s)@ + v@,
{
    let ghost start = s@;
    for i in 0..v.len()
        invariant
            s@ == start + v@.take(i as int),
    {
        push_char(s, v[i]);
        proof {
            assert(v@.take(i + 1) == v@.take(i as int).push(v@[i as int]));
        }
    }
    proof {
        assert(v@.take(v@.len() as int) == v@);
    }
}

/// Appends a string slice to `s`.
pub fn push_str(s: &mut String, t: &str)
    ensures
        final(s)@ == old(s)@ + t@,
{
    s.append(t);
}

/// Concatenation of two string slices as a new `String`.
pub fn concat2(a: &str, b: &str) -> (r: String)
    ensures
        r@ == a@ + b@,
{
    let mut s = String::from_str(a);
    s.append(b);
    s
}

/// Concatenation of three string slices as a new `String`.
pub fn concat3(a: &str, b: &str, c: &str) -> (r: String)
    ensures
        r@ == a@ + b@ + c@,
{
    let mut s = String::from_str(a);
    s.append(b);
    s.append(c);
    s
}

/// An owned copy of a string slice.
pub fn owned(a: &str) -> (r: String)
    ensures
        r@ == a@,
{
    String::from_str(a)
}

// ---------------------------------------------------------------------------
// Decimal rendering
// ---------------------------------------------------------------------------

/// The character of a decimal digit.
pub open spec fn digit_char(d: nat) -> char {
    seq!['0', '1', '2', '3', '4', '5', '6', '7', '8', '9'][d as int]
}

/// The decimal rendering of a natural number, without leading zeros
/// (`0` renders as `"0"`).
pub open spec fn decimal(n: nat) -> Seq<char>
    decreases n,
{
    if n < 10 {
        seq![digit_char(n)]
    } else {
        decimal(n / 10).push(digit_char(n % 10))
    }
}

fn digit_to_char(d: u64) -> (c: char)
    requires
        d < 10,
    ensures
        c == digit_char(d as nat),
{
    if d == 0 { '0' }
    else if d == 1 { '1' }
    else if d == 2 { '2' }
    else if d == 3 { '3' }
    else if d == 4 { '4' }
    else if d == 5 { '5' }
    else if d == 6 { '6' }
    else if d == 7 { '7' }
    else if d == 8 { '8' }
    else { '9' }
}

/// Appends the decimal rendering of `n` to `s`.
pub fn push_decimal(s: &mut String, n: u64)
    ensures
        final(s)@ == old(s)@ + decimal(n as nat),
    decreases n,
{
    if n < 10 {
        push_char(s, digit_to_char(n));
    } else {
        push_decimal(s, n / 10);
        push_char(s, digit_to_char(n % 10));
    }
}

/// The decimal rendering of `n` as a new `String` (what `n.to_string()` gives).
pub fn decimal_string(n: u64) -> (r: String)
    ensures
        r@ == decimal(n as nat),
{
    let mut s = String::new();
    push_decimal(&mut s, n);
    s
}

// ---------------------------------------------------------------------------
// Sequence predicates
// ---------------------------------------------------------------------------

/// `p` is a prefix of `s`.
pub open spec fn has_prefix(s: Seq<char>, p: Seq<char>) -> bool {
    p.len() <= s.len() && s.subrange(0, p.len() as int) == p
}

/// `p` is a suffix of `s`.
pub open spec fn has_suffix(s: Seq<char>, p: Seq<char>) -> bool {
    p.len() <= s.len() && s.subrange(s.len() - p.len(), s.len() as int) == p
}

/// `t` occurs in `s` starting at index `i`.
pub open spec fn occurs_at(s: Seq<char>, t: Seq<char>, i: int) -> bool {
    0 <= i && i + t.len() <= s.len() && s.subrange(i, i + t.len()) == t
}

/// `t` occurs somewhere in `s`.
pub open spec fn contains_seq(s: Seq<char>, t: Seq<char>) -> bool {
    exists|i: int| occurs_at(s, t, i)
}

/// Exec check that `t` occurs in `s` at index `i`.
pub fn matches_at(s: &Vec<char>, t: &Vec<char>, i: usize) -> (r: bool)
    ensures
        r == occurs_at(s@, t@, i as int),
{
    if i > s.len() || t.len() > s.len() - i {
        return false;
    }
    let mut k: usize = 0;
    while k < t.len()
        invariant
            i + t.len() <= s.len(),
            k <= t.len(),
            forall|j: int| 0 <= j < k ==> s@[i + j] == t@[j],
        decreases t.len() - k,
    {
        if s[i + k] != t[k] {
            proof {
                assert(s@.subrange(i as int, i + t@.len())[k as int] != t@[k as int]);
            }
            return false;
        }
        k = k + 1;
    }
    proof {
        assert(s@.subrange(i as int, i + t@.len()) =~= t@);
    }
    true
}

/// Whether `s` starts with `p`.
pub fn starts_with(s: &Vec<char>, p: &Vec<char>) -> (r: bool)
    ensures
        r == has_prefix(s@, p@),
{
    matches_at(s, p, 0)
}

/// Whether `s` ends with `p`.
pub fn ends_with(s: &Vec<char>, p: &Vec<char>) -> (r: bool)
    ensures
        r == has_suffix(s@, p@),
{
    if p.len() > s.len() {
        false
    } else {
        matches_at(s, p, s.len() - p.len())
    }
}

/// Index of the first occurrence of `t` in `s` at or after `from`.
pub open spec fn first_occurrence_from(s: Seq<char>, t: Seq<char>, from: int, i: int) -> bool {
    &&& from <= i
    &&& occurs_at(s, t, i)
    &&& forall|j: int| from <= j < i ==> !occurs_at(s, t, j)
}

/// Finds the first occurrence of `t` in `s` at or after `from`.
pub fn find_from(s: &Vec<char>, t: &Vec<char>, from: usize) -> (r: Option<usize>)
    ensures
        match r {
            Some(i) => first_occurrence_from(s@, t@, from as int, i as int),
            None => forall|j: int| from <= j ==> !occurs_at(s@, t@, j),
        },
{
    if from > s.len() || t.len() > s.len() {
        return None;
    }
    let mut i = from;
    let last = s.len() - t.len();
    if i > last {
        return None;
    }
    loop
        invariant
            from <= i <= last,
            last == s.len() - t.len(),
            t.len() <= s.len(),
            forall|j: int| from <= j < i ==> !occurs_at(s@, t@, j),
        decreases last - i,
    {
        if matches_at(s, t, i) {
            return Some(i);
        }
        if i == last {
            return None;
        }
        i = i + 1;
    }
}

/// Whether `t` occurs in `s`.
pub fn contains(s: &Vec<char>, t: &Vec<char>) -> (r: bool)
    ensures
        r == contains_seq(s@, t@),
{
    match find_from(s, t, 0) {
        Some(i) => true,
        None => {
            assert forall|j: int| !occurs_at(s@, t@, j) by {
                if j < 0 {
                }
            }
            false
        },
    }
}

/// Whether the string slice `s` contains the string slice `t`.
pub fn str_contains(s: &str, t: &str) -> (r: bool)
    ensures
        r == contains_seq(s@, t@),
{
    let sv = chars_of(s);
    let tv = chars_of(t);
    contains(&sv, &tv)
}

/// Whether the string slice `s` starts with `p`.
pub fn str_starts_with(s: &str, p: &str) -> (r: bool)
    ensures
        r == has_prefix(s@, p@),
{
    let sv = chars_of(s);
    let pv = chars_of(p);
    starts_with(&sv, &pv)
}

/// Whether the string slice `s` ends with `p`.
pub fn str_ends_with(s: &str, p: &str) -> (r: bool)
    ensures
        r == has_suffix(s@, p@),
{
    let sv = chars_of(s);
    let pv = chars_of(p);
    ends_with(&sv, &pv)
}

/// Equality of two string slices by their characters.
pub fn str_eq(a: &str, b: &str) -> (r: bool)
    ensures
        r == (a@ == b@),
{
    let av = chars_of(a);
    let bv = chars_of(b);
    if av.len() != bv.len() {
        return false;
    }
    let r = matches_at(&av, &bv, 0);
    proof {
        assert(av@.subrange(0, bv@.len() as int) =~= av@);
    }
    r
}

/// A sub-sequence of a character vector as a new vector.
pub fn slice_chars(s: &Vec<char>, start: usize, end: usize) -> (r: Vec<char>)
    requires
        start <= end <= s.len(),
    ensures
        r@ == s@.subrange(start as int, end as int),
{
    let mut v: Vec<char> = Vec::new();
    let mut i = start;
    while i < end
        invariant
            start <= i <= end,
            end <= s.len(),
            v@ == s@.subrange(start as int, i as int),
        decreases end - i,
    {
        v.push(s[i]);
        i = i + 1;
    }
    v
}

} // verus!

verus! {

// ---------------------------------------------------------------------------
// Rewriting
// ---------------------------------------------------------------------------

/// An occurrence at `i` is a prefix of the suffix that starts at `i`.
pub proof fn lemma_occurs_at_skip(s: Seq<char>, t: Seq<char>, i: int)
    requires
        0 <= i <= s.len(),
    ensures
        occurs_at(s, t, i) == has_prefix(s.skip(i), t),
{
    if i + t.len() <= s.len() {
        assert(s.skip(i).subrange(0, t.len() as int) =~= s.subrange(i, i + t.len()));
    }
}

/// Left-to-right replacement of every non-overlapping occurrence of `from`
/// by `to` (what `str::replace` does); `s` itself when `from` is empty.
pub open spec fn replace_all(s: Seq<char>, from: Seq<char>, to: Seq<char>) -> Seq<char>
    decreases s.len(),
{
    if s.len() == 0 {
        seq![]
    } else if from.len() > 0 && has_prefix(s, from) {
        to + replace_all(s.skip(from.len() as int), from, to)
    } else {
        seq![s[0]] + replace_all(s.skip(1), from, to)
    }
}

/// Replaces every occurrence of `from` in `s` by `to`.
pub fn replace_chars(s: &Vec<char>, from: &Vec<char>, to: &Vec<char>) -> (r: Vec<char>)
    ensures
        r@ == replace_all(s@, from@, to@),
{
    let mut out: Vec<char> = Vec::new();
    let mut i: usize = 0;
    proof {
        assert(s@.skip(0) =~= s@);
    }
    while i < s.len()
        invariant
            i <= s.len(),
            out@ + replace_all(s@.skip(i as int), from@, to@) == replace_all(s@, from@, to@),
        decreases s.len() - i,
    {
        let ghost rest = s@.skip(i as int);
        proof {
            lemma_occurs_at_skip(s@, from@, i as int);
        }
        if from.len() > 0 && matches_at(s, from, i) {
            proof {
                assert(rest.skip(from@.len() as int) =~= s@.skip(i + from@.len()));
                assert(out@ + to@ + replace_all(s@.skip(i + from@.len()), from@, to@)
                    =~= out@ + (to@ + replace_all(rest.skip(from@.len() as int), from@, to@)));
            }
            let mut k: usize = 0;
            let ghost before = out@;
            while k < to.len()
                invariant
                    k <= to.len(),
                    out@ == before + to@.take(k as int),
                decreases to.len() - k,
            {
                out.push(to[k]);
                k = k + 1;
                proof {
                    assert(to@.take(k as int) =~= to@.take(k - 1).push(to@[k - 1]));
                }
            }
            proof {
                assert(to@.take(to@.len() as int) =~= to@);
            }
            i = i + from.len();
        } else {
            proof {
                assert(rest.skip(1) =~= s@.skip(i + 1));
                assert(rest[0] == s@[i as int]);
                assert(out@.push(s@[i as int]) + replace_all(s@.skip(i + 1), from@, to@)
                    =~= out@ + (seq![rest[0]] + replace_all(rest.skip(1), from@, to@)));
            }
            out.push(s[i]);
            i = i + 1;
        }
    }
    proof {
        assert(s@.skip(i as int).len() == 0);
        assert(out@ + seq![] =~= out@);
    }
    out
}

/// Replaces every occurrence of `from` by `to` in a string slice.
pub fn str_replace(s: &str, from: &str, to: &str) -> (r: String)
    ensures
        r@ == replace_all(s@, from@, to@),
{
    let sv = chars_of(s);
    let fv = chars_of(from);
    let tv = chars_of(to);
    let rv = replace_chars(&sv, &fv, &tv);
    string_of(&rv)
}

// ---------------------------------------------------------------------------
// Trimming
// ---------------------------------------------------------------------------

/// `s` without its leading whitespace.
pub open spec fn trim_start(s: Seq<char>) -> Seq<char>
    decreases s.len(),
{
    if s.len() > 0 && crate::unicode::is_unicode_whitespace(s[0]) {
        trim_start(s.drop_first())
    } else {
        s
    }
}

/// `s` without its trailing whitespace.
pub open spec fn trim_end(s: Seq<char>) -> Seq<char>
    decreases s.len(),
{
    if s.len() > 0 && crate::unicode::is_unicode_whitespace(s.last()) {
        trim_end(s.drop_last())
    } else {
        s
    }
}

/// `s` without leading and trailing whitespace (what `str::trim` gives).
pub open spec fn trim(s: Seq<char>) -> Seq<char> {
    trim_end(trim_start(s))
}

/// The index of the first non-whitespace character (or the length).
fn trim_start_index(s: &Vec<char>) -> (i: usize)
    ensures
        i <= s.len(),
        trim_start(s@) == s@.skip(i as int),
{
    let mut i: usize = 0;
    proof {
        assert(s@.skip(0) =~= s@);
    }
    while i < s.len() && crate::unicode::char_is_whitespace(s[i])
        invariant
            i <= s.len(),
            trim_start(s@) == trim_start(s@.skip(i as int)),
        decreases s.len() - i,
    {
        proof {
            assert(s@.skip(i as int).drop_first() =~= s@.skip(i + 1));
        }
        i = i + 1;
    }
    i
}

/// The index one past the last non-whitespace character at or after `lo`.
fn trim_end_index(s: &Vec<char>, lo: usize) -> (j: usize)
    requires
        lo <= s.len(),
    ensures
        lo <= j <= s.len(),
        trim_end(s@.subrange(lo as int, s.len() as int)) == s@.subrange(lo as int, j as int),
{
    let mut j: usize = s.len();
    while j > lo && crate::unicode::char_is_whitespace(s[j - 1])
        invariant
            lo <= j <= s.len(),
            trim_end(s@.subrange(lo as int, s.len() as int)) == trim_end(s@.subrange(lo as int, j as int)),
        decreases j - lo,
    {
        proof {
            assert(s@.subrange(lo as int, j as int).drop_last() =~= s@.subrange(lo as int, j - 1));
        }
        j = j - 1;
    }
    j
}

/// Trims leading and trailing whitespace of a character vector.
pub fn trim_chars(s: &Vec<char>) -> (r: Vec<char>)
    ensures
        r@ == trim(s@),
{
    let i = trim_start_index(s);
    let j = trim_end_index(s, i);
    proof {
        assert(s@.skip(i as int) =~= s@.subrange(i as int, s.len() as int));
    }
    slice_chars(s, i, j)
}

/// Trims leading and trailing whitespace of a string slice.
pub fn str_trim(s: &str) -> (r: String)
    ensures
        r@ == trim(s@),
{
    let v = chars_of(s);
    let t = trim_chars(&v);
    string_of(&t)
}

} // verus!

verus! {

// ---------------------------------------------------------------------------
// UTF-8 byte lengths
// ---------------------------------------------------------------------------

/// The number of bytes of the UTF-8 encoding of one character.
pub open spec fn utf8_width(c: char) -> nat {
    let u = c as u32;
    if u < 0x80 {
        1
    } else if u < 0x800 {
        2
    } else if u < 0x10000 {
        3
    } else {
        4
    }
}

/// The number of bytes of the UTF-8 encoding of a character sequence
/// (what `str::len` gives).
pub open spec fn utf8_len(s: Seq<char>) -> nat
    decreases s.len(),
{
    if s.len() == 0 {
        0
    } else {
        utf8_len(s.drop_last()) + utf8_width(s.last())
    }
}

fn char_utf8_width(c: char) -> (w: usize)
    ensures
        w == utf8_width(c),
{
    let u = c as u32;
    if u < 0x80 {
        1
    } else if u < 0x800 {
        2
    } else if u < 0x10000 {
        3
    } else {
        4
    }
}

/// The UTF-8 length of a prefix grows with the prefix.
pub proof fn lemma_utf8_len_mono(s: Seq<char>, i: int, j: int)
    requires
        0 <= i <= j <= s.len(),
    ensures
        utf8_len(s.take(i)) + (j - i) <= utf8_len(s.take(j)),
    decreases j - i,
{
    if i < j {
        lemma_utf8_len_mono(s, i, j - 1);
        assert(s.take(j).drop_last() =~= s.take(j - 1));
    }
}

/// The number of characters of the prefix of `s` whose encoding is exactly
/// `n` bytes long, when there is such a prefix (`n` falls on a character
/// boundary).
pub open spec fn chars_for_bytes(s: Seq<char>, n: nat) -> Option<int> {
    if exists|k: int| 0 <= k <= s.len() && utf8_len(s.take(k)) == n {
        Some(choose|k: int| 0 <= k <= s.len() && utf8_len(s.take(k)) == n)
    } else {
        None
    }
}

/// The byte length of the UTF-8 encoding of `s`, saturating at `usize::MAX`.
pub fn utf8_length(s: &Vec<char>) -> (n: usize)
    ensures
        n == if utf8_len(s@) <= usize::MAX { utf8_len(s@) } else { usize::MAX as nat },
{
    let mut n: usize = 0;
    let mut i: usize = 0;
    proof {
        assert(s@.take(0) =~= Seq::<char>::empty());
    }
    while i < s.len()
        invariant
            i <= s.len(),
            n == if utf8_len(s@.take(i as int)) <= usize::MAX { utf8_len(s@.take(i as int)) } else { usize::MAX as nat },
        decreases s.len() - i,
    {
        proof {
            assert(s@.take(i + 1).drop_last() =~= s@.take(i as int));
        }
        let w = char_utf8_width(s[i]);
        if n > usize::MAX - w {
            n = usize::MAX;
        } else {
            n = n + w;
        }
        i = i + 1;
    }
    proof {
        assert(s@.take(s.len() as int) =~= s@);
    }
    n
}

/// Finds how many characters make up the first `n` bytes of `s`.
pub fn prefix_chars_for_bytes(s: &Vec<char>, n: usize) -> (r: Option<usize>)
    ensures
        match r {
            Some(k) => chars_for_bytes(s@, n as nat) == Some(k as int) && k <= s@.len(),
            None => chars_for_bytes(s@, n as nat) is None,
        },
{
    let mut acc: usize = 0;
    let mut i: usize = 0;
    proof {
        assert(s@.take(0) =~= Seq::<char>::empty());
    }
    while i < s.len() && acc < n
        invariant
            i <= s.len(),
            acc == utf8_len(s@.take(i as int)),
            acc <= n || i == 0,
            forall|k: int| 0 <= k < i ==> utf8_len(s@.take(k)) < n,
        decreases s.len() - i,
    {
        proof {
            assert(s@.take(i + 1).drop_last() =~= s@.take(i as int));
        }
        let w = char_utf8_width(s[i]);
        if w > n - acc {
            proof {
                assert forall|k: int| 0 <= k <= s.len() implies utf8_len(s@.take(k)) != n by {
                    if k <= i {
                        if k < i {
                        }
                    } else {
                        lemma_utf8_len_mono(s@, i + 1, k);
                    }
                }
            }
            return None;
        }
        acc = acc + w;
        i = i + 1;
    }
    if acc == n {
        proof {
            let c = choose|k: int| 0 <= k <= s@.len() && utf8_len(s@.take(k)) == n;
            if c < i {
            } else if c > i {
                lemma_utf8_len_mono(s@, i as int, c);
            }
        }
        Some(i)
    } else {
        proof {
            assert forall|k: int| 0 <= k <= s.len() implies utf8_len(s@.take(k)) != n by {
                if k > i {
                    lemma_utf8_len_mono(s@, i as int, k);
                }
            }
        }
        None
    }
}

} // verus!

verus! {

// ---------------------------------------------------------------------------
// Searching within a window
// ---------------------------------------------------------------------------

/// The first index `i >= from` at which `t` occurs in `s` and ends no later
/// than `hi`.
pub open spec fn find_in(s: Seq<char>, t: Seq<char>, from: int, hi: int) -> Option<int>
    decreases hi + 1 - from,
{
    if from < 0 || from + t.len() > hi || hi > s.len() {
        None
    } else if occurs_at(s, t, from) {
        Some(from)
    } else {
        find_in(s, t, from + 1, hi)
    }
}

/// What a search result tells.
pub proof fn lemma_find_in(s: Seq<char>, t: Seq<char>, from: int, hi: int)
    ensures
        match find_in(s, t, from, hi) {
            Some(i) => from <= i && i + t.len() <= hi && hi <= s.len() && occurs_at(s, t, i),
            None => true,
        },
    decreases hi + 1 - from,
{
    if from < 0 || from + t.len() > hi || hi > s.len() {
    } else if occurs_at(s, t, from) {
    } else {
        lemma_find_in(s, t, from + 1, hi);
    }
}

/// Finds the first occurrence of `t` in `s` at or after `from` that ends no
/// later than `hi`.
pub fn find_in_range(s: &Vec<char>, t: &Vec<char>, from: usize, hi: usize) -> (r: Option<usize>)
    ensures
        match r {
            Some(i) => find_in(s@, t@, from as int, hi as int) == Some(i as int),
            None => find_in(s@, t@, from as int, hi as int) is None,
        },
{
    if hi > s.len() || t.len() > hi || from > hi - t.len() {
        return None;
    }
    let last = hi - t.len();
    let mut i = from;
    loop
        invariant
            from <= i <= last,
            last + t.len() == hi,
            hi <= s.len(),
            find_in(s@, t@, from as int, hi as int) == find_in(s@, t@, i as int, hi as int),
        decreases last - i,
    {
        if matches_at(s, t, i) {
            return Some(i);
        }
        if i == last {
            proof {
                assert(find_in(s@, t@, i + 1, hi as int) is None);
            }
            return None;
        }
        i = i + 1;
    }
}

/// The last index `i` at which `t` occurs in `s` and ends no later than `end`.
pub open spec fn rfind_in(s: Seq<char>, t: Seq<char>, end: int) -> Option<int>
    decreases end + 1,
{
    if end < t.len() || end > s.len() {
        None
    } else if occurs_at(s, t, end - t.len()) {
        Some(end - t.len())
    } else {
        rfind_in(s, t, end - 1)
    }
}

/// What a backward search result tells.
pub proof fn lemma_rfind_in(s: Seq<char>, t: Seq<char>, end: int)
    ensures
        match rfind_in(s, t, end) {
            Some(i) => 0 <= i && i + t.len() <= end && end <= s.len() && occurs_at(s, t, i),
            None => true,
        },
    decreases end + 1,
{
    if end < t.len() || end > s.len() {
    } else if occurs_at(s, t, end - t.len()) {
    } else {
        lemma_rfind_in(s, t, end - 1);
    }
}

/// Finds the last occurrence of `t` in `s` that ends no later than `end`.
pub fn rfind_before(s: &Vec<char>, t: &Vec<char>, end: usize) -> (r: Option<usize>)
    ensures
        match r {
            Some(i) => rfind_in(s@, t@, end as int) == Some(i as int),
            None => rfind_in(s@, t@, end as int) is None,
        },
{
    if end > s.len() || end < t.len() {
        return None;
    }
    let mut e = end;
    loop
        invariant
            t.len() <= e <= end <= s.len(),
            rfind_in(s@, t@, end as int) == rfind_in(s@, t@, e as int),
        decreases e,
    {
        if matches_at(s, t, e - t.len()) {
            return Some(e - t.len());
        }
        if e == t.len() {
            proof {
                assert(rfind_in(s@, t@, e - 1) is None);
            }
            return None;
        }
        e = e - 1;
    }
}

} // verus!

verus! {

// ---------------------------------------------------------------------------
// Decimal parsing
// ---------------------------------------------------------------------------

/// The value of a sequence of decimal digits.
pub open spec fn digits_value(s: Seq<char>) -> nat
    decreases s.len(),
{
    if s.len() == 0 {
        0
    } else {
        digits_value(s.drop_last()) * 10 + ((s.last() as u32) - ('0' as u32)) as nat
    }
}

/// The part of a number after an optional leading `+`.
pub open spec fn unsigned_digits(s: Seq<char>) -> Seq<char> {
    if s.len() > 0 && s[0] == '+' { s.skip(1) } else { s }
}

/// Every character is an ASCII digit.
pub open spec fn all_ascii_digits(d: Seq<char>) -> bool {
    forall|i: int| 0 <= i < d.len() ==> crate::unicode::is_ascii_digit(#[trigger] d[i])
}

/// What `str::parse::<u32>` accepts: an optional `+`, then one or more ASCII
/// digits whose value fits in a `u32`.
pub open spec fn parse_u32_spec(s: Seq<char>) -> Option<u32> {
    let d = unsigned_digits(s);
    if d.len() > 0 && all_ascii_digits(d) && digits_value(d) <= u32::MAX {
        Some(digits_value(d) as u32)
    } else {
        None
    }
}

/// Parses a decimal `u32` the way `str::parse::<u32>` does.
pub fn parse_u32(s: &Vec<char>) -> (r: Option<u32>)
    ensures
        r == parse_u32_spec(s@),
{
    let start: usize = if s.len() > 0 && s[0] == '+' { 1 } else { 0 };
    let ghost d = unsigned_digits(s@);
    proof {
        assert(d =~= s@.subrange(start as int, s@.len() as int));
    }
    if start >= s.len() {
        return None;
    }
    let mut value: u64 = 0;
    let mut i = start;
    proof {
        assert(s@.subrange(start as int, start as int) =~= Seq::<char>::empty());
    }
    while i < s.len()
        invariant
            start <= i <= s.len(),
            d == unsigned_digits(s@),
            d =~= s@.subrange(start as int, s@.len() as int),
            forall|k: int| start <= k < i ==> crate::unicode::is_ascii_digit(#[trigger] s@[k]),
            value == digits_value(s@.subrange(start as int, i as int)),
            value <= u32::MAX,
        decreases s.len() - i,
    {
        let c = s[i];
        if !crate::unicode::char_is_ascii_digit(c) {
            proof {
                assert(d[i - start] == c);
                assert(!crate::unicode::is_ascii_digit(d[i - start]));
                assert(!all_ascii_digits(d));
            }
            return None;
        }
        proof {
            assert(s@.subrange(start as int, i + 1).drop_last() =~= s@.subrange(start as int, i as int));
        }
        let dv = (c as u32 - '0' as u32) as u64;
        value = value * 10 + dv;
        i = i + 1;
        if value > 4294967295 {
            proof {
                if all_ascii_digits(d) {
                    assert(d.take(i - start) =~= s@.subrange(start as int, i as int));
                    lemma_digits_value_prefix_le(d, i - start);
                }
            }
            return None;
        }
    }
    proof {
        assert(s@.subrange(start as int, s@.len() as int) =~= d);
    }
    Some(value as u32)
}

/// A longer run of digits is worth at least as much as its prefix.
pub proof fn lemma_digits_value_prefix_le(d: Seq<char>, k: int)
    requires
        0 <= k <= d.len(),
        all_ascii_digits(d),
    ensures
        digits_value(d.take(k)) <= digits_value(d),
    decreases d.len() - k,
{
    if k < d.len() {
        lemma_digits_value_prefix_le(d, k + 1);
        assert(d.take(k + 1).drop_last() =~= d.take(k));
    } else {
        assert(d.take(k) =~= d);
    }
}

} // verus!

verus! {

/// `s` with every leading repetition of `p` removed (what
/// `str::trim_start_matches` does with a non-empty pattern).
pub open spec fn strip_prefix_all(s: Seq<char>, p: Seq<char>) -> Seq<char>
    decreases s.len(),
{
    if p.len() > 0 && has_prefix(s, p) {
        strip_prefix_all(s.skip(p.len() as int), p)
    } else {
        s
    }
}

/// Removes every leading repetition of `p` from `s`.
pub fn trim_start_matches(s: &Vec<char>, p: &Vec<char>) -> (r: Vec<char>)
    ensures
        r@ == strip_prefix_all(s@, p@),
{
    let mut i: usize = 0;
    proof {
        assert(s@.skip(0) =~= s@);
    }
    while p.len() > 0 && matches_at(s, p, i)
        invariant
            i <= s.len(),
            strip_prefix_all(s@, p@) == strip_prefix_all(s@.skip(i as int), p@),
        decreases s.len() - i,
    {
        proof {
            lemma_occurs_at_skip(s@, p@, i as int);
            assert(s@.skip(i as int).skip(p@.len() as int) =~= s@.skip(i + p@.len()));
        }
        i = i + p.len();
    }
    proof {
        lemma_occurs_at_skip(s@, p@, i as int);
        assert(s@.skip(i as int) =~= s@.subrange(i as int, s@.len() as int));
    }
    slice_chars(s, i, s.len())
}

} // verus!

verus! {

// ---------------------------------------------------------------------------
// Words
// ---------------------------------------------------------------------------

/// The whitespace-separated words of `s` (what `str::split_whitespace`
/// yields): maximal runs of non-whitespace characters.
pub open spec fn words(s: Seq<char>) -> Seq<Seq<char>>
    decreases s.len(),
{
    if s.len() == 0 {
        seq![]
    } else {
        let w = words(s.drop_last());
        let c = s.last();
        if crate::unicode::is_unicode_whitespace(c) {
            w
        } else if s.len() > 1 && !crate::unicode::is_unicode_whitespace(s[s.len() - 2]) && w.len() > 0 {
            w.update(w.len() - 1, w.last().push(c))
        } else {
            w.push(seq![c])
        }
    }
}

/// The pieces joined with `sep` between them (what `join` gives).
pub open spec fn join_with(pieces: Seq<Seq<char>>, sep: Seq<char>) -> Seq<char>
    decreases pieces.len(),
{
    if pieces.len() == 0 {
        seq![]
    } else if pieces.len() == 1 {
        pieces[0]
    } else {
        join_with(pieces.drop_last(), sep) + sep + pieces.last()
    }
}

/// Splits a character vector into its whitespace-separated words.
pub fn split_whitespace(s: &Vec<char>) -> (r: Vec<Vec<char>>)
    ensures
        r@.len() == words(s@).len(),
        forall|k: int| 0 <= k < r@.len() ==> #[trigger] r@[k]@ == words(s@)[k],
{
    let mut out: Vec<Vec<char>> = Vec::new();
    let mut prev_ws = true;
    let mut i: usize = 0;
    proof {
        assert(s@.take(0) =~= Seq::<char>::empty());
    }
    while i < s.len()
        invariant
            i <= s.len(),
            out@.len() == words(s@.take(i as int)).len(),
            forall|k: int| 0 <= k < out@.len() ==> #[trigger] out@[k]@ == words(s@.take(i as int))[k],
            prev_ws == (i == 0 || crate::unicode::is_unicode_whitespace(s@[i - 1])),
        decreases s.len() - i,
    {
        let ghost prev = words(s@.take(i as int));
        proof {
            assert(s@.take(i + 1).drop_last() =~= s@.take(i as int));
            assert(s@.take(i + 1).last() == s@[i as int]);
            if i > 0 {
                assert(s@.take(i + 1)[i - 1] == s@[i - 1]);
            }
        }
        let c = s[i];
        let ws = crate::unicode::char_is_whitespace(c);
        if ws {
        } else if !prev_ws && out.len() > 0 {
            let last = out.len() - 1;
            let mut w = out.pop().unwrap();
            w.push(c);
            out.push(w);
            proof {
                assert(out@[last as int]@ == prev.last().push(c));
            }
        } else {
            let mut w: Vec<char> = Vec::new();
            w.push(c);
            out.push(w);
            proof {
                assert(out@[out@.len() - 1]@ =~= seq![c]);
                if i > 0 && !crate::unicode::is_unicode_whitespace(s@[i - 1]) {
                    assert(prev.len() == 0);
                }
            }
        }
        prev_ws = ws;
        i = i + 1;
    }
    proof {
        assert(s@.take(s.len() as int) =~= s@);
    }
    out
}

/// Joins pieces with a separator.
pub fn join_chars(pieces: &Vec<Vec<char>>, sep: &Vec<char>) -> (r: Vec<char>)
    ensures
        r@ == join_with(pieces@.map_values(|v: Vec<char>| v@), sep@),
{
    let ghost all = pieces@.map_values(|v: Vec<char>| v@);
    let mut out: Vec<char> = Vec::new();
    let mut k: usize = 0;
    proof {
        assert(all.take(0) =~= Seq::<Seq<char>>::empty());
    }
    while k < pieces.len()
        invariant
            k <= pieces.len(),
            all == pieces@.map_values(|v: Vec<char>| v@),
            out@ == join_with(all.take(k as int), sep@),
        decreases pieces.len() - k,
    {
        proof {
            assert(all.take(k + 1).drop_last() =~= all.take(k as int));
            assert(all.take(k + 1).last() == pieces@[k as int]@);
        }
        if k > 0 {
            append_vec(&mut out, sep);
        }
        let ghost before = out@;
        append_vec(&mut out, &pieces[k]);
        proof {
            if k == 0 {
                assert(before =~= Seq::<char>::empty());
                assert(out@ =~= pieces@[0]@);
                assert(all.take(1)[0] == pieces@[0]@);
            }
        }
        k = k + 1;
    }
    proof {
        assert(all.take(pieces.len() as int) =~= all);
    }
    out
}

/// Appends the characters of `t` to `v`.
pub fn append_vec(v: &mut Vec<char>, t: &Vec<char>)
    ensures
        final(v)@ == old(v)@ + t@,
{
    let ghost start = v@;
    for i in 0..t.len()
        invariant
            v@ == start + t@.take(i as int),
    {
        v.push(t[i]);
        proof {
            assert(t@.take(i + 1) =~= t@.take(i as int).push(t@[i as int]));
        }
    }
    proof {
        assert(t@.take(t@.len() as int) =~= t@);
    }
}

} // verus!

verus! {

/// The index of the first `c` in `v`.
pub fn find_char(v: &Vec<char>, c: char) -> (r: Option<usize>)
    ensures
        match r {
            Some(i) => i < v@.len() && v@[i as int] == c && forall|j: int| 0 <= j < i ==> v@[j] != c,
            None => !v@.contains(c),
        },
{
    for i in 0..v.len()
        invariant
            forall|j: int| 0 <= j < i ==> v@[j] != c,
    {
        if v[i] == c {
            return Some(i);
        }
    }
    proof {
        if v@.contains(c) {
            let j = choose|j: int| 0 <= j < v@.len() && v@[j] == c;
            assert(v@[j] != c);
        }
    }
    None
}

} // verus!
