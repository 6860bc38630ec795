//! Moving through the library: the next and the previous wallpaper.
use vstd::prelude::*;

verus! {

/// The position after `seq_index` when the library holds `len` items: a
/// random pick (the clock value modulo `len`) when the order is random, else
/// the following position, wrapping to the first.
pub open spec fn next_index_spec(random: bool, seq_index: int, len: int, clock: int) -> int {
    if random {
        clock % len
    } else {
        (seq_index + 1) % len
    }
}

/// The position before `seq_index`, wrapping from the first to the last.
pub open spec fn prev_index_spec(seq_index: int, len: int) -> int {
    if seq_index == 0 {
        len - 1
    } else {
        seq_index - 1
    }
}

/// See `next_index_spec`; `clock` is only read in random order.
pub fn next_index(random: bool, seq_index: usize, len: usize, clock: usize) -> (r: usize)
    requires
        len > 0,
    ensures
        r == next_index_spec(random, seq_index as int, len as int, clock as int),
        r < len,
{
    if random {
        clock % len
    } else {
        proof {
            vstd::arithmetic::div_mod::lemma_add_mod_noop_right(1, seq_index as int, len as int);
        }
        (seq_index % len + 1) % len
    }
}

/// See `prev_index_spec`.
pub fn prev_index(seq_index: usize, len: usize) -> (r: usize)
    requires
        len > 0,
    ensures
        r == prev_index_spec(seq_index as int, len as int),
        seq_index <= len ==> r < len,
{
    if seq_index == 0 {
        len - 1
    } else {
        seq_index - 1
    }
}

/// Going forward and then back in sequential order returns to where one
/// started, for every position in the library.
pub proof fn lemma_prev_undoes_next(seq_index: int, len: int)
    requires
        0 <= seq_index < len,
    ensures
        prev_index_spec(next_index_spec(false, seq_index, len, 0), len) == seq_index,
{
    if seq_index + 1 < len {
        assert((seq_index + 1) % len == seq_index + 1) by (nonlinear_arith)
            requires 0 <= seq_index + 1 < len;
    } else {
        assert((seq_index + 1) % len == 0) by (nonlinear_arith)
            requires seq_index + 1 == len, len > 0;
    }
}

/// Going back and then forward in sequential order returns to where one
/// started, for every position in the library.
pub proof fn lemma_next_undoes_prev(seq_index: int, len: int, clock: int)
    requires
        0 <= seq_index < len,
    ensures
        next_index_spec(false, prev_index_spec(seq_index, len), len, clock) == seq_index,
{
    if seq_index == 0 {
        assert(len % len == 0) by (nonlinear_arith)
            requires len > 0;
    } else {
        assert(seq_index % len == seq_index) by (nonlinear_arith)
            requires 0 <= seq_index < len;
    }
}

/// The next position, in either order, is a position of the library.
pub proof fn lemma_next_in_range(random: bool, seq_index: int, len: int, clock: int)
    requires
        len > 0,
        seq_index >= 0,
        clock >= 0,
    ensures
        0 <= next_index_spec(random, seq_index, len, clock) < len,
{
}


/// The position reached after `k` steps forward in sequential order.
pub open spec fn advance(seq_index: int, len: int, k: nat) -> int
    decreases k,
{
    if k == 0 {
        seq_index
    } else {
        next_index_spec(false, advance(seq_index, len, (k - 1) as nat), len, 0)
    }
}

/// `k` steps forward from a position land `k` places further, wrapping.
proof fn lemma_advance(seq_index: int, len: int, k: nat)
    requires
        0 <= seq_index < len,
    ensures
        advance(seq_index, len, k) == (seq_index + k) % len,
    decreases k,
{
    if k == 0 {
        vstd::arithmetic::div_mod::lemma_small_mod(seq_index as nat, len as nat);
    } else {
        lemma_advance(seq_index, len, (k - 1) as nat);
        vstd::arithmetic::div_mod::lemma_add_mod_noop_right(1, seq_index + k - 1, len);
        assert(((seq_index + k - 1) % len + 1) % len == (seq_index + k) % len);
    }
}

/// In sequential order the rotation shows every wallpaper of the library:
/// from any position, each position is reached within `len` steps, and
/// after exactly `len` steps the rotation is back where it started.
pub proof fn lemma_sequential_visits_all(seq_index: int, len: int, target: int)
    requires
        0 <= seq_index < len,
        0 <= target < len,
    ensures
        exists|k: nat| k < len && advance(seq_index, len, k) == target,
        advance(seq_index, len, len as nat) == seq_index,
{
    let k: nat = if target >= seq_index { (target - seq_index) as nat } else { (target + len - seq_index) as nat };
    lemma_advance(seq_index, len, k);
    lemma_advance(seq_index, len, len as nat);
    if target >= seq_index {
        vstd::arithmetic::div_mod::lemma_small_mod(target as nat, len as nat);
    } else {
        vstd::arithmetic::div_mod::lemma_mod_add_multiples_vanish(target, len);
        vstd::arithmetic::div_mod::lemma_small_mod(target as nat, len as nat);
        assert(seq_index + k == len + target);
    }
    vstd::arithmetic::div_mod::lemma_mod_add_multiples_vanish(seq_index, len);
    vstd::arithmetic::div_mod::lemma_small_mod(seq_index as nat, len as nat);
    assert(seq_index + len == len + seq_index);
    assert(advance(seq_index, len, k) == target);
}

} // verus!
