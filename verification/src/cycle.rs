//! Round-robin cursor arithmetic shared by the two image sources.
//!
//! A source keeps a cursor and, on every successful tick, serves the entry at
//! `cursor mod count` and advances the cursor by one.  Reducing the cursor
//! modulo the current count on every call keeps the selection in bounds even
//! when the count changes between calls.

use vstd::prelude::*;

verus! {

use vstd::arithmetic::div_mod::{
    lemma_add_mod_noop,
    lemma_mod_multiples_vanish,
    lemma_small_mod,
};

/// The entry index that a cursor selects among `count` entries.
pub open spec fn select_spec(cursor: nat, count: nat) -> nat
    recommends
        count > 0,
{
    cursor % count
}

/// The cursor value after one selection among `count` entries.
pub open spec fn advance_spec(cursor: nat, count: nat) -> nat
    recommends
        count > 0,
{
    cursor % count + 1
}

/// Serve one entry: reduce the cursor modulo `count`, hand the reduced value
/// out as the selected index, and leave the cursor one past it.
pub fn select_and_advance(cursor: &mut usize, count: usize) -> (i: usize)
    requires
        count > 0,
    ensures
        i == select_spec(*old(cursor) as nat, count as nat),
        i < count,
        *final(cursor) == advance_spec(*old(cursor) as nat, count as nat),
{
    let i: usize = *cursor % count;
    *cursor = i + 1;
    i
}

/// The cursor after `k` selections among a constant `count` of entries.
pub open spec fn cursor_after(cursor: nat, count: nat, k: nat) -> nat
    recommends
        count > 0,
    decreases k,
{
    if k == 0 {
        cursor
    } else {
        advance_spec(cursor_after(cursor, count, (k - 1) as nat), count)
    }
}

/// The index served by the `k`-th call (zero-based) among a constant `count`.
pub open spec fn index_at(cursor: nat, count: nat, k: nat) -> nat
    recommends
        count > 0,
{
    select_spec(cursor_after(cursor, count, k), count)
}

/// Each call advances the served index by one, modulo the count: the `k`-th
/// call starting from `cursor` serves index `(cursor + k) mod count`.
pub proof fn lemma_index_at(cursor: nat, count: nat, k: nat)
    requires
        count > 0,
    ensures
        index_at(cursor, count, k) == ((cursor + k) as int) % (count as int),
    decreases k,
{
    let n = count as int;
    if k == 0 {
        assert(cursor_after(cursor, count, 0) == cursor);
    } else {
        lemma_index_at(cursor, count, (k - 1) as nat);
        let prev = cursor_after(cursor, count, (k - 1) as nat) as int;
        assert(cursor_after(cursor, count, k) == prev % n + 1);
        lemma_add_mod_noop(prev, 1, n);
        if count == 1 {
            lemma_small_mod(0, 1);
        } else {
            lemma_small_mod(1, count);
        }
        assert((prev % n + 1) % n == (prev + 1) % n);
        lemma_add_mod_noop(cursor + k - 1, 1, n);
    }
}

/// Round robin: among a constant count of `count` entries, the call made
/// `count` calls after any given call serves the same index again.
pub proof fn lemma_round_robin(cursor: nat, count: nat, k: nat)
    requires
        count > 0,
    ensures
        index_at(cursor, count, k + count) == index_at(cursor, count, k),
{
    let n = count as int;
    lemma_index_at(cursor, count, k);
    lemma_index_at(cursor, count, k + count);
    lemma_mod_multiples_vanish(1, (cursor + k) as int, n);
    assert(n * 1 + (cursor + k) == cursor + k + count);
}

/// Within one revolution the served indices never repeat: any two calls fewer
/// than `count` apart serve distinct indices.
pub proof fn lemma_no_repeat_within_revolution(cursor: nat, count: nat, j: nat, k: nat)
    requires
        count > 0,
        j < k,
        k - j < count,
    ensures
        index_at(cursor, count, j) != index_at(cursor, count, k),
{
    let n = count as int;
    lemma_index_at(cursor, count, j);
    lemma_index_at(cursor, count, k);
    let d: int = k - j;
    let y: int = ((cursor + j) as int) % n;
    lemma_add_mod_noop((cursor + j) as int, d, n);
    lemma_small_mod(d as nat, count);
    assert((y + d) % n == ((cursor + k) as int) % n);
    if y + d < n {
        lemma_small_mod((y + d) as nat, count);
    } else {
        lemma_mod_multiples_vanish(-1, y + d, n);
        assert(n * -1 + (y + d) == y + d - n);
        lemma_small_mod((y + d - n) as nat, count);
    }
}

/// One full revolution covers everything: for every index `r` below `count`
/// there is a call among the next `count` calls that serves `r`.
pub proof fn lemma_revolution_covers(cursor: nat, count: nat, r: nat)
    requires
        count > 0,
        r < count,
    ensures
        exists|k: nat| k < count && index_at(cursor, count, k) == r,
{
    let n = count as int;
    let a = cursor % count;
    let k: nat = if r >= a {
        (r - a) as nat
    } else {
        (r + count - a) as nat
    };
    lemma_index_at(cursor, count, k);
    lemma_add_mod_noop(cursor as int, k as int, n);
    lemma_small_mod(k, count);
    if a + k < n {
        lemma_small_mod((a + k) as nat, count);
    } else {
        lemma_mod_multiples_vanish(-1, (a + k) as int, n);
        assert(n * -1 + (a + k) == a + k - n);
        lemma_small_mod((a + k - n) as nat, count);
    }
    assert(index_at(cursor, count, k) == r);
    assert(k < count && index_at(cursor, count, k) == r);
}

} // verus!
