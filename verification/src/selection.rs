//! Wrap-around cursor over a dynamically sized sequence. One model serves the
//! ship list, the system list, and the waypoints of the viewed system: moving
//! past either end wraps to the other, an absent cursor initializes to the
//! first entry, and a move over an empty sequence yields no cursor at all.

use vstd::prelude::*;

verus! {

/// Cursor value after one forward step over a sequence of `length` entries.
pub open spec fn wrap_next(cursor: Option<usize>, length: usize) -> Option<usize> {
    if length == 0 {
        None
    } else {
        match cursor {
            None => Some(0usize),
            Some(i) => if i >= length - 1 {
                Some(0usize)
            } else {
                Some((i + 1) as usize)
            },
        }
    }
}

/// Cursor value after one backward step over a sequence of `length` entries.
pub open spec fn wrap_previous(cursor: Option<usize>, length: usize) -> Option<usize> {
    if length == 0 {
        None
    } else {
        match cursor {
            None => Some(0usize),
            Some(i) => if i == 0 {
                Some((length - 1) as usize)
            } else {
                Some((i - 1) as usize)
            },
        }
    }
}

/// Forward move: wraps from the last entry back to the first; an absent
/// cursor starts at the first entry; over an empty sequence there is nothing
/// to select.
pub fn next(cursor: Option<usize>, length: usize) -> (r: Option<usize>)
    ensures
        r == wrap_next(cursor, length),
{
    if length == 0 {
        None
    } else {
        match cursor {
            None => Some(0),
            Some(i) => if i >= length - 1 {
                Some(0)
            } else {
                Some(i + 1)
            },
        }
    }
}

/// Backward move: wraps from the first entry to the last; an absent cursor
/// starts at the first entry; over an empty sequence there is nothing to
/// select.
pub fn previous(cursor: Option<usize>, length: usize) -> (r: Option<usize>)
    ensures
        r == wrap_previous(cursor, length),
{
    if length == 0 {
        None
    } else {
        match cursor {
            None => Some(0),
            Some(i) => if i == 0 {
                Some(length - 1)
            } else {
                Some(i - 1)
            },
        }
    }
}

/// Cursor after `n` forward steps.
pub open spec fn iterate_next(cursor: Option<usize>, length: usize, n: nat) -> Option<usize>
    decreases n,
{
    if n == 0 {
        cursor
    } else {
        wrap_next(iterate_next(cursor, length, (n - 1) as nat), length)
    }
}

/// Cursor after a whole sequence of moves, each one either forward (true)
/// or backward (false).
pub open spec fn iterate_moves(
    cursor: Option<usize>,
    length: usize,
    moves: Seq<bool>,
) -> Option<usize>
    decreases moves.len(),
{
    if moves.len() == 0 {
        cursor
    } else {
        let prev = iterate_moves(cursor, length, moves.drop_last());
        if moves.last() {
            wrap_next(prev, length)
        } else {
            wrap_previous(prev, length)
        }
    }
}

/// A move leaves the cursor absent exactly when the sequence is empty: both
/// directions agree, whatever the cursor held before.
pub proof fn lemma_cursor_absent_iff_empty(cursor: Option<usize>, length: usize)
    ensures
        wrap_next(cursor, length) is None <==> length == 0,
        wrap_previous(cursor, length) is None <==> length == 0,
{
}

/// After any number of moves in either direction — at least one — the
/// cursor is absent exactly when the sequence it ranges over is empty,
/// whatever the cursor held before the first move.
pub proof fn lemma_moves_absent_iff_empty(cursor: Option<usize>, length: usize, moves: Seq<bool>)
    requires
        moves.len() > 0,
    ensures
        iterate_moves(cursor, length, moves) is None <==> length == 0,
{
    let prev = iterate_moves(cursor, length, moves.drop_last());
    lemma_cursor_absent_iff_empty(prev, length);
}

/// A forward step from a valid cursor stays valid and lands on the successor
/// index, modulo the length.
pub proof fn lemma_next_step(i: usize, length: usize)
    requires
        0 < length,
        i < length,
    ensures
        wrap_next(Some(i), length) == Some((((i + 1) % (length as int)) as usize)),
{
    if i >= length - 1 {
        assert(i + 1 == length);
        vstd::arithmetic::div_mod::lemma_mod_self_0(length as int);
    } else {
        vstd::arithmetic::div_mod::lemma_small_mod((i + 1) as nat, length as nat);
    }
}

/// After `n` forward steps from index `i`, the cursor sits at `(i + n) % length`.
pub proof fn lemma_next_iterates(i: usize, length: usize, n: nat)
    requires
        0 < length,
        i < length,
    ensures
        iterate_next(Some(i), length, n) == Some((((i + n) % (length as int)) as usize)),
    decreases n,
{
    let ell = length as int;
    if n == 0 {
        vstd::arithmetic::div_mod::lemma_small_mod(i as nat, length as nat);
    } else {
        lemma_next_iterates(i, length, (n - 1) as nat);
        vstd::arithmetic::div_mod::lemma_mod_bound(i + n - 1, ell);
        let j = ((i + n - 1) % ell) as usize;
        assert(j < length);
        lemma_next_step(j, length);
        assert((j + 1) % ell == (i + n) % ell) by {
            vstd::arithmetic::div_mod::lemma_small_mod(j as nat, length as nat);
            vstd::arithmetic::div_mod::lemma_add_mod_noop(j as int, 1, ell);
            vstd::arithmetic::div_mod::lemma_add_mod_noop(i + n - 1, 1, ell);
        };
    }
}

/// Over a non-empty sequence, repeated forward moves cycle: the first
/// `length` positions visited are pairwise distinct, and after exactly
/// `length` steps the cursor is back where it started.
pub proof fn lemma_next_cycles(i: usize, length: usize)
    requires
        0 < length,
        i < length,
    ensures
        iterate_next(Some(i), length, length as nat) == Some(i),
        forall|a: nat, b: nat|
            a < b < length ==> iterate_next(Some(i), length, a) != iterate_next(
                Some(i),
                length,
                b,
            ),
{
    let ell = length as int;
    lemma_next_iterates(i, length, length as nat);
    assert((i + length) % ell == i) by {
        vstd::arithmetic::div_mod::lemma_mod_self_0(ell);
        vstd::arithmetic::div_mod::lemma_small_mod(i as nat, length as nat);
        vstd::arithmetic::div_mod::lemma_add_mod_noop(i as int, ell, ell);
    };
    assert forall|a: nat, b: nat| a < b < length implies iterate_next(Some(i), length, a)
        != iterate_next(Some(i), length, b) by {
        lemma_next_iterates(i, length, a);
        lemma_next_iterates(i, length, b);
        if (i + a) % ell == (i + b) % ell {
            vstd::arithmetic::div_mod::lemma_mod_equivalence(i + b, i + a, ell);
            assert((b - a) % ell == 0);
            vstd::arithmetic::div_mod::lemma_small_mod((b - a) as nat, length as nat);
            assert(false);
        }
    };
}

/// A forward move undone by a backward move returns to the starting index,
/// and the other way round.
pub proof fn lemma_next_then_previous(i: usize, length: usize)
    requires
        0 < length,
        i < length,
    ensures
        wrap_previous(wrap_next(Some(i), length), length) == Some(i),
        wrap_next(wrap_previous(Some(i), length), length) == Some(i),
{
}

} // verus!
