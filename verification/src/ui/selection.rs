//! Moving a highlighted row through a list that wraps around at both ends.
use vstd::prelude::*;

verus! {

/// `n - 1`, or `0` for `n == 0`.
pub open spec fn last_index(len: nat) -> usize {
    if len == 0 {
        0
    } else {
        (len - 1) as usize
    }
}

/// The row selected after moving down from `selected` in a list of `len` rows: the next
/// row, or the first after the last one; the first when nothing was selected.
pub open spec fn next_index(selected: Option<usize>, len: nat) -> usize {
    match selected {
        Some(i) => if i >= last_index(len) {
            0
        } else {
            (i + 1) as usize
        },
        None => 0,
    }
}

/// The row selected after moving up from `selected` in a list of `len` rows: the previous
/// row, or the last before the first one; the first when nothing was selected.
pub open spec fn previous_index(selected: Option<usize>, len: nat) -> usize {
    match selected {
        Some(i) => if i == 0 {
            last_index(len)
        } else {
            (i - 1) as usize
        },
        None => 0,
    }
}

/// A selection that points at a row of the list (or at row 0 of an empty list).
pub open spec fn in_range(i: usize, len: nat) -> bool {
    i < len || (len == 0 && i == 0)
}

/// The next row after `selected`.
pub fn next_of(selected: Option<usize>, len: usize) -> (r: usize)
    ensures
        r == next_index(selected, len as nat),
{
    match selected {
        Some(i) => {
            if i >= len.saturating_sub(1) {
                0
            } else {
                i.saturating_add(1)
            }
        },
        None => 0,
    }
}

/// The row before `selected`.
pub fn previous_of(selected: Option<usize>, len: usize) -> (r: usize)
    ensures
        r == previous_index(selected, len as nat),
{
    match selected {
        Some(i) => {
            if i == 0 {
                len.saturating_sub(1)
            } else {
                i.saturating_sub(1)
            }
        },
        None => 0,
    }
}

/// Moving down and then up returns to the row one started from.
pub proof fn lemma_previous_undoes_next(i: usize, len: nat)
    requires
        len <= usize::MAX,
        in_range(i, len),
    ensures
        previous_index(Some(next_index(Some(i), len)), len) == i,
{
}

/// Moving up and then down returns to the row one started from.
pub proof fn lemma_next_undoes_previous(i: usize, len: nat)
    requires
        len <= usize::MAX,
        in_range(i, len),
    ensures
        next_index(Some(previous_index(Some(i), len)), len) == i,
{
}

/// Moving down or up from a row of the list (or from no selection) lands on a row of the
/// list (row 0 when it is empty).
pub proof fn lemma_moves_stay_in_range(selected: Option<usize>, len: nat)
    requires
        len <= usize::MAX,
        selected matches Some(i) ==> in_range(i, len),
    ensures
        in_range(next_index(selected, len), len),
        in_range(previous_index(selected, len), len),
{
}

/// Moving down `len` times from a row of a non-empty list comes back to it.
pub proof fn lemma_next_cycles(i: usize, len: nat)
    requires
        len <= usize::MAX,
        i < len,
    ensures
        iterate_next(i, len, len) == i,
{
    lemma_iterate_next_offset(i, len, (len - i) as nat);
    assert(iterate_next(i, len, (len - i) as nat) == 0);
    lemma_iterate_next_from_zero(len, i as nat);
    lemma_iterate_next_compose(i, len, (len - i) as nat, i as nat);
}

/// The row reached by moving down `k` times from row `i`.
pub open spec fn iterate_next(i: usize, len: nat, k: nat) -> usize
    decreases k,
{
    if k == 0 {
        i
    } else {
        next_index(Some(iterate_next(i, len, (k - 1) as nat)), len)
    }
}

proof fn lemma_iterate_next_offset(i: usize, len: nat, k: nat)
    requires
        len <= usize::MAX,
        i < len,
        k <= len - i,
    ensures
        iterate_next(i, len, k) == (if i + k == len { 0 } else { i + k }),
    decreases k,
{
    if k > 0 {
        lemma_iterate_next_offset(i, len, (k - 1) as nat);
    }
}

proof fn lemma_iterate_next_from_zero(len: nat, k: nat)
    requires
        len <= usize::MAX,
        k < len,
    ensures
        iterate_next(0, len, k) == k,
    decreases k,
{
    if k > 0 {
        lemma_iterate_next_from_zero(len, (k - 1) as nat);
    }
}

proof fn lemma_iterate_next_compose(i: usize, len: nat, a: nat, b: nat)
    ensures
        iterate_next(i, len, a + b) == iterate_next(iterate_next(i, len, a), len, b),
    decreases b,
{
    if b > 0 {
        lemma_iterate_next_compose(i, len, a, (b - 1) as nat);
        assert((a + b - 1) as nat == a + (b - 1) as nat);
    }
}

} // verus!
