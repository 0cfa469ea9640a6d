//! The rows of the key-value table.
use vstd::prelude::*;

use crate::components::database::preview::KeyValuePair;
use crate::text::{bytes_debug, bytes_debug_string, decimal, decimal_string};

verus! {

/// The bytes of a pair.
pub open spec fn pair_view(p: KeyValuePair) -> (Seq<u8>, Seq<u8>) {
    (p.0@, p.1@)
}

/// The bytes of each pair.
pub open spec fn pair_views(v: Seq<KeyValuePair>) -> Seq<(Seq<u8>, Seq<u8>)> {
    v.map_values(|p: KeyValuePair| pair_view(p))
}

/// The text of each cell of each row.
pub open spec fn row_views(items: Seq<Vec<String>>) -> Seq<Seq<Seq<char>>> {
    items.map_values(|row: Vec<String>| row@.map_values(|s: String| s@))
}

/// The row of the pair at `index`: its position, its key bytes and its value bytes.
pub open spec fn pair_row(index: nat, p: (Seq<u8>, Seq<u8>)) -> Seq<Seq<char>> {
    seq![decimal(index), bytes_debug(p.0), bytes_debug(p.1)]
}

/// The rows of a list of pairs, one per pair, in order.
pub open spec fn pairs_table(pairs: Seq<(Seq<u8>, Seq<u8>)>) -> Seq<Seq<Seq<char>>> {
    Seq::new(pairs.len(), |i: int| pair_row(i as nat, pairs[i]))
}

/// A copy of some bytes.
pub fn copy_bytes(v: &Vec<u8>) -> (r: Vec<u8>)
    ensures
        r@ == v@,
{
    let mut r: Vec<u8> = Vec::new();
    let mut i: usize = 0;
    while i < v.len()
        invariant
            i <= v@.len(),
            r@ == v@.take(i as int),
        decreases v@.len() - i,
    {
        r.push(v[i]);
        assert(r@ =~= v@.take(i as int + 1));
        i = i + 1;
    }
    assert(v@.take(v@.len() as int) =~= v@);
    r
}

/// A copy of a pair.
pub fn copy_pair(p: &KeyValuePair) -> (r: KeyValuePair)
    ensures
        pair_view(r) == pair_view(*p),
{
    (copy_bytes(&p.0), copy_bytes(&p.1))
}

/// The table rows of the pairs.
pub fn pair_rows(pairs: &Vec<KeyValuePair>) -> (r: Vec<Vec<String>>)
    ensures
        row_views(r@) == pairs_table(pair_views(pairs@)),
{
    let mut items: Vec<Vec<String>> = Vec::new();
    let mut i: usize = 0;
    while i < pairs.len()
        invariant
            i <= pairs@.len(),
            items@.len() == i,
            forall|j: int| 0 <= j < i ==> #[trigger] row_views(items@)[j] == pair_row(j as nat, pair_view(pairs@[j])),
        decreases pairs@.len() - i,
    {
        let mut row: Vec<String> = Vec::new();
        row.push(decimal_string(i as u64));
        row.push(bytes_debug_string(pairs[i].0.as_slice()));
        row.push(bytes_debug_string(pairs[i].1.as_slice()));
        let ghost old_items = items@;
        items.push(row);
        proof {
            assert(row@.map_values(|s: String| s@) =~= pair_row(i as nat, pair_view(pairs@[i as int])));
            assert forall|j: int| 0 <= j < i + 1 implies #[trigger] row_views(items@)[j] == pair_row(j as nat, pair_view(pairs@[j])) by {
                if j < i {
                    assert(row_views(old_items)[j] == pair_row(j as nat, pair_view(pairs@[j])));
                    assert(items@[j] == old_items[j]);
                }
            }
        }
        i = i + 1;
    }
    assert(row_views(items@) =~= pairs_table(pair_views(pairs@)));
    items
}

/// The number of line breaks in a text.
pub open spec fn newlines(s: Seq<char>) -> nat
    decreases s.len(),
{
    if s.len() == 0 {
        0
    } else {
        newlines(s.drop_last()) + if s.last() == '\n' {
            1nat
        } else {
            0nat
        }
    }
}

/// The most line breaks in any cell of a row (0 for an empty row).
pub open spec fn most_newlines(row: Seq<Seq<char>>) -> nat
    decreases row.len(),
{
    if row.len() == 0 {
        0
    } else {
        let rest = most_newlines(row.drop_last());
        let last = newlines(row.last());
        if last > rest {
            last
        } else {
            rest
        }
    }
}

fn count_newlines(s: &str) -> (r: usize)
    ensures
        r == newlines(s@),
{
    broadcast use vstd::string::group_string_axioms;

    let n = s.unicode_len();
    let mut count: usize = 0;
    for c in it: s.chars()
        invariant
            n == s@.len(),
            it.seq() == s@,
            count == newlines(s@.take(it.index() as int)),
            count <= it.index(),
    {
        proof {
            assert(s@.take(it.index() as int + 1).drop_last() =~= s@.take(it.index() as int));
        }
        if c == '\n' {
            count = count + 1;
        }
    }
    assert(s@.take(s@.len() as int) =~= s@);
    count
}

/// The height of a table row: one line more than the most line breaks in one of its cells,
/// cut to a `u16` (modulo 65536) as the table widget takes it.
pub fn row_height(row: &Vec<String>) -> (r: u16)
    ensures
        r == (most_newlines(row@.map_values(|s: String| s@)) + 1) % 65536,
{
    let ghost cells = row@.map_values(|s: String| s@);
    let mut most: usize = 0;
    let mut k: usize = 0;
    while k < row.len()
        invariant
            k <= row@.len(),
            cells == row@.map_values(|s: String| s@),
            most == most_newlines(cells.take(k as int)),
        decreases row@.len() - k,
    {
        let c = count_newlines(row[k].as_str());
        proof {
            assert(cells.take(k as int + 1).drop_last() =~= cells.take(k as int));
            assert(cells.take(k as int + 1).last() == row@[k as int]@);
        }
        if c > most {
            most = c;
        }
        k = k + 1;
    }
    assert(cells.take(row@.len() as int) =~= cells);
    let low: u16 = (most % 65536) as u16;
    if low == 65535 {
        assert((most + 1) % 65536 == 0) by (nonlinear_arith)
            requires
                most % 65536 == 65535,
        ;
        0
    } else {
        assert((most + 1) % 65536 == most % 65536 + 1) by (nonlinear_arith)
            requires
                most % 65536 < 65535,
        ;
        low + 1
    }
}

/// The height of each row of a table.
pub fn row_heights(items: &Vec<Vec<String>>) -> (r: Vec<u16>)
    ensures
        r@.len() == items@.len(),
        forall|i: int|
            0 <= i < r@.len() ==> #[trigger] r@[i] == (most_newlines(row_views(items@)[i]) + 1)
                % 65536,
{
    let mut r: Vec<u16> = Vec::new();
    let mut k: usize = 0;
    while k < items.len()
        invariant
            k <= items@.len(),
            r@.len() == k,
            forall|i: int|
                0 <= i < k ==> #[trigger] r@[i] == (most_newlines(row_views(items@)[i]) + 1)
                    % 65536,
        decreases items@.len() - k,
    {
        r.push(row_height(&items[k]));
        k = k + 1;
    }
    r
}

/// The key-value table has one row per pair read, in order: its position under `#`, the
/// debug text of the pair's key bytes under `Key`, and that of its value bytes under
/// `Value`.
pub proof fn lemma_pair_columns(pairs: Seq<KeyValuePair>, i: int)
    requires
        0 <= i < pairs.len(),
    ensures
        pairs_table(pair_views(pairs)).len() == pairs.len(),
        pairs_table(pair_views(pairs))[i].len() == 3,
        pairs_table(pair_views(pairs))[i][0] == decimal(i as nat),
        pairs_table(pair_views(pairs))[i][1] == bytes_debug(pairs[i].0@),
        pairs_table(pair_views(pairs))[i][2] == bytes_debug(pairs[i].1@),
{
}

} // verus!
