//! What holds of the deposit table across its operations.

use vstd::prelude::*;

use crate::deposit::Deposit;
use crate::store::{
    atomiq_swap_id_updated, btc_tx_hash_set, btc_tx_hash_updated, column_of, has_id, ids_unique,
    inserted_in_order, lookup, newest_first_where, rows_well_formed, Column,
};

verus! {

/// Once a deposit is created, fetching it by its id gives back exactly the
/// row that creation returned.
pub proof fn created_row_is_fetched(before: Seq<Deposit>, row: Deposit, after: Seq<Deposit>)
    requires
        rows_well_formed(before),
        !has_id(before, row.deposit_id@),
        inserted_in_order(before, row, after),
    ensures
        lookup(after, row.deposit_id@) == Some(row),
{
    let p = choose|p: int|
        0 <= p <= before.len() && after == #[trigger] before.insert(p, row) && (forall|i: int|
            0 <= i < p ==> before[i].created_at <= row.created_at) && (forall|i: int|
            p <= i < before.len() ==> row.created_at < before[i].created_at);
    assert(after[p].deposit_id@ == row.deposit_id@);
    let c = choose|i: int| 0 <= i < after.len() && after[i].deposit_id@ == row.deposit_id@;
    if c < p {
        assert(after[c] == before[c]);
    } else if c > p {
        assert(after[c] == before[c - 1]);
    }
}

/// A second deposit with an id already taken is refused (the table then
/// holds that id), and the first row stays what it was.
pub proof fn duplicate_id_is_refused(
    before: Seq<Deposit>,
    first: Deposit,
    after: Seq<Deposit>,
    second: Deposit,
)
    requires
        rows_well_formed(before),
        !has_id(before, first.deposit_id@),
        inserted_in_order(before, first, after),
        second.deposit_id@ == first.deposit_id@,
    ensures
        has_id(after, second.deposit_id@),
        lookup(after, first.deposit_id@) == Some(first),
{
    created_row_is_fetched(before, first, after);
}

/// Fetching an id that no row has gives nothing back.
pub proof fn absent_id_is_not_found(rows: Seq<Deposit>, id: Seq<char>)
    requires
        !has_id(rows, id),
    ensures
        lookup(rows, id) is None,
{
}

/// Each row of a listing is a row of the table that matches the key.
pub proof fn listing_rows_match(rows: Seq<Deposit>, c: Column, key: Seq<char>)
    ensures
        forall|k: int|
            0 <= k < newest_first_where(rows, c, key).len() ==> column_of(
                #[trigger] newest_first_where(rows, c, key)[k],
                c,
            ) == key && rows.contains(newest_first_where(rows, c, key)[k]),
    decreases rows.len(),
{
    if rows.len() > 0 {
        listing_rows_match(rows.drop_first(), c, key);
        let rest = newest_first_where(rows.drop_first(), c, key);
        assert forall|k: int| 0 <= k < rest.len() implies rows.contains(rest[k]) by {
            let j = choose|j: int| 0 <= j < rows.drop_first().len() && rows.drop_first()[j] == rest[k];
            assert(rows[j + 1] == rest[k]);
        }
    }
}

/// Every row of the table that matches the key is in the listing.
pub proof fn listing_is_complete(rows: Seq<Deposit>, c: Column, key: Seq<char>)
    ensures
        forall|i: int|
            0 <= i < rows.len() && column_of(#[trigger] rows[i], c) == key ==> newest_first_where(
                rows,
                c,
                key,
            ).contains(rows[i]),
    decreases rows.len(),
{
    if rows.len() > 0 {
        listing_is_complete(rows.drop_first(), c, key);
        let out = newest_first_where(rows, c, key);
        let rest = newest_first_where(rows.drop_first(), c, key);
        assert forall|i: int| 0 <= i < rows.len() && column_of(#[trigger] rows[i], c) == key implies out.contains(rows[i]) by {
            if i == 0 {
                assert(out[rest.len() as int] == rows[0]);
            } else {
                assert(rows.drop_first()[i - 1] == rows[i]);
                let k = choose|k: int| 0 <= k < rest.len() && rest[k] == rows[i];
                assert(out[k] == rows[i]);
            }
        }
    }
}

/// In a well-formed table a listing comes most recently created first, and
/// no deposit id appears in it twice.
pub proof fn listing_is_newest_first(rows: Seq<Deposit>, c: Column, key: Seq<char>)
    requires
        rows_well_formed(rows),
    ensures
        forall|a: int, b: int|
            0 <= a < b < newest_first_where(rows, c, key).len() ==> newest_first_where(
                rows,
                c,
                key,
            )[a].created_at >= newest_first_where(rows, c, key)[b].created_at,
        ids_unique(newest_first_where(rows, c, key)),
    decreases rows.len(),
{
    if rows.len() > 0 {
        let tail = rows.drop_first();
        assert(rows_well_formed(tail)) by {
            assert forall|i: int, j: int| 0 <= i < j < tail.len() implies tail[i].created_at
                <= tail[j].created_at && tail[i].deposit_id@ != tail[j].deposit_id@ by {
                assert(tail[i] == rows[i + 1] && tail[j] == rows[j + 1]);
            }
        }
        listing_is_newest_first(tail, c, key);
        listing_rows_match(tail, c, key);
        let rest = newest_first_where(tail, c, key);
        assert forall|k: int| 0 <= k < rest.len() implies rest[k].created_at >= rows[0].created_at
            && rest[k].deposit_id@ != rows[0].deposit_id@ by {
            let j = choose|j: int| 0 <= j < tail.len() && tail[j] == rest[k];
            assert(tail[j] == rows[j + 1]);
        }
    }
}

/// Setting the Bitcoin transaction hash of a row makes fetching it give the
/// new hash, with every other field as before.
pub proof fn btc_tx_hash_update_is_fetched(
    before: Seq<Deposit>,
    after: Seq<Deposit>,
    id: Seq<char>,
    hash: Seq<char>,
    row: Deposit,
)
    requires
        rows_well_formed(before),
        lookup(before, id) == Some(row),
        btc_tx_hash_updated(before, after, id, hash),
    ensures
        lookup(after, id) matches Some(d) && btc_tx_hash_set(row, d, hash),
{
    let i = choose|i: int| 0 <= i < before.len() && before[i].deposit_id@ == id;
    assert(btc_tx_hash_set(before[i], after[i], hash));
    let c = choose|k: int| 0 <= k < after.len() && after[k].deposit_id@ == id;
    if c != i {
        if before[c].deposit_id@ == id {
            assert(btc_tx_hash_set(before[c], after[c], hash));
        } else {
            assert(after[c] == before[c]);
        }
    }
}

/// Setting the swap id of a deposit id that no row has changes nothing.
pub proof fn absent_swap_id_update_is_noop(
    before: Seq<Deposit>,
    after: Seq<Deposit>,
    id: Seq<char>,
    swap_id: Seq<char>,
)
    requires
        !has_id(before, id),
        atomiq_swap_id_updated(before, after, id, swap_id),
    ensures
        after == before,
{
    assert(after =~= before);
}

} // verus!
