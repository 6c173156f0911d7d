//! The deposit table: rows keyed by a unique deposit id, kept in the order of
//! their creation time, with the lookups and updates the repository offers.

use vstd::prelude::*;

use crate::clock::now_micros;
use crate::deposit::{is_created_row, Amount, Deposit};

verus! {

/// Why a write to the table was refused.
#[derive(Debug, Clone, Copy, PartialEq, Eq, Structural)]
pub enum StoreError {
    /// A row with the same deposit id is already there.
    DuplicateDepositId,
}

/// The text column a listing selects rows by.
#[derive(Debug, Clone, Copy, PartialEq, Eq, Structural)]
pub enum Column {
    Status,
    UserAddress,
}

pub open spec fn column_of(d: Deposit, c: Column) -> Seq<char> {
    match c {
        Column::Status => d.status@,
        Column::UserAddress => d.user_address@,
    }
}

/// No two rows share a deposit id.
pub open spec fn ids_unique(rows: Seq<Deposit>) -> bool {
    forall|i: int, j: int|
        0 <= i < j < rows.len() ==> rows[i].deposit_id@ != rows[j].deposit_id@
}

/// Rows stand oldest first by creation time.
pub open spec fn oldest_first(rows: Seq<Deposit>) -> bool {
    forall|i: int, j: int| 0 <= i < j < rows.len() ==> rows[i].created_at <= rows[j].created_at
}

pub open spec fn rows_well_formed(rows: Seq<Deposit>) -> bool {
    ids_unique(rows) && oldest_first(rows)
}

pub open spec fn has_id(rows: Seq<Deposit>, id: Seq<char>) -> bool {
    exists|i: int| 0 <= i < rows.len() && rows[i].deposit_id@ == id
}

/// The row with deposit id `id`, if there is one.
pub open spec fn lookup(rows: Seq<Deposit>, id: Seq<char>) -> Option<Deposit> {
    if has_id(rows, id) {
        Some(rows[choose|i: int| 0 <= i < rows.len() && rows[i].deposit_id@ == id])
    } else {
        None
    }
}

/// `after` is `before` with `row` put in at the place its creation time
/// gives: after every row created no later, before every row created later.
pub open spec fn inserted_in_order(before: Seq<Deposit>, row: Deposit, after: Seq<Deposit>) -> bool {
    exists|p: int|
        0 <= p <= before.len() && after == #[trigger] before.insert(p, row) && (forall|i: int|
            0 <= i < p ==> before[i].created_at <= row.created_at) && (forall|i: int|
            p <= i < before.len() ==> row.created_at < before[i].created_at)
}

/// The rows whose column `c` holds `key`, the latest in the table first.
pub open spec fn newest_first_where(rows: Seq<Deposit>, c: Column, key: Seq<char>) -> Seq<
    Deposit,
>
    decreases rows.len(),
{
    if rows.len() == 0 {
        Seq::empty()
    } else {
        let rest = newest_first_where(rows.drop_first(), c, key);
        if column_of(rows[0], c) == key {
            rest.push(rows[0])
        } else {
            rest
        }
    }
}

/// `after` is `before` with the Bitcoin transaction hash set to `hash`, all
/// other fields kept.
pub open spec fn btc_tx_hash_set(before: Deposit, after: Deposit, hash: Seq<char>) -> bool {
    &&& after == (Deposit { btc_tx_hash: after.btc_tx_hash, ..before })
    &&& after.btc_tx_hash matches Some(h) && h@ == hash
}

/// `after` is `before` with the swap id set to `swap_id`, all other fields
/// kept.
pub open spec fn atomiq_swap_id_set(before: Deposit, after: Deposit, swap_id: Seq<char>) -> bool {
    &&& after == (Deposit { atomiq_swap_id: after.atomiq_swap_id, ..before })
    &&& after.atomiq_swap_id matches Some(s) && s@ == swap_id
}

/// Every row with deposit id `id` is changed as `changed` says; every other
/// row stays as it was.
pub open spec fn updated_where(
    before: Seq<Deposit>,
    after: Seq<Deposit>,
    id: Seq<char>,
    changed: spec_fn(Deposit, Deposit) -> bool,
) -> bool {
    &&& after.len() == before.len()
    &&& forall|i: int|
        0 <= i < before.len() ==> if before[i].deposit_id@ == id {
            changed(before[i], #[trigger] after[i])
        } else {
            after[i] == before[i]
        }
}

/// `after` is `before` with the Bitcoin transaction hash of the row with id
/// `id` set to `hash`.
pub open spec fn btc_tx_hash_updated(
    before: Seq<Deposit>,
    after: Seq<Deposit>,
    id: Seq<char>,
    hash: Seq<char>,
) -> bool {
    updated_where(before, after, id, |a: Deposit, b: Deposit| btc_tx_hash_set(a, b, hash))
}

/// `after` is `before` with the swap id of the row with id `id` set to
/// `swap_id`.
pub open spec fn atomiq_swap_id_updated(
    before: Seq<Deposit>,
    after: Seq<Deposit>,
    id: Seq<char>,
    swap_id: Seq<char>,
) -> bool {
    updated_where(before, after, id, |a: Deposit, b: Deposit| atomiq_swap_id_set(a, b, swap_id))
}

/// An in-memory deposit table.
pub struct DepositStore {
    rows: Vec<Deposit>,
}

impl View for DepositStore {
    type V = Seq<Deposit>;

    closed spec fn view(&self) -> Seq<Deposit> {
        self.rows@
    }
}

impl DepositStore {
    pub open spec fn wf(&self) -> bool {
        rows_well_formed(self@)
    }

    /// An empty table.
    pub fn new() -> (r: DepositStore)
        ensures
            r.wf(),
            r@ == Seq::<Deposit>::empty(),
    {
        DepositStore { rows: Vec::new() }
    }

    /// The number of rows.
    pub fn len(&self) -> (r: usize)
        ensures
            r == self@.len(),
    {
        self.rows.len()
    }

    fn position_of(&self, id: &String) -> (r: Option<usize>)
        ensures
            match r {
                Some(i) => i < self@.len() && self@[i as int].deposit_id@ == id@,
                None => !has_id(self@, id@),
            },
    {
        let mut i: usize = 0;
        while i < self.rows.len()
            invariant
                i <= self.rows@.len(),
                forall|k: int| 0 <= k < i ==> self.rows@[k].deposit_id@ != id@,
            decreases self.rows@.len() - i,
        {
            if self.rows[i].deposit_id == *id {
                return Some(i);
            }
            i += 1;
        }
        None
    }

    /// The row with deposit id `deposit_id`, or `None` where there is none.
    pub fn get_deposit(&self, deposit_id: &str) -> (r: Option<Deposit>)
        requires
            self.wf(),
        ensures
            r == lookup(self@, deposit_id@),
    {
        let key = deposit_id.to_owned();
        match self.position_of(&key) {
            Some(i) => {
                proof {
                    let c = choose|k: int| 0 <= k < self@.len() && self@[k].deposit_id@ == key@;
                    assert(c == i as int);
                }
                Some(self.rows[i].duplicate())
            },
            None => None,
        }
    }

    /// Puts `row` into the table, at the place its creation time gives.
    /// Refused, with the table unchanged, where a row with the same deposit
    /// id is already there.
    pub fn insert(&mut self, row: Deposit) -> (r: Result<(), StoreError>)
        requires
            old(self).wf(),
        ensures
            final(self).wf(),
            match r {
                Ok(()) => !has_id(old(self)@, row.deposit_id@) && inserted_in_order(
                    old(self)@,
                    row,
                    final(self)@,
                ),
                Err(e) => e == StoreError::DuplicateDepositId && has_id(
                    old(self)@,
                    row.deposit_id@,
                ) && final(self)@ == old(self)@,
            },
    {
        if self.position_of(&row.deposit_id).is_some() {
            return Err(StoreError::DuplicateDepositId);
        }
        let mut p: usize = self.rows.len();
        while p > 0 && self.rows[p - 1].created_at > row.created_at
            invariant
                p <= self.rows@.len(),
                forall|i: int| p <= i < self.rows@.len() ==> row.created_at < self.rows@[i].created_at,
            decreases p,
        {
            p -= 1;
        }
        let ghost before = self.rows@;
        self.rows.insert(p, row);
        proof {
            let after = self.rows@;
            assert(forall|i: int| 0 <= i < p ==> before[i].created_at <= row.created_at) by {
                assert forall|i: int| 0 <= i < p implies before[i].created_at <= row.created_at by {
                    assert(before[i].created_at <= before[p - 1].created_at);
                }
            }
            assert forall|i: int, j: int| 0 <= i < j < after.len() implies after[i].created_at
                <= after[j].created_at by {
                if j < p {
                } else if j == p {
                } else if i < p {
                    assert(before[i].created_at <= row.created_at);
                } else if i == p {
                } else {
                }
            }
            assert forall|i: int, j: int| 0 <= i < j < after.len() implies after[i].deposit_id@
                != after[j].deposit_id@ by {
                if i == p {
                    assert(after[j] == before[j - 1]);
                } else if j == p {
                    assert(after[i] == before[i]);
                }
            }
            assert(inserted_in_order(before, row, after));
        }
        Ok(())
    }

    /// Creates a deposit at time `created_at` (microseconds since the Unix
    /// epoch, UTC) and returns the row as stored: the given values, the
    /// status `"created"` and no Bitcoin transaction hash. Refused, with the
    /// table unchanged, where the deposit id is already taken. The action
    /// code must fit the 64-bit column.
    pub fn create_deposit_at(
        &mut self,
        deposit_id: &str,
        user_address: &str,
        action: u128,
        amount: Amount,
        token: &str,
        target_address: &str,
        deposit_address: &str,
        deposit_tx_hash: Option<String>,
        atomiq_swap_id: Option<String>,
        created_at: i64,
    ) -> (r: Result<Deposit, StoreError>)
        requires
            old(self).wf(),
            action <= i64::MAX,
        ensures
            final(self).wf(),
            match r {
                Ok(d) => !has_id(old(self)@, deposit_id@) && is_created_row(
                    d,
                    deposit_id@,
                    user_address@,
                    action,
                    amount,
                    token@,
                    target_address@,
                    deposit_address@,
                    deposit_tx_hash,
                    atomiq_swap_id,
                    created_at,
                ) && inserted_in_order(old(self)@, d, final(self)@),
                Err(e) => e == StoreError::DuplicateDepositId && has_id(old(self)@, deposit_id@)
                    && final(self)@ == old(self)@,
            },
    {
        let row = Deposit::created(
            deposit_id,
            user_address,
            action,
            amount,
            token,
            target_address,
            deposit_address,
            deposit_tx_hash,
            atomiq_swap_id,
            created_at,
        );
        let copy = row.duplicate();
        match self.insert(row) {
            Ok(()) => Ok(copy),
            Err(e) => Err(e),
        }
    }

    /// Creates a deposit stamped with the current time, as
    /// `create_deposit_at` does.
    pub fn create_deposit(
        &mut self,
        deposit_id: &str,
        user_address: &str,
        action: u128,
        amount: Amount,
        token: &str,
        target_address: &str,
        deposit_address: &str,
        deposit_tx_hash: Option<String>,
        atomiq_swap_id: Option<String>,
    ) -> (r: Result<Deposit, StoreError>)
        requires
            old(self).wf(),
            action <= i64::MAX,
        ensures
            final(self).wf(),
            match r {
                Ok(d) => !has_id(old(self)@, deposit_id@) && is_created_row(
                    d,
                    deposit_id@,
                    user_address@,
                    action,
                    amount,
                    token@,
                    target_address@,
                    deposit_address@,
                    deposit_tx_hash,
                    atomiq_swap_id,
                    d.created_at,
                ) && inserted_in_order(old(self)@, d, final(self)@),
                Err(e) => e == StoreError::DuplicateDepositId && has_id(old(self)@, deposit_id@)
                    && final(self)@ == old(self)@,
            },
    {
        let now = now_micros();
        self.create_deposit_at(
            deposit_id,
            user_address,
            action,
            amount,
            token,
            target_address,
            deposit_address,
            deposit_tx_hash,
            atomiq_swap_id,
            now,
        )
    }

    /// Sets the Bitcoin transaction hash of the row with id `deposit_id`.
    /// Where there is no such row nothing changes, and that is no error.
    pub fn update_btc_tx_hash(&mut self, deposit_id: &str, btc_tx_hash: &str)
        requires
            old(self).wf(),
        ensures
            final(self).wf(),
            btc_tx_hash_updated(old(self)@, final(self)@, deposit_id@, btc_tx_hash@),
    {
        let key = deposit_id.to_owned();
        if let Some(i) = self.position_of(&key) {
            let ghost before = self.rows@;
            self.rows[i].btc_tx_hash = Some(btc_tx_hash.to_owned());
            proof {
                assert forall|k: int| 0 <= k < before.len() && k != i implies before[k].deposit_id@
                    != key@ by {
                    assert(before[i as int].deposit_id@ == key@);
                }
            }
        }
    }

    /// Sets the swap id of the row with id `deposit_id`. Where there is no
    /// such row nothing changes, and that is no error.
    pub fn update_atomiq_swap_id(&mut self, deposit_id: &str, atomiq_swap_id: &str)
        requires
            old(self).wf(),
        ensures
            final(self).wf(),
            atomiq_swap_id_updated(old(self)@, final(self)@, deposit_id@, atomiq_swap_id@),
    {
        let key = deposit_id.to_owned();
        if let Some(i) = self.position_of(&key) {
            let ghost before = self.rows@;
            self.rows[i].atomiq_swap_id = Some(atomiq_swap_id.to_owned());
            proof {
                assert forall|k: int| 0 <= k < before.len() && k != i implies before[k].deposit_id@
                    != key@ by {
                    assert(before[i as int].deposit_id@ == key@);
                }
            }
        }
    }

    fn newest_first_matching(&self, c: Column, key: &str) -> (r: Vec<Deposit>)
        ensures
            r@ == newest_first_where(self@, c, key@),
    {
        let key = key.to_owned();
        let mut out: Vec<Deposit> = Vec::new();
        let mut i: usize = self.rows.len();
        while i > 0
            invariant
                i <= self.rows@.len(),
                out@ == newest_first_where(self.rows@.subrange(i as int, self.rows@.len() as int), c, key@),
            decreases i,
        {
            let ghost tail = self.rows@.subrange(i as int, self.rows@.len() as int);
            i -= 1;
            let ghost longer = self.rows@.subrange(i as int, self.rows@.len() as int);
            assert(longer.drop_first() =~= tail);
            assert(longer[0] == self.rows@[i as int]);
            let row = &self.rows[i];
            let hit = match c {
                Column::Status => row.status == key,
                Column::UserAddress => row.user_address == key,
            };
            if hit {
                out.push(row.duplicate());
            }
        }
        assert(self.rows@.subrange(0, self.rows@.len() as int) =~= self.rows@);
        out
    }

    /// The rows whose status is `status`, the most recently created first.
    pub fn get_deposits_by_status(&self, status: &str) -> (r: Vec<Deposit>)
        ensures
            r@ == newest_first_where(self@, Column::Status, status@),
    {
        self.newest_first_matching(Column::Status, status)
    }

    /// The rows owned by `user_address`, the most recently created first.
    pub fn get_deposits_by_user_address(&self, user_address: &str) -> (r: Vec<Deposit>)
        ensures
            r@ == newest_first_where(self@, Column::UserAddress, user_address@),
    {
        self.newest_first_matching(Column::UserAddress, user_address)
    }
}

} // verus!
