//! The deposit record, as one row of the `deposits` table holds it.

use vstd::prelude::*;

use crate::clock::now_micros;

verus! {

/// The status every deposit gets when it is created.
pub const STATUS_CREATED: &'static str = "created";

/// An arbitrary-precision decimal held as plain values: the value is
/// `mantissa * 10^(-scale)`, where `mantissa` is a base-ten integer in text,
/// with an optional leading `-`.
#[derive(Debug, Clone)]
pub struct Amount {
    pub mantissa: String,
    pub scale: i64,
}

impl Amount {
    pub fn new(mantissa: String, scale: i64) -> (r: Amount)
        ensures
            r.mantissa == mantissa,
            r.scale == scale,
    {
        Amount { mantissa, scale }
    }

    /// A copy equal to `self`.
    pub fn duplicate(&self) -> (r: Amount)
        ensures
            r == *self,
    {
        Amount { mantissa: self.mantissa.clone(), scale: self.scale }
    }
}

/// One tracked deposit. `created_at` is in microseconds since the Unix epoch
/// (UTC); `action` is the action code as the table's 64-bit column holds it.
#[derive(Debug, Clone)]
pub struct Deposit {
    pub deposit_id: String,
    pub user_address: String,
    pub action: i64,
    pub amount: Amount,
    pub token: String,
    pub target_address: String,
    pub deposit_address: String,
    pub status: String,
    pub created_at: i64,
    pub deposit_tx_hash: Option<String>,
    pub btc_tx_hash: Option<String>,
    pub atomiq_swap_id: Option<String>,
}

/// A copy of an optional string, equal to it.
pub fn duplicate_text(o: &Option<String>) -> (r: Option<String>)
    ensures
        r == *o,
{
    match o {
        Some(s) => Some(s.clone()),
        None => None,
    }
}

/// Whether `d` is the row that creating a deposit from these values at time
/// `created_at` inserts.
pub open spec fn is_created_row(
    d: Deposit,
    deposit_id: Seq<char>,
    user_address: Seq<char>,
    action: u128,
    amount: Amount,
    token: Seq<char>,
    target_address: Seq<char>,
    deposit_address: Seq<char>,
    deposit_tx_hash: Option<String>,
    atomiq_swap_id: Option<String>,
    created_at: i64,
) -> bool {
    &&& d.deposit_id@ == deposit_id
    &&& d.user_address@ == user_address
    &&& d.action as int == action as int
    &&& d.amount == amount
    &&& d.token@ == token
    &&& d.target_address@ == target_address
    &&& d.deposit_address@ == deposit_address
    &&& d.status@ == STATUS_CREATED@
    &&& d.created_at == created_at
    &&& d.deposit_tx_hash == deposit_tx_hash
    &&& d.btc_tx_hash is None
    &&& d.atomiq_swap_id == atomiq_swap_id
}

impl Deposit {
    /// The row that creating a deposit inserts: the given values, the status
    /// `"created"`, the given creation time and no Bitcoin transaction hash.
    /// The action code must fit the 64-bit column.
    pub fn created(
        deposit_id: &str,
        user_address: &str,
        action: u128,
        amount: Amount,
        token: &str,
        target_address: &str,
        deposit_address: &str,
        deposit_tx_hash: Option<String>,
        atomiq_swap_id: Option<String>,
        created_at: i64,
    ) -> (r: Deposit)
        requires
            action <= i64::MAX,
        ensures
            is_created_row(
                r,
                deposit_id@,
                user_address@,
                action,
                amount,
                token@,
                target_address@,
                deposit_address@,
                deposit_tx_hash,
                atomiq_swap_id,
                created_at,
            ),
    {
        proof {
            reveal_strlit("created");
        }
        Deposit {
            deposit_id: deposit_id.to_owned(),
            user_address: user_address.to_owned(),
            action: action as i64,
            amount,
            token: token.to_owned(),
            target_address: target_address.to_owned(),
            deposit_address: deposit_address.to_owned(),
            status: STATUS_CREATED.to_owned(),
            created_at,
            deposit_tx_hash,
            btc_tx_hash: None,
            atomiq_swap_id,
        }
    }

    /// The row that creating a deposit now inserts: as `created`, stamped
    /// with the current time.
    pub fn created_now(
        deposit_id: &str,
        user_address: &str,
        action: u128,
        amount: Amount,
        token: &str,
        target_address: &str,
        deposit_address: &str,
        deposit_tx_hash: Option<String>,
        atomiq_swap_id: Option<String>,
    ) -> (r: Deposit)
        requires
            action <= i64::MAX,
        ensures
            is_created_row(
                r,
                deposit_id@,
                user_address@,
                action,
                amount,
                token@,
                target_address@,
                deposit_address@,
                deposit_tx_hash,
                atomiq_swap_id,
                r.created_at,
            ),
    {
        let now = now_micros();
        Deposit::created(
            deposit_id,
            user_address,
            action,
            amount,
            token,
            target_address,
            deposit_address,
            deposit_tx_hash,
            atomiq_swap_id,
            now,
        )
    }

    /// A copy equal to `self`.
    pub fn duplicate(&self) -> (r: Deposit)
        ensures
            r == *self,
    {
        Deposit {
            deposit_id: self.deposit_id.clone(),
            user_address: self.user_address.clone(),
            action: self.action,
            amount: self.amount.duplicate(),
            token: self.token.clone(),
            target_address: self.target_address.clone(),
            deposit_address: self.deposit_address.clone(),
            status: self.status.clone(),
            created_at: self.created_at,
            deposit_tx_hash: duplicate_text(&self.deposit_tx_hash),
            btc_tx_hash: duplicate_text(&self.btc_tx_hash),
            atomiq_swap_id: duplicate_text(&self.atomiq_swap_id),
        }
    }
}

} // verus!
