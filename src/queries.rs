//! The SQL statements the repository runs against the `deposits` table.

use vstd::prelude::*;

verus! {

/// Inserts one row; binds, in order: deposit id, user address, action,
/// amount, token, target address, deposit address, status, creation time,
/// deposit transaction hash, Bitcoin transaction hash, swap id.
pub const INSERT_DEPOSIT: &'static str = "INSERT INTO deposits (deposit_id, user_address, action, amount, token, target_address, deposit_address, status, created_at, deposit_tx_hash, btc_tx_hash, atomiq_swap_id) VALUES ($1, $2, $3, $4, $5, $6, $7, $8, $9, $10, $11, $12) RETURNING deposit_id, user_address, action, amount, token, target_address, deposit_address, status, created_at, deposit_tx_hash, btc_tx_hash, atomiq_swap_id";

/// Selects the row with the deposit id bound as `$1`.
pub const SELECT_DEPOSIT_BY_ID: &'static str = "SELECT deposit_id, user_address, action, amount, token, target_address, deposit_address, status, created_at, deposit_tx_hash, btc_tx_hash, atomiq_swap_id FROM deposits WHERE deposit_id = $1";

/// Selects the rows with the status bound as `$1`, newest first.
pub const SELECT_DEPOSITS_BY_STATUS: &'static str = "SELECT deposit_id, user_address, action, amount, token, target_address, deposit_address, status, created_at, deposit_tx_hash, btc_tx_hash, atomiq_swap_id FROM deposits WHERE status = $1 ORDER BY created_at DESC";

/// Selects the rows of the user address bound as `$1`, newest first.
pub const SELECT_DEPOSITS_BY_USER_ADDRESS: &'static str = "SELECT deposit_id, user_address, action, amount, token, target_address, deposit_address, status, created_at, deposit_tx_hash, btc_tx_hash, atomiq_swap_id FROM deposits WHERE user_address = $1 ORDER BY created_at DESC";

/// Sets the swap id bound as `$1` on the row with the deposit id bound as `$2`.
pub const UPDATE_ATOMIQ_SWAP_ID: &'static str = "UPDATE deposits SET atomiq_swap_id = $1 WHERE deposit_id = $2";

/// Sets the Bitcoin transaction hash bound as `$1` on the row with the
/// deposit id bound as `$2`.
pub const UPDATE_BTC_TX_HASH: &'static str = "UPDATE deposits SET btc_tx_hash = $1 WHERE deposit_id = $2";

} // verus!
