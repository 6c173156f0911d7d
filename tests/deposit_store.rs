use orderbook::deposit::{Amount, Deposit, STATUS_CREATED};
use orderbook::queries::{SELECT_DEPOSITS_BY_STATUS, UPDATE_BTC_TX_HASH};
use orderbook::store::{DepositStore, StoreError};

fn amount() -> Amount {
    Amount::new("150000".to_string(), 5)
}

fn same(a: &Deposit, b: &Deposit) -> bool {
    a.deposit_id == b.deposit_id
        && a.user_address == b.user_address
        && a.action == b.action
        && a.amount.mantissa == b.amount.mantissa
        && a.amount.scale == b.amount.scale
        && a.token == b.token
        && a.target_address == b.target_address
        && a.deposit_address == b.deposit_address
        && a.status == b.status
        && a.created_at == b.created_at
        && a.deposit_tx_hash == b.deposit_tx_hash
        && a.btc_tx_hash == b.btc_tx_hash
        && a.atomiq_swap_id == b.atomiq_swap_id
}

fn seed(store: &mut DepositStore, id: &str, user: &str, at: i64) -> Deposit {
    store
        .create_deposit_at(id, user, 1, amount(), "0xtoken", "bc1target", "0xdeposit", None, None, at)
        .unwrap()
}

fn seeded_row(id: &str, user: &str, status: &str, at: i64) -> Deposit {
    let mut d = Deposit::created(id, user, 2, amount(), "0xtoken", "bc1target", "0xdeposit", None, None, at);
    d.status = status.to_string();
    d
}

#[test]
fn create_then_get_returns_the_same_row() {
    let mut store = DepositStore::new();
    let created = store
        .create_deposit_at(
            "0xabc",
            "0xuser",
            7,
            amount(),
            "0xtoken",
            "bc1target",
            "0xdeposit",
            Some("0xtx".to_string()),
            Some("swap-1".to_string()),
            1_700_000_000_000_000,
        )
        .unwrap();
    assert_eq!(created.status, "created");
    assert_eq!(created.btc_tx_hash, None);
    assert_eq!(created.action, 7);
    assert_eq!(created.deposit_tx_hash, Some("0xtx".to_string()));
    assert_eq!(created.atomiq_swap_id, Some("swap-1".to_string()));
    assert_eq!(created.amount.mantissa, "150000");
    assert_eq!(created.amount.scale, 5);
    let fetched = store.get_deposit("0xabc").unwrap();
    assert!(same(&created, &fetched));
    assert_eq!(store.len(), 1);
}

#[test]
fn create_now_stamps_a_time_and_the_created_status() {
    let mut store = DepositStore::new();
    let created = store
        .create_deposit("0x01", "0xuser", 3, amount(), "t", "a", "d", None, None)
        .unwrap();
    assert_eq!(created.status, STATUS_CREATED);
    assert_eq!(created.btc_tx_hash, None);
    assert!(created.created_at > 1_600_000_000_000_000);
    assert!(same(&created, &store.get_deposit("0x01").unwrap()));
}

#[test]
fn duplicate_id_is_refused_and_first_row_kept() {
    let mut store = DepositStore::new();
    let first = seed(&mut store, "0xdup", "0xalice", 10);
    let second = store.create_deposit_at("0xdup", "0xbob", 9, amount(), "x", "y", "z", None, None, 20);
    assert_eq!(second.err(), Some(StoreError::DuplicateDepositId));
    assert_eq!(store.len(), 1);
    assert!(same(&first, &store.get_deposit("0xdup").unwrap()));
}

#[test]
fn insert_of_a_taken_id_is_refused() {
    let mut store = DepositStore::new();
    seed(&mut store, "0x1", "0xalice", 10);
    assert_eq!(store.insert(seeded_row("0x1", "0xbob", "initiated", 5)), Err(StoreError::DuplicateDepositId));
    assert_eq!(store.get_deposit("0x1").unwrap().status, "created");
}

#[test]
fn get_of_a_missing_id_is_none() {
    let mut store = DepositStore::new();
    assert!(store.get_deposit("0xnothing").is_none());
    seed(&mut store, "0x1", "0xalice", 10);
    assert!(store.get_deposit("0xnothing").is_none());
}

#[test]
fn by_status_returns_the_matching_rows_newest_first() {
    let mut store = DepositStore::new();
    store.insert(seeded_row("a", "0xuser", "created", 100)).unwrap();
    store.insert(seeded_row("b", "0xuser", "initiated", 200)).unwrap();
    store.insert(seeded_row("c", "0xuser", "deposited", 300)).unwrap();
    store.insert(seeded_row("d", "0xuser", "initiated", 400)).unwrap();
    store.insert(seeded_row("e", "0xuser", "initiated", 150)).unwrap();
    let ids: Vec<String> = store
        .get_deposits_by_status("initiated")
        .into_iter()
        .map(|d| d.deposit_id)
        .collect();
    assert_eq!(ids, vec!["d".to_string(), "b".to_string(), "e".to_string()]);
    let created: Vec<String> = store.get_deposits_by_status("created").into_iter().map(|d| d.deposit_id).collect();
    assert_eq!(created, vec!["a".to_string()]);
    assert!(store.get_deposits_by_status("refunded").is_empty());
}

#[test]
fn equal_times_list_the_later_insert_first() {
    let mut store = DepositStore::new();
    store.insert(seeded_row("x", "u", "created", 50)).unwrap();
    store.insert(seeded_row("y", "u", "created", 50)).unwrap();
    let ids: Vec<String> = store.get_deposits_by_user_address("u").into_iter().map(|d| d.deposit_id).collect();
    assert_eq!(ids, vec!["y".to_string(), "x".to_string()]);
}

#[test]
fn update_btc_tx_hash_changes_only_that_field() {
    let mut store = DepositStore::new();
    let before = seed(&mut store, "0xid", "0xalice", 10);
    seed(&mut store, "0xother", "0xalice", 11);
    store.update_btc_tx_hash("0xid", "abc123");
    let after = store.get_deposit("0xid").unwrap();
    assert_eq!(after.btc_tx_hash, Some("abc123".to_string()));
    let mut expected = before;
    expected.btc_tx_hash = Some("abc123".to_string());
    assert!(same(&expected, &after));
    assert_eq!(store.get_deposit("0xother").unwrap().btc_tx_hash, None);
}

#[test]
fn update_atomiq_swap_id_sets_the_field() {
    let mut store = DepositStore::new();
    seed(&mut store, "0xid", "0xalice", 10);
    store.update_atomiq_swap_id("0xid", "swap-9");
    assert_eq!(store.get_deposit("0xid").unwrap().atomiq_swap_id, Some("swap-9".to_string()));
    store.update_atomiq_swap_id("0xid", "swap-10");
    assert_eq!(store.get_deposit("0xid").unwrap().atomiq_swap_id, Some("swap-10".to_string()));
}

#[test]
fn update_of_a_missing_id_changes_nothing() {
    let mut store = DepositStore::new();
    let kept = seed(&mut store, "0xid", "0xalice", 10);
    store.update_atomiq_swap_id("0xmissing", "swap-1");
    store.update_btc_tx_hash("0xmissing", "abc123");
    assert_eq!(store.len(), 1);
    assert!(store.get_deposit("0xmissing").is_none());
    assert!(same(&kept, &store.get_deposit("0xid").unwrap()));
}

#[test]
fn by_user_address_returns_only_that_user_newest_first() {
    let mut store = DepositStore::new();
    seed(&mut store, "a1", "0xalice", 100);
    seed(&mut store, "b1", "0xbob", 150);
    seed(&mut store, "a2", "0xalice", 300);
    seed(&mut store, "c1", "0xcarol", 50);
    seed(&mut store, "a3", "0xalice", 200);
    let alice = store.get_deposits_by_user_address("0xalice");
    let ids: Vec<String> = alice.iter().map(|d| d.deposit_id.clone()).collect();
    assert_eq!(ids, vec!["a2".to_string(), "a3".to_string(), "a1".to_string()]);
    assert!(alice.iter().all(|d| d.user_address == "0xalice"));
    assert_eq!(store.get_deposits_by_user_address("0xbob").len(), 1);
    assert!(store.get_deposits_by_user_address("0xdave").is_empty());
}

#[test]
fn created_row_narrows_action_to_the_column() {
    let d = Deposit::created("id", "u", i64::MAX as u128, amount(), "t", "a", "d", None, None, -5);
    assert_eq!(d.action, i64::MAX);
    assert_eq!(d.created_at, -5);
    assert_eq!(d.status, "created");
}

#[test]
fn statements_bind_in_the_documented_order() {
    assert!(SELECT_DEPOSITS_BY_STATUS.ends_with("WHERE status = $1 ORDER BY created_at DESC"));
    assert!(UPDATE_BTC_TX_HASH.contains("SET btc_tx_hash = $1 WHERE deposit_id = $2"));
}
