//! Tests of the prepared-statement LRU cache on its own.

use rsfbclient::ops::StmtType;
use rsfbclient::stmt_cache::{StatementData, StmtCache};

fn mk_test_data(n: usize) -> StatementData {
    StatementData {
        sql: format!("sql {}", n),
        stmt: n,
        stmt_type: StmtType::Select,
    }
}

#[test]
fn stmt_cache_test() {
    let mut cache = StmtCache::new(2);

    let sql1 = mk_test_data(1);
    let sql2 = mk_test_data(2);
    let sql3 = mk_test_data(3);
    let sql4 = mk_test_data(4);
    let sql5 = mk_test_data(5);
    let sql6 = mk_test_data(6);

    assert!(cache.get(&sql1.sql).is_none());

    assert!(cache.insert(sql1).is_none());

    assert!(cache.insert(sql2).is_none());

    let stmt = cache.insert(sql3).expect("sql1 not returned");
    assert_eq!(stmt.stmt, 1);

    assert!(cache.get("sql 1").is_none());

    // Marks sql2 as recently used, so 3 must be removed in the next insert
    let sql2 = cache.get("sql 2").expect("Sql 2 not in the cache");
    assert!(cache.insert(sql2).is_none());

    let stmt = cache.insert(sql4).expect("sql3 not returned");
    assert_eq!(stmt.stmt, 3);

    let stmt = cache.insert(sql5).expect("sql2 not returned");
    assert_eq!(stmt.stmt, 2);

    let stmt = cache.insert(sql6).expect("sql4 not returned");
    assert_eq!(stmt.stmt, 4);

    assert_eq!(cache.get("sql 5").expect("sql5 not in the cache").stmt, 5);
    assert_eq!(cache.get("sql 6").expect("sql6 not in the cache").stmt, 6);

    assert_eq!(cache.len(), 0);
}

#[test]
fn get_right_after_insert_returns_that_entry() {
    let mut cache = StmtCache::new(3);
    assert!(cache.insert(mk_test_data(7)).is_none());
    let got = cache.get("sql 7").expect("entry vanished");
    assert_eq!(got.sql, "sql 7");
    assert_eq!(got.stmt, 7);
    assert!(matches!(got.stmt_type, StmtType::Select));
}

#[test]
fn never_holds_more_than_capacity() {
    let mut cache = StmtCache::new(4);
    for n in 0..50 {
        cache.insert(mk_test_data(n));
        assert!(cache.len() <= 4);
    }
    assert_eq!(cache.len(), 4);
    assert_eq!(cache.capacity(), 4);
}

#[test]
fn capacity_zero_insert_is_a_no_op_returning_the_argument() {
    let mut cache = StmtCache::new(0);
    let evicted = cache.insert(mk_test_data(9)).expect("argument not handed back");
    assert_eq!(evicted.sql, "sql 9");
    assert_eq!(evicted.stmt, 9);
    assert_eq!(cache.len(), 0);
    assert!(cache.get("sql 9").is_none());
}

#[test]
fn promoted_entry_is_evicted_last() {
    let mut cache = StmtCache::new(3);
    assert!(cache.insert(mk_test_data(1)).is_none());
    assert!(cache.insert(mk_test_data(2)).is_none());
    assert!(cache.insert(mk_test_data(3)).is_none());

    // Promote entry 1: a hit loans it out, re-inserting makes it the most
    // recently used.
    let hit = cache.get("sql 1").expect("sql 1 should be present");
    assert!(cache.insert(hit).is_none());

    // Fresh inserts now evict 2 and 3 before 1.
    assert_eq!(cache.insert(mk_test_data(10)).expect("evicts 2").stmt, 2);
    assert_eq!(cache.insert(mk_test_data(11)).expect("evicts 3").stmt, 3);
    assert_eq!(cache.insert(mk_test_data(12)).expect("evicts 1 last").stmt, 1);
}

#[test]
fn insert_same_sql_displaces_the_old_entry() {
    let mut cache = StmtCache::new(2);
    assert!(cache.insert(mk_test_data(1)).is_none());
    let mut replacement = mk_test_data(1);
    replacement.stmt = 100;
    let displaced = cache.insert(replacement).expect("old entry not displaced");
    assert_eq!(displaced.stmt, 1);
    assert_eq!(cache.len(), 1);
    assert_eq!(cache.get("sql 1").expect("replacement missing").stmt, 100);
}

#[test]
fn take_lru_drains_in_least_recent_order() {
    let mut cache = StmtCache::new(3);
    assert!(cache.insert(mk_test_data(1)).is_none());
    assert!(cache.insert(mk_test_data(2)).is_none());
    assert!(cache.insert(mk_test_data(3)).is_none());
    assert_eq!(cache.take_lru().expect("first").stmt, 1);
    assert_eq!(cache.take_lru().expect("second").stmt, 2);
    assert_eq!(cache.take_lru().expect("third").stmt, 3);
    assert!(cache.take_lru().is_none());
}
