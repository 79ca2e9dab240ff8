//! The prepared-statement LRU cache.
//!
//! A bounded map from exact SQL text (byte-equal, no normalization) to a
//! prepared statement's arena slot and type. `get` *removes* the entry it
//! returns: while a statement is in use the cache never also owns it, so a
//! handle is always held in exactly one place. `insert` returns the entry
//! it displaced — the previous entry for the same SQL, or the
//! least-recently-used entry when the cache was full — and the caller is
//! responsible for releasing that entry's server handle.

use vstd::prelude::*;

use crate::lru::{
    lru_capacity,
    lru_entries,
    lru_has_key,
    lru_index_of,
    lru_insert,
    lru_keys_distinct,
    lru_len,
    lru_new,
    lru_remove,
    lru_remove_lru,
    LruPair,
    RawLru,
};
use crate::ops::StmtType;

verus! {

/// A cached prepared statement: its exact SQL text, the arena slot that
/// holds its server handle, and its statement type.
#[derive(Debug, Clone)]
pub struct StatementData {
    pub sql: String,
    pub stmt: usize,
    pub stmt_type: StmtType,
}

/// The statement-type code an entry is stored under.
pub open spec fn spec_stmt_type_code(t: StmtType) -> u64 {
    match t {
        StmtType::Select => 0,
        StmtType::Insert => 1,
        StmtType::Update => 2,
        StmtType::Delete => 3,
        StmtType::Ddl => 4,
        StmtType::SetGenerator => 5,
        StmtType::Savepoint => 6,
        StmtType::Other => 7,
    }
}

/// The statement type stored under a code.
pub open spec fn spec_stmt_type_of_code(c: u64) -> StmtType {
    if c == 0 {
        StmtType::Select
    } else if c == 1 {
        StmtType::Insert
    } else if c == 2 {
        StmtType::Update
    } else if c == 3 {
        StmtType::Delete
    } else if c == 4 {
        StmtType::Ddl
    } else if c == 5 {
        StmtType::SetGenerator
    } else if c == 6 {
        StmtType::Savepoint
    } else {
        StmtType::Other
    }
}

fn stmt_type_code(t: StmtType) -> (r: u64)
    ensures
        r == spec_stmt_type_code(t),
{
    match t {
        StmtType::Select => 0,
        StmtType::Insert => 1,
        StmtType::Update => 2,
        StmtType::Delete => 3,
        StmtType::Ddl => 4,
        StmtType::SetGenerator => 5,
        StmtType::Savepoint => 6,
        StmtType::Other => 7,
    }
}

fn stmt_type_of_code(c: u64) -> (r: StmtType)
    ensures
        r == spec_stmt_type_of_code(c),
{
    if c == 0 {
        StmtType::Select
    } else if c == 1 {
        StmtType::Insert
    } else if c == 2 {
        StmtType::Update
    } else if c == 3 {
        StmtType::Delete
    } else if c == 4 {
        StmtType::Ddl
    } else if c == 5 {
        StmtType::SetGenerator
    } else if c == 6 {
        StmtType::Savepoint
    } else {
        StmtType::Other
    }
}

impl StatementData {
    /// The modelled (key, slot, type code) triple of this entry.
    pub open spec fn triple(self) -> LruPair {
        (self.sql@, self.stmt, spec_stmt_type_code(self.stmt_type))
    }
}

/// Every stored type code names a statement type exactly.
pub open spec fn codes_valid(m: Seq<LruPair>) -> bool {
    forall|i: int| 0 <= i < m.len() ==> (#[trigger] m[i]).2 < 8
}

/// What `get` does to the modelled cache: on a hit the entry is removed and
/// handed out, on a miss nothing changes.
pub open spec fn spec_cache_get(m: Seq<LruPair>, k: Seq<char>) -> (Seq<LruPair>, Option<LruPair>) {
    if lru_has_key(m, k) {
        let i = lru_index_of(m, k);
        (m.remove(i), Some(m[i]))
    } else {
        (m, None)
    }
}

/// What `insert` does to the modelled cache. With capacity zero it is a
/// no-op that hands the argument straight back. An entry whose key is
/// present replaces the old entry, which is displaced. Otherwise the entry
/// is attached at the most-recently-used end, displacing the
/// least-recently-used entry when the cache was full.
pub open spec fn spec_cache_insert(m: Seq<LruPair>, cap: nat, e: LruPair) -> (
    Seq<LruPair>,
    Option<LruPair>,
) {
    if cap == 0 {
        (m, Some(e))
    } else if lru_has_key(m, e.0) {
        let i = lru_index_of(m, e.0);
        (m.remove(i).push(e), Some(m[i]))
    } else if m.len() >= cap {
        (m.drop_first().push(e), Some(m[0]))
    } else {
        (m.push(e), None)
    }
}

/// Cache of prepared statements.
pub struct StmtCache {
    lru: RawLru,
    capacity: usize,
}

impl StmtCache {
    /// The modelled contents, in least- to most-recently-used order.
    pub closed spec fn entries(self) -> Seq<LruPair> {
        lru_entries(self.lru)
    }

    /// The configured capacity.
    pub closed spec fn spec_capacity(self) -> nat {
        self.capacity as nat
    }

    /// Well-formedness: the mirror capacity matches the backing cache's,
    /// the cache is never over capacity, keys are unique and stored type
    /// codes valid.
    pub closed spec fn wf(self) -> bool {
        &&& lru_capacity(self.lru) == self.capacity as nat
        &&& self.entries().len() <= self.capacity
        &&& lru_keys_distinct(self.entries())
        &&& codes_valid(self.entries())
    }

    /// Creates an empty cache holding at most `capacity` statements.
    pub fn new(capacity: usize) -> (r: Self)
        ensures
            r.wf(),
            r.entries() == Seq::<LruPair>::empty(),
            r.spec_capacity() == capacity as nat,
    {
        StmtCache { lru: lru_new(capacity), capacity }
    }

    /// The number of statements currently held.
    pub fn len(&self) -> (r: usize)
        ensures
            r as nat == self.entries().len(),
    {
        lru_len(&self.lru)
    }

    /// The configured capacity.
    pub fn capacity(&self) -> (r: usize)
        ensures
            r as nat == self.spec_capacity(),
    {
        self.capacity
    }

    /// Gets a prepared statement from the cache. On a hit the entry is
    /// removed: it is loaned out to the caller, who must return it with
    /// `insert` when done.
    pub fn get(&mut self, sql: &str) -> (r: Option<StatementData>)
        requires
            old(self).wf(),
        ensures
            final(self).wf(),
            final(self).spec_capacity() == old(self).spec_capacity(),
            final(self).entries() == spec_cache_get(old(self).entries(), sql@).0,
            match r {
                Option::None => spec_cache_get(old(self).entries(), sql@).1 is None,
                Option::Some(d) => spec_cache_get(old(self).entries(), sql@).1 == Some(d.triple()),
            },
    {
        let key = String::from_str(sql);
        match lru_remove(&mut self.lru, &key) {
            Option::None => None,
            Option::Some((slot, code)) => {
                proof {
                    let m = old(self).entries();
                    let i = lru_index_of(m, key@);
                    assert(0 <= i < m.len() && m[i].0 == key@);
                }
                Some(
                    StatementData {
                        sql: key,
                        stmt: slot,
                        stmt_type: stmt_type_of_code(code),
                    },
                )
            },
        }
    }

    /// Adds a prepared statement to the cache, returning the displaced
    /// entry: the previous one for this sql, or the least-recently-used one
    /// if the cache was full, or — with capacity zero — the argument
    /// itself. The caller must release the displaced entry's server handle.
    pub fn insert(&mut self, data: StatementData) -> (r: Option<StatementData>)
        requires
            old(self).wf(),
        ensures
            final(self).wf(),
            final(self).spec_capacity() == old(self).spec_capacity(),
            final(self).entries() == spec_cache_insert(
                old(self).entries(),
                old(self).spec_capacity(),
                data.triple(),
            ).0,
            match r {
                Option::None => spec_cache_insert(
                    old(self).entries(),
                    old(self).spec_capacity(),
                    data.triple(),
                ).1 is None,
                Option::Some(d) => spec_cache_insert(
                    old(self).entries(),
                    old(self).spec_capacity(),
                    data.triple(),
                ).1 == Some(d.triple()),
            },
    {
        if self.capacity == 0 {
            return Some(data);
        }
        let key_copy = data.sql.clone();
        let displaced = match lru_remove(&mut self.lru, &key_copy) {
            Option::Some((slot, code)) => {
                Some(StatementData { sql: key_copy, stmt: slot, stmt_type: stmt_type_of_code(code) })
            },
            Option::None => {
                if lru_len(&self.lru) >= self.capacity {
                    match lru_remove_lru(&mut self.lru) {
                        Option::Some((k, (slot, code))) => {
                            Some(StatementData { sql: k, stmt: slot, stmt_type: stmt_type_of_code(code) })
                        },
                        Option::None => None,
                    }
                } else {
                    None
                }
            },
        };
        let code = stmt_type_code(data.stmt_type);
        lru_insert(&mut self.lru, data.sql, (data.stmt, code));
        displaced
    }

    /// Law: however the cache was filled, it never holds more entries than
    /// its configured capacity.
    pub proof fn lemma_never_over_capacity(self)
        requires
            self.wf(),
        ensures
            self.entries().len() <= self.spec_capacity(),
    {
    }

    /// A well-formed cache has pairwise-distinct keys and valid stored
    /// type codes: the facts the cache laws ask of a model, exported so
    /// the laws apply to any real cache.
    pub proof fn lemma_wf_model(self)
        requires
            self.wf(),
        ensures
            lru_keys_distinct(self.entries()),
            codes_valid(self.entries()),
            self.entries().len() <= self.spec_capacity(),
    {
    }

    /// Removes and returns the least-recently-used entry, or `None` when
    /// the cache is empty. Used to drain the cache at teardown.
    pub fn take_lru(&mut self) -> (r: Option<StatementData>)
        requires
            old(self).wf(),
        ensures
            final(self).wf(),
            final(self).spec_capacity() == old(self).spec_capacity(),
            old(self).entries().len() == 0 ==> r is None && final(self).entries() == old(
                self,
            ).entries(),
            old(self).entries().len() > 0 ==> {
                &&& r matches Some(d) && d.triple() == old(self).entries()[0]
                &&& final(self).entries() == old(self).entries().drop_first()
            },
    {
        match lru_remove_lru(&mut self.lru) {
            Option::Some((k, (slot, code))) => {
                Some(StatementData { sql: k, stmt: slot, stmt_type: stmt_type_of_code(code) })
            },
            Option::None => None,
        }
    }
}

/// With a distinct-keyed model, the index of a present key is unique.
proof fn lemma_index_of_unique(m: Seq<LruPair>, k: Seq<char>)
    requires
        lru_keys_distinct(m),
        lru_has_key(m, k),
    ensures
        0 <= lru_index_of(m, k) < m.len(),
        m[lru_index_of(m, k)].0 == k,
        forall|i: int| 0 <= i < m.len() && (#[trigger] m[i]).0 == k ==> i == lru_index_of(m, k),
{
    let i0 = lru_index_of(m, k);
    assert(0 <= i0 < m.len() && m[i0].0 == k);
    assert forall|i: int| 0 <= i < m.len() && (#[trigger] m[i]).0 == k implies i == i0 by {
        if i < i0 {
            assert(m[i].0 != m[i0].0);
        } else if i0 < i {
            assert(m[i0].0 != m[i].0);
        }
    }
}

/// Law: with any positive capacity, a `get` of some sql immediately after
/// an `insert` of an entry for that sql returns exactly that entry.
pub proof fn lemma_insert_then_get(m: Seq<LruPair>, cap: nat, e: LruPair)
    requires
        lru_keys_distinct(m),
        cap > 0,
    ensures
        spec_cache_get(spec_cache_insert(m, cap, e).0, e.0).1 == Some(e),
{
    let m1 = spec_cache_insert(m, cap, e).0;
    assert(m1.len() > 0 && m1[m1.len() - 1] == e);
    if lru_has_key(m, e.0) {
        let i = lru_index_of(m, e.0);
        lemma_index_of_unique(m, e.0);
        assert forall|p: int, q: int| 0 <= p < q < m1.len() implies (#[trigger] m1[p]).0 != (
        #[trigger] m1[q]).0 by {
            lemma_remove_keeps_distinct(m, i);
        }
    } else if m.len() >= cap {
        assert forall|p: int, q: int| 0 <= p < q < m1.len() implies (#[trigger] m1[p]).0 != (
        #[trigger] m1[q]).0 by {}
    } else {
        assert forall|p: int, q: int| 0 <= p < q < m1.len() implies (#[trigger] m1[p]).0 != (
        #[trigger] m1[q]).0 by {}
    }
    assert(lru_keys_distinct(m1));
    assert(lru_has_key(m1, e.0));
    lemma_index_of_unique(m1, e.0);
    assert(lru_index_of(m1, e.0) == m1.len() - 1);
}

/// Removing an entry keeps the remaining keys distinct, and no key but the
/// removed one disappears.
proof fn lemma_remove_keeps_distinct(m: Seq<LruPair>, i: int)
    requires
        lru_keys_distinct(m),
        0 <= i < m.len(),
    ensures
        lru_keys_distinct(m.remove(i)),
        forall|k: Seq<char>| lru_has_key(m, k) && k != m[i].0 ==> lru_has_key(m.remove(i), k),
        forall|k: Seq<char>| lru_has_key(m.remove(i), k) ==> lru_has_key(m, k),
{
    let m2 = m.remove(i);
    assert forall|k: Seq<char>| lru_has_key(m, k) && k != m[i].0 implies lru_has_key(m2, k) by {
        let j = lru_index_of(m, k);
        if j < i {
            assert(m2[j].0 == k);
        } else {
            assert(m2[j - 1].0 == k);
        }
    }
    assert forall|k: Seq<char>| lru_has_key(m2, k) implies lru_has_key(m, k) by {
        let j = lru_index_of(m2, k);
        if j < i {
            assert(m[j].0 == k);
        } else {
            assert(m[j + 1].0 == k);
        }
    }
}

/// The modelled cache after a whole run of inserts, first entry first.
pub open spec fn spec_insert_seq(m: Seq<LruPair>, cap: nat, es: Seq<LruPair>) -> Seq<LruPair>
    decreases es.len(),
{
    if es.len() == 0 {
        m
    } else {
        spec_insert_seq(spec_cache_insert(m, cap, es[0]).0, cap, es.drop_first())
    }
}

/// The inserted entries carry keys not in the cache and pairwise distinct.
pub open spec fn keys_fresh(m: Seq<LruPair>, es: Seq<LruPair>) -> bool {
    &&& forall|j: int| 0 <= j < es.len() ==> !lru_has_key(m, (#[trigger] es[j]).0)
    &&& forall|j: int, j2: int|
        0 <= j < j2 < es.len() ==> (#[trigger] es[j]).0 != (#[trigger] es[j2]).0
}

/// One insert introduces no key but its own.
proof fn lemma_insert_step_keys(m: Seq<LruPair>, cap: nat, e: LruPair)
    ensures
        forall|k: Seq<char>|
            lru_has_key(#[trigger] spec_cache_insert(m, cap, e).0, k) ==> lru_has_key(m, k) || k
                == e.0,
{
    let m1 = spec_cache_insert(m, cap, e).0;
    assert forall|k: Seq<char>| lru_has_key(m1, k) implies lru_has_key(m, k) || k == e.0 by {
        let j = lru_index_of(m1, k);
        assert(0 <= j < m1.len() && m1[j].0 == k);
        if cap == 0 {
            assert(m[j].0 == k);
        } else if lru_has_key(m, e.0) {
            let i = lru_index_of(m, e.0);
            if j < m1.len() - 1 {
                if j < i {
                    assert(m[j].0 == k);
                } else {
                    assert(m[j + 1].0 == k);
                }
            }
        } else if m.len() >= cap {
            if j < m1.len() - 1 {
                assert(m[j + 1].0 == k);
            }
        } else {
            if j < m1.len() - 1 {
                assert(m[j].0 == k);
            }
        }
    }
}

/// A whole run of inserts introduces no key but its own.
proof fn lemma_insert_seq_keys(m: Seq<LruPair>, cap: nat, es: Seq<LruPair>)
    ensures
        forall|k: Seq<char>|
            lru_has_key(#[trigger] spec_insert_seq(m, cap, es), k) ==> lru_has_key(m, k) || exists|
                j: int,
            | 0 <= j < es.len() && (#[trigger] es[j]).0 == k,
    decreases es.len(),
{
    if es.len() > 0 {
        let m1 = spec_cache_insert(m, cap, es[0]).0;
        lemma_insert_step_keys(m, cap, es[0]);
        lemma_insert_seq_keys(m1, cap, es.drop_first());
        assert forall|k: Seq<char>| lru_has_key(#[trigger] spec_insert_seq(m, cap, es), k) implies
            lru_has_key(m, k) || exists|j: int|
                0 <= j < es.len() && (#[trigger] es[j]).0 == k by {
            if !lru_has_key(m, k) {
                if lru_has_key(m1, k) && k == es[0].0 {
                    assert(0 <= 0 < es.len() && es[0].0 == k);
                } else {
                    let j = choose|j: int|
                        0 <= j < es.drop_first().len() && (#[trigger] es.drop_first()[j]).0 == k;
                    assert(es[j + 1].0 == k);
                }
            }
        }
    }
}

/// While both keys are present with `ka` nearer the least-recently-used
/// end, any run of fresh inserts that leaves `ka` in the cache leaves `kb`
/// in it too: eviction always takes the front entry.
proof fn lemma_eviction_respects_order(
    m: Seq<LruPair>,
    cap: nat,
    es: Seq<LruPair>,
    ka: Seq<char>,
    kb: Seq<char>,
)
    requires
        lru_keys_distinct(m),
        m.len() <= cap,
        lru_has_key(m, ka),
        lru_has_key(m, kb),
        lru_index_of(m, ka) < lru_index_of(m, kb),
        keys_fresh(m, es),
    ensures
        lru_has_key(spec_insert_seq(m, cap, es), ka) ==> lru_has_key(
            spec_insert_seq(m, cap, es),
            kb,
        ),
    decreases es.len(),
{
    if es.len() == 0 {
        return ;
    }
    let e = es[0];
    let es1 = es.drop_first();
    let m1 = spec_cache_insert(m, cap, e).0;
    let mf = spec_insert_seq(m, cap, es);
    lemma_index_of_unique(m, ka);
    lemma_index_of_unique(m, kb);
    let ia = lru_index_of(m, ka);
    let ib = lru_index_of(m, kb);
    assert(!lru_has_key(m, e.0));
    assert(cap > 0);
    lemma_insert_step_keys(m, cap, e);
    if m.len() >= cap {
        // The front entry is evicted and the fresh one attached at the back.
        assert(m1 == m.drop_first().push(e));
        if ia == 0 {
            // `ka` itself is evicted and, all keys being fresh, never returns.
            assert(!lru_has_key(m.drop_first(), ka)) by {
                if lru_has_key(m.drop_first(), ka) {
                    let j = lru_index_of(m.drop_first(), ka);
                    assert(m[j + 1].0 == ka);
                    lemma_index_of_unique(m, ka);
                }
            }
            assert(!lru_has_key(m1, ka)) by {
                if lru_has_key(m1, ka) {
                    let j = lru_index_of(m1, ka);
                    assert(m1[j].0 == ka);
                    if j < m1.len() - 1 {
                        assert(m.drop_first()[j].0 == ka);
                        assert(lru_has_key(m.drop_first(), ka));
                    }
                }
            }
            lemma_insert_seq_keys(m1, cap, es1);
            if lru_has_key(mf, ka) {
                assert(lru_has_key(spec_insert_seq(m1, cap, es1), ka));
                let j = choose|j: int| 0 <= j < es1.len() && (#[trigger] es1[j]).0 == ka;
                assert(es[j + 1].0 == ka);
                assert(!lru_has_key(m, es[j + 1].0));
                assert(false);
            }
        } else {
            // Both keys survive, shifted one towards the front.
            assert(lru_keys_distinct(m1)) by {
                assert forall|p: int, q: int| 0 <= p < q < m1.len() implies (#[trigger] m1[p]).0
                    != (#[trigger] m1[q]).0 by {
                    if q < m1.len() - 1 {
                        assert(m1[p].0 == m[p + 1].0 && m1[q].0 == m[q + 1].0);
                    } else {
                        assert(m1[q].0 == e.0);
                        assert(m1[p].0 == m[p + 1].0);
                        assert(lru_has_key(m, m[p + 1].0));
                    }
                }
            }
            assert(m1[ia - 1].0 == ka && m1[ib - 1].0 == kb);
            assert(lru_has_key(m1, ka) && lru_has_key(m1, kb));
            lemma_index_of_unique(m1, ka);
            lemma_index_of_unique(m1, kb);
            assert(lru_index_of(m1, ka) == ia - 1 && lru_index_of(m1, kb) == ib - 1);
            assert(keys_fresh(m1, es1)) by {
                assert forall|j: int| 0 <= j < es1.len() implies !lru_has_key(
                    m1,
                    (#[trigger] es1[j]).0,
                ) by {
                    assert(es1[j] == es[j + 1]);
                    if lru_has_key(m1, es1[j].0) {
                        assert(lru_has_key(m, es1[j].0) || es1[j].0 == e.0);
                    }
                }
                assert forall|j: int, j2: int| 0 <= j < j2 < es1.len() implies (
                #[trigger] es1[j]).0 != (#[trigger] es1[j2]).0 by {
                    assert(es1[j] == es[j + 1] && es1[j2] == es[j2 + 1]);
                }
            }
            lemma_eviction_respects_order(m1, cap, es1, ka, kb);
        }
    } else {
        // Room to spare: the fresh entry is attached at the back and every
        // position is unchanged.
        assert(m1 == m.push(e));
        assert(lru_keys_distinct(m1)) by {
            assert forall|p: int, q: int| 0 <= p < q < m1.len() implies (#[trigger] m1[p]).0 != (
            #[trigger] m1[q]).0 by {
                if q == m1.len() - 1 {
                    assert(m1[p].0 == m[p].0);
                    assert(lru_has_key(m, m[p].0));
                }
            }
        }
        assert(m1[ia].0 == ka && m1[ib].0 == kb);
        assert(lru_has_key(m1, ka) && lru_has_key(m1, kb));
        lemma_index_of_unique(m1, ka);
        lemma_index_of_unique(m1, kb);
        assert(keys_fresh(m1, es1)) by {
            assert forall|j: int| 0 <= j < es1.len() implies !lru_has_key(
                m1,
                (#[trigger] es1[j]).0,
            ) by {
                assert(es1[j] == es[j + 1]);
                if lru_has_key(m1, es1[j].0) {
                    assert(lru_has_key(m, es1[j].0) || es1[j].0 == e.0);
                }
            }
            assert forall|j: int, j2: int| 0 <= j < j2 < es1.len() implies (#[trigger] es1[j]).0
                != (#[trigger] es1[j2]).0 by {
                assert(es1[j] == es[j + 1] && es1[j2] == es[j2 + 1]);
            }
        }
        lemma_eviction_respects_order(m1, cap, es1, ka, kb);
    }
}

/// A hit followed by re-inserting the returned entry moves the key to the
/// most-recently-used end; every other key survives with its position
/// before the promoted one.
pub proof fn lemma_promotion(m: Seq<LruPair>, cap: nat, k: Seq<char>)
    requires
        lru_keys_distinct(m),
        m.len() <= cap,
        lru_has_key(m, k),
    ensures
        ({
            let e = m[lru_index_of(m, k)];
            let m1 = spec_cache_insert(spec_cache_get(m, k).0, cap, e).0;
            &&& m1.len() == m.len()
            &&& lru_keys_distinct(m1)
            &&& lru_has_key(m1, k) && lru_index_of(m1, k) == m1.len() - 1
            &&& forall|k2: Seq<char>| #![trigger lru_has_key(m, k2)]
                lru_has_key(m, k2) && k2 != k ==> lru_has_key(m1, k2) && lru_index_of(
                    m1,
                    k2,
                ) < lru_index_of(m1, k)
            &&& forall|k2: Seq<char>| #[trigger] lru_has_key(m1, k2) ==> lru_has_key(m, k2)
        }),
{
    lemma_index_of_unique(m, k);
    let i = lru_index_of(m, k);
    let e = m[i];
    let mr = m.remove(i);
    lemma_remove_keeps_distinct(m, i);
    assert(spec_cache_get(m, k).0 == mr);
    assert(!lru_has_key(mr, e.0)) by {
        if lru_has_key(mr, e.0) {
            let j = lru_index_of(mr, e.0);
            if j < i {
                assert(m[j].0 == k);
            } else {
                assert(m[j + 1].0 == k);
            }
            lemma_index_of_unique(m, k);
        }
    }
    assert(mr.len() < cap);
    let m1 = spec_cache_insert(mr, cap, e).0;
    assert(m1 == mr.push(e));
    assert(lru_keys_distinct(m1)) by {
        assert forall|p: int, q: int| 0 <= p < q < m1.len() implies (#[trigger] m1[p]).0 != (
        #[trigger] m1[q]).0 by {
            if q == m1.len() - 1 {
                assert(m1[p].0 == mr[p].0);
                assert(lru_has_key(mr, mr[p].0));
            }
        }
    }
    assert(m1[m1.len() - 1].0 == k);
    assert(lru_has_key(m1, k));
    lemma_index_of_unique(m1, k);
    assert forall|k2: Seq<char>| lru_has_key(m, k2) && k2 != k implies #[trigger] lru_has_key(
        m1,
        k2,
    ) && lru_index_of(m1, k2) < lru_index_of(m1, k) by {
        lemma_index_of_unique(m, k2);
        let j = lru_index_of(m, k2);
        let j1: int = if j < i {
            j
        } else {
            j - 1
        };
        assert(m1[j1].0 == k2);
        assert(lru_has_key(m1, k2));
        lemma_index_of_unique(m1, k2);
        assert(lru_index_of(m1, k2) == j1);
    }
    assert forall|k2: Seq<char>| #[trigger] lru_has_key(m1, k2) implies lru_has_key(m, k2) by {
        let j = lru_index_of(m1, k2);
        if j < m1.len() - 1 {
            assert(mr[j].0 == k2);
            assert(lru_has_key(mr, k2));
        } else {
            assert(m[i].0 == k2);
        }
    }
}

/// Law: fill a cache, `get` some present key (a hit), re-insert the
/// returned entry, then insert fresh statements at will: the promoted key
/// is the last of the previously-present keys to be evicted. If it is
/// gone, every other key that was present at the promotion is gone too.
pub proof fn lemma_promoted_key_evicted_last(
    m: Seq<LruPair>,
    cap: nat,
    k: Seq<char>,
    es: Seq<LruPair>,
)
    requires
        lru_keys_distinct(m),
        m.len() <= cap,
        lru_has_key(m, k),
        keys_fresh(m, es),
    ensures
        ({
            let e = m[lru_index_of(m, k)];
            let m1 = spec_cache_insert(spec_cache_get(m, k).0, cap, e).0;
            let mf = spec_insert_seq(m1, cap, es);
            !lru_has_key(mf, k) ==> forall|k2: Seq<char>|
                lru_has_key(m, k2) && k2 != k ==> !#[trigger] lru_has_key(mf, k2)
        }),
{
    lemma_promotion(m, cap, k);
    let e = m[lru_index_of(m, k)];
    let m1 = spec_cache_insert(spec_cache_get(m, k).0, cap, e).0;
    let mf = spec_insert_seq(m1, cap, es);
    assert(keys_fresh(m1, es)) by {
        assert forall|j: int| 0 <= j < es.len() implies !lru_has_key(m1, (#[trigger] es[j]).0) by {
            if lru_has_key(m1, es[j].0) {
                assert(lru_has_key(m, es[j].0));
            }
        }
    }
    if !lru_has_key(mf, k) {
        assert forall|k2: Seq<char>| lru_has_key(m, k2) && k2 != k implies !#[trigger] lru_has_key(
            mf,
            k2,
        ) by {
            lemma_promotion(m, cap, k);
            assert(lru_has_key(m1, k2) && lru_index_of(m1, k2) < lru_index_of(m1, k));
            lemma_eviction_respects_order(m1, cap, es, k2, k);
        }
    }
}

/// Law: with capacity zero the cache stays empty — `insert` is a no-op
/// that returns its argument as the displaced entry.
pub proof fn lemma_insert_capacity_zero(m: Seq<LruPair>, e: LruPair)
    ensures
        spec_cache_insert(m, 0, e) == (m, Some(e)),
{
}

} // verus!
