//! The per-session handle state: a driver instance together with the raw
//! database / transaction / statement handles, the arena of prepared
//! statements, the set of open cursors and the transaction state flag.
//!
//! This layer enforces every precondition the driver cannot check itself:
//! no SQL operation without an attached database, no statement operation
//! without an active transaction, and release of the right handles on every
//! commit boundary. It is meant to be exposed only through the wrappers,
//! which add the session-level guarantees.

use vstd::prelude::*;

use crate::error::FbError;
use crate::ops::{
    Dialect,
    FirebirdClient,
    FirebirdClientDbOps,
    FirebirdClientSqlOps,
    FreeStmtOp,
    StmtType,
    TrIsolationLevel,
    TrOp,
};
use crate::value::{Column, SqlType};

verus! {

/// The state of an open transaction.
#[derive(Debug, Clone, Copy, PartialEq, Eq, Structural)]
pub enum TrState {
    /// A begin, commit or rollback completed successfully and was the last
    /// operation on the transaction.
    Clean,
    /// A statement was executed since the last commit boundary, or an
    /// attempt to commit or roll back failed.
    Dirty,
}

/// Number of `true` entries in a sequence.
pub open spec fn count_true(s: Seq<bool>) -> nat
    decreases s.len(),
{
    if s.len() == 0 {
        0
    } else {
        count_true(s.drop_last()) + if s.last() {
            1nat
        } else {
            0nat
        }
    }
}

proof fn lemma_count_true_push(s: Seq<bool>, b: bool)
    ensures
        count_true(s.push(b)) == count_true(s) + if b {
            1nat
        } else {
            0nat
        },
{
    assert(s.push(b).drop_last() =~= s);
}

proof fn lemma_count_true_update(s: Seq<bool>, i: int, b: bool)
    requires
        0 <= i < s.len(),
    ensures
        count_true(s.update(i, b)) + if s[i] {
            1nat
        } else {
            0nat
        } == count_true(s) + if b {
            1nat
        } else {
            0nat
        },
    decreases s.len(),
{
    let s2 = s.update(i, b);
    if i == s.len() - 1 {
        assert(s2.drop_last() =~= s.drop_last());
    } else {
        assert(s2.drop_last() =~= s.drop_last().update(i, b));
        lemma_count_true_update(s.drop_last(), i, b);
    }
}

proof fn lemma_count_true_le_len(s: Seq<bool>)
    ensures
        count_true(s) <= s.len(),
    decreases s.len(),
{
    if s.len() > 0 {
        lemma_count_true_le_len(s.drop_last());
    }
}

/// Curried form of a driver which tracks the session's additional state:
/// the attached database handle, the active transaction and its state,
/// the loaned-out prepared statements and the open cursors.
pub struct HandleData<C: FirebirdClient> {
    cli: C,
    db_hdl: Option<<C as FirebirdClientDbOps>::DbHandle>,
    tr_hdl: Option<<C as FirebirdClientSqlOps>::TrHandle>,
    stmt_hdl: Option<<C as FirebirdClientSqlOps>::StmtHandle>,
    tr_state: TrState,
    cursors: Vec<usize>,
    prepared_arena: Vec<Option<<C as FirebirdClientSqlOps>::StmtHandle>>,
    stmt_types: Vec<StmtType>,
    prepared_count: usize,
    current_stmt: usize,
}

impl<C: FirebirdClient> HandleData<C> {
    /// Whether a database is attached.
    pub closed spec fn is_attached(self) -> bool {
        self.db_hdl is Some
    }

    /// Whether a transaction handle is active.
    pub closed spec fn tr_active(self) -> bool {
        self.tr_hdl is Some
    }

    /// Whether the transaction state flag is `Clean`.
    pub closed spec fn tr_is_clean(self) -> bool {
        self.tr_state == TrState::Clean
    }

    /// The open cursors, as a set of arena slots.
    pub closed spec fn cursor_set(self) -> Set<usize> {
        self.cursors@.to_set()
    }

    /// The open cursors in insertion order.
    pub closed spec fn cursor_seq(self) -> Seq<usize> {
        self.cursors@
    }

    /// The number of arena slots ever allocated this session.
    pub closed spec fn arena_len(self) -> nat {
        self.prepared_arena@.len()
    }

    /// Whether arena slot `i` currently holds a server statement handle.
    pub closed spec fn occupied(self, i: int) -> bool {
        0 <= i < self.prepared_arena@.len() && if i == self.current_stmt {
            self.stmt_hdl is Some
        } else {
            self.prepared_arena@[i] is Some
        }
    }

    /// Occupancy of every arena slot.
    pub closed spec fn occ_seq(self) -> Seq<bool> {
        Seq::new(self.prepared_arena@.len(), |i: int| self.occupied(i))
    }

    /// The statement type recorded for slot `i` at prepare time.
    pub closed spec fn spec_stmt_type_of(self, i: int) -> StmtType {
        self.stmt_types@[i]
    }

    /// The arena slot the driver currently addresses.
    pub closed spec fn current_slot(self) -> int {
        self.current_stmt as int
    }

    /// The number of occupied arena slots.
    pub closed spec fn prepared(self) -> nat {
        count_true(self.occ_seq())
    }

    /// Well-formedness of the bookkeeping: the addressed slot is in range
    /// and checked out, cursors are distinct indices of occupied slots,
    /// and the occupied-slot counter is exact.
    pub closed spec fn wf(self) -> bool {
        &&& self.stmt_types@.len() == self.prepared_arena@.len()
        &&& self.prepared_arena@.len() == 0 ==> self.current_stmt == 0 && self.stmt_hdl is None
        &&& self.prepared_arena@.len() > 0 ==> self.current_stmt
            < self.prepared_arena@.len() && self.prepared_arena@[self.current_stmt as int] is None
        &&& forall|p: int, q: int|
            0 <= p < q < self.cursors@.len() ==> self.cursors@[p] != self.cursors@[q]
        &&& forall|j: int|
            0 <= j < self.cursors@.len() ==> self.occupied(#[trigger] self.cursors@[j] as int)
        &&& self.prepared_count == self.prepared()
    }

    /// Two states with the same statement bookkeeping fields have the same
    /// slot occupancy, cursors and counters, whatever happened to the
    /// client or the database and transaction handles.
    proof fn lemma_same_slots(a: Self, b: Self)
        requires
            a.prepared_arena == b.prepared_arena,
            a.stmt_types == b.stmt_types,
            a.current_stmt == b.current_stmt,
            a.stmt_hdl == b.stmt_hdl,
            a.cursors == b.cursors,
            a.prepared_count == b.prepared_count,
        ensures
            Self::same_statements(a, b),
            a.wf() ==> b.wf(),
    {
        assert forall|i: int| 0 <= i < a.prepared_arena@.len() implies a.occupied(i)
            == b.occupied(i) by {}
        assert(b.occ_seq() =~= a.occ_seq());
    }

    /// Slot occupancy is exactly the occupancy sequence, index by index;
    /// lets a caller turn the `occ_seq` clauses of this type's contracts
    /// into facts about single slots.
    pub proof fn lemma_occupied_at(self)
        ensures
            self.occ_seq().len() == self.arena_len(),
            forall|i: int|
                0 <= i < self.arena_len() ==> #[trigger] self.occupied(i) == self.occ_seq()[i],
    {
        assert forall|i: int| 0 <= i < self.arena_len() implies #[trigger] self.occupied(i)
            == self.occ_seq()[i] by {}
    }

    /// The session-level state that database operations must not touch.
    pub open spec fn same_statements(a: Self, b: Self) -> bool {
        &&& b.occ_seq() == a.occ_seq()
        &&& forall|i: int| 0 <= i < a.arena_len() ==> b.occupied(i) == #[trigger] a.occupied(i)
        &&& b.cursor_set() == a.cursor_set()
        &&& b.arena_len() == a.arena_len()
        &&& b.prepared() == a.prepared()
        &&& forall|i: int| 0 <= i < a.arena_len() ==> b.spec_stmt_type_of(i) == a.spec_stmt_type_of(i)
    }

    /// The transaction-level state that statement operations must not touch.
    pub open spec fn same_transaction(a: Self, b: Self) -> bool {
        &&& b.tr_active() == a.tr_active()
        &&& b.tr_is_clean() == a.tr_is_clean()
    }

    /// Create a new instance from a client: detached, no transaction, an
    /// empty arena and no cursors.
    pub fn new(client: C) -> (r: Self)
        ensures
            r.wf(),
            !r.is_attached(),
            !r.tr_active(),
            r.tr_is_clean(),
            r.cursor_set() == Set::<usize>::empty(),
            r.arena_len() == 0,
            r.prepared() == 0,
    {
        let r = HandleData {
            cli: client,
            db_hdl: None,
            tr_hdl: None,
            stmt_hdl: None,
            tr_state: TrState::Clean,
            cursors: Vec::new(),
            prepared_arena: Vec::new(),
            stmt_types: Vec::new(),
            prepared_count: 0,
            current_stmt: 0,
        };
        proof {
            assert(r.occ_seq() =~= Seq::<bool>::empty());
            assert(r.cursors@.to_set() =~= Set::<usize>::empty());
        }
        r
    }

    /// Connect to the database. Attaching twice is refused.
    pub fn attach_database(
        &mut self,
        config: &<C as FirebirdClientDbOps>::AttachmentConfig,
    ) -> (r: Result<(), FbError>)
        requires
            old(self).wf(),
        ensures
            final(self).wf(),
            Self::same_statements(*old(self), *final(self)),
            Self::same_transaction(*old(self), *final(self)),
            old(self).is_attached() ==> r is Err && final(self).is_attached(),
            !old(self).is_attached() ==> (r is Ok <==> final(self).is_attached()),
    {
        let out: Result<(), FbError>;
        if self.db_hdl.is_some() {
            out = Err(FbError::connection("already attached"));
        } else {
            match self.cli.attach_database(config) {
                Ok(h) => {
                    self.db_hdl = Some(h);
                    out = Ok(());
                },
                Err(e) => {
                    out = Err(e);
                },
            }
        }
        proof {
            Self::lemma_same_slots(*old(self), *self);
        }
        out
    }

    /// Disconnect from the database. On failure the handle is restored so
    /// the caller may retry.
    pub fn detach_database(&mut self) -> (r: Result<(), FbError>)
        requires
            old(self).wf(),
            old(self).is_attached(),
        ensures
            final(self).wf(),
            Self::same_statements(*old(self), *final(self)),
            Self::same_transaction(*old(self), *final(self)),
            r is Ok <==> !final(self).is_attached(),
    {
        let res = match &mut self.db_hdl {
            Some(h) => self.cli.detach_database(h),
            None => Err(FbError::connection("not attached")),
        };
        let out: Result<(), FbError> = match res {
            Ok(()) => {
                let _ = self.db_hdl.take();
                Ok(())
            },
            Err(e) => Err(e),
        };
        proof {
            Self::lemma_same_slots(*old(self), *self);
        }
        out
    }

    /// Drop the database. On failure the handle is restored so the caller
    /// may retry.
    pub fn drop_database(&mut self) -> (r: Result<(), FbError>)
        requires
            old(self).wf(),
            old(self).is_attached(),
        ensures
            final(self).wf(),
            Self::same_statements(*old(self), *final(self)),
            Self::same_transaction(*old(self), *final(self)),
            r is Ok <==> !final(self).is_attached(),
    {
        let res = match &mut self.db_hdl {
            Some(h) => self.cli.drop_database(h),
            None => Err(FbError::connection("not attached")),
        };
        let out: Result<(), FbError> = match res {
            Ok(()) => {
                let _ = self.db_hdl.take();
                Ok(())
            },
            Err(e) => Err(e),
        };
        proof {
            Self::lemma_same_slots(*old(self), *self);
        }
        out
    }

    /// Start a new transaction. Requires an attached database and no
    /// transaction already active.
    pub fn begin_transaction(&mut self, isolation_level: TrIsolationLevel) -> (r: Result<
        (),
        FbError,
    >)
        requires
            old(self).wf(),
            old(self).is_attached(),
            !old(self).tr_active(),
        ensures
            final(self).wf(),
            Self::same_statements(*old(self), *final(self)),
            final(self).is_attached(),
            r is Ok ==> final(self).tr_active() && final(self).tr_is_clean(),
            r is Err ==> !final(self).tr_active() && final(self).tr_is_clean() == old(self).tr_is_clean(),
    {
        let res = match &mut self.db_hdl {
            Some(db) => self.cli.begin_transaction(db, isolation_level),
            None => Err(FbError::connection("not attached")),
        };
        let out: Result<(), FbError> = match res {
            Ok(tr) => {
                self.tr_hdl = Some(tr);
                self.tr_state = TrState::Clean;
                Ok(())
            },
            Err(e) => Err(e),
        };
        proof {
            Self::lemma_same_slots(*old(self), *self);
        }
        out
    }

    /// The currently addressed arena slot.
    pub closed spec fn current_stmt_idx(self) -> usize {
        self.current_stmt
    }

    /// Loads a statement from the arena based on index, or does nothing if
    /// it is already loaded. The two swaps move the addressed slot's handle
    /// without reallocating; which slots are occupied does not change.
    pub fn load_statement(&mut self, idx: usize)
        requires
            old(self).wf(),
            idx < old(self).arena_len(),
        ensures
            final(self).wf(),
            Self::same_statements(*old(self), *final(self)),
            Self::same_transaction(*old(self), *final(self)),
            final(self).is_attached() == old(self).is_attached(),
            final(self).cursor_seq() == old(self).cursor_seq(),
            final(self).current_slot() == idx,
    {
        if idx != self.current_stmt {
            let cur = self.current_stmt;
            core::mem::swap(&mut self.stmt_hdl, &mut self.prepared_arena[cur]);
            core::mem::swap(&mut self.stmt_hdl, &mut self.prepared_arena[idx]);
            self.current_stmt = idx;
        }
        proof {
            assert forall|i: int| 0 <= i < old(self).arena_len() implies old(self).occupied(i)
                == self.occupied(i) by {}
            assert(self.occ_seq() =~= old(self).occ_seq());
        }
    }

    /// Closes or drops the currently loaded statement. On `Close` the
    /// server releases the cursor but the statement handle stays valid and
    /// the slot stays occupied; on a successful `Drop` the handle is taken
    /// out and the slot is freed. On failure the handle is left in place.
    pub fn free_statement(&mut self, op: FreeStmtOp) -> (r: Result<(), FbError>)
        requires
            old(self).wf(),
            old(self).occupied(old(self).current_slot()),
            op == FreeStmtOp::Drop ==> !old(self).cursor_set().contains(
                old(self).current_stmt_idx(),
            ),
        ensures
            final(self).wf(),
            Self::same_transaction(*old(self), *final(self)),
            final(self).is_attached() == old(self).is_attached(),
            final(self).cursor_set() == old(self).cursor_set(),
            final(self).cursor_seq() == old(self).cursor_seq(),
            final(self).arena_len() == old(self).arena_len(),
            final(self).current_slot() == old(self).current_slot(),
            forall|i: int|
                0 <= i < old(self).arena_len() ==> final(self).spec_stmt_type_of(i) == old(self).spec_stmt_type_of(i),
            op == FreeStmtOp::Close ==> final(self).occ_seq() == old(self).occ_seq() && final(self).prepared() == old(self).prepared(),
            op == FreeStmtOp::Drop && r is Ok ==> final(self).occ_seq() == old(self).occ_seq().update(old(self).current_slot(), false) && final(self).prepared() + 1 == old(self).prepared(),
            op == FreeStmtOp::Drop && r is Err ==> final(self).occ_seq() == old(self).occ_seq()
                && final(self).prepared() == old(self).prepared(),
    {
        let res = match &mut self.stmt_hdl {
            Some(h) => self.cli.free_statement(h, op),
            None => vstd::pervasive::unreached(),
        };
        let mut took: bool = false;
        if res.is_ok() && matches!(op, FreeStmtOp::Drop) {
            self.stmt_hdl = None;
            proof {
                lemma_count_true_update(old(self).occ_seq(), old(self).current_slot(), false);
                assert(old(self).occ_seq()[old(self).current_slot()] == old(self).occupied(
                    old(self).current_slot(),
                ));
            }
            self.prepared_count = self.prepared_count - 1;
            took = true;
        }
        proof {
            let pre = *old(self);
            let cur = pre.current_slot();
            assert forall|i: int| 0 <= i < pre.arena_len() && i != cur implies pre.occupied(i)
                == self.occupied(i) by {}
            if took {
                assert(self.occ_seq() =~= pre.occ_seq().update(cur, false));
            } else {
                assert(self.occ_seq() =~= pre.occ_seq());
            }
            assert forall|j: int| 0 <= j < self.cursors@.len() implies self.occupied(
                #[trigger] self.cursors@[j] as int,
            ) by {
                assert(pre.occupied(pre.cursors@[j] as int));
                if took {
                    assert(pre.cursor_set().contains(pre.cursors@[j]));
                }
            }
        }
        res
    }

    /// Removes `idx` from the cursor list, if present.
    pub(crate) fn remove_cursor_entry(&mut self, idx: usize)
        requires
            old(self).wf(),
        ensures
            final(self).wf(),
            Self::same_transaction(*old(self), *final(self)),
            final(self).is_attached() == old(self).is_attached(),
            final(self).occ_seq() == old(self).occ_seq(),
            final(self).prepared() == old(self).prepared(),
            final(self).arena_len() == old(self).arena_len(),
            final(self).current_slot() == old(self).current_slot(),
            forall|i: int|
                0 <= i < old(self).arena_len() ==> final(self).spec_stmt_type_of(i) == old(self).spec_stmt_type_of(i),
            final(self).cursor_set() == old(self).cursor_set().remove(idx),
    {
        let n = self.cursors.len();
        let mut i: usize = 0;
        let mut found: Option<usize> = None;
        while i < n
            invariant
                *self == *old(self),
                n == self.cursors@.len(),
                0 <= i <= n,
                match found {
                    Some(p) => p < n && self.cursors@[p as int] == idx,
                    None => forall|j: int| 0 <= j < i ==> self.cursors@[j] != idx,
                },
            decreases n - i,
        {
            if found.is_none() && self.cursors[i] == idx {
                found = Some(i);
            }
            i += 1;
        }
        match found {
            Some(p) => {
                let _ = self.cursors.remove(p);
                proof {
                    let pre = *old(self);
                    assert forall|k: int| 0 <= k < pre.prepared_arena@.len() implies pre.occupied(
                        k,
                    ) == self.occupied(k) by {}
                    assert(self.occ_seq() =~= pre.occ_seq());
                    let s0 = pre.cursors@;
                    let s1 = self.cursors@;
                    assert forall|x: usize| self.cursor_set().contains(x) implies pre.cursor_set()
                        .remove(idx).contains(x) by {
                        let j = choose|j: int| 0 <= j < s1.len() && s1[j] == x;
                        if j < p {
                            assert(s0[j] == x);
                        } else {
                            assert(s0[j + 1] == x);
                        }
                        assert(pre.cursors@.contains(x));
                        assert(x != idx) by {
                            if j < p {
                                assert(s0[j] != s0[p as int]);
                            } else {
                                assert(s0[p as int] != s0[j + 1]);
                            }
                        }
                    }
                    assert forall|x: usize|
                        pre.cursor_set().remove(idx).contains(x) implies self.cursor_set()
                        .contains(x) by {
                        assert(pre.cursors@.contains(x));
                        let j = choose|j: int| 0 <= j < s0.len() && s0[j] == x;
                        assert(j != p);
                        if j < p {
                            assert(s1[j] == x);
                        } else {
                            assert(s1[j - 1] == x);
                        }
                        assert(self.cursors@.contains(x));
                    }
                    assert(self.cursor_set() =~= pre.cursor_set().remove(idx));
                }
            },
            None => {
                proof {
                    let pre = *old(self);
                    assert forall|x: usize| pre.cursor_set().contains(x) implies pre.cursor_set()
                        .remove(idx).contains(x) by {
                        assert(pre.cursors@.contains(x));
                        let j = choose|j: int| 0 <= j < pre.cursors@.len() && pre.cursors@[j] == x;
                        assert(x != idx);
                    }
                    assert(pre.cursor_set() =~= pre.cursor_set().remove(idx));
                }
            },
        }
    }

    /// Attempts to close a cursor: loads its slot, asks the server to
    /// release the cursor and, on success, removes the slot from the open
    /// set. The statement handle itself stays valid.
    pub fn close_cursor(&mut self, cur_idx: usize) -> (r: Result<(), FbError>)
        requires
            old(self).wf(),
            cur_idx < old(self).arena_len(),
            old(self).occupied(cur_idx as int),
        ensures
            final(self).wf(),
            Self::same_transaction(*old(self), *final(self)),
            final(self).is_attached() == old(self).is_attached(),
            final(self).occ_seq() == old(self).occ_seq(),
            final(self).prepared() == old(self).prepared(),
            final(self).arena_len() == old(self).arena_len(),
            forall|i: int|
                0 <= i < old(self).arena_len() ==> final(self).spec_stmt_type_of(i) == old(self).spec_stmt_type_of(i),
            r is Ok ==> final(self).cursor_set() == old(self).cursor_set().remove(cur_idx),
            r is Err ==> final(self).cursor_set() == old(self).cursor_set(),
    {
        self.load_statement(cur_idx);
        proof {
            assert(old(self).occ_seq()[cur_idx as int] == old(self).occupied(cur_idx as int));
            assert(self.occ_seq()[cur_idx as int] == self.occupied(cur_idx as int));
            assert(self.occupied(cur_idx as int));
        }
        let res = self.free_statement(FreeStmtOp::Close);
        if res.is_ok() {
            self.remove_cursor_entry(cur_idx);
        }
        res
    }

    /// Closes every open cursor, emptying the open set. Driver failures
    /// are ignored: the set is emptied regardless, and the statement
    /// handles all stay valid.
    pub fn close_all_cursors(&mut self)
        requires
            old(self).wf(),
        ensures
            final(self).wf(),
            Self::same_transaction(*old(self), *final(self)),
            final(self).is_attached() == old(self).is_attached(),
            final(self).occ_seq() == old(self).occ_seq(),
            final(self).prepared() == old(self).prepared(),
            final(self).arena_len() == old(self).arena_len(),
            forall|i: int|
                0 <= i < old(self).arena_len() ==> final(self).spec_stmt_type_of(i) == old(self).spec_stmt_type_of(i),
            final(self).cursor_set() == Set::<usize>::empty(),
    {
        while self.cursors.len() > 0
            invariant
                self.wf(),
                Self::same_transaction(*old(self), *self),
                self.is_attached() == old(self).is_attached(),
                self.occ_seq() == old(self).occ_seq(),
                self.prepared() == old(self).prepared(),
                self.arena_len() == old(self).arena_len(),
                forall|i: int|
                    0 <= i < old(self).arena_len() ==> self.spec_stmt_type_of(i) == old(self).spec_stmt_type_of(i),
            decreases self.cursors@.len(),
        {
            let ghost pre = *self;
            let c = match self.cursors.pop() {
                Some(c) => c,
                None => vstd::pervasive::unreached(),
            };
            proof {
                assert(pre.cursors@[pre.cursors@.len() - 1] == c);
                assert(pre.occupied(c as int));
                assert forall|k: int| 0 <= k < pre.prepared_arena@.len() implies pre.occupied(k)
                    == self.occupied(k) by {}
                assert(self.occ_seq() =~= pre.occ_seq());
            }
            self.load_statement(c);
            proof {
                assert(pre.occ_seq()[c as int] == pre.occupied(c as int));
                assert(self.occ_seq()[c as int] == self.occupied(c as int));
                assert(self.occupied(c as int));
            }
            let _ = self.free_statement(FreeStmtOp::Close);
        }
        proof {
            assert(self.cursor_set() =~= Set::<usize>::empty());
        }
    }

    /// Commit or roll back the active transaction. The non-retaining
    /// operations first close every open cursor and, on success, give up
    /// the transaction handle; the retaining ones keep it for reuse. A
    /// successful operation leaves the transaction `Clean`; a failed one
    /// leaves it `Dirty` with the handle retained, so the caller may try a
    /// rollback.
    pub fn transaction_operation(&mut self, op: TrOp) -> (r: Result<(), FbError>)
        requires
            old(self).wf(),
            old(self).tr_active(),
        ensures
            final(self).wf(),
            final(self).is_attached() == old(self).is_attached(),
            final(self).occ_seq() == old(self).occ_seq(),
            final(self).prepared() == old(self).prepared(),
            final(self).arena_len() == old(self).arena_len(),
            forall|i: int|
                0 <= i < old(self).arena_len() ==> final(self).spec_stmt_type_of(i) == old(self).spec_stmt_type_of(i),
            op == TrOp::Commit || op == TrOp::Rollback ==> final(self).cursor_set() == Set::<usize>::empty() && (final(self).tr_active() <==> r is Err),
            op == TrOp::CommitRetaining || op == TrOp::RollbackRetaining ==> final(self).tr_active() && final(self).cursor_set() == old(self).cursor_set(),
            r is Ok ==> final(self).tr_is_clean(),
            r is Err ==> !final(self).tr_is_clean(),
    {
        let retaining = matches!(op, TrOp::CommitRetaining | TrOp::RollbackRetaining);
        if !retaining {
            self.close_all_cursors();
        }
        let ghost mid = *self;
        let res = match &mut self.tr_hdl {
            Some(t) => self.cli.transaction_operation(t, op),
            None => vstd::pervasive::unreached(),
        };
        match res {
            Ok(()) => {
                if !retaining {
                    self.tr_hdl = None;
                }
                self.tr_state = TrState::Clean;
            },
            Err(_) => {
                self.tr_state = TrState::Dirty;
            },
        }
        proof {
            assert forall|k: int| 0 <= k < mid.prepared_arena@.len() implies mid.occupied(k)
                == self.occupied(k) by {}
            assert(self.occ_seq() =~= mid.occ_seq());
        }
        res
    }

    /// Forgets the active transaction handle without telling the server:
    /// the handle is deliberately leaked. Used when a caller asked for the
    /// transaction to be left open even though it can no longer reach it.
    pub fn forget_transaction(&mut self)
        requires
            old(self).wf(),
        ensures
            final(self).wf(),
            Self::same_statements(*old(self), *final(self)),
            final(self).cursor_seq() == old(self).cursor_seq(),
            final(self).is_attached() == old(self).is_attached(),
            final(self).tr_is_clean() == old(self).tr_is_clean(),
            !final(self).tr_active(),
    {
        self.tr_hdl = None;
        proof {
            Self::lemma_same_slots(*old(self), *self);
        }
    }

    /// Forgets the database handle without telling the server: used when a
    /// best-effort teardown could not detach and the session is being
    /// given up regardless, leaving the server to reap the attachment.
    pub fn forget_database(&mut self)
        requires
            old(self).wf(),
        ensures
            final(self).wf(),
            Self::same_statements(*old(self), *final(self)),
            Self::same_transaction(*old(self), *final(self)),
            final(self).cursor_seq() == old(self).cursor_seq(),
            !final(self).is_attached(),
    {
        self.db_hdl = None;
        proof {
            Self::lemma_same_slots(*old(self), *self);
        }
    }

    /// Commit the current transaction, not allowing reuse of its handle.
    pub fn commit(&mut self) -> (r: Result<(), FbError>)
        requires
            old(self).wf(),
            old(self).tr_active(),
        ensures
            final(self).wf(),
            final(self).is_attached() == old(self).is_attached(),
            final(self).occ_seq() == old(self).occ_seq(),
            final(self).prepared() == old(self).prepared(),
            final(self).arena_len() == old(self).arena_len(),
            final(self).tr_active() <==> r is Err,
            final(self).cursor_set() == Set::<usize>::empty(),
            r is Ok <==> final(self).tr_is_clean(),
    {
        self.transaction_operation(TrOp::Commit)
    }

    /// Commit the current transaction, keeping its handle for reuse.
    pub fn commit_retaining(&mut self) -> (r: Result<(), FbError>)
        requires
            old(self).wf(),
            old(self).tr_active(),
        ensures
            final(self).wf(),
            final(self).is_attached() == old(self).is_attached(),
            final(self).occ_seq() == old(self).occ_seq(),
            final(self).prepared() == old(self).prepared(),
            final(self).arena_len() == old(self).arena_len(),
            final(self).tr_active(),
            final(self).cursor_set() == old(self).cursor_set(),
            r is Ok <==> final(self).tr_is_clean(),
    {
        self.transaction_operation(TrOp::CommitRetaining)
    }

    /// Roll back the current transaction, keeping its handle for reuse.
    pub fn rollback_retaining(&mut self) -> (r: Result<(), FbError>)
        requires
            old(self).wf(),
            old(self).tr_active(),
        ensures
            final(self).wf(),
            final(self).is_attached() == old(self).is_attached(),
            final(self).occ_seq() == old(self).occ_seq(),
            final(self).prepared() == old(self).prepared(),
            final(self).arena_len() == old(self).arena_len(),
            final(self).tr_active(),
            final(self).cursor_set() == old(self).cursor_set(),
            r is Ok <==> final(self).tr_is_clean(),
    {
        self.transaction_operation(TrOp::RollbackRetaining)
    }

    /// Roll back the current transaction, invalidating its handle.
    pub fn rollback(&mut self) -> (r: Result<(), FbError>)
        requires
            old(self).wf(),
            old(self).tr_active(),
        ensures
            final(self).wf(),
            final(self).is_attached() == old(self).is_attached(),
            final(self).occ_seq() == old(self).occ_seq(),
            final(self).prepared() == old(self).prepared(),
            final(self).arena_len() == old(self).arena_len(),
            final(self).tr_active() <==> r is Err,
            final(self).cursor_set() == Set::<usize>::empty(),
            r is Ok <==> final(self).tr_is_clean(),
    {
        self.transaction_operation(TrOp::Rollback)
    }
    /// Execute a sql statement immediately, without returning rows. The
    /// transaction is marked dirty: a statement ran since the last commit
    /// boundary.
    pub fn exec_immediate(&mut self, dialect: Dialect, sql: &str) -> (r: Result<(), FbError>)
        requires
            old(self).wf(),
            old(self).is_attached(),
            old(self).tr_active(),
        ensures
            final(self).wf(),
            Self::same_statements(*old(self), *final(self)),
            final(self).cursor_seq() == old(self).cursor_seq(),
            final(self).is_attached(),
            final(self).tr_active(),
            !final(self).tr_is_clean(),
    {
        let res = match (&mut self.db_hdl, &mut self.tr_hdl) {
            (Some(db), Some(tr)) => self.cli.exec_immediate(db, tr, dialect, sql),
            _ => vstd::pervasive::unreached(),
        };
        self.tr_state = TrState::Dirty;
        proof {
            assert forall|k: int| 0 <= k < old(self).arena_len() implies old(self).occupied(k)
                == self.occupied(k) by {}
            assert(self.occ_seq() =~= old(self).occ_seq());
        }
        res
    }

    /// Allocate and prepare a statement: a fresh arena slot is pushed,
    /// loaded as current, and filled with the server handle; the statement
    /// type the server reported is recorded for the slot. An empty sql
    /// text is refused up front as a protocol failure.
    pub fn prepare_statement(&mut self, dialect: Dialect, sql: &str) -> (r: Result<(), FbError>)
        requires
            old(self).wf(),
            old(self).is_attached(),
            old(self).tr_active(),
        ensures
            final(self).wf(),
            final(self).is_attached(),
            final(self).tr_active(),
            final(self).tr_is_clean() == old(self).tr_is_clean(),
            final(self).cursor_seq() == old(self).cursor_seq(),
            final(self).cursor_set() == old(self).cursor_set(),
            sql@.len() == 0 ==> (r matches Err(e) && e is ProtocolFailure
                && Self::same_statements(*old(self), *final(self))),
            r is Err ==> Self::same_statements(*old(self), *final(self)),
            r is Ok ==> {
                &&& final(self).arena_len() == old(self).arena_len() + 1
                &&& final(self).current_slot() == old(self).arena_len()
                &&& final(self).occ_seq() == old(self).occ_seq().push(true)
                &&& final(self).occupied(old(self).arena_len() as int)
                &&& final(self).prepared() == old(self).prepared() + 1
                &&& forall|i: int|
                    0 <= i < old(self).arena_len() ==> final(self).spec_stmt_type_of(i) == old(
                        self,
                    ).spec_stmt_type_of(i)
            },
    {
        if sql.is_empty() {
            let out = Err(FbError::protocol("empty statement"));
            proof {
                Self::lemma_same_slots(*old(self), *self);
            }
            return out;
        }
        let prep = match (&mut self.db_hdl, &mut self.tr_hdl) {
            (Some(db), Some(tr)) => self.cli.prepare_statement(db, tr, dialect, sql),
            _ => vstd::pervasive::unreached(),
        };
        match prep {
            Ok((stmt_type, handle)) => {
                let ghost pre = *old(self);
                proof {
                    assert forall|k: int| 0 <= k < pre.arena_len() implies pre.occupied(k)
                        == self.occupied(k) by {}
                    assert(self.occ_seq() =~= pre.occ_seq());
                    lemma_count_true_le_len(self.occ_seq());
                }
                let ghost s0 = *self;
                self.prepared_arena.push(None);
                self.stmt_types.push(stmt_type);
                let new_idx = self.prepared_arena.len() - 1;
                proof {
                    assert forall|k: int| 0 <= k < s0.arena_len() implies s0.occupied(k)
                        == self.occupied(k) by {}
                    assert(!self.occupied(new_idx as int));
                    assert(self.occ_seq() =~= s0.occ_seq().push(false));
                    lemma_count_true_push(s0.occ_seq(), false);
                    assert forall|j: int| 0 <= j < self.cursors@.len() implies self.occupied(
                        #[trigger] self.cursors@[j] as int,
                    ) by {
                        assert(s0.occupied(s0.cursors@[j] as int));
                    }
                    assert(self.wf());
                }
                let ghost sp = *self;
                self.load_statement(new_idx);
                let ghost s1 = *self;
                proof {
                    assert(s1.occ_seq() == sp.occ_seq());
                    assert(s1.occ_seq()[new_idx as int] == s1.occupied(new_idx as int));
                    assert(sp.occ_seq()[new_idx as int] == sp.occupied(new_idx as int));
                    assert(!s1.occupied(new_idx as int));
                    lemma_count_true_update(s1.occ_seq(), new_idx as int, true);
                    lemma_count_true_le_len(s1.occ_seq().update(new_idx as int, true));
                }
                self.stmt_hdl = Some(handle);
                self.prepared_count = self.prepared_count + 1;
                proof {
                    assert forall|k: int|
                        0 <= k < s1.arena_len() && k != new_idx implies s1.occupied(k)
                        == self.occupied(k) by {}
                    assert(self.occupied(new_idx as int));
                    assert(self.occ_seq() =~= s1.occ_seq().update(new_idx as int, true));
                    assert forall|j: int| 0 <= j < self.cursors@.len() implies self.occupied(
                        #[trigger] self.cursors@[j] as int,
                    ) by {
                        assert(s1.occupied(s1.cursors@[j] as int));
                        assert(s1.cursors@[j] as int != new_idx);
                    }
                    assert(self.occ_seq() =~= pre.occ_seq().push(true)) by {
                        assert(s1.occ_seq() =~= pre.occ_seq().push(false));
                    }
                    lemma_count_true_push(pre.occ_seq(), true);
                    assert forall|i: int| 0 <= i < pre.arena_len() implies self.spec_stmt_type_of(
                        i,
                    ) == pre.spec_stmt_type_of(i) by {
                        assert(sp.stmt_types@[i] == pre.stmt_types@[i]);
                        assert(s1.spec_stmt_type_of(i) == sp.spec_stmt_type_of(i));
                        assert(self.stmt_types@ == s1.stmt_types@);
                    }
                }
                Ok(())
            },
            Err(e) => {
                let out = Err(e);
                proof {
                    Self::lemma_same_slots(*old(self), *self);
                }
                out
            },
        }
    }

    /// As `prepare_statement`, returning the arena slot of the prepared
    /// statement.
    pub fn prepare_statement_idx(&mut self, dialect: Dialect, sql: &str) -> (r: Result<
        usize,
        FbError,
    >)
        requires
            old(self).wf(),
            old(self).is_attached(),
            old(self).tr_active(),
        ensures
            final(self).wf(),
            final(self).is_attached(),
            final(self).tr_active(),
            final(self).tr_is_clean() == old(self).tr_is_clean(),
            final(self).cursor_seq() == old(self).cursor_seq(),
            final(self).cursor_set() == old(self).cursor_set(),
            sql@.len() == 0 ==> (r matches Err(e) && e is ProtocolFailure
                && Self::same_statements(*old(self), *final(self))),
            r is Err ==> Self::same_statements(*old(self), *final(self)),
            r matches Ok(idx) ==> {
                &&& idx as int == old(self).arena_len()
                &&& final(self).arena_len() == old(self).arena_len() + 1
                &&& final(self).current_slot() == idx as int
                &&& final(self).occ_seq() == old(self).occ_seq().push(true)
                &&& final(self).occupied(idx as int)
                &&& final(self).prepared() == old(self).prepared() + 1
                &&& forall|i: int|
                    0 <= i < old(self).arena_len() ==> final(self).spec_stmt_type_of(i) == old(
                        self,
                    ).spec_stmt_type_of(i)
            },
    {
        self.prepare_statement(dialect, sql)?;
        Ok(self.current_stmt)
    }

    /// The statement type the server reported for an arena slot.
    pub fn stmt_type_of(&self, idx: usize) -> (r: StmtType)
        requires
            self.wf(),
            idx < self.arena_len(),
        ensures
            r == self.spec_stmt_type_of(idx as int),
    {
        self.stmt_types[idx]
    }

    /// Attempts to drop a statement: loads its slot and asks the server to
    /// release it entirely. The slot must have no open cursor. On success
    /// the slot is freed.
    pub fn drop_stmt(&mut self, stmt_idx: usize) -> (r: Result<(), FbError>)
        requires
            old(self).wf(),
            stmt_idx < old(self).arena_len(),
            old(self).occupied(stmt_idx as int),
            !old(self).cursor_set().contains(stmt_idx),
        ensures
            final(self).wf(),
            Self::same_transaction(*old(self), *final(self)),
            final(self).is_attached() == old(self).is_attached(),
            final(self).cursor_set() == old(self).cursor_set(),
            final(self).cursor_seq() == old(self).cursor_seq(),
            final(self).arena_len() == old(self).arena_len(),
            forall|i: int|
                0 <= i < old(self).arena_len() ==> final(self).spec_stmt_type_of(i) == old(
                    self,
                ).spec_stmt_type_of(i),
            r is Ok ==> final(self).occ_seq() == old(self).occ_seq().update(stmt_idx as int, false)
                && final(self).prepared() + 1 == old(self).prepared(),
            r is Err ==> final(self).occ_seq() == old(self).occ_seq() && final(self).prepared()
                == old(self).prepared(),
    {
        self.load_statement(stmt_idx);
        proof {
            assert(old(self).occ_seq()[stmt_idx as int] == old(self).occupied(stmt_idx as int));
            assert(self.occ_seq()[stmt_idx as int] == self.occupied(stmt_idx as int));
            assert(self.occupied(stmt_idx as int));
        }
        self.free_statement(FreeStmtOp::Drop)
    }

    /// Execute the currently loaded prepared statement with parameters.
    /// The transaction is marked dirty.
    pub fn execute(&mut self, params: Vec<SqlType>) -> (r: Result<(), FbError>)
        requires
            old(self).wf(),
            old(self).is_attached(),
            old(self).tr_active(),
            old(self).occupied(old(self).current_slot()),
        ensures
            final(self).wf(),
            Self::same_statements(*old(self), *final(self)),
            final(self).cursor_seq() == old(self).cursor_seq(),
            final(self).current_slot() == old(self).current_slot(),
            final(self).is_attached(),
            final(self).tr_active(),
            !final(self).tr_is_clean(),
    {
        let res = match (&mut self.db_hdl, &mut self.tr_hdl, &mut self.stmt_hdl) {
            (Some(db), Some(tr), Some(st)) => self.cli.execute(db, tr, st, params),
            _ => vstd::pervasive::unreached(),
        };
        self.tr_state = TrState::Dirty;
        proof {
            assert forall|k: int| 0 <= k < old(self).arena_len() implies old(self).occupied(k)
                == self.occupied(k) by {}
            assert(self.occ_seq() =~= old(self).occ_seq());
        }
        res
    }

    /// Load and execute a statement from the arena.
    pub fn execute_by_idx(&mut self, stmt_idx: usize, params: Vec<SqlType>) -> (r: Result<
        (),
        FbError,
    >)
        requires
            old(self).wf(),
            old(self).is_attached(),
            old(self).tr_active(),
            stmt_idx < old(self).arena_len(),
            old(self).occupied(stmt_idx as int),
        ensures
            final(self).wf(),
            Self::same_statements(*old(self), *final(self)),
            final(self).cursor_seq() == old(self).cursor_seq(),
            final(self).current_slot() == stmt_idx as int,
            final(self).is_attached(),
            final(self).tr_active(),
            !final(self).tr_is_clean(),
    {
        self.load_statement(stmt_idx);
        proof {
            assert(old(self).occ_seq()[stmt_idx as int] == old(self).occupied(stmt_idx as int));
            assert(self.occ_seq()[stmt_idx as int] == self.occupied(stmt_idx as int));
            assert(self.occupied(stmt_idx as int));
        }
        self.execute(params)
    }

    /// Execute the currently loaded prepared statement with input and
    /// output parameters; the output parameters come back in the result.
    /// The transaction is marked dirty.
    pub fn execute2(&mut self, params: Vec<SqlType>) -> (r: Result<Vec<Column>, FbError>)
        requires
            old(self).wf(),
            old(self).is_attached(),
            old(self).tr_active(),
            old(self).occupied(old(self).current_slot()),
        ensures
            final(self).wf(),
            Self::same_statements(*old(self), *final(self)),
            final(self).cursor_seq() == old(self).cursor_seq(),
            final(self).current_slot() == old(self).current_slot(),
            final(self).is_attached(),
            final(self).tr_active(),
            !final(self).tr_is_clean(),
    {
        let res = match (&mut self.db_hdl, &mut self.tr_hdl, &mut self.stmt_hdl) {
            (Some(db), Some(tr), Some(st)) => self.cli.execute2(db, tr, st, params),
            _ => vstd::pervasive::unreached(),
        };
        self.tr_state = TrState::Dirty;
        proof {
            assert forall|k: int| 0 <= k < old(self).arena_len() implies old(self).occupied(k)
                == self.occupied(k) by {}
            assert(self.occ_seq() =~= old(self).occ_seq());
        }
        res
    }

    /// Load and execute a statement from the arena, with output
    /// parameters.
    pub fn execute2_by_idx(&mut self, stmt_idx: usize, params: Vec<SqlType>) -> (r: Result<
        Vec<Column>,
        FbError,
    >)
        requires
            old(self).wf(),
            old(self).is_attached(),
            old(self).tr_active(),
            stmt_idx < old(self).arena_len(),
            old(self).occupied(stmt_idx as int),
        ensures
            final(self).wf(),
            Self::same_statements(*old(self), *final(self)),
            final(self).cursor_seq() == old(self).cursor_seq(),
            final(self).current_slot() == stmt_idx as int,
            final(self).is_attached(),
            final(self).tr_active(),
            !final(self).tr_is_clean(),
    {
        self.load_statement(stmt_idx);
        proof {
            assert(old(self).occ_seq()[stmt_idx as int] == old(self).occupied(stmt_idx as int));
            assert(self.occ_seq()[stmt_idx as int] == self.occupied(stmt_idx as int));
            assert(self.occupied(stmt_idx as int));
        }
        self.execute2(params)
    }

    /// Fetch the next row from the executed statement; `None` on cursor
    /// exhaustion.
    pub fn fetch(&mut self) -> (r: Result<Option<Vec<Column>>, FbError>)
        requires
            old(self).wf(),
            old(self).is_attached(),
            old(self).tr_active(),
            old(self).occupied(old(self).current_slot()),
        ensures
            final(self).wf(),
            Self::same_statements(*old(self), *final(self)),
            Self::same_transaction(*old(self), *final(self)),
            final(self).cursor_seq() == old(self).cursor_seq(),
            final(self).current_slot() == old(self).current_slot(),
            final(self).is_attached(),
    {
        let res = match (&mut self.db_hdl, &mut self.tr_hdl, &mut self.stmt_hdl) {
            (Some(db), Some(tr), Some(st)) => self.cli.fetch(db, tr, st),
            _ => vstd::pervasive::unreached(),
        };
        proof {
            assert forall|k: int| 0 <= k < old(self).arena_len() implies old(self).occupied(k)
                == self.occupied(k) by {}
            assert(self.occ_seq() =~= old(self).occ_seq());
        }
        res
    }

    /// Load a statement from the arena and fetch its next row.
    pub fn fetch_wrapped(&mut self, stmt_idx: usize) -> (r: Result<Option<Vec<Column>>, FbError>)
        requires
            old(self).wf(),
            old(self).is_attached(),
            old(self).tr_active(),
            stmt_idx < old(self).arena_len(),
            old(self).occupied(stmt_idx as int),
        ensures
            final(self).wf(),
            Self::same_statements(*old(self), *final(self)),
            Self::same_transaction(*old(self), *final(self)),
            final(self).cursor_seq() == old(self).cursor_seq(),
            final(self).current_slot() == stmt_idx as int,
            final(self).is_attached(),
    {
        self.load_statement(stmt_idx);
        proof {
            assert(old(self).occ_seq()[stmt_idx as int] == old(self).occupied(stmt_idx as int));
            assert(self.occ_seq()[stmt_idx as int] == self.occupied(stmt_idx as int));
            assert(self.occupied(stmt_idx as int));
        }
        self.fetch()
    }

    /// Registers an open cursor for an occupied slot.
    pub fn open_cursor(&mut self, stmt_idx: usize)
        requires
            old(self).wf(),
            stmt_idx < old(self).arena_len(),
            old(self).occupied(stmt_idx as int),
        ensures
            final(self).wf(),
            Self::same_transaction(*old(self), *final(self)),
            final(self).is_attached() == old(self).is_attached(),
            final(self).occ_seq() == old(self).occ_seq(),
            final(self).prepared() == old(self).prepared(),
            final(self).arena_len() == old(self).arena_len(),
            final(self).current_slot() == old(self).current_slot(),
            forall|i: int|
                0 <= i < old(self).arena_len() ==> final(self).spec_stmt_type_of(i) == old(
                    self,
                ).spec_stmt_type_of(i),
            final(self).cursor_set() == old(self).cursor_set().insert(stmt_idx),
    {
        let n = self.cursors.len();
        let mut i: usize = 0;
        let mut present: bool = false;
        while i < n
            invariant
                *self == *old(self),
                n == self.cursors@.len(),
                0 <= i <= n,
                present == exists|j: int| 0 <= j < i && self.cursors@[j] == stmt_idx,
            decreases n - i,
        {
            if self.cursors[i] == stmt_idx {
                present = true;
            }
            i += 1;
        }
        if !present {
            self.cursors.push(stmt_idx);
        }
        proof {
            let pre = *old(self);
            assert forall|k: int| 0 <= k < pre.prepared_arena@.len() implies pre.occupied(k)
                == self.occupied(k) by {}
            assert(self.occ_seq() =~= pre.occ_seq());
            if present {
                let j = choose|j: int| 0 <= j < pre.cursors@.len() && pre.cursors@[j] == stmt_idx;
                assert(pre.cursors@.contains(stmt_idx));
                assert(pre.cursor_set().contains(stmt_idx));
                assert(self.cursor_set() =~= pre.cursor_set().insert(stmt_idx));
            } else {
                assert forall|x: usize| self.cursor_set().contains(x) implies pre.cursor_set()
                    .insert(stmt_idx).contains(x) by {
                    let j = choose|j: int| 0 <= j < self.cursors@.len() && self.cursors@[j] == x;
                    if j < pre.cursors@.len() {
                        assert(pre.cursors@[j] == x);
                        assert(pre.cursors@.contains(x));
                    }
                }
                assert forall|x: usize|
                    pre.cursor_set().insert(stmt_idx).contains(x) implies self.cursor_set()
                    .contains(x) by {
                    if x == stmt_idx {
                        assert(self.cursors@[self.cursors@.len() - 1] == x);
                    } else {
                        let j = choose|j: int|
                            0 <= j < pre.cursors@.len() && pre.cursors@[j] == x;
                        assert(self.cursors@[j] == x);
                    }
                    assert(self.cursors@.contains(x));
                }
                assert(self.cursor_set() =~= pre.cursor_set().insert(stmt_idx));
                assert forall|p: int, q: int| 0 <= p < q < self.cursors@.len() implies
                    self.cursors@[p] != self.cursors@[q] by {
                    if q == self.cursors@.len() - 1 {
                        assert(!exists|j: int|
                            0 <= j < pre.cursors@.len() && pre.cursors@[j] == stmt_idx);
                        assert(self.cursors@[p] == pre.cursors@[p]);
                    }
                }
            }
        }
    }

    /// Whether a slot currently has an open cursor.
    pub fn has_open_cursor(&self, stmt_idx: usize) -> (r: bool)
        ensures
            r == self.cursor_set().contains(stmt_idx),
    {
        let n = self.cursors.len();
        let mut i: usize = 0;
        let mut present: bool = false;
        while i < n
            invariant
                n == self.cursors@.len(),
                0 <= i <= n,
                present == exists|j: int| 0 <= j < i && self.cursors@[j] == stmt_idx,
            decreases n - i,
        {
            if self.cursors[i] == stmt_idx {
                present = true;
            }
            i += 1;
        }
        proof {
            if present {
                let j = choose|j: int| 0 <= j < self.cursors@.len() && self.cursors@[j] == stmt_idx;
                assert(self.cursors@.contains(stmt_idx));
            } else {
                if self.cursor_set().contains(stmt_idx) {
                    let j = choose|j: int|
                        0 <= j < self.cursors@.len() && self.cursors@[j] == stmt_idx;
                }
            }
        }
        present
    }

    /// Whether a slot is currently occupied by a server handle.
    pub fn slot_occupied(&self, stmt_idx: usize) -> (r: bool)
        requires
            self.wf(),
        ensures
            r == self.occupied(stmt_idx as int),
            r ==> stmt_idx < self.arena_len(),
    {
        if stmt_idx >= self.prepared_arena.len() {
            return false;
        }
        if stmt_idx == self.current_stmt {
            self.stmt_hdl.is_some()
        } else {
            self.prepared_arena[stmt_idx].is_some()
        }
    }

    /// Whether a transaction is currently active.
    pub fn transaction_active(&self) -> (r: bool)
        ensures
            r == self.tr_active(),
    {
        self.tr_hdl.is_some()
    }

    /// Whether the transaction state flag is `Clean`.
    pub fn transaction_clean(&self) -> (r: bool)
        ensures
            r == self.tr_is_clean(),
    {
        matches!(self.tr_state, TrState::Clean)
    }

    /// Whether a database is attached.
    pub fn attached(&self) -> (r: bool)
        ensures
            r == self.is_attached(),
    {
        self.db_hdl.is_some()
    }

    /// Gives up the handle state, handing back the raw client. For use
    /// after the session is over.
    pub fn into_client(self) -> C {
        self.cli
    }
}

} // verus!
