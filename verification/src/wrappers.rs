//! The session facade: a connected client, scoped transactions, prepared
//! statements and cursors.
//!
//! `Tran` owns the whole session state for the duration of a transaction
//! and is threaded through the caller's closure by value; `with_transaction`
//! takes care of closing cursors and resolving the transaction on the way
//! out, whichever way the closure returned. Statement teardown is explicit
//! (`finish_statement`): the statement either goes back to the statement
//! cache or is dropped on the server, according to its drop behaviour.

use vstd::prelude::*;

use crate::error::FbError;
use crate::lru::LruPair;
use crate::ops::{Dialect, FirebirdClient, FirebirdClientDbOps, StmtType, TrIsolationLevel};
use crate::raw_handles::HandleData;
use crate::stmt_cache::{
    spec_cache_get,
    spec_cache_insert,
    spec_stmt_type_code,
    StatementData,
    StmtCache,
};
use crate::value::{Column, SqlType};

verus! {

/// Action to take on the transaction when `with_transaction` regains
/// control and the closure has not resolved the transaction itself.
#[derive(Copy, Clone, Debug, PartialEq, Eq, Structural)]
#[non_exhaustive]
pub enum DropBehavior {
    /// Commit the transaction. On failure, attempt to roll back.
    Commit,
    /// Roll back the transaction.
    Rollback,
    /// Do nothing: the transaction handle is left open on the server even
    /// though it becomes inaccessible. Use at your own risk.
    Ignore,
}

/// What happens to a prepared statement when it is finished.
#[derive(Copy, Clone, Debug, PartialEq, Eq, Structural)]
pub enum StmtDropBehavior {
    /// Drop the server-side statement.
    DropStmt,
    /// Close the statement's cursor and return the handle to the cache.
    CacheStmt,
}

/// The state a session carries: the handle state (driver, raw handles,
/// arena, cursors), the sql dialect, and the prepared-statement cache.
struct Session<C: FirebirdClient> {
    hd: HandleData<C>,
    dialect: Dialect,
    cache: StmtCache,
}

/// A client that is not attached to any database.
pub struct DisconnectedFbClient<C: FirebirdClient> {
    s: Session<C>,
}

/// A client attached to a database, with no transaction in progress.
pub struct ConnectedFbClient<C: FirebirdClient> {
    inner: Option<Session<C>>,
}

/// A session while a transaction is (or was) in progress. Owns the whole
/// session state; `with_transaction` hands it to the closure by value.
pub struct Tran<C: FirebirdClient> {
    s: Session<C>,
}

/// A prepared statement: the exact SQL text, the arena slot holding the
/// server handle, the statement type the server reported, and the action
/// to take when the statement is finished.
#[derive(Debug)]
pub struct Stmt {
    sql: String,
    handle: usize,
    stmt_type: StmtType,
    drop_behavior: StmtDropBehavior,
}

/// A statement whose execution has produced a result set not yet fully
/// fetched.
#[derive(Debug)]
pub struct Cursor(Stmt);

impl Stmt {
    /// The arena slot of the statement.
    pub closed spec fn spec_slot(self) -> usize {
        self.handle
    }

    /// The statement's exact SQL text.
    pub closed spec fn spec_sql(self) -> Seq<char> {
        self.sql@
    }

    /// The statement type the server reported.
    pub closed spec fn spec_type(self) -> StmtType {
        self.stmt_type
    }

    /// The action taken when the statement is finished.
    pub closed spec fn spec_drop_behavior(self) -> StmtDropBehavior {
        self.drop_behavior
    }

    /// Whether this statement's slot holds a server handle in the given
    /// session.
    pub open spec fn valid<C: FirebirdClient>(self, t: Tran<C>) -> bool {
        &&& (self.spec_slot() as int) < t.arena_len()
        &&& t.occupied(self.spec_slot() as int)
    }

    /// The SQL text this statement was prepared from.
    pub fn sql(&self) -> (r: &String)
        ensures
            r@ == self.spec_sql(),
    {
        &self.sql
    }

    /// The statement type the server reported.
    pub fn stmt_type(&self) -> (r: StmtType)
        ensures
            r == self.spec_type(),
    {
        self.stmt_type
    }

    /// Choose what happens to the statement when it is finished.
    pub fn set_drop_behavior(&mut self, b: StmtDropBehavior)
        ensures
            final(self).spec_slot() == old(self).spec_slot(),
            final(self).spec_sql() == old(self).spec_sql(),
            final(self).spec_type() == old(self).spec_type(),
            final(self).spec_drop_behavior() == b,
    {
        self.drop_behavior = b;
    }
}

impl Cursor {
    /// The underlying statement's arena slot.
    pub closed spec fn spec_slot(self) -> usize {
        self.0.spec_slot()
    }

    /// The underlying statement.
    pub closed spec fn spec_stmt(self) -> Stmt {
        self.0
    }

    /// A statement becomes associated with its open result set: the
    /// statement is consumed, so it cannot be executed again while the
    /// cursor is live.
    pub fn from_stmt(stmt: Stmt) -> (r: Self)
        ensures
            r.spec_stmt() == stmt,
    {
        Cursor(stmt)
    }

    /// Gives the statement back once the cursor is done.
    pub fn into_stmt(self) -> (r: Stmt)
        ensures
            r == self.spec_stmt(),
    {
        self.0
    }
}

impl<C: FirebirdClient> DisconnectedFbClient<C> {
    /// Well-formedness: fresh handle bookkeeping, no attachment and no
    /// transaction.
    pub closed spec fn wf(self) -> bool {
        &&& self.s.hd.wf()
        &&& !self.s.hd.is_attached()
        &&& !self.s.hd.tr_active()
        &&& self.s.hd.cursor_set() == Set::<usize>::empty()
        &&& self.s.cache.wf()
    }

    /// The modelled statement-cache contents.
    pub closed spec fn cache_entries(self) -> Seq<LruPair> {
        self.s.cache.entries()
    }

    /// The configured statement-cache capacity.
    pub closed spec fn cache_capacity(self) -> nat {
        self.s.cache.spec_capacity()
    }

    /// The sql dialect this client will pass to the driver.
    pub closed spec fn spec_dialect(self) -> Dialect {
        self.s.dialect
    }

    /// Create a new disconnected client from a raw client instance, with
    /// the default dialect and statement-cache capacity.
    pub fn new(client: C) -> (r: Self)
        ensures
            r.wf(),
            r.cache_entries() == Seq::<LruPair>::empty(),
            r.cache_capacity() == 20,
            r.spec_dialect() == Dialect::D3,
    {
        Self::with_configuration(client, Dialect::D3, 20)
    }

    /// Create a new disconnected client with an explicit dialect and
    /// statement-cache capacity. A capacity of zero disables caching.
    pub fn with_configuration(client: C, dialect: Dialect, stmt_cache_size: usize) -> (r: Self)
        ensures
            r.wf(),
            r.cache_entries() == Seq::<LruPair>::empty(),
            r.cache_capacity() == stmt_cache_size as nat,
            r.spec_dialect() == dialect,
    {
        DisconnectedFbClient {
            s: Session {
                hd: HandleData::new(client),
                dialect,
                cache: StmtCache::new(stmt_cache_size),
            },
        }
    }

    /// Try to connect using the given attachment configuration, converting
    /// the disconnected client into a connected one. On failure, return a
    /// disconnected client that can be used to try again, together with
    /// the error describing what failed.
    pub fn connect(self, attachment_conf: &<C as FirebirdClientDbOps>::AttachmentConfig) -> (r:
        Result<ConnectedFbClient<C>, (Self, FbError)>)
        requires
            self.wf(),
        ensures
            r matches Ok(c) ==> c.wf() && c.cache_entries() == self.cache_entries()
                && c.cache_capacity() == self.cache_capacity() && c.spec_dialect()
                == self.spec_dialect(),
            r matches Err((d, _)) ==> d.wf() && d.cache_entries() == self.cache_entries()
                && d.cache_capacity() == self.cache_capacity() && d.spec_dialect()
                == self.spec_dialect(),
    {
        let mut s = self.s;
        match s.hd.attach_database(attachment_conf) {
            Ok(()) => Ok(ConnectedFbClient { inner: Some(s) }),
            Err(e) => Err((DisconnectedFbClient { s }, e)),
        }
    }

    /// Gives up the client state, handing back the raw driver instance.
    pub fn into_client(self) -> C {
        self.s.hd.into_client()
    }
}

impl<C: FirebirdClient> Tran<C> {
    /// Well-formedness: attached session with sound handle and cache
    /// bookkeeping. The transaction itself may or may not still be open.
    pub closed spec fn wf(self) -> bool {
        &&& self.s.hd.wf()
        &&& self.s.hd.is_attached()
        &&& self.s.cache.wf()
        &&& !self.s.hd.tr_active() ==> self.s.hd.tr_is_clean()
    }

    /// Whether the transaction handle is still active.
    pub closed spec fn tr_active(self) -> bool {
        self.s.hd.tr_active()
    }

    /// Whether the last transaction boundary was passed cleanly.
    pub closed spec fn tr_clean(self) -> bool {
        self.s.hd.tr_is_clean()
    }

    /// The set of arena slots with an open cursor.
    pub closed spec fn cursor_set(self) -> Set<usize> {
        self.s.hd.cursor_set()
    }

    /// The number of arena slots allocated this session.
    pub closed spec fn arena_len(self) -> nat {
        self.s.hd.arena_len()
    }

    /// Whether an arena slot holds a server statement handle.
    pub closed spec fn occupied(self, i: int) -> bool {
        self.s.hd.occupied(i)
    }

    /// The number of occupied arena slots.
    pub closed spec fn prepared(self) -> nat {
        self.s.hd.prepared()
    }

    /// The modelled statement-cache contents.
    pub closed spec fn cache_entries(self) -> Seq<LruPair> {
        self.s.cache.entries()
    }

    /// The statement-cache capacity.
    pub closed spec fn cache_capacity(self) -> nat {
        self.s.cache.spec_capacity()
    }

    /// Opens a transaction on a connected client with the given isolation
    /// level, taking over the whole session for the transaction's
    /// duration. On failure the connected client is handed back with the
    /// error.
    pub fn try_new(client: ConnectedFbClient<C>, isolation_level: TrIsolationLevel) -> (r: Result<
        Tran<C>,
        (ConnectedFbClient<C>, FbError),
    >)
        requires
            client.wf(),
        ensures
            r matches Ok(t) ==> t.wf() && t.tr_active(),
            r matches Err((c, _)) ==> c.wf(),
    {
        let mut s = match client.inner {
            Some(s) => s,
            None => vstd::pervasive::unreached(),
        };
        match s.hd.begin_transaction(isolation_level) {
            Ok(()) => Ok(Tran { s }),
            Err(e) => Err((ConnectedFbClient { inner: Some(s) }, e)),
        }
    }

    /// Gives the session back to the connection once the transaction is
    /// over: any open cursors are closed, an unresolved transaction is
    /// rolled back (best effort) and its handle given up.
    pub fn into_connected(self) -> (r: ConnectedFbClient<C>)
        requires
            self.wf(),
        ensures
            r.wf(),
    {
        let mut s = self.s;
        s.hd.close_all_cursors();
        if s.hd.transaction_active() {
            let _ = s.hd.rollback();
        }
        if s.hd.transaction_active() {
            s.hd.forget_transaction();
        }
        ConnectedFbClient { inner: Some(s) }
    }

    /// Whether the transaction is still open, and statement operations
    /// are possible.
    pub fn is_active(&self) -> (r: bool)
        ensures
            r == self.tr_active(),
    {
        self.s.hd.transaction_active()
    }

    /// Execute a sql statement immediately, without returning rows.
    /// After a non-retaining commit or rollback there is no transaction,
    /// and the operation fails.
    pub fn execute_immediate(&mut self, sql: &str) -> (r: Result<(), FbError>)
        requires
            old(self).wf(),
        ensures
            final(self).wf(),
            final(self).cursor_set() == old(self).cursor_set(),
            final(self).cache_entries() == old(self).cache_entries(),
            final(self).arena_len() == old(self).arena_len(),
            final(self).prepared() == old(self).prepared(),
            final(self).tr_active() == old(self).tr_active(),
            !old(self).tr_active() ==> (r matches Err(e) && e is ExecutionFailure
                && e.spec_message() == "no transaction"@ && *final(self) == *old(self)),
            old(self).tr_active() ==> !final(self).tr_clean(),
    {
        if !self.s.hd.transaction_active() {
            return Err(FbError::execution("no transaction"));
        }
        self.s.hd.exec_immediate(self.s.dialect, sql)
    }

    /// Prepare a statement for execution, consulting the statement cache
    /// first. A cache hit loans the cached handle out; a miss asks the
    /// driver to prepare a fresh statement and records its type. The
    /// returned statement goes back to the cache when finished.
    ///
    /// After a non-retaining commit or rollback there is no transaction,
    /// and the operation fails. An empty sql text is refused as a
    /// protocol failure.
    pub fn prepare(&mut self, sql: &str) -> (r: Result<Stmt, FbError>)
        requires
            old(self).wf(),
        ensures
            final(self).wf(),
            final(self).cursor_set() == old(self).cursor_set(),
            final(self).tr_active() == old(self).tr_active(),
            final(self).tr_clean() == old(self).tr_clean(),
            r is Err ==> final(self).arena_len() == old(self).arena_len() && final(self).prepared()
                == old(self).prepared(),
            !old(self).tr_active() ==> (r matches Err(e) && e is ExecutionFailure
                && e.spec_message() == "no transaction"@ && *final(self) == *old(self)),
            old(self).tr_active() && sql@.len() == 0 ==> (r matches Err(e)
                && e is ProtocolFailure && *final(self) == *old(self)),
            old(self).tr_active() && sql@.len() > 0 && old(self).cache_hit_usable(sql@) ==> ({
                let entry = spec_cache_get(old(self).cache_entries(), sql@).1.unwrap();
                &&& r matches Ok(st)
                &&& st.spec_slot() == entry.1
                &&& st.spec_sql() == sql@
                &&& st.spec_drop_behavior() == StmtDropBehavior::CacheStmt
                &&& final(self).cache_entries() == spec_cache_get(
                    old(self).cache_entries(),
                    sql@,
                ).0
                &&& final(self).arena_len() == old(self).arena_len()
                &&& final(self).occupied(entry.1 as int)
                &&& final(self).prepared() == old(self).prepared()
            }),
            old(self).tr_active() && sql@.len() > 0 && !old(self).cache_hit_usable(sql@) ==> (
            r matches Ok(st) ==> {
                &&& st.spec_slot() as int == old(self).arena_len()
                &&& st.spec_sql() == sql@
                &&& st.spec_drop_behavior() == StmtDropBehavior::CacheStmt
                &&& final(self).arena_len() == old(self).arena_len() + 1
                &&& final(self).occupied(st.spec_slot() as int)
                &&& final(self).prepared() == old(self).prepared() + 1
            }),
    {
        if !self.s.hd.transaction_active() {
            return Err(FbError::execution("no transaction"));
        }
        if sql.is_empty() {
            return Err(FbError::protocol("empty statement"));
        }
        match self.s.cache.get(sql) {
            Some(data) => {
                if self.s.hd.slot_occupied(data.stmt) && !self.s.hd.has_open_cursor(data.stmt) {
                    proof {
                        let entry = spec_cache_get(old(self).cache_entries(), sql@).1.unwrap();
                        assert(entry == data.triple());
                    }
                    return Ok(
                        Stmt {
                            sql: data.sql,
                            handle: data.stmt,
                            stmt_type: data.stmt_type,
                            drop_behavior: StmtDropBehavior::CacheStmt,
                        },
                    );
                }
                // A cached entry whose slot no longer holds a handle, or
                // whose slot has an open cursor, cannot be loaned out; it
                // is discarded and a fresh statement prepared.
                self.prepare_fresh(sql)
            },
            None => self.prepare_fresh(sql),
        }
    }

    /// Whether the cache holds a usable entry for this sql: the entry
    /// exists, its slot still holds a handle, and no cursor is open on it.
    pub closed spec fn cache_hit_usable(self, sql: Seq<char>) -> bool {
        &&& spec_cache_get(self.cache_entries(), sql).1 matches Some(entry)
        &&& self.occupied(entry.1 as int)
        &&& !self.cursor_set().contains(entry.1)
    }

    /// Prepares a fresh statement through the driver and records its type.
    fn prepare_fresh(&mut self, sql: &str) -> (r: Result<Stmt, FbError>)
        requires
            old(self).wf(),
            old(self).tr_active(),
        ensures
            final(self).wf(),
            final(self).cursor_set() == old(self).cursor_set(),
            final(self).cache_entries() == old(self).cache_entries(),
            final(self).tr_active(),
            final(self).tr_clean() == old(self).tr_clean(),
            sql@.len() == 0 ==> (r matches Err(e) && e is ProtocolFailure),
            r is Err ==> final(self).arena_len() == old(self).arena_len() && final(self).prepared()
                == old(self).prepared(),
            r matches Ok(st) ==> {
                &&& st.spec_slot() as int == old(self).arena_len()
                &&& st.spec_sql() == sql@
                &&& st.spec_drop_behavior() == StmtDropBehavior::CacheStmt
                &&& final(self).arena_len() == old(self).arena_len() + 1
                &&& final(self).occupied(st.spec_slot() as int)
                &&& final(self).prepared() == old(self).prepared() + 1
            },
    {
        let idx = self.s.hd.prepare_statement_idx(self.s.dialect, sql)?;
        let stmt_type = self.s.hd.stmt_type_of(idx);
        Ok(
            Stmt {
                sql: String::from_str(sql),
                handle: idx,
                stmt_type,
                drop_behavior: StmtDropBehavior::CacheStmt,
            },
        )
    }

    /// Execute a prepared statement with positional parameters, without
    /// returning rows. If the statement is a `Select`, its cursor is
    /// closed immediately afterwards: the caller asked for an execution,
    /// not a fetch, and no cursor stays open.
    ///
    /// After a non-retaining commit or rollback there is no transaction,
    /// and the operation fails.
    pub fn execute(&mut self, stmt: &Stmt, params: Vec<SqlType>) -> (r: Result<(), FbError>)
        requires
            old(self).wf(),
            old(self).tr_active() ==> stmt.valid(*old(self)),
        ensures
            final(self).wf(),
            final(self).cache_entries() == old(self).cache_entries(),
            final(self).arena_len() == old(self).arena_len(),
            final(self).prepared() == old(self).prepared(),
            final(self).tr_active() == old(self).tr_active(),
            !old(self).tr_active() ==> (r matches Err(e) && e is ExecutionFailure
                && e.spec_message() == "no transaction"@ && *final(self) == *old(self)),
            old(self).tr_active() ==> !final(self).tr_clean(),
            old(self).tr_active() && r is Ok && stmt.spec_type() == StmtType::Select ==> final(self).cursor_set() == old(self).cursor_set().remove(stmt.spec_slot()) && !final(self).cursor_set().contains(stmt.spec_slot()),
            old(self).tr_active() && (r is Err || stmt.spec_type() != StmtType::Select) ==> final(self).cursor_set() == old(self).cursor_set(),
    {
        if !self.s.hd.transaction_active() {
            return Err(FbError::execution("no transaction"));
        }
        self.s.hd.execute_by_idx(stmt.handle, params)?;
        if matches!(stmt.stmt_type, StmtType::Select) {
            self.s.hd.close_cursor(stmt.handle)?;
        }
        Ok(())
    }

    /// Execute a prepared statement and open a cursor over its rows. The
    /// statement is consumed into the returned cursor; on failure it is
    /// handed back with the error.
    ///
    /// After a non-retaining commit or rollback there is no transaction,
    /// and the operation fails.
    pub fn query(&mut self, stmt: Stmt, params: Vec<SqlType>) -> (r: Result<
        Cursor,
        (Stmt, FbError),
    >)
        requires
            old(self).wf(),
            old(self).tr_active() ==> stmt.valid(*old(self)),
        ensures
            final(self).wf(),
            final(self).cache_entries() == old(self).cache_entries(),
            final(self).arena_len() == old(self).arena_len(),
            final(self).prepared() == old(self).prepared(),
            final(self).tr_active() == old(self).tr_active(),
            !old(self).tr_active() ==> (r matches Err((st, e)) && st == stmt
                && e is ExecutionFailure && e.spec_message() == "no transaction"@ && *final(self)
                == *old(self)),
            old(self).tr_active() ==> !final(self).tr_clean(),
            r matches Ok(cur) ==> cur.spec_stmt() == stmt && final(self).cursor_set() == old(self).cursor_set().insert(stmt.spec_slot()),
            r matches Err((st, _)) ==> st == stmt && final(self).cursor_set() == old(self).cursor_set(),
    {
        if !self.s.hd.transaction_active() {
            return Err((stmt, FbError::execution("no transaction")));
        }
        match self.s.hd.execute_by_idx(stmt.handle, params) {
            Ok(()) => {},
            Err(e) => {
                return Err((stmt, e));
            },
        }
        self.s.hd.open_cursor(stmt.handle);
        Ok(Cursor::from_stmt(stmt))
    }

    /// Fetch the next row from an open cursor; `None` on exhaustion.
    ///
    /// After a non-retaining commit or rollback there is no transaction,
    /// and the operation fails.
    pub fn fetch(&mut self, cursor: &Cursor) -> (r: Result<Option<Vec<Column>>, FbError>)
        requires
            old(self).wf(),
            old(self).tr_active() ==> cursor.spec_stmt().valid(*old(self)),
        ensures
            final(self).wf(),
            final(self).cursor_set() == old(self).cursor_set(),
            final(self).cache_entries() == old(self).cache_entries(),
            final(self).arena_len() == old(self).arena_len(),
            final(self).prepared() == old(self).prepared(),
            final(self).tr_active() == old(self).tr_active(),
            final(self).tr_clean() == old(self).tr_clean(),
            !old(self).tr_active() ==> (r matches Err(e) && e is ExecutionFailure
                && e.spec_message() == "no transaction"@ && *final(self) == *old(self)),
    {
        if !self.s.hd.transaction_active() {
            return Err(FbError::execution("no transaction"));
        }
        self.s.hd.fetch_wrapped(cursor.0.handle)
    }

    /// Registers an open cursor for a statement, consuming it.
    pub fn open_cursor(&mut self, stmt: Stmt) -> (r: Cursor)
        requires
            old(self).wf(),
            stmt.valid(*old(self)),
        ensures
            final(self).wf(),
            r.spec_stmt() == stmt,
            final(self).cursor_set() == old(self).cursor_set().insert(stmt.spec_slot()),
            final(self).cache_entries() == old(self).cache_entries(),
            final(self).arena_len() == old(self).arena_len(),
            final(self).prepared() == old(self).prepared(),
            final(self).tr_active() == old(self).tr_active(),
            final(self).tr_clean() == old(self).tr_clean(),
    {
        self.s.hd.open_cursor(stmt.handle);
        Cursor::from_stmt(stmt)
    }

    /// Closes a cursor, giving the statement back. The server-side close
    /// is best effort: the slot leaves the open set either way.
    pub fn close_cursor(&mut self, cursor: Cursor) -> (r: Stmt)
        requires
            old(self).wf(),
            cursor.spec_stmt().valid(*old(self)),
        ensures
            final(self).wf(),
            r == cursor.spec_stmt(),
            final(self).cursor_set() == old(self).cursor_set().remove(cursor.spec_slot()),
            final(self).cache_entries() == old(self).cache_entries(),
            final(self).arena_len() == old(self).arena_len(),
            final(self).prepared() == old(self).prepared(),
            final(self).tr_active() == old(self).tr_active(),
            final(self).tr_clean() == old(self).tr_clean(),
    {
        let stmt = cursor.into_stmt();
        let _ = self.s.hd.close_cursor(stmt.handle);
        self.s.hd.remove_cursor_entry(stmt.handle);
        stmt
    }

    /// What `finish_statement` may do to the cache and the statement's
    /// slot when the statement goes back to the cache: either the cursor
    /// close failed and nothing else happened, or the handle was cached —
    /// still occupied, so closed but not dropped — and only the displaced
    /// entry's slot may have been released. The displaced entry can name
    /// the statement's own slot only when a stale twin of the same sql
    /// was still cached.
    pub open spec fn cached_statement_outcome(pre: Self, post: Self, stmt: Stmt) -> bool {
        let ins = spec_cache_insert(
            pre.cache_entries(),
            pre.cache_capacity(),
            (stmt.spec_sql(), stmt.spec_slot(), spec_stmt_type_code(stmt.spec_type())),
        );
        ||| {
            &&& post.cache_entries() == pre.cache_entries()
            &&& forall|i: int|
                0 <= i < pre.arena_len() ==> post.occupied(i) == #[trigger] pre.occupied(i)
            &&& post.prepared() == pre.prepared()
        }
        ||| {
            &&& post.cache_entries() == ins.0
            &&& match ins.1 {
                Some(d) => d.1 == stmt.spec_slot() || post.occupied(stmt.spec_slot() as int),
                None => post.occupied(stmt.spec_slot() as int),
            }
            &&& forall|i: int|
                0 <= i < pre.arena_len() && i != stmt.spec_slot() as int && (match ins.1 {
                    Some(d) => i != d.1 as int,
                    None => true,
                }) ==> post.occupied(i) == #[trigger] pre.occupied(i)
        }
    }

    /// Finishes a statement according to its drop behaviour. On
    /// `DropStmt` the server-side statement is released and its slot
    /// freed. On `CacheStmt` the statement's cursor is closed and, only if
    /// that close succeeded, the still-valid handle is returned to the
    /// statement cache — so a cached statement is always closed but never
    /// dropped — and the entry the cache displaced, if any, is dropped on
    /// the server. Driver failures are swallowed, as in any teardown path:
    /// this is at-most-once cleanup, and a handle lost here is left to the
    /// server to reap.
    pub fn finish_statement(&mut self, stmt: Stmt)
        requires
            old(self).wf(),
        ensures
            final(self).wf(),
            final(self).tr_active() == old(self).tr_active(),
            final(self).tr_clean() == old(self).tr_clean(),
            final(self).arena_len() == old(self).arena_len(),
            final(self).cursor_set() == old(self).cursor_set().remove(stmt.spec_slot()),
            stmt.spec_drop_behavior() == StmtDropBehavior::DropStmt ==> {
                &&& final(self).cache_entries() == old(self).cache_entries()
                &&& final(self).prepared() <= old(self).prepared()
                &&& forall|i: int|
                    0 <= i < old(self).arena_len() && i != stmt.spec_slot() as int ==> final(self).occupied(i) == #[trigger] old(self).occupied(i)
            },
            (stmt.spec_drop_behavior() == StmtDropBehavior::CacheStmt && old(self).occupied(
                stmt.spec_slot() as int,
            )) ==> Self::cached_statement_outcome(*old(self), *final(self), stmt),
            (stmt.spec_drop_behavior() == StmtDropBehavior::CacheStmt && !old(self).occupied(
                stmt.spec_slot() as int,
            )) ==> final(self).cache_entries() == old(self).cache_entries() && forall|i: int|
                0 <= i < old(self).arena_len() ==> final(self).occupied(i) == #[trigger] old(self).occupied(i),
    {
        let ghost pre = *old(self);
        let ghost gstmt = stmt;
        let slot_ok = self.s.hd.slot_occupied(stmt.handle);
        let mut closed: bool = false;
        if slot_ok {
            closed = self.s.hd.close_cursor(stmt.handle).is_ok();
        }
        self.s.hd.remove_cursor_entry(stmt.handle);
        proof {
            assert(self.s.hd.cursor_set() =~= pre.s.hd.cursor_set().remove(stmt.handle));
            assert(self.s.hd.occ_seq() == pre.s.hd.occ_seq());
        }
        match stmt.drop_behavior {
            StmtDropBehavior::DropStmt => {
                if self.s.hd.slot_occupied(stmt.handle) {
                    match self.s.hd.drop_stmt(stmt.handle) {
                        Ok(()) => {},
                        Err(_) => {},
                    }
                }
                proof {
                    let slot = gstmt.spec_slot() as int;
                    pre.s.hd.lemma_occupied_at();
                    self.s.hd.lemma_occupied_at();
                    assert(self.s.hd.occ_seq() == pre.s.hd.occ_seq() || self.s.hd.occ_seq()
                        == pre.s.hd.occ_seq().update(slot, false));
                    assert forall|i: int|
                        0 <= i < pre.arena_len() && i != slot implies self.s.hd.occupied(i)
                        == pre.s.hd.occupied(i) by {
                        assert(self.s.hd.occ_seq()[i] == pre.s.hd.occ_seq()[i]);
                    }
                }
            },
            StmtDropBehavior::CacheStmt => {
                if closed {
                    let displaced = self.s.cache.insert(
                        StatementData { sql: stmt.sql, stmt: stmt.handle, stmt_type: stmt.stmt_type },
                    );
                    let ghost d_spec = spec_cache_insert(
                        pre.cache_entries(),
                        pre.cache_capacity(),
                        (gstmt.spec_sql(), gstmt.spec_slot(), spec_stmt_type_code(gstmt.spec_type())),
                    ).1;
                    match displaced {
                        Some(old_entry) => {
                            proof {
                                assert(d_spec == Some(old_entry.triple()));
                            }
                            if self.s.hd.slot_occupied(old_entry.stmt) && !self.s.hd.has_open_cursor(
                                old_entry.stmt,
                            ) {
                                match self.s.hd.drop_stmt(old_entry.stmt) {
                                    Ok(()) => {},
                                    Err(_) => {},
                                }
                            }
                            proof {
                                pre.s.hd.lemma_occupied_at();
                                self.s.hd.lemma_occupied_at();
                                assert(self.s.hd.occ_seq() == pre.s.hd.occ_seq() || self.s.hd.occ_seq()
                                    == pre.s.hd.occ_seq().update(old_entry.stmt as int, false));
                                assert forall|i: int|
                                    0 <= i < pre.arena_len() && i != old_entry.stmt as int implies
                                    self.s.hd.occupied(i) == pre.s.hd.occupied(i) by {
                                    assert(self.s.hd.occ_seq()[i] == pre.s.hd.occ_seq()[i]);
                                }
                            }
                        },
                        None => {
                            proof {
                                pre.s.hd.lemma_occupied_at();
                                self.s.hd.lemma_occupied_at();
                                assert forall|i: int| 0 <= i < pre.arena_len() implies
                                    self.s.hd.occupied(i) == pre.s.hd.occupied(i) by {
                                    assert(self.s.hd.occ_seq()[i] == pre.s.hd.occ_seq()[i]);
                                }
                            }
                        },
                    }
                } else {
                    proof {
                        pre.s.hd.lemma_occupied_at();
                        self.s.hd.lemma_occupied_at();
                        assert forall|i: int| 0 <= i < pre.arena_len() implies self.s.hd.occupied(
                            i,
                        ) == pre.s.hd.occupied(i) by {
                            assert(self.s.hd.occ_seq()[i] == pre.s.hd.occ_seq()[i]);
                        }
                    }
                }
            },
        }
    }

    /// Commit the transaction, not allowing reuse: on success the
    /// transaction handle is given up and later statement operations fail.
    /// A failed commit keeps the handle, so the caller decides what to try
    /// next — `with_transaction(Commit, ..)` falls back to a rollback.
    pub fn commit(&mut self) -> (r: Result<(), FbError>)
        requires
            old(self).wf(),
        ensures
            final(self).wf(),
            final(self).cache_entries() == old(self).cache_entries(),
            final(self).arena_len() == old(self).arena_len(),
            final(self).prepared() == old(self).prepared(),
            !old(self).tr_active() ==> (r matches Err(e) && e is ExecutionFailure
                && e.spec_message() == "no transaction"@ && *final(self) == *old(self)),
            old(self).tr_active() ==> {
                &&& final(self).cursor_set() == Set::<usize>::empty()
                &&& (final(self).tr_active() <==> r is Err)
                &&& (r is Ok <==> final(self).tr_clean())
            },
    {
        if !self.s.hd.transaction_active() {
            return Err(FbError::execution("no transaction"));
        }
        self.s.hd.commit()
    }

    /// Commit the transaction, keeping the handle valid for reuse.
    pub fn commit_retaining(&mut self) -> (r: Result<(), FbError>)
        requires
            old(self).wf(),
        ensures
            final(self).wf(),
            final(self).cache_entries() == old(self).cache_entries(),
            final(self).arena_len() == old(self).arena_len(),
            final(self).prepared() == old(self).prepared(),
            final(self).tr_active() == old(self).tr_active(),
            final(self).cursor_set() == old(self).cursor_set(),
            !old(self).tr_active() ==> (r matches Err(e) && e is ExecutionFailure
                && e.spec_message() == "no transaction"@ && *final(self) == *old(self)),
            old(self).tr_active() ==> (r is Ok <==> final(self).tr_clean()),
    {
        if !self.s.hd.transaction_active() {
            return Err(FbError::execution("no transaction"));
        }
        self.s.hd.commit_retaining()
    }

    /// Roll back the transaction, keeping the handle valid for reuse.
    pub fn rollback_retaining(&mut self) -> (r: Result<(), FbError>)
        requires
            old(self).wf(),
        ensures
            final(self).wf(),
            final(self).cache_entries() == old(self).cache_entries(),
            final(self).arena_len() == old(self).arena_len(),
            final(self).prepared() == old(self).prepared(),
            final(self).tr_active() == old(self).tr_active(),
            final(self).cursor_set() == old(self).cursor_set(),
            !old(self).tr_active() ==> (r matches Err(e) && e is ExecutionFailure
                && e.spec_message() == "no transaction"@ && *final(self) == *old(self)),
            old(self).tr_active() ==> (r is Ok <==> final(self).tr_clean()),
    {
        if !self.s.hd.transaction_active() {
            return Err(FbError::execution("no transaction"));
        }
        self.s.hd.rollback_retaining()
    }

    /// Roll back the transaction, invalidating it: on success the
    /// transaction handle is given up and later statement operations fail.
    pub fn rollback(&mut self) -> (r: Result<(), FbError>)
        requires
            old(self).wf(),
        ensures
            final(self).wf(),
            final(self).cache_entries() == old(self).cache_entries(),
            final(self).arena_len() == old(self).arena_len(),
            final(self).prepared() == old(self).prepared(),
            !old(self).tr_active() ==> (r matches Err(e) && e is ExecutionFailure
                && e.spec_message() == "no transaction"@ && *final(self) == *old(self)),
            old(self).tr_active() ==> {
                &&& final(self).cursor_set() == Set::<usize>::empty()
                &&& (final(self).tr_active() <==> r is Err)
                &&& (r is Ok <==> final(self).tr_clean())
            },
    {
        if !self.s.hd.transaction_active() {
            return Err(FbError::execution("no transaction"));
        }
        self.s.hd.rollback()
    }
}

impl<C: FirebirdClient> ConnectedFbClient<C> {
    /// Well-formedness: attached, no transaction in progress, no open
    /// cursors, sound handle and cache bookkeeping.
    pub closed spec fn wf(self) -> bool {
        &&& self.inner matches Some(s)
        &&& self.inner.unwrap().hd.wf()
        &&& self.inner.unwrap().hd.is_attached()
        &&& !self.inner.unwrap().hd.tr_active()
        &&& self.inner.unwrap().hd.cursor_set() == Set::<usize>::empty()
        &&& self.inner.unwrap().cache.wf()
    }

    /// Whether the last transaction boundary was passed cleanly.
    pub closed spec fn tr_clean(self) -> bool {
        self.inner.unwrap().hd.tr_is_clean()
    }

    /// The modelled statement-cache contents.
    pub closed spec fn cache_entries(self) -> Seq<LruPair> {
        self.inner.unwrap().cache.entries()
    }

    /// The configured statement-cache capacity.
    pub closed spec fn cache_capacity(self) -> nat {
        self.inner.unwrap().cache.spec_capacity()
    }

    /// The sql dialect this client passes to the driver.
    pub closed spec fn spec_dialect(self) -> Dialect {
        self.inner.unwrap().dialect
    }

    /// Run a closure with a transaction. The closure receives the session
    /// as a `Tran` and must hand it back together with its result.
    ///
    /// On the way out every open cursor is closed; then, unless the
    /// closure already resolved the transaction or `on_drop` is `Ignore`,
    /// the transaction is committed or rolled back as `on_drop` says
    /// (commit falls back to rollback on failure, as the last resort). A
    /// transaction that is still open after that — the `Ignore` case, a
    /// failed rollback, or a transaction already clean — is forgotten:
    /// the handle is leaked rather than resolved. A failure while
    /// resolving the transaction is reported in place of the closure's
    /// result.
    pub fn with_transaction<T, F: FnOnce(Tran<C>) -> (Tran<C>, Result<T, FbError>)>(
        &mut self,
        on_drop: DropBehavior,
        closure: F,
    ) -> (r: Result<T, FbError>)
        requires
            old(self).wf(),
            forall|t: Tran<C>| t.wf() && t.tr_active() ==> call_requires(closure, (t,)),
            forall|t: Tran<C>, out: (Tran<C>, Result<T, FbError>)|
                call_ensures(closure, (t,), out) ==> out.0.wf(),
        ensures
            final(self).wf(),
            !(on_drop is Ignore) && r is Ok ==> final(self).tr_clean(),
            r is Ok ==> exists|t: Tran<C>, o: (Tran<C>, Result<T, FbError>)|
                #[trigger] call_ensures(closure, (t,), o) && o.1 == r,
    {
        let mut s = match self.inner.take() {
            Some(s) => s,
            None => vstd::pervasive::unreached(),
        };
        match s.hd.begin_transaction(TrIsolationLevel::ReadCommitted) {
            Ok(()) => {},
            Err(e) => {
                self.inner = Some(s);
                return Err(e);
            },
        }
        let tran = Tran { s };
        let ghost t_in = tran;
        proof {
            assert(tran.wf() && tran.tr_active());
            assert(call_requires(closure, (tran,)));
        }
        let out_pair = closure(tran);
        let ghost o_pair = out_pair;
        let (tran, res) = out_pair;
        let mut s = tran.s;
        s.hd.close_all_cursors();
        let mut resolve_err: Option<FbError> = None;
        if s.hd.transaction_active() {
            if !matches!(on_drop, DropBehavior::Ignore) && !s.hd.transaction_clean() {
                match on_drop {
                    DropBehavior::Commit => {
                        match s.hd.commit() {
                            Ok(()) => {},
                            Err(_) => {
                                match s.hd.rollback() {
                                    Ok(()) => {},
                                    Err(e2) => {
                                        resolve_err = Some(e2);
                                    },
                                }
                            },
                        }
                    },
                    DropBehavior::Rollback => {
                        match s.hd.rollback() {
                            Ok(()) => {},
                            Err(e) => {
                                resolve_err = Some(e);
                            },
                        }
                    },
                    DropBehavior::Ignore => {},
                }
            }
        }
        if s.hd.transaction_active() {
            s.hd.forget_transaction();
        }
        self.inner = Some(s);
        let out = match resolve_err {
            Some(e) => Err(e),
            None => res,
        };
        proof {
            if out is Ok {
                assert(call_ensures(closure, (t_in,), o_pair));
                assert(o_pair.1 == out);
            }
        }
        out
    }

    /// Run a closure with a transaction, resolving it by the closure's
    /// result: the transaction's changes are committed retaining on `Ok`
    /// and rolled back retaining on `Err`, and a failure of that operation
    /// is reported in place of the closure's result. The transaction
    /// handle itself is then given up with a best-effort rollback on the
    /// way out, so the session is ready for the next transaction.
    pub fn with_transaction_by_result<T, F: FnOnce(Tran<C>) -> (Tran<C>, Result<T, FbError>)>(
        &mut self,
        closure: F,
    ) -> (r: Result<T, FbError>)
        requires
            old(self).wf(),
            forall|t: Tran<C>| t.wf() && t.tr_active() ==> call_requires(closure, (t,)),
            forall|t: Tran<C>, out: (Tran<C>, Result<T, FbError>)|
                call_ensures(closure, (t,), out) ==> out.0.wf(),
        ensures
            final(self).wf(),
            r is Ok ==> exists|t: Tran<C>, o: (Tran<C>, Result<T, FbError>)|
                #[trigger] call_ensures(closure, (t,), o) && o.1 == r,
    {
        let mut s = match self.inner.take() {
            Some(s) => s,
            None => vstd::pervasive::unreached(),
        };
        match s.hd.begin_transaction(TrIsolationLevel::ReadCommitted) {
            Ok(()) => {},
            Err(e) => {
                self.inner = Some(s);
                return Err(e);
            },
        }
        let tran = Tran { s };
        let ghost t_in = tran;
        proof {
            assert(tran.wf() && tran.tr_active());
            assert(call_requires(closure, (tran,)));
        }
        let out_pair = closure(tran);
        let ghost o_pair = out_pair;
        let (tran, res) = out_pair;
        let mut s = tran.s;
        s.hd.close_all_cursors();
        let mut resolve_err: Option<FbError> = None;
        if s.hd.transaction_active() {
            let op_res = if res.is_ok() {
                s.hd.commit_retaining()
            } else {
                s.hd.rollback_retaining()
            };
            match op_res {
                Ok(()) => {},
                Err(e) => {
                    resolve_err = Some(e);
                },
            }
            let _ = s.hd.rollback();
        }
        if s.hd.transaction_active() {
            s.hd.forget_transaction();
        }
        self.inner = Some(s);
        let out = match resolve_err {
            Some(e) => Err(e),
            None => res,
        };
        proof {
            if out is Ok {
                assert(call_ensures(closure, (t_in,), o_pair));
                assert(o_pair.1 == out);
            }
        }
        out
    }

    /// Disconnect from the database: close any remaining cursors, drop
    /// every cached statement on the server, then detach. On detach
    /// failure the connected client is returned, with the first error
    /// collected along the way, so the caller may retry. A statement-drop
    /// failure alone does not fail a disconnect whose detach succeeded:
    /// the detach reclaims those handles anyway. `close` reports it.
    pub fn disconnect(self) -> (r: Result<DisconnectedFbClient<C>, (Self, FbError)>)
        requires
            self.wf(),
        ensures
            r matches Ok(d) ==> d.wf() && d.cache_entries() == Seq::<LruPair>::empty(),
            r matches Err((c, _)) ==> c.wf(),
    {
        let mut s = match self.inner {
            Some(s) => s,
            None => vstd::pervasive::unreached(),
        };
        s.hd.close_all_cursors();
        let (s2, drain_err) = drain_cache(s);
        let mut s = s2;
        match s.hd.detach_database() {
            Ok(()) => Ok(DisconnectedFbClient { s }),
            Err(e) => {
                let first = match drain_err {
                    Some(e0) => e0,
                    None => e,
                };
                Err((ConnectedFbClient { inner: Some(s) }, first))
            },
        }
    }

    /// Close the connection, best effort and at most once: every open
    /// cursor is closed, every cached statement dropped on the server,
    /// and the database detached. All errors are collected and the first
    /// one returned; whatever failed, the connection is spent — a handle
    /// that could not be released is given up for the server to reap —
    /// and the detached shell comes back ready for a new connect.
    pub fn close(self) -> (r: (DisconnectedFbClient<C>, Result<(), FbError>))
        requires
            self.wf(),
        ensures
            r.0.wf(),
            r.0.cache_entries() == Seq::<LruPair>::empty(),
    {
        let mut s = match self.inner {
            Some(s) => s,
            None => vstd::pervasive::unreached(),
        };
        s.hd.close_all_cursors();
        let (s2, drain_err) = drain_cache(s);
        let mut s = s2;
        let detach_res = s.hd.detach_database();
        if s.hd.attached() {
            s.hd.forget_database();
        }
        let out: Result<(), FbError> = match (drain_err, detach_res) {
            (Some(e), _) => Err(e),
            (None, Err(e)) => Err(e),
            (None, Ok(())) => Ok(()),
        };
        (DisconnectedFbClient { s }, out)
    }

    /// Drop the database itself: close cursors, drop cached statements,
    /// then ask the server to drop the database. Consumes the connection;
    /// on failure the connected client is returned so the caller may
    /// retry.
    pub fn drop_database(self) -> (r: Result<DisconnectedFbClient<C>, (Self, FbError)>)
        requires
            self.wf(),
        ensures
            r matches Ok(d) ==> d.wf() && d.cache_entries() == Seq::<LruPair>::empty(),
            r matches Err((c, _)) ==> c.wf(),
    {
        let mut s = match self.inner {
            Some(s) => s,
            None => vstd::pervasive::unreached(),
        };
        s.hd.close_all_cursors();
        let (s2, drain_err) = drain_cache(s);
        let mut s = s2;
        match s.hd.drop_database() {
            Ok(()) => Ok(DisconnectedFbClient { s }),
            Err(e) => {
                let first = match drain_err {
                    Some(e0) => e0,
                    None => e,
                };
                Err((ConnectedFbClient { inner: Some(s) }, first))
            },
        }
    }

    /// Gives up the client state, handing back the raw driver instance.
    /// Any server-side handles still held are left to the server to reap.
    pub fn into_client(self) -> C
        requires
            self.wf(),
    {
        match self.inner {
            Some(s) => s.hd.into_client(),
            None => vstd::pervasive::unreached(),
        }
    }
}

/// Empties the statement cache, dropping each cached statement's server
/// handle (best effort: a slot that is no longer occupied, or that has an
/// open cursor, is skipped and left to the server). Returns the first
/// driver error met on the way, for callers that collect errors.
fn drain_cache<C: FirebirdClient>(s: Session<C>) -> (r: (Session<C>, Option<FbError>))
    requires
        s.hd.wf(),
        s.cache.wf(),
    ensures
        r.0.hd.wf(),
        r.0.cache.wf(),
        r.0.cache.entries() == Seq::<LruPair>::empty(),
        r.0.hd.is_attached() == s.hd.is_attached(),
        r.0.hd.tr_active() == s.hd.tr_active(),
        r.0.hd.tr_is_clean() == s.hd.tr_is_clean(),
        r.0.hd.cursor_set() == s.hd.cursor_set(),
        r.0.dialect == s.dialect,
{
    let ghost s0 = s;
    let mut s = s;
    let mut first_err: Option<FbError> = None;
    while s.cache.len() > 0
        invariant
            s.hd.wf(),
            s.cache.wf(),
            s.hd.is_attached() == s0.hd.is_attached(),
            s.hd.tr_active() == s0.hd.tr_active(),
            s.hd.tr_is_clean() == s0.hd.tr_is_clean(),
            s.hd.cursor_set() == s0.hd.cursor_set(),
            s.dialect == s0.dialect,
        decreases s.cache.entries().len(),
    {
        let entry = match s.cache.take_lru() {
            Some(e) => e,
            None => vstd::pervasive::unreached(),
        };
        if s.hd.slot_occupied(entry.stmt) && !s.hd.has_open_cursor(entry.stmt) {
            match s.hd.drop_stmt(entry.stmt) {
                Ok(()) => {},
                Err(e) => {
                    if first_err.is_none() {
                        first_err = Some(e);
                    }
                },
            }
        }
    }
    (s, first_err)
}

} // verus!
