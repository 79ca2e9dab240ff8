//! A mock driver for exercising the lifecycle machinery without a live
//! server: every operation succeeds, every prepared statement is a
//! `Select`, and fetch never yields a row.
//!
//! The mock hands out numbered handles and keeps a journal of the
//! lifecycle-relevant calls it saw, so a test can check that every server
//! handle the session obtained was also released.

use vstd::prelude::*;

use crate::error::FbError;
use crate::ops::{
    Dialect,
    FirebirdClientDbOps,
    FirebirdClientSqlOps,
    FreeStmtOp,
    StmtType,
    TrIsolationLevel,
    TrOp,
};
use crate::value::{Column, SqlType};

verus! {

/// How a mock driver answers. Kept as a configuration knob; the current
/// mock always succeeds, whichever strategy it was built with.
#[derive(Debug, Clone, Copy, PartialEq, Eq, Structural)]
pub enum ResponseStrategy {
    FailRandomly,
    AlwaysSucceed,
    AlwaysFail,
}

/// One lifecycle-relevant driver call, as the mock recorded it.
#[derive(Debug, Clone, Copy, PartialEq, Eq, Structural)]
pub enum MockEvent {
    Attached(u64),
    Detached(u64),
    DroppedDatabase(u64),
    BeganTransaction(u64),
    TransactionOp(u64, TrOp),
    Prepared(u64),
    ClosedStmt(u64),
    DroppedStmt(u64),
    Executed(u64),
}

/// The mock driver.
#[derive(Debug, Clone)]
pub struct MockFbClient {
    strategy: ResponseStrategy,
    next_handle: u64,
    events: Vec<MockEvent>,
}

impl MockFbClient {
    /// The journal of calls, as a sequence.
    pub closed spec fn spec_events(self) -> Seq<MockEvent> {
        self.events@
    }

    /// A fresh mock with the given answering strategy.
    pub fn new(strategy: ResponseStrategy) -> (r: MockFbClient)
        ensures
            r.spec_events() == Seq::<MockEvent>::empty(),
    {
        MockFbClient { strategy, next_handle: 0, events: Vec::new() }
    }

    /// The journal of calls recorded so far, oldest first.
    pub fn events(&self) -> (r: &Vec<MockEvent>)
        ensures
            r@ == self.spec_events(),
    {
        &self.events
    }

    fn fresh_handle(&mut self) -> u64 {
        let h = self.next_handle;
        self.next_handle = self.next_handle.wrapping_add(1);
        h
    }

    fn record(&mut self, ev: MockEvent) {
        self.events.push(ev);
    }
}

impl FirebirdClientDbOps for MockFbClient {
    type DbHandle = u64;

    type AttachmentConfig = ();

    fn attach_database(&mut self, _config: &()) -> Result<u64, FbError> {
        let h = self.fresh_handle();
        self.record(MockEvent::Attached(h));
        Ok(h)
    }

    fn detach_database(&mut self, db_handle: &mut u64) -> Result<(), FbError> {
        let h = *db_handle;
        self.record(MockEvent::Detached(h));
        Ok(())
    }

    fn drop_database(&mut self, db_handle: &mut u64) -> Result<(), FbError> {
        let h = *db_handle;
        self.record(MockEvent::DroppedDatabase(h));
        Ok(())
    }
}

impl FirebirdClientSqlOps for MockFbClient {
    type DbHandle = u64;

    type TrHandle = u64;

    type StmtHandle = u64;

    fn begin_transaction(&mut self, _db_handle: &mut u64, _isolation_level: TrIsolationLevel)
        -> Result<u64, FbError> {
        let h = self.fresh_handle();
        self.record(MockEvent::BeganTransaction(h));
        Ok(h)
    }

    fn transaction_operation(&mut self, tr_handle: &mut u64, op: TrOp) -> Result<(), FbError> {
        let h = *tr_handle;
        self.record(MockEvent::TransactionOp(h, op));
        Ok(())
    }

    fn exec_immediate(
        &mut self,
        _db_handle: &mut u64,
        tr_handle: &mut u64,
        _dialect: Dialect,
        _sql: &str,
    ) -> Result<(), FbError> {
        let h = *tr_handle;
        self.record(MockEvent::Executed(h));
        Ok(())
    }

    fn prepare_statement(
        &mut self,
        _db_handle: &mut u64,
        _tr_handle: &mut u64,
        _dialect: Dialect,
        _sql: &str,
    ) -> Result<(StmtType, u64), FbError> {
        let h = self.fresh_handle();
        self.record(MockEvent::Prepared(h));
        Ok((StmtType::Select, h))
    }

    fn free_statement(&mut self, stmt_handle: &mut u64, op: FreeStmtOp) -> Result<(), FbError> {
        let h = *stmt_handle;
        match op {
            FreeStmtOp::Close => self.record(MockEvent::ClosedStmt(h)),
            FreeStmtOp::Drop => self.record(MockEvent::DroppedStmt(h)),
        }
        Ok(())
    }

    fn close_statement(&mut self, stmt_handle: &mut u64) -> Result<(), FbError> {
        let h = *stmt_handle;
        self.record(MockEvent::ClosedStmt(h));
        Ok(())
    }

    fn drop_statement(&mut self, stmt_handle: u64) -> Result<(), FbError> {
        self.record(MockEvent::DroppedStmt(stmt_handle));
        Ok(())
    }

    fn execute(
        &mut self,
        _db_handle: &mut u64,
        _tr_handle: &mut u64,
        stmt_handle: &mut u64,
        _params: Vec<SqlType>,
    ) -> Result<(), FbError> {
        let h = *stmt_handle;
        self.record(MockEvent::Executed(h));
        Ok(())
    }

    fn execute2(
        &mut self,
        _db_handle: &mut u64,
        _tr_handle: &mut u64,
        stmt_handle: &mut u64,
        _params: Vec<SqlType>,
    ) -> Result<Vec<Column>, FbError> {
        let h = *stmt_handle;
        self.record(MockEvent::Executed(h));
        Ok(Vec::new())
    }

    fn fetch(&mut self, _db_handle: &mut u64, _tr_handle: &mut u64, _stmt_handle: &mut u64)
        -> Result<Option<Vec<Column>>, FbError> {
        Ok(None)
    }
}

} // verus!
