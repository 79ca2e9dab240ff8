//! The driver capability set: what any concrete Firebird driver
//! (native binding, pure wire implementation, mock) must provide.
//!
//! The surface is deliberately minimal — one attached database, one active
//! transaction and one addressed statement at a time — which matches the
//! underlying Firebird API and keeps the state tracking in the layers above
//! tractable. Every operation takes mutable references to the handles so a
//! driver can mutate internal buffers in place.

use vstd::prelude::*;

use crate::error::FbError;
use crate::value::{Column, SqlType};

verus! {

/// Firebird SQL compatibility mode. Opaque to this library; passed through
/// to the driver.
#[derive(Debug, Clone, Copy, PartialEq, Eq, Structural)]
pub enum Dialect {
    D1,
    D2,
    D3,
}

/// Transaction isolation level requested at `begin_transaction`.
#[derive(Debug, Clone, Copy, PartialEq, Eq, Structural)]
pub enum TrIsolationLevel {
    ReadCommitted,
    Concurrency,
    Consistency,
}

/// Commit / rollback, in consuming and retaining flavours. The retaining
/// variants keep the transaction handle valid for reuse; the plain variants
/// invalidate it.
#[derive(Debug, Clone, Copy, PartialEq, Eq, Structural)]
pub enum TrOp {
    Commit,
    CommitRetaining,
    Rollback,
    RollbackRetaining,
}

/// What `free_statement` should do: release only the open cursor, or the
/// whole server-side statement.
#[derive(Debug, Clone, Copy, PartialEq, Eq, Structural)]
pub enum FreeStmtOp {
    Close,
    Drop,
}

/// The category the server assigns to a prepared statement. Governs
/// post-execute behaviour: after executing a `Select` through the
/// non-iterating path, the cursor is closed immediately.
#[derive(Debug, Clone, Copy, PartialEq, Eq, Structural)]
pub enum StmtType {
    Select,
    Insert,
    Update,
    Delete,
    Ddl,
    SetGenerator,
    Savepoint,
    Other,
}

/// Database-level operations of a driver.
pub trait FirebirdClientDbOps {
    type DbHandle;

    type AttachmentConfig;

    /// Create a new attachment to a database with the provided configuration,
    /// returning a database handle on success.
    fn attach_database(&mut self, config: &Self::AttachmentConfig) -> Result<
        Self::DbHandle,
        FbError,
    >;

    /// Disconnect from the database.
    fn detach_database(&mut self, db_handle: &mut Self::DbHandle) -> Result<(), FbError>;

    /// Drop the database.
    fn drop_database(&mut self, db_handle: &mut Self::DbHandle) -> Result<(), FbError>;
}

/// Transaction and statement operations of a driver.
pub trait FirebirdClientSqlOps {
    type DbHandle;

    type TrHandle;

    type StmtHandle;

    /// Start a new transaction with the given isolation level.
    fn begin_transaction(
        &mut self,
        db_handle: &mut Self::DbHandle,
        isolation_level: TrIsolationLevel,
    ) -> Result<Self::TrHandle, FbError>;

    /// Commit or roll back a transaction.
    fn transaction_operation(&mut self, tr_handle: &mut Self::TrHandle, op: TrOp) -> Result<
        (),
        FbError,
    >;

    /// Execute a sql statement immediately, without returning rows.
    fn exec_immediate(
        &mut self,
        db_handle: &mut Self::DbHandle,
        tr_handle: &mut Self::TrHandle,
        dialect: Dialect,
        sql: &str,
    ) -> Result<(), FbError>;

    /// Allocate and prepare a statement, returning its type and handle.
    fn prepare_statement(
        &mut self,
        db_handle: &mut Self::DbHandle,
        tr_handle: &mut Self::TrHandle,
        dialect: Dialect,
        sql: &str,
    ) -> Result<(StmtType, Self::StmtHandle), FbError>;

    /// Close the statement's cursor or drop the whole server-side statement.
    fn free_statement(&mut self, stmt_handle: &mut Self::StmtHandle, op: FreeStmtOp) -> Result<
        (),
        FbError,
    >;

    /// Close the statement's cursor, keeping the statement valid.
    fn close_statement(&mut self, stmt_handle: &mut Self::StmtHandle) -> Result<(), FbError>;

    /// Drop the server-side statement, consuming its handle.
    fn drop_statement(&mut self, stmt_handle: Self::StmtHandle) -> Result<(), FbError>;

    /// Execute the prepared statement with positional parameters.
    fn execute(
        &mut self,
        db_handle: &mut Self::DbHandle,
        tr_handle: &mut Self::TrHandle,
        stmt_handle: &mut Self::StmtHandle,
        params: Vec<SqlType>,
    ) -> Result<(), FbError>;

    /// Execute the prepared statement with input and output parameters; the
    /// output parameters come back in the result.
    fn execute2(
        &mut self,
        db_handle: &mut Self::DbHandle,
        tr_handle: &mut Self::TrHandle,
        stmt_handle: &mut Self::StmtHandle,
        params: Vec<SqlType>,
    ) -> Result<Vec<Column>, FbError>;

    /// Fetch the next row from the executed statement; `None` on cursor
    /// exhaustion.
    fn fetch(
        &mut self,
        db_handle: &mut Self::DbHandle,
        tr_handle: &mut Self::TrHandle,
        stmt_handle: &mut Self::StmtHandle,
    ) -> Result<Option<Vec<Column>>, FbError>;
}

/// The full driver capability set.
pub trait FirebirdClient: FirebirdClientDbOps + FirebirdClientSqlOps<
    DbHandle = <Self as FirebirdClientDbOps>::DbHandle,
> {

}

impl<
    C: FirebirdClientDbOps + FirebirdClientSqlOps<DbHandle = <C as FirebirdClientDbOps>::DbHandle>,
> FirebirdClient for C {

}

/// A type that can produce a configured client, for use in connection pools.
pub trait FirebirdClientConfiguration: Sync {
    type Client: FirebirdClient;

    fn new_instance(&self) -> Self::Client;
}

/// A client that allows cloning and is `Sync` can naively be used to
/// produce new instances of itself.
impl<C: FirebirdClient + Clone + Sync> FirebirdClientConfiguration for C {
    type Client = C;

    fn new_instance(&self) -> C {
        self.clone()
    }
}

} // verus!
