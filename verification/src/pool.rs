//! The connection-pool adapter: a factory plus liveness check implementing
//! the decisions a generic connection manager needs. The thin impl of the
//! pool crate's manager trait delegates to these.

use vstd::prelude::*;

use crate::error::FbError;
use crate::ops::{FirebirdClientConfiguration, FirebirdClientDbOps};
use crate::wrappers::{ConnectedFbClient, DisconnectedFbClient, DropBehavior, Tran};

verus! {

/// A manager for connection pools: produces fresh connected clients from a
/// client factory and an attachment configuration, and probes their
/// liveness.
pub struct FirebirdConnectionManager<Conf: FirebirdClientConfiguration> {
    client_config: Conf,
    attachment_config: <Conf::Client as FirebirdClientDbOps>::AttachmentConfig,
}

impl<Conf: FirebirdClientConfiguration> FirebirdConnectionManager<Conf> {
    /// The client factory this manager was built with.
    pub closed spec fn spec_client_config(self) -> Conf {
        self.client_config
    }

    /// The attachment configuration this manager was built with.
    pub closed spec fn spec_attachment_config(self) -> <Conf::Client as FirebirdClientDbOps>::AttachmentConfig {
        self.attachment_config
    }

    pub fn new(
        client_config: Conf,
        attachment_config: <Conf::Client as FirebirdClientDbOps>::AttachmentConfig,
    ) -> (r: Self)
        ensures
            r.spec_client_config() == client_config,
            r.spec_attachment_config() == attachment_config,
    {
        Self { client_config, attachment_config }
    }

    /// Produce a fresh connected client: ask the factory for a new driver
    /// instance, wrap it in a disconnected shell, and attach.
    pub fn connect(&self) -> (r: Result<ConnectedFbClient<Conf::Client>, FbError>)
        ensures
            r matches Ok(c) ==> c.wf(),
    {
        let disconnected = DisconnectedFbClient::new(self.client_config.new_instance());
        match disconnected.connect(&self.attachment_config) {
            Ok(c) => Ok(c),
            Err((_, e)) => Err(e),
        }
    }

    /// The cheapest validity probe: begin a no-op transaction, leaving its
    /// handle open rather than committing. The probe succeeds iff the
    /// session can round-trip a transaction open.
    pub fn is_valid(&self, conn: &mut ConnectedFbClient<Conf::Client>) -> (r: Result<(), FbError>)
        requires
            old(conn).wf(),
        ensures
            final(conn).wf(),
    {
        let probe = |t: Tran<Conf::Client>| -> (out: (Tran<Conf::Client>, Result<(), FbError>))
            requires
                t.wf(),
            ensures
                out.0.wf(),
            { (t, Ok(())) };
        conn.with_transaction(DropBehavior::Ignore, probe)
    }

    /// Brokenness is surfaced by operation failures, never eagerly.
    pub fn has_broken(&self, _conn: &mut ConnectedFbClient<Conf::Client>) -> (r: bool)
        ensures
            r == false,
    {
        false
    }
}

} // verus!
