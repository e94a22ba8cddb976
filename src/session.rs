//! The connection's lifecycle: handshake, normal operation, shutdown, exit.
use vstd::prelude::*;
use crate::capabilities::{is_server_capabilities, server_capabilities, ServerCapabilities};
use crate::error::ErrorKind;
use crate::text::SyncMode;

verus! {

/// Where the connection stands in its lifecycle.
#[derive(Clone, Copy, Debug, PartialEq, Eq, Structural)]
pub enum Phase {
    /// No `initialize` yet.
    Uninitialized,
    /// `initialize` answered, `initialized` not yet received.
    Initializing,
    /// Requests and lifecycle notifications are served.
    Ready,
    /// `shutdown` received: no new requests, waiting for `exit`.
    ShuttingDown,
    /// `exit` received.
    Exited,
}

/// What the client advertised during `initialize` that the engine keeps.
#[derive(Clone, Copy, Debug, PartialEq, Eq, Structural)]
pub struct ClientCapabilities {
    pub workspace_folders: bool,
    pub versioned_diagnostics: bool,
}

/// The negotiated state of one connection.
pub struct Session {
    pub phase: Phase,
    pub sync: SyncMode,
    pub client: Option<ClientCapabilities>,
    /// What was declared in answer to `initialize`.
    pub declared: Option<ServerCapabilities>,
}

/// The phase after `initialize`, and what it returns.
pub open spec fn spec_initialize(p: Phase) -> (Phase, Result<(), ErrorKind>) {
    match p {
        Phase::Uninitialized => (Phase::Initializing, Ok(())),
        _ => (p, Err(ErrorKind::AlreadyInitialized)),
    }
}

/// The phase after `initialized`, and what it returns.
pub open spec fn spec_initialized(p: Phase) -> (Phase, Result<(), ErrorKind>) {
    match p {
        Phase::Initializing => (Phase::Ready, Ok(())),
        Phase::Uninitialized => (p, Err(ErrorKind::NotInitialized)),
        _ => (p, Err(ErrorKind::AlreadyInitialized)),
    }
}

/// Whether a request or lifecycle notification may be served in phase `p`.
pub open spec fn spec_accepts(p: Phase) -> Result<(), ErrorKind> {
    match p {
        Phase::Ready => Ok(()),
        Phase::Uninitialized | Phase::Initializing => Err(ErrorKind::NotInitialized),
        _ => Err(ErrorKind::ShuttingDown),
    }
}

/// The phase after `shutdown`, and what it returns.
pub open spec fn spec_shutdown(p: Phase) -> (Phase, Result<(), ErrorKind>) {
    match spec_accepts(p) {
        Ok(_) => (Phase::ShuttingDown, Ok(())),
        Err(e) => (p, Err(e)),
    }
}

/// What `exit` reports: it always ends the session, and is an error unless
/// `shutdown` came first.
pub open spec fn spec_exit(p: Phase) -> Result<(), ErrorKind> {
    if p == Phase::ShuttingDown {
        Ok(())
    } else {
        Err(ErrorKind::ExitBeforeShutdown)
    }
}

impl Session {
    pub fn new() -> (r: Self)
        ensures
            r.phase == Phase::Uninitialized,
            r.sync == SyncMode::Disabled,
            r.client is None,
            r.declared is None,
    {
        Session {
            phase: Phase::Uninitialized,
            sync: SyncMode::Disabled,
            client: Option::None,
            declared: Option::None,
        }
    }

    /// Answers `initialize`: the first call records the client's capabilities
    /// and the sync mode and returns the server's capabilities; any later call
    /// fails and changes nothing.
    pub fn initialize(&mut self, client: ClientCapabilities) -> (r: Result<ServerCapabilities, ErrorKind>)
        ensures
            (final(self).phase, outcome_unit(r)) == spec_initialize(old(self).phase),
            r matches Ok(c) ==> is_server_capabilities(c) && final(self).sync == c.sync
                && final(self).client == Option::Some(client),
            r is Ok ==> (final(self).declared matches Option::Some(d) && is_server_capabilities(d)),
            r is Err ==> *final(self) == *old(self),
    {
        if self.phase != Phase::Uninitialized {
            return Err(ErrorKind::AlreadyInitialized);
        }
        let caps = server_capabilities();
        self.phase = Phase::Initializing;
        self.sync = caps.sync;
        self.client = Option::Some(client);
        self.declared = Option::Some(server_capabilities());
        Ok(caps)
    }

    /// Handles the `initialized` notification.
    pub fn initialized(&mut self) -> (r: Result<(), ErrorKind>)
        ensures
            (final(self).phase, r) == spec_initialized(old(self).phase),
            final(self).sync == old(self).sync,
            final(self).client == old(self).client,
            final(self).declared == old(self).declared,
    {
        match self.phase {
            Phase::Initializing => {
                self.phase = Phase::Ready;
                Ok(())
            },
            Phase::Uninitialized => Err(ErrorKind::NotInitialized),
            _ => Err(ErrorKind::AlreadyInitialized),
        }
    }

    /// Whether a request or lifecycle notification may be served now.
    pub fn accepts(&self) -> (r: Result<(), ErrorKind>)
        ensures
            r == spec_accepts(self.phase),
    {
        match self.phase {
            Phase::Ready => Ok(()),
            Phase::Uninitialized | Phase::Initializing => Err(ErrorKind::NotInitialized),
            _ => Err(ErrorKind::ShuttingDown),
        }
    }

    /// Handles `shutdown`: from then on no new request is accepted.
    pub fn shutdown(&mut self) -> (r: Result<(), ErrorKind>)
        ensures
            (final(self).phase, r) == spec_shutdown(old(self).phase),
            final(self).sync == old(self).sync,
            final(self).client == old(self).client,
            final(self).declared == old(self).declared,
    {
        let a = self.accepts();
        match a {
            Ok(_) => {
                self.phase = Phase::ShuttingDown;
                Ok(())
            },
            Err(e) => Err(e),
        }
    }

    /// Handles `exit`, which always ends the session.
    pub fn exit(&mut self) -> (r: Result<(), ErrorKind>)
        ensures
            final(self).phase == Phase::Exited,
            final(self).sync == old(self).sync,
            final(self).client == old(self).client,
            final(self).declared == old(self).declared,
            r == spec_exit(old(self).phase),
    {
        let r = if self.phase == Phase::ShuttingDown {
            Ok(())
        } else {
            Err(ErrorKind::ExitBeforeShutdown)
        };
        self.phase = Phase::Exited;
        r
    }
}

/// Forgets the value of a successful result.
pub open spec fn outcome_unit<T>(r: Result<T, ErrorKind>) -> Result<(), ErrorKind> {
    match r {
        Ok(_) => Ok(()),
        Err(e) => Err(e),
    }
}

} // verus!
