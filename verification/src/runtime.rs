//! What the launcher knows of the helper process: the process handle, where
//! one was spawned, and the port of the helper's HTTP interface, where it has
//! announced one. The handle's type is left to the caller.

use vstd::prelude::*;

use crate::error::TerracottaError;
use crate::request::{local_url, local_url_of, node_query, public_nodes, effective_public_nodes, request_url};

verus! {

/// Seconds to wait for the helper's `/state` answer when reporting state.
pub const STATE_TIMEOUT_SECS: u64 = 3;

/// Seconds to wait for a room request to the helper.
pub const REQUEST_TIMEOUT_SECS: u64 = 10;

/// Seconds to wait for the helper to close a room.
pub const CLOSE_ROOM_TIMEOUT_SECS: u64 = 5;

/// Seconds to wait for the helper to acknowledge a shutdown request.
pub const SHUTDOWN_TIMEOUT_SECS: u64 = 3;

/// What asking a process whether it has exited (`Child::try_wait`) gave.
#[derive(Debug, Clone, Copy, PartialEq, Eq)]
pub enum ChildPoll {
    /// It still runs.
    Running,
    /// It has exited.
    Exited,
    /// The question could not be answered.
    Failed,
}

/// The helper process handle, where one was spawned, and the port that the
/// helper announced, where it did.
pub struct Runtime<C> {
    pub child: Option<C>,
    pub port: Option<u16>,
}

/// Whether a poll says that a present process still runs.
pub open spec fn child_runs<C>(child: Option<C>, poll: Option<ChildPoll>) -> bool {
    child is Some && poll == Some(ChildPoll::Running)
}

/// The helper's `/state` address on `port`.
pub open spec fn state_url_of(port: u16) -> Seq<char> {
    local_url_of(port, "/state"@)
}

impl<C> Runtime<C> {
    /// Nothing spawned and no port known.
    pub fn new() -> (r: Self)
        ensures
            r.child is None,
            r.port is None,
    {
        Runtime { child: None, port: None }
    }

    /// Takes note of a poll of the process (`poll` is `None` where there was
    /// none to ask): a process that is not known to run is forgotten. Gives
    /// whether the helper counts as running: its port is known, or its
    /// process runs.
    pub fn observe_child(&mut self, poll: Option<ChildPoll>) -> (running: bool)
        ensures
            final(self).child == if child_runs(old(self).child, poll) {
                old(self).child
            } else {
                None
            },
            final(self).port == old(self).port,
            running == (old(self).port is Some || child_runs(old(self).child, poll)),
    {
        let child_running = self.child.is_some() && match poll {
            Some(ChildPoll::Running) => true,
            _ => false,
        };
        if !child_running {
            self.child = None;
        }
        self.port.is_some() || child_running
    }

    /// Where to ask the helper for its state: only while it runs and its
    /// port is known.
    pub fn state_url(&self, running: bool) -> (url: Option<String>)
        ensures
            match url {
                Some(u) => running && self.port is Some && u@ == state_url_of(self.port->0),
                None => !(running && self.port is Some),
            },
    {
        if running {
            match self.port {
                Some(port) => Some(local_url(port, "/state")),
                None => None,
            }
        } else {
            None
        }
    }

    /// A download is refused while a helper process is held.
    pub fn ensure_idle(&self) -> (r: Result<(), TerracottaError>)
        ensures
            match r {
                Ok(()) => self.child is None,
                Err(e) => self.child is Some && e is AlreadyRunning,
            },
    {
        if self.child.is_some() {
            Err(TerracottaError::AlreadyRunning)
        } else {
            Ok(())
        }
    }

    /// The address of a room request for `path`, naming the configured
    /// relay nodes; refused while no port is known.
    pub fn room_request_url(&self, path: &str, configured_nodes: &Vec<String>) -> (r: Result<
        String,
        TerracottaError,
    >)
        ensures
            match r {
                Ok(u) => self.port is Some && u@ == local_url_of(self.port->0, path@) + node_query(
                    path@.contains('?'),
                    effective_public_nodes(configured_nodes.deep_view()),
                ),
                Err(e) => self.port is None && e is NotRunning,
            },
    {
        match self.port {
            Some(port) => {
                let nodes = public_nodes(configured_nodes);
                Ok(request_url(port, path, &nodes))
            },
            None => Err(TerracottaError::NotRunning),
        }
    }

    /// The address that closes the current room; refused while no port is
    /// known.
    pub fn close_room_url(&self) -> (r: Result<String, TerracottaError>)
        ensures
            match r {
                Ok(u) => self.port is Some && u@ == local_url_of(self.port->0, "/state/ide"@),
                Err(e) => self.port is None && e is NotRunning,
            },
    {
        match self.port {
            Some(port) => Ok(local_url(port, "/state/ide")),
            None => Err(TerracottaError::NotRunning),
        }
    }

    /// The address that asks the helper to shut down, where its port is
    /// known.
    pub fn shutdown_url(&self) -> (url: Option<String>)
        ensures
            match url {
                Some(u) => self.port is Some && u@ == local_url_of(
                    self.port->0,
                    "/panic?peaceful=true"@,
                ),
                None => self.port is None,
            },
    {
        match self.port {
            Some(port) => Some(local_url(port, "/panic?peaceful=true")),
            None => None,
        }
    }

    /// Forgets the helper: hands back its process, to be killed, and
    /// drops the port.
    pub fn shut_down(&mut self) -> (child: Option<C>)
        ensures
            child == old(self).child,
            final(self).child is None,
            final(self).port is None,
    {
        self.port = None;
        self.child.take()
    }
}

} // verus!
