//! The listener on a Unix domain socket.

use crate::ipc::tcp::{Listener, ListenerPhase};
use vstd::prelude::*;

verus! {

/// The milliseconds to wait before the next accept when no connection is
/// pending.
pub const ACCEPT_RETRY_MILLIS: u64 = 2000;

/// What to do with the socket's path before binding it.
#[derive(Debug, Clone, Copy, PartialEq, Eq, Structural)]
pub enum SocketFile {
    /// A file is left there from an earlier run: remove it, then bind.
    RemoveThenBind,
    /// The path is free: bind.
    Bind,
}

/// Decides what to do with the socket's path before binding it: a file that
/// is there is stale and goes first.
pub fn before_bind(path_exists: bool) -> (file: SocketFile)
    ensures
        file == (if path_exists {
            SocketFile::RemoveThenBind
        } else {
            SocketFile::Bind
        }),
{
    if path_exists {
        SocketFile::RemoveThenBind
    } else {
        SocketFile::Bind
    }
}

/// A listener on a Unix domain socket: it is about to bind and turns no
/// connection away.
pub fn uds_listener() -> (listener: Listener)
    ensures
        listener == (Listener {
            phase: ListenerPhase::Binding,
            max_connections: usize::MAX,
            active: 0,
            rejected: 0,
        }),
{
    Listener::new(usize::MAX)
}

} // verus!
