//! The decisions of a listener and of the connections it serves. The
//! caller owns the sockets: it reports what happened on them and carries
//! out what is decided here.

use crate::data_processor::subscribe::{
    data_subscription, delivered, reports_failure, Delivery,
};
use crate::helper::text::{decimal, decimal_text, trim, trimmed};
use crate::ipc::http::http::{startup_code, startup_message, startup_text, StartupError};
use crate::ipc::process::IpcMessage;
use vstd::prelude::*;
use vstd::string::StringExecFns;

verus! {

/// How a TCP listener is set up.
#[derive(Debug, Clone, PartialEq, Eq)]
pub struct TcpConfig {
    pub port: u16,
    pub host: String,
    /// The seconds between two heartbeats on a connection.
    pub heartbeat_interval_secs: u64,
    /// How many connections are served at a time.
    pub max_connections: usize,
}

impl Default for TcpConfig {
    fn default() -> (config: TcpConfig)
        ensures
            config.port == 12345,
            config.host@ == "127.0.0.1"@,
            config.heartbeat_interval_secs == 5,
            config.max_connections == 100,
    {
        TcpConfig {
            port: 12345,
            host: String::from_str("127.0.0.1"),
            heartbeat_interval_secs: 5,
            max_connections: 100,
        }
    }
}

impl TcpConfig {
    /// The default set-up on another port.
    pub fn new(port: u16) -> (config: TcpConfig)
        ensures
            config.port == port,
            config.host@ == "127.0.0.1"@,
            config.heartbeat_interval_secs == 5,
            config.max_connections == 100,
    {
        TcpConfig {
            port,
            host: String::from_str("127.0.0.1"),
            heartbeat_interval_secs: 5,
            max_connections: 100,
        }
    }
}

/// Where a listener stands.
#[derive(Debug, Clone, Copy, PartialEq, Eq, Structural)]
pub enum ListenerPhase {
    /// The address is not bound yet.
    Binding,
    /// Connections are accepted.
    Listening,
    /// The listener accepts no more: the bind failed, or an accept did.
    Stopped,
}

/// What an attempt to accept a connection came back with.
#[derive(Debug, Clone, Copy, PartialEq, Eq, Structural)]
pub enum AcceptEvent {
    /// A connection arrived.
    Connected,
    /// No connection is pending.
    WouldBlock,
    /// The accept failed.
    Failed,
}

/// What to do after an attempt to accept.
#[derive(Debug, Clone, Copy, PartialEq, Eq, Structural)]
pub enum AcceptAction {
    /// Serve the connection that arrived.
    Serve,
    /// Turn the connection away: the listener is full.
    Reject,
    /// Wait a while, then accept again.
    Wait,
    /// Accept no more.
    Stop,
}

/// A listener: its phase and its count of connections.
#[derive(Debug, Clone, Copy, PartialEq, Eq, Structural)]
pub struct Listener {
    pub phase: ListenerPhase,
    /// How many connections may be served at a time.
    pub max_connections: usize,
    /// How many connections are being served.
    pub active: usize,
    /// How many connections were turned away.
    pub rejected: u64,
}

/// A count after one more was counted; it stays at the largest number.
pub open spec fn counted(count: u64) -> u64 {
    if count < u64::MAX {
        (count + 1) as u64
    } else {
        count
    }
}

impl Listener {
    /// The listener after the bind came back with `bound`: it listens if the
    /// bind succeeded and is stopped if not. A listener that is past binding
    /// stays as it is.
    pub open spec fn after_bind(self, bound: bool) -> Listener {
        if self.phase != ListenerPhase::Binding {
            self
        } else if bound {
            Listener { phase: ListenerPhase::Listening, ..self }
        } else {
            Listener { phase: ListenerPhase::Stopped, ..self }
        }
    }

    /// What is decided on an attempt to accept. A listener that is not
    /// listening stops. A connection is served while fewer than the maximum
    /// are, and turned away otherwise; when none is pending the listener
    /// waits; a failed accept stops it.
    pub open spec fn accept_action(self, event: AcceptEvent) -> AcceptAction {
        if self.phase != ListenerPhase::Listening {
            AcceptAction::Stop
        } else {
            match event {
                AcceptEvent::Connected => if self.active < self.max_connections {
                    AcceptAction::Serve
                } else {
                    AcceptAction::Reject
                },
                AcceptEvent::WouldBlock => AcceptAction::Wait,
                AcceptEvent::Failed => AcceptAction::Stop,
            }
        }
    }

    /// The listener after an attempt to accept: a served connection is
    /// counted as active, one turned away as rejected, and a failed accept
    /// stops the listener.
    pub open spec fn after_accept(self, event: AcceptEvent) -> Listener {
        match self.accept_action(event) {
            AcceptAction::Serve => Listener { active: (self.active + 1) as usize, ..self },
            AcceptAction::Reject => Listener { rejected: counted(self.rejected), ..self },
            AcceptAction::Wait => self,
            AcceptAction::Stop => if self.phase == ListenerPhase::Listening {
                Listener { phase: ListenerPhase::Stopped, ..self }
            } else {
                self
            },
        }
    }

    /// The listener after a served connection ended.
    pub open spec fn after_close(self) -> Listener {
        if self.active > 0 {
            Listener { active: (self.active - 1) as usize, ..self }
        } else {
            self
        }
    }

    /// A listener that is about to bind and serves at most `max_connections`
    /// at a time.
    pub fn new(max_connections: usize) -> (listener: Listener)
        ensures
            listener == (Listener {
                phase: ListenerPhase::Binding,
                max_connections,
                active: 0,
                rejected: 0,
            }),
    {
        Listener { phase: ListenerPhase::Binding, max_connections, active: 0, rejected: 0 }
    }

    /// Takes note of how the bind ended and says what to report to the
    /// parent: the outcome, once, or nothing for a listener past binding.
    pub fn on_bind(&mut self, outcome: &Result<(), StartupError>) -> (report: Option<IpcMessage>)
        ensures
            *final(self) == old(self).after_bind(outcome is Ok),
            report is Some <==> old(self).phase == ListenerPhase::Binding,
            report matches Some(message) ==> {
                &&& message.code == startup_code(outcome is Ok)
                &&& message.message@ == startup_text(*outcome)
            },
    {
        match self.phase {
            ListenerPhase::Binding => {
                self.phase = if outcome.is_ok() {
                    ListenerPhase::Listening
                } else {
                    ListenerPhase::Stopped
                };
                Some(startup_message(outcome))
            },
            _ => None,
        }
    }

    /// Decides what to do after an attempt to accept, and counts.
    pub fn on_accept(&mut self, event: AcceptEvent) -> (action: AcceptAction)
        ensures
            action == old(self).accept_action(event),
            *final(self) == old(self).after_accept(event),
    {
        match self.phase {
            ListenerPhase::Listening => match event {
                AcceptEvent::Connected => {
                    if self.active < self.max_connections {
                        self.active = self.active + 1;
                        AcceptAction::Serve
                    } else {
                        if self.rejected < u64::MAX {
                            self.rejected = self.rejected + 1;
                        }
                        AcceptAction::Reject
                    }
                },
                AcceptEvent::WouldBlock => AcceptAction::Wait,
                AcceptEvent::Failed => {
                    self.phase = ListenerPhase::Stopped;
                    AcceptAction::Stop
                },
            },
            _ => AcceptAction::Stop,
        }
    }

    /// Takes note that a served connection ended.
    pub fn on_closed(&mut self)
        ensures
            *final(self) == old(self).after_close(),
    {
        if self.active > 0 {
            self.active = self.active - 1;
        }
    }
}

/// A full listener turns the next connection away and keeps serving the
/// others; once one of them has ended, the next connection is served again.
pub proof fn connection_cap_law(listener: Listener)
    requires
        listener.phase == ListenerPhase::Listening,
        listener.active == listener.max_connections,
    ensures
        listener.accept_action(AcceptEvent::Connected) == AcceptAction::Reject,
        listener.after_accept(AcceptEvent::Connected).active == listener.active,
        listener.after_accept(AcceptEvent::Connected).phase == ListenerPhase::Listening,
        listener.max_connections > 0 ==> {
            let freed = listener.after_accept(AcceptEvent::Connected).after_close();
            &&& freed.active == listener.max_connections - 1
            &&& freed.accept_action(AcceptEvent::Connected) == AcceptAction::Serve
            &&& freed.after_accept(AcceptEvent::Connected).active == listener.max_connections
        },
{
}

/// A listening listener never serves more than its maximum: while it does
/// not, no event makes it.
pub proof fn connection_count_law(listener: Listener, event: AcceptEvent)
    requires
        listener.active <= listener.max_connections,
    ensures
        listener.after_accept(event).active <= listener.max_connections,
        listener.after_close().active <= listener.max_connections,
        listener.accept_action(event) == AcceptAction::Serve <==> listener.phase
            == ListenerPhase::Listening && event == AcceptEvent::Connected && listener.active
            < listener.max_connections,
{
}

/// Whether a connection is still served.
#[derive(Debug, Clone, Copy, PartialEq, Eq, Structural)]
pub enum ConnectionPhase {
    Serving,
    Closed,
}

/// What a read of one line came back with.
#[derive(Debug, Clone, PartialEq, Eq)]
pub enum ReadEvent {
    /// The peer closed the stream: no byte was read.
    Eof,
    /// A line arrived.
    Line(String),
    /// The read failed.
    Failed,
}

/// What to do after a read.
#[derive(Debug, Clone, PartialEq, Eq)]
pub enum ReadAction {
    /// Close the connection: the stream has ended.
    Close,
    /// Give the connection up: the read failed.
    Abort,
    /// Read on; the line was delivered as said.
    Continue(Delivery),
    /// Nothing: the connection is closed already.
    Stop,
}

/// The reading side of one connection: its phase, and how many messages it
/// handled and how many it dropped.
#[derive(Debug, Clone, Copy, PartialEq, Eq, Structural)]
pub struct Connection {
    pub phase: ConnectionPhase,
    pub handled: u64,
    pub failed: u64,
}

impl Connection {
    /// The connection after a line was read: the line is trimmed, a blank
    /// one passed over, and any other counted as handled where it decodes
    /// and as failed where it does not. The connection stays as it was
    /// otherwise; no line closes it.
    pub open spec fn after_line(self, line: Seq<char>) -> Connection {
        if self.phase != ConnectionPhase::Serving {
            self
        } else {
            match delivered(trimmed(line)) {
                None => self,
                Some(true) => Connection { handled: counted(self.handled), ..self },
                Some(false) => Connection { failed: counted(self.failed), ..self },
            }
        }
    }

    /// The connection after its stream ended, its read failed or its
    /// heartbeat stopped.
    pub open spec fn after_end(self) -> Connection {
        Connection { phase: ConnectionPhase::Closed, ..self }
    }

    /// A connection that was just accepted.
    pub fn new() -> (connection: Connection)
        ensures
            connection == (Connection { phase: ConnectionPhase::Serving, handled: 0, failed: 0 }),
    {
        Connection { phase: ConnectionPhase::Serving, handled: 0, failed: 0 }
    }

    /// Decides what to do after a read. The end of the stream closes the
    /// connection and a failed read aborts it. A line is trimmed and
    /// delivered, and reading goes on whatever the line held.
    pub fn on_read(&mut self, event: &ReadEvent) -> (action: ReadAction)
        ensures
            old(self).phase == ConnectionPhase::Closed ==> action == ReadAction::Stop && *final(self)
                == *old(self),
            old(self).phase == ConnectionPhase::Serving ==> match *event {
                ReadEvent::Eof => action == ReadAction::Close && *final(self) == old(self).after_end(),
                ReadEvent::Failed => action == ReadAction::Abort && *final(self) == old(
                    self,
                ).after_end(),
                ReadEvent::Line(line) => {
                    &&& action matches ReadAction::Continue(delivery) && delivery.is_as(
                        delivered(trimmed(line@)),
                    )
                    &&& *final(self) == old(self).after_line(line@)
                    &&& action matches ReadAction::Continue(Delivery::Failed(text))
                        ==> reports_failure(text@, trimmed(line@))
                },
            },
    {
        match self.phase {
            ConnectionPhase::Closed => ReadAction::Stop,
            ConnectionPhase::Serving => match event {
                ReadEvent::Eof => {
                    self.phase = ConnectionPhase::Closed;
                    ReadAction::Close
                },
                ReadEvent::Failed => {
                    self.phase = ConnectionPhase::Closed;
                    ReadAction::Abort
                },
                ReadEvent::Line(line) => {
                    let delivery = data_subscription(trim(line.as_str()));
                    match delivery {
                        Delivery::Blank => {},
                        Delivery::Handled => {
                            if self.handled < u64::MAX {
                                self.handled = self.handled + 1;
                            }
                        },
                        Delivery::Failed(_) => {
                            if self.failed < u64::MAX {
                                self.failed = self.failed + 1;
                            }
                        },
                    }
                    ReadAction::Continue(delivery)
                },
            },
        }
    }

    /// Takes note that the heartbeat of this connection stopped: the two
    /// sides end together.
    pub fn on_heartbeat_stopped(&mut self)
        ensures
            *final(self) == old(self).after_end(),
    {
        self.phase = ConnectionPhase::Closed;
    }
}

/// A line that does not decode is counted as one failure and leaves the
/// connection open, and the line after it is handled as if the first had
/// never come.
pub proof fn malformed_line_law(connection: Connection, bad: Seq<char>, good: Seq<char>)
    requires
        connection.phase == ConnectionPhase::Serving,
        connection.handled < u64::MAX,
        connection.failed < u64::MAX,
        delivered(trimmed(bad)) == Some(false),
        delivered(trimmed(good)) == Some(true),
    ensures
        connection.after_line(bad).phase == ConnectionPhase::Serving,
        connection.after_line(bad).failed == connection.failed + 1,
        connection.after_line(bad).handled == connection.handled,
        connection.after_line(bad).after_line(good).phase == ConnectionPhase::Serving,
        connection.after_line(bad).after_line(good).failed == connection.failed + 1,
        connection.after_line(bad).after_line(good).handled == connection.handled + 1,
{
}

/// No line closes a connection, whatever it holds.
pub proof fn line_keeps_open_law(connection: Connection, line: Seq<char>)
    ensures
        connection.after_line(line).phase == connection.phase,
{
}

/// The text of the heartbeat with this count at this time.
pub open spec fn heartbeat_text(counter: u64, now: u64) -> Seq<char> {
    "💓 Heartbeat #"@ + decimal(counter as nat) + ": "@ + decimal(now as nat) + "\n"@
}

/// What to do after a heartbeat was written.
#[derive(Debug, Clone, Copy, PartialEq, Eq, Structural)]
pub enum HeartbeatAction {
    /// Wait for the next tick.
    Continue,
    /// Write no more: the write or the flush failed.
    Stop,
}

/// The writing side of one connection: how many heartbeats it has made, and
/// whether it has stopped.
#[derive(Debug, Clone, Copy, PartialEq, Eq, Structural)]
pub struct HeartbeatWriter {
    pub counter: u64,
    pub stopped: bool,
}

impl HeartbeatWriter {
    /// A writer that has made no heartbeat yet.
    pub fn new() -> (writer: HeartbeatWriter)
        ensures
            writer == (HeartbeatWriter { counter: 0, stopped: false }),
    {
        HeartbeatWriter { counter: 0, stopped: false }
    }

    /// Makes the heartbeat for a tick at `now`, in seconds since the Unix
    /// epoch: the count goes up by one and the line carries the new count
    /// and the time. A stopped writer makes none.
    pub fn on_tick(&mut self, now: u64) -> (line: Option<String>)
        ensures
            final(self).stopped == old(self).stopped,
            final(self).counter >= old(self).counter,
            old(self).stopped ==> line is None && final(self).counter == old(self).counter,
            !old(self).stopped ==> final(self).counter == counted(old(self).counter) && line is Some
                && line->Some_0@ == heartbeat_text(final(self).counter, now),
    {
        if self.stopped {
            return None;
        }
        if self.counter < u64::MAX {
            self.counter = self.counter + 1;
        }
        let count = decimal_text(self.counter);
        let time = decimal_text(now);
        let line = String::from_str("💓 Heartbeat #").concat(count.as_str()).concat(": ").concat(
            time.as_str(),
        ).concat("\n");
        Some(line)
    }

    /// Takes note of how the write and the flush of a heartbeat ended: a
    /// failure of either stops the writer.
    pub fn on_written(&mut self, written: bool, flushed: bool) -> (action: HeartbeatAction)
        ensures
            final(self).counter == old(self).counter,
            final(self).stopped == (old(self).stopped || !written || !flushed),
            action == (if final(self).stopped {
                HeartbeatAction::Stop
            } else {
                HeartbeatAction::Continue
            }),
    {
        if !written || !flushed {
            self.stopped = true;
        }
        if self.stopped {
            HeartbeatAction::Stop
        } else {
            HeartbeatAction::Continue
        }
    }
}

} // verus!
