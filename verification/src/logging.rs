use vstd::prelude::*;

verus! {

/// How many entries the in-memory retention ring keeps for query-style
/// access; when full it is trimmed from the head.
pub const MAX_LOGS: usize = 1000;

/// The severity/topic of a log entry. `Info` carries system messages,
/// `Universe` per-entity narration, `Relationship` alliance and enmity
/// declarations, and `UserAction` externally-triggered events.
#[derive(Clone, Copy, Debug, PartialEq, Eq, Structural)]
pub enum LogLevel {
    Info,
    Universe,
    Relationship,
    UserAction,
}

/// One structured entry on the log bus.
#[derive(Clone, Debug, PartialEq)]
pub struct LogEntry {
    pub level: LogLevel,
    pub message: String,
}

impl LogEntry {
    pub fn new(level: LogLevel, message: String) -> (e: LogEntry)
        ensures
            e.level == level,
            e.message == message,
    {
        LogEntry { level, message }
    }

    /// An owned copy of this entry.
    pub fn duplicate(&self) -> (e: LogEntry)
        ensures
            e == *self,
    {
        LogEntry { level: self.level, message: self.message.clone() }
    }
}

#[verifier::external_type_specification]
#[verifier::external_body]
#[verifier::reject_recursive_types(T)]
pub struct ExBroadcastSender<T>(tokio::sync::broadcast::Sender<T>);

/// Publishes a log entry to every current subscriber of the bus.
///
/// Relies on tokio's broadcast `Sender::send`: it never blocks, it fails
/// only when no receiver is subscribed, and a lagging subscriber loses the
/// oldest entries rather than back-pressuring the publisher. Either way the
/// publisher carries on, so nothing is promised here.
#[verifier::external_body]
pub fn log(bus: &tokio::sync::broadcast::Sender<LogEntry>, entry: LogEntry) {
    let _ = bus.send(entry);
}

/// An in-memory ring of the most recent log entries, kept by a front end for
/// query-style access. Bounded by `MAX_LOGS`; the oldest entries are dropped
/// first.
pub struct LogBuffer {
    pub entries: Vec<LogEntry>,
}

impl LogBuffer {
    pub open spec fn wf(self) -> bool {
        self.entries@.len() <= MAX_LOGS
    }

    pub fn new() -> (buf: LogBuffer)
        ensures
            buf.wf(),
            buf.entries@.len() == 0,
    {
        LogBuffer { entries: Vec::new() }
    }

    /// Appends one entry, dropping the oldest when the ring is full.
    pub fn push(&mut self, entry: LogEntry)
        requires
            old(self).wf(),
        ensures
            final(self).wf(),
            old(self).entries@.len() < MAX_LOGS ==> final(self).entries@ == old(
                self,
            ).entries@.push(entry),
            old(self).entries@.len() == MAX_LOGS ==> final(self).entries@ == old(
                self,
            ).entries@.push(entry).remove(0),
    {
        self.entries.push(entry);
        if self.entries.len() > MAX_LOGS {
            self.entries.remove(0);
        }
    }

    /// The number of retained entries.
    pub fn len(&self) -> (n: usize)
        ensures
            n == self.entries@.len(),
    {
        self.entries.len()
    }

    /// The most recent `limit` entries, oldest first; all of them when fewer
    /// are retained.
    pub fn recent(&self, limit: usize) -> (r: Vec<LogEntry>)
        ensures
            r@ == self.entries@.skip(
                if limit >= self.entries@.len() {
                    0
                } else {
                    self.entries@.len() - limit
                },
            ),
    {
        let len = self.entries.len();
        let start: usize = if limit >= len {
            0
        } else {
            len - limit
        };
        let mut r: Vec<LogEntry> = Vec::new();
        let mut i: usize = start;
        while i < len
            invariant
                start <= i <= len,
                len == self.entries@.len(),
                r@ == self.entries@.subrange(start as int, i as int),
            decreases len - i,
        {
            r.push(self.entries[i].duplicate());
            assert(self.entries@.subrange(start as int, i + 1 as int) == self.entries@.subrange(
                start as int,
                i as int,
            ).push(self.entries@[i as int]));
            i = i + 1;
        }
        assert(self.entries@.subrange(start as int, len as int) == self.entries@.skip(
            start as int,
        ));
        r
    }
}

} // verus!
