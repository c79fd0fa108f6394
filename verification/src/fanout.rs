//! Bounded fan-out of log events to any number of observers.
//!
//! The signal listener is the single producer; every observer holds its own
//! cursor into the published history.  Only the most recent events are
//! retained, up to a fixed backlog capacity: publishing into a full backlog
//! drops the oldest retained event.  Delivery is therefore best-effort — an
//! observer that does not poll promptly misses the oldest unread events, and
//! only those — and a slow observer never blocks the producer.  The
//! unverified runner serialises access to the channel; the retention and
//! delivery rules are decided here.

use vstd::prelude::*;

use crate::signals::LogMessage;

verus! {

/// Backlog capacity of the log fan-out channel: how many pending events a
/// lagging observer can still catch up on.
pub const LOG_BACKLOG_CAPACITY: usize = 16;

/// The single-producer, multi-observer log channel.
pub struct LogChannel {
    /// Everything ever published (ghost; the retained tail is real).
    events: Ghost<Seq<LogMessage>>,
    /// The retained tail of the history, at most `capacity` events.
    buffer: Vec<LogMessage>,
    /// How many of the oldest events have been dropped from the backlog.
    dropped: u64,
    capacity: usize,
}

/// One observer's position in the published history: the sequence number of
/// the next event it has yet to read.
#[derive(Clone, Copy, Debug, PartialEq, Eq, Structural)]
pub struct LogCursor {
    pub next: u64,
}

/// Where an observer at position `next` actually reads, given that the
/// events before `dropped` are no longer retained: a lagging observer is
/// moved forward to the oldest retained event.
pub open spec fn effective_position(next: nat, dropped: nat) -> nat {
    if next < dropped {
        dropped
    } else {
        next
    }
}

/// What one receive returns for an observer at position `next`: nothing if
/// its effective position has reached the end of the history, otherwise the
/// event at that position together with the observer's new position.
pub open spec fn delivered(history: Seq<LogMessage>, dropped: nat, next: nat) -> Option<
    (LogMessage, nat),
> {
    let eff = effective_position(next, dropped);
    if eff >= history.len() {
        None
    } else {
        Some((history[eff as int], (eff + 1) as nat))
    }
}

/// How publishing moves the drop boundary: a full backlog gives up its
/// oldest retained event, a backlog with room keeps everything.
pub open spec fn dropped_after_publish(dropped: nat, retained: nat, capacity: nat) -> nat {
    if retained == capacity {
        (dropped + 1) as nat
    } else {
        dropped
    }
}

impl LogChannel {
    /// The full publish history.
    pub closed spec fn history(&self) -> Seq<LogMessage> {
        self.events@
    }

    /// Number of events ever published.
    pub open spec fn sent(&self) -> nat {
        self.history().len()
    }

    /// Number of the oldest events no longer retained.
    pub closed spec fn dropped_count(&self) -> nat {
        self.dropped as nat
    }

    pub closed spec fn backlog_capacity(&self) -> nat {
        self.capacity as nat
    }

    /// The retained tail is exactly the history past the drop boundary and
    /// fits the backlog.
    pub closed spec fn wf(&self) -> bool {
        &&& self.capacity >= 1
        &&& self.buffer@.len() <= self.capacity
        &&& self.dropped + self.buffer@.len() == self.events@.len()
        &&& self.buffer@ == self.events@.skip(self.dropped as int)
        &&& self.events@.len() <= u64::MAX
    }

    pub fn new(capacity: usize) -> (ch: LogChannel)
        requires
            capacity >= 1,
        ensures
            ch.wf(),
            ch.history() == Seq::<LogMessage>::empty(),
            ch.dropped_count() == 0,
            ch.backlog_capacity() == capacity,
    {
        let ch = LogChannel { events: Ghost(Seq::empty()), buffer: Vec::new(), dropped: 0, capacity };
        proof {
            assert(ch.buffer@ =~= ch.events@.skip(0));
        }
        ch
    }

    /// Number of events ever published, as the runner sees it.
    pub fn sent_count(&self) -> (n: u64)
        requires
            self.wf(),
        ensures
            n == self.sent(),
    {
        self.dropped + (self.buffer.len() as u64)
    }

    /// Register a new observer.  It starts caught up: it will see every
    /// event published from now on, and none from before.
    pub fn subscribe(&self) -> (c: LogCursor)
        requires
            self.wf(),
        ensures
            c.next == self.sent(),
    {
        LogCursor { next: self.dropped + (self.buffer.len() as u64) }
    }

    /// Publish one event to every observer.  The history grows by exactly
    /// this event; a full backlog drops its oldest retained event to make
    /// room, and nothing else is lost.
    pub fn publish(&mut self, e: LogMessage)
        requires
            old(self).wf(),
            old(self).sent() < u64::MAX,
        ensures
            final(self).wf(),
            final(self).history() == old(self).history().push(e),
            final(self).backlog_capacity() == old(self).backlog_capacity(),
            final(self).dropped_count() == dropped_after_publish(
                old(self).dropped_count(),
                (old(self).sent() - old(self).dropped_count()) as nat,
                old(self).backlog_capacity(),
            ),
    {
        if self.buffer.len() == self.capacity {
            let _oldest = self.buffer.remove(0);
            self.dropped = self.dropped + 1;
        }
        self.buffer.push(e);
        self.events = Ghost(self.events@.push(e));
        proof {
            assert(self.buffer@ =~= self.events@.skip(self.dropped as int));
        }
    }

    /// Deliver the next unread event to one observer, skipping exactly the
    /// events its backlog no longer retains, and advance its cursor past the
    /// event delivered.  Returns nothing when the observer has read
    /// everything published so far.
    pub fn recv(&self, c: &mut LogCursor) -> (r: Option<LogMessage>)
        requires
            self.wf(),
        ensures
            ({
                let d = delivered(self.history(), self.dropped_count(), old(c).next as nat);
                match d {
                    None => r is None && final(c).next == old(c).next,
                    Some(pair) => r == Some(pair.0) && final(c).next == pair.1,
                }
            }),
    {
        let buf_len = self.buffer.len();
        let sent = self.dropped + (buf_len as u64);
        let eff = if c.next < self.dropped {
            self.dropped
        } else {
            c.next
        };
        if eff >= sent {
            return None;
        }
        let idx = (eff - self.dropped) as usize;
        proof {
            assert(eff - self.dropped < buf_len);
            assert(self.buffer@[idx as int] == self.events@.skip(self.dropped as int)[idx as int]);
        }
        let msg = (&self.buffer[idx]).clone();
        c.next = eff + 1;
        Some(msg)
    }
}

/// Every active observer receives a published event: a cursor caught up with
/// the channel at the moment of the publish reads exactly that event next,
/// whether or not the publish dropped the oldest retained event.
pub proof fn lemma_publish_reaches_caught_up_observer(
    history: Seq<LogMessage>,
    dropped: nat,
    capacity: nat,
    e: LogMessage,
)
    requires
        capacity >= 1,
        dropped <= history.len(),
        history.len() - dropped <= capacity,
    ensures
        delivered(
            history.push(e),
            dropped_after_publish(dropped, (history.len() - dropped) as nat, capacity),
            history.len(),
        ) == Some((e, (history.len() + 1) as nat)),
{
}

/// An observer inside the retained window is never skipped past an event:
/// as long as its position has not fallen behind the drop boundary, it reads
/// at exactly its own position.
pub proof fn lemma_in_window_no_skip(next: nat, dropped: nat)
    requires
        dropped <= next,
    ensures
        effective_position(next, dropped) == next,
{
}

} // verus!
