//! Per-client session state: subscriptions and the one-shot-client
//! drain discipline.
//!
//! A client may close its write side before its responses went out. The
//! session counts requests still in flight and closes only when the
//! client reached end of input and nothing is outstanding, so every
//! accepted request is answered.

use vstd::prelude::*;
use crate::events::EventType;
use crate::events::spec_should_deliver;
use crate::events::should_deliver;

verus! {

/// The state of one connected client.
#[derive(Debug)]
pub struct ClientSession {
    /// Subscribed event types; empty means all events.
    pub subscriptions: Vec<EventType>,
    /// Requests accepted but not yet answered.
    pub pending: u64,
    /// Whether the client closed its write side.
    pub eof: bool,
}

impl ClientSession {
    /// A fresh session: no subscriptions, nothing pending, input open.
    pub fn new() -> (r: Self)
        ensures
            r.subscriptions@.len() == 0,
            r.pending == 0,
            !r.eof,
    {
        ClientSession { subscriptions: Vec::new(), pending: 0, eof: false }
    }

    /// Record subscriptions to these event types.
    pub fn subscribe(&mut self, events: &Vec<EventType>)
        ensures
            final(self).subscriptions@ == old(self).subscriptions@ + events@,
            final(self).pending == old(self).pending,
            final(self).eof == old(self).eof,
    {
        let n: usize = events.len();
        let mut i: usize = 0;
        while i < n
            invariant
                n == events@.len(),
                i <= n,
                self.subscriptions@ == old(self).subscriptions@ + events@.subrange(0, i as int),
                self.pending == old(self).pending,
                self.eof == old(self).eof,
            decreases n - i,
        {
            self.subscriptions.push(events[i]);
            proof {
                assert(old(self).subscriptions@ + events@.subrange(0, i + 1) =~= (old(
                    self,
                ).subscriptions@ + events@.subrange(0, i as int)).push(events@[i as int]));
            }
            i += 1;
        }
        proof {
            assert(events@.subrange(0, n as int) =~= events@);
        }
    }

    /// Drop subscriptions to these event types.
    pub fn unsubscribe(&mut self, events: &Vec<EventType>)
        ensures
            final(self).subscriptions@ == old(self).subscriptions@.filter(
                keep_unlisted(events@),
            ),
            final(self).pending == old(self).pending,
            final(self).eof == old(self).eof,
    {
        let mut kept: Vec<EventType> = Vec::new();
        let n: usize = self.subscriptions.len();
        let mut i: usize = 0;
        proof {
            assert(self.subscriptions@.subrange(0, 0).filter(keep_unlisted(events@)) =~= Seq::<
                EventType,
            >::empty());
        }
        while i < n
            invariant
                n == self.subscriptions@.len(),
                i <= n,
                self.subscriptions@ == old(self).subscriptions@,
                self.pending == old(self).pending,
                self.eof == old(self).eof,
                kept@ == self.subscriptions@.subrange(0, i as int).filter(keep_unlisted(events@)),
            decreases n - i,
        {
            let ev = self.subscriptions[i];
            let mut listed = false;
            let m: usize = events.len();
            let mut j: usize = 0;
            while j < m
                invariant
                    m == events@.len(),
                    j <= m,
                    listed == exists|k: int| 0 <= k < j && events@[k] == ev,
                decreases m - j,
            {
                if events[j] == ev {
                    listed = true;
                }
                j += 1;
            }
            proof {
                lemma_filter_step_events(self.subscriptions@, events@, i as int);
                assert(listed == events@.contains(ev));
            }
            if !listed {
                kept.push(ev);
            }
            i += 1;
        }
        proof {
            assert(self.subscriptions@.subrange(0, n as int) =~= self.subscriptions@);
        }
        self.subscriptions = kept;
    }

    /// Record that a request was accepted.
    pub fn on_request_received(&mut self)
        requires
            old(self).pending < u64::MAX,
        ensures
            final(self).pending == old(self).pending + 1,
            final(self).subscriptions@ == old(self).subscriptions@,
            final(self).eof == old(self).eof,
    {
        self.pending = self.pending + 1;
    }

    /// Record that a response was written out.
    pub fn on_response_sent(&mut self)
        ensures
            final(self).pending == (if old(self).pending > 0 {
                (old(self).pending - 1) as u64
            } else {
                0u64
            }),
            final(self).subscriptions@ == old(self).subscriptions@,
            final(self).eof == old(self).eof,
    {
        if self.pending > 0 {
            self.pending = self.pending - 1;
        }
    }

    /// Record that the client closed its write side.
    pub fn on_eof(&mut self)
        ensures
            final(self).eof,
            final(self).pending == old(self).pending,
            final(self).subscriptions@ == old(self).subscriptions@,
    {
        self.eof = true;
    }

    /// Whether the session should end: the client is at end of input and
    /// every accepted request has been answered.
    pub fn should_close(&self) -> (r: bool)
        ensures
            r == (self.eof && self.pending == 0),
    {
        self.eof && self.pending == 0
    }

    /// Whether an event of this type should be delivered to this client.
    pub fn wants(&self, ev: EventType) -> (r: bool)
        ensures
            r == spec_should_deliver(self.subscriptions@, ev),
    {
        should_deliver(&self.subscriptions, ev)
    }
}

/// Predicate: the event type is not in the given list.
pub open spec fn keep_unlisted(events: Seq<EventType>) -> spec_fn(EventType) -> bool {
    |e: EventType| !events.contains(e)
}

/// One step of the unsubscribe filter.
proof fn lemma_filter_step_events(s: Seq<EventType>, events: Seq<EventType>, i: int)
    requires
        0 <= i < s.len(),
    ensures
        s.subrange(0, i + 1).filter(keep_unlisted(events)) == if !events.contains(s[i]) {
            s.subrange(0, i).filter(keep_unlisted(events)).push(s[i])
        } else {
            s.subrange(0, i).filter(keep_unlisted(events))
        },
{
    crate::seqtools::lemma_filter_step(s, keep_unlisted(events), i);
    assert(keep_unlisted(events)(s[i]) == !events.contains(s[i]));
}

} // verus!
