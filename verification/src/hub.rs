//! The broadcast fan-out: every published event reaches every subscriber
//! currently connected, in publish order, through a queue private to that
//! subscriber.
//!
//! The hub keeps the full publish history and, per subscriber, the point at
//! which it connected and the point up to which it has consumed. The pending
//! queue of a subscriber is the history beyond its consumption point, so no
//! subscriber can steal an event from another, and a slow subscriber delays
//! nobody: delivery to one connection only moves that connection's own
//! cursor. The runtime layer materializes each pending queue as one channel
//! per connection.

use vstd::prelude::*;

use crate::data::PlayerInfo;
use crate::gold::GoldEntry;
use crate::metadata::EnrichedEntry;

verus! {

/// The closed set of event kinds delivered to subscribers. Adding a kind
/// forces every match over this type to be revisited.
#[derive(Clone, Debug)]
pub enum Topics {
    /// Display-ready new purchases per participant.
    ItemInformation(Vec<EnrichedEntry>),
    /// Gold total and team per participant.
    GoldInformation(Vec<GoldEntry>),
    /// The roster: champion, name and skin per participant.
    PlayerInfo(Vec<PlayerInfo>),
    /// The single marker of a session starting; carries no payload.
    GameStart,
}

/// The wire label of each event kind.
pub open spec fn kind_label_spec(t: Topics) -> Seq<char> {
    match t {
        Topics::ItemInformation(_) => "ItemInformation"@,
        Topics::GoldInformation(_) => "GoldInformation"@,
        Topics::PlayerInfo(_) => "PlayerInfo"@,
        Topics::GameStart => "GameStart"@,
    }
}

/// The wire label of one event, the second element of its framed form.
pub fn kind_label(t: &Topics) -> (r: &'static str)
    ensures
        r@ == kind_label_spec(*t),
{
    match t {
        Topics::ItemInformation(_) => "ItemInformation",
        Topics::GoldInformation(_) => "GoldInformation",
        Topics::PlayerInfo(_) => "PlayerInfo",
        Topics::GameStart => "GameStart",
    }
}

/// The hub: the publish history and one consumption cursor per subscriber,
/// with the ghost record of where each subscriber joined.
pub struct BroadcastHub {
    pub history: Vec<Topics>,
    pub cursors: Vec<usize>,
    pub joined: Ghost<Seq<int>>,
}

/// Each subscriber joined at some point of the history and has consumed some
/// prefix of what was published since.
/// Subscriber `i` joined at some point of the history and has consumed some
/// prefix of what was published since.
pub open spec fn wf_subscriber(h: BroadcastHub, i: int) -> bool {
    &&& 0 <= h.joined@[i]
    &&& h.joined@[i] <= h.cursors@[i]
    &&& h.cursors@[i] <= h.history@.len()
}

pub open spec fn wf_hub(h: BroadcastHub) -> bool {
    &&& h.joined@.len() == h.cursors@.len()
    &&& forall|i: int| 0 <= i < h.cursors@.len() ==> #[trigger] wf_subscriber(h, i)
}

/// The private pending queue of subscriber `i`: everything published since
/// it last consumed, in publish order.
pub open spec fn pending(h: BroadcastHub, i: int) -> Seq<Topics> {
    h.history@.skip(h.cursors@[i] as int)
}

/// The full stream subscriber `i` observes, consumed and pending together:
/// everything published since it connected, in publish order.
pub open spec fn stream(h: BroadcastHub, i: int) -> Seq<Topics> {
    h.history@.skip(h.joined@[i])
}

impl BroadcastHub {
    /// A hub with no history and no subscribers.
    pub fn new() -> (r: BroadcastHub)
        ensures
            wf_hub(r),
            r.history@.len() == 0,
            r.cursors@.len() == 0,
    {
        BroadcastHub { history: Vec::new(), cursors: Vec::new(), joined: Ghost(Seq::empty()) }
    }

    /// The number of connected subscribers.
    pub fn subscriber_count(&self) -> (r: usize)
        ensures
            r == self.cursors@.len(),
    {
        self.cursors.len()
    }

    /// Connects a new subscriber and returns its identifier.
    ///
    /// The newcomer starts with an empty stream: it will receive only events
    /// published after this call, never a backfill of the earlier history.
    pub fn subscribe(&mut self) -> (id: usize)
        requires
            wf_hub(*old(self)),
        ensures
            wf_hub(*final(self)),
            id == old(self).cursors@.len(),
            final(self).cursors@.len() == id + 1,
            final(self).history == old(self).history,
            final(self).joined@[id as int] == old(self).history@.len(),
            stream(*final(self), id as int) == Seq::<Topics>::empty(),
            pending(*final(self), id as int) == Seq::<Topics>::empty(),
            forall|i: int|
                0 <= i < id ==> pending(*final(self), i) == pending(*old(self), i) && stream(
                    *final(self),
                    i,
                ) == stream(*old(self), i),
    {
        let id = self.cursors.len();
        let here = self.history.len();
        self.cursors.push(here);
        proof {
            self.joined@ = self.joined@.push(here as int);
        }
        proof {
            assert(self.history@.skip(here as int) =~= Seq::<Topics>::empty());
            assert forall|i: int| 0 <= i < self.cursors@.len() implies #[trigger] wf_subscriber(
                *self,
                i,
            ) by {
                if i < id {
                    assert(wf_subscriber(*old(self), i));
                }
            }
        }
        id
    }

    /// Publishes one event: it lands at the tail of every subscriber's
    /// private queue, and of every stream, with no queue consumed on behalf
    /// of another.
    pub fn publish(&mut self, e: Topics)
        requires
            wf_hub(*old(self)),
        ensures
            wf_hub(*final(self)),
            final(self).cursors == old(self).cursors,
            final(self).joined == old(self).joined,
            final(self).history@ == old(self).history@.push(e),
            forall|i: int|
                0 <= i < final(self).cursors@.len() ==> pending(*final(self), i) == pending(
                    *old(self),
                    i,
                ).push(e),
            forall|i: int|
                0 <= i < final(self).cursors@.len() ==> stream(*final(self), i) == stream(
                    *old(self),
                    i,
                ).push(e),
    {
        self.history.push(e);
        proof {
            assert forall|i: int| 0 <= i < self.cursors@.len() implies #[trigger] wf_subscriber(
                *self,
                i,
            ) by {
                assert(wf_subscriber(*old(self), i));
            }
            assert forall|i: int| 0 <= i < self.cursors@.len() implies #[trigger] pending(*self, i)
                == pending(*old(self), i).push(e) by {
                assert(wf_subscriber(*old(self), i));
                assert(pending(*self, i) =~= pending(*old(self), i).push(e));
            }
            assert forall|i: int| 0 <= i < self.cursors@.len() implies #[trigger] stream(*self, i)
                == stream(*old(self), i).push(e) by {
                assert(wf_subscriber(*old(self), i));
                assert(stream(*self, i) =~= stream(*old(self), i).push(e));
            }
        }
    }

    /// A look at the head of one subscriber's pending queue, without
    /// consuming it: the oldest event published since that subscriber last
    /// consumed, or `None` when it has seen everything.
    pub fn next_event(&self, id: usize) -> (r: Option<&Topics>)
        requires
            wf_hub(*self),
            id < self.cursors@.len(),
        ensures
            match r {
                Some(e) => pending(*self, id as int).len() > 0 && *e == pending(
                    *self,
                    id as int,
                )[0],
                None => pending(*self, id as int).len() == 0,
            },
    {
        let c = self.cursors[id];
        proof {
            assert(wf_subscriber(*self, id as int));
        }
        if c < self.history.len() {
            proof {
                assert(pending(*self, id as int)[0] == self.history@[c as int]);
            }
            Some(&self.history[c])
        } else {
            None
        }
    }

    /// Consumes the head of one subscriber's pending queue. Only that
    /// subscriber's cursor moves; every other queue and the history stay as
    /// they were.
    pub fn acknowledge(&mut self, id: usize)
        requires
            wf_hub(*old(self)),
            id < old(self).cursors@.len(),
            pending(*old(self), id as int).len() > 0,
        ensures
            wf_hub(*final(self)),
            final(self).history == old(self).history,
            final(self).joined == old(self).joined,
            final(self).cursors@.len() == old(self).cursors@.len(),
            pending(*final(self), id as int) == pending(*old(self), id as int).drop_first(),
            stream(*final(self), id as int) == stream(*old(self), id as int),
            forall|i: int|
                0 <= i < old(self).cursors@.len() && i != id ==> pending(*final(self), i)
                    == pending(*old(self), i) && stream(*final(self), i) == stream(*old(self), i),
    {
        let c = self.cursors[id];
        let n = self.history.len();
        proof {
            assert(wf_subscriber(*self, id as int));
            assert(pending(*old(self), id as int).len() == n - self.cursors@[id as int]);
        }
        self.cursors.set(id, c + 1);
        proof {
            assert(pending(*self, id as int) =~= pending(*old(self), id as int).drop_first());
            assert forall|i: int| 0 <= i < self.cursors@.len() implies #[trigger] wf_subscriber(
                *self,
                i,
            ) && (i != id ==> pending(*self, i) == pending(*old(self), i) && stream(*self, i)
                == stream(*old(self), i)) by {
                assert(wf_subscriber(*old(self), i));
            }
        }
    }
}

/// Subscribers observe published events in the same relative order: the
/// stream of a later subscriber is exactly the stream of an earlier one with
/// the events published before the later one joined cut off. In particular,
/// an event published while both are connected reaches both, and any two
/// events common to both streams appear in the same order in each.
pub proof fn lemma_same_relative_order(h: BroadcastHub, i: int, j: int)
    requires
        wf_hub(h),
        0 <= i < h.cursors@.len(),
        0 <= j < h.cursors@.len(),
        h.joined@[i] <= h.joined@[j],
    ensures
        stream(h, j) == stream(h, i).skip(h.joined@[j] - h.joined@[i]),
{
    assert(wf_subscriber(h, i));
    assert(wf_subscriber(h, j));
    vstd::seq_lib::lemma_seq_skip_of_skip(h.history@, h.joined@[i], h.joined@[j] - h.joined@[i]);
}

/// No backfill: everything still pending for a subscriber is a suffix of its
/// own stream, so nothing delivered to it was published before it connected.
pub proof fn lemma_pending_within_stream(h: BroadcastHub, i: int)
    requires
        wf_hub(h),
        0 <= i < h.cursors@.len(),
    ensures
        pending(h, i) == stream(h, i).skip(h.cursors@[i] - h.joined@[i]),
{
    assert(wf_subscriber(h, i));
    vstd::seq_lib::lemma_seq_skip_of_skip(
        h.history@,
        h.joined@[i],
        h.cursors@[i] - h.joined@[i],
    );
}

/// What the per-connection worker saw when it checked for work.
pub enum RecvOutcome {
    /// An event arrived on this worker's private queue.
    Received(Topics),
    /// The short wait elapsed with nothing queued; check the peer and wait
    /// again.
    TimedOut,
    /// This worker's queue is gone; the producer side has shut down.
    Disconnected,
}

/// What the per-connection worker does next.
pub enum WorkerAction {
    /// Serialize and send this event to the peer.
    Deliver(Topics),
    /// Nothing to do yet; poll again after the short wait.
    KeepWaiting,
    /// Tear down this one connection; nobody else is affected.
    Close,
}

/// The per-connection worker policy: close when the peer has gone away or
/// the queue is lost, keep polling on a quiet queue, deliver what arrives.
pub fn worker_decision(peer_open: bool, outcome: RecvOutcome) -> (r: WorkerAction)
    ensures
        !peer_open ==> r is Close,
        peer_open ==> match outcome {
            RecvOutcome::Received(e) => r == WorkerAction::Deliver(e),
            RecvOutcome::TimedOut => r is KeepWaiting,
            RecvOutcome::Disconnected => r is Close,
        },
{
    if !peer_open {
        return WorkerAction::Close;
    }
    match outcome {
        RecvOutcome::Received(e) => WorkerAction::Deliver(e),
        RecvOutcome::TimedOut => WorkerAction::KeepWaiting,
        RecvOutcome::Disconnected => WorkerAction::Close,
    }
}

} // verus!
