//! The message bus: a topic-keyed multicast channel registry.
//!
//! A channel is created lazily the first time a topic is published or
//! subscribed and persists until it is removed explicitly. Delivery is
//! multicast: every subscriber receives every message sent after it
//! subscribed, and never one sent before. Each channel keeps its log
//! of messages; a subscriber that falls more than `buffer_size`
//! entries behind observes a lag on its next receive instead of
//! blocking the publisher, exactly as with a bounded ring buffer.
//!
//! The registry owns all channel state. `Publisher` and `Subscription`
//! are thin handles holding only the topic binding (and, for a
//! subscription, its cursor); they are handed the bus by the caller.

use vstd::prelude::*;

use crate::error::RobotError;
use crate::messages::Topic;

verus! {

/// One topic's multicast channel: the topic name, a binding number
/// that distinguishes this channel from any earlier channel of the
/// same name, the log of messages published so far, and how many
/// subscription handles have been issued and not returned.
#[derive(Debug)]
pub struct TopicChannel<M> {
    pub topic: Topic,
    pub chan_id: u64,
    pub log: Vec<M>,
    pub subscriber_count: usize,
}

/// Central message bus routing messages between nodes.
#[derive(Debug)]
pub struct MessageBus<M> {
    pub channels: Vec<TopicChannel<M>>,
    pub buffer_size: usize,
    pub next_chan_id: u64,
}

/// Publisher handle, bound to one topic.
#[derive(Debug)]
pub struct Publisher {
    pub topic: Topic,
    pub chan_id: u64,
}

/// Subscription handle: the topic binding plus this subscriber's
/// cursor into the channel's log.
#[derive(Debug)]
pub struct Subscription {
    pub topic: Topic,
    pub chan_id: u64,
    pub next: usize,
}

/// Why a receive returned no message.
#[derive(Debug, Clone, Copy, PartialEq, Eq, Structural)]
pub enum RecvError {
    /// No message has been published past this subscriber's cursor.
    Empty,
    /// The subscriber fell behind the channel's capacity; the count
    /// says how many messages it missed. The cursor has been moved to
    /// the oldest message still within capacity.
    Lagged(usize),
    /// The topic was removed (or replaced) after this subscription was
    /// created.
    Closed,
}

/// `n + 1`, stopping at the top of the type's range.
pub open spec fn sat_inc(n: usize) -> usize {
    if n < usize::MAX {
        (n + 1) as usize
    } else {
        n
    }
}

/// `n + 1`, stopping at the top of the type's range.
pub open spec fn sat_inc_u64(n: u64) -> u64 {
    if n < u64::MAX {
        (n + 1) as u64
    } else {
        n
    }
}

impl<M> MessageBus<M> {
    /// Well-formed: a usable capacity, and topic names unique across
    /// the registry.
    pub open spec fn wf(&self) -> bool {
        &&& self.buffer_size >= 1
        &&& forall|i: int, j: int|
            0 <= i < j < self.channels@.len() ==> (#[trigger] self.channels@[i]).topic@ != (
            #[trigger] self.channels@[j]).topic@
    }

    /// Whether the bus holds a channel for this topic.
    pub open spec fn has_topic(&self, name: Seq<char>) -> bool {
        exists|i: int| 0 <= i < self.channels@.len() && (#[trigger] self.channels@[i]).topic@ == name
    }

    /// Whether a `publish` to this topic would be accepted: exactly
    /// when the bus holds its channel.
    pub open spec fn accepts_publish(&self, name: Seq<char>) -> bool {
        self.has_topic(name)
    }

    /// The index of this topic's channel.
    pub open spec fn topic_index(&self, name: Seq<char>) -> int {
        choose|i: int| 0 <= i < self.channels@.len() && (#[trigger] self.channels@[i]).topic@ == name
    }

    /// This topic's channel.
    pub open spec fn channel_at(&self, name: Seq<char>) -> TopicChannel<M> {
        self.channels@[self.topic_index(name)]
    }

    /// Create a new message bus with the given per-channel capacity.
    /// A capacity of zero would leave every channel unable to hold a
    /// single message, so it is excluded.
    pub fn new(buffer_size: usize) -> (r: Result<Self, RobotError>)
        requires
            buffer_size >= 1,
        ensures
            r matches Ok(b) && b.wf() && b.channels@.len() == 0 && b.buffer_size == buffer_size,
    {
        Ok(MessageBus { channels: Vec::new(), buffer_size, next_chan_id: 0 })
    }

    /// Find this topic's channel, if the bus holds one.
    fn find_channel(&self, topic: &str) -> (r: Option<usize>)
        requires
            self.wf(),
        ensures
            match r {
                Some(i) => {
                    &&& i < self.channels@.len()
                    &&& self.channels@[i as int].topic@ == topic@
                    &&& self.has_topic(topic@)
                    &&& self.topic_index(topic@) == i
                },
                None => !self.has_topic(topic@),
            },
    {
        let n = self.channels.len();
        let mut i: usize = 0;
        while i < n
            invariant
                self.wf(),
                n == self.channels@.len(),
                i <= n,
                forall|j: int| 0 <= j < i ==> (#[trigger] self.channels@[j]).topic@ != topic@,
            decreases n - i,
        {
            if crate::messages::str_eq(self.channels[i].topic.0.as_str(), topic) {
                proof {
                    assert(self.channels@[i as int].topic@ == topic@);
                    let ci = self.topic_index(topic@);
                    if ci != i as int {
                        assert(self.channels@[ci].topic@ == topic@);
                    }
                }
                return Some(i);
            }
            i += 1;
        }
        proof {
            assert forall|j: int| 0 <= j < self.channels@.len() implies (
            #[trigger] self.channels@[j]).topic@ != topic@ by {}
        }
        None
    }

    /// Create (or reuse) this topic's channel, returning its index.
    fn ensure_channel(&mut self, topic: &str) -> (i: usize)
        requires
            old(self).wf(),
        ensures
            final(self).wf(),
            final(self).buffer_size == old(self).buffer_size,
            final(self).has_topic(topic@),
            i == final(self).topic_index(topic@),
            i < final(self).channels@.len(),
            old(self).has_topic(topic@) ==> *final(self) == *old(self) && i == old(self).topic_index(
                topic@,
            ),
            !old(self).has_topic(topic@) ==> {
                &&& i == old(self).channels@.len()
                &&& final(self).channels@ == old(self).channels@.push(final(self).channels@[i as int])
                &&& final(self).channels@[i as int].topic@ == topic@
                &&& final(self).channels@[i as int].chan_id == old(self).next_chan_id
                &&& final(self).channels@[i as int].log@.len() == 0
                &&& final(self).channels@[i as int].subscriber_count == 0
                &&& final(self).next_chan_id == sat_inc_u64(old(self).next_chan_id)
            },
    {
        match self.find_channel(topic) {
            Some(i) => i,
            None => {
                let i = self.channels.len();
                let chan_id = self.next_chan_id;
                if self.next_chan_id < u64::MAX {
                    self.next_chan_id = self.next_chan_id + 1;
                }
                self.channels.push(
                    TopicChannel {
                        topic: Topic::new(topic),
                        chan_id,
                        log: Vec::new(),
                        subscriber_count: 0,
                    },
                );
                proof {
                    assert(self.channels@[i as int].topic@ == topic@);
                    let ci = self.topic_index(topic@);
                    if ci != i as int {
                        assert(old(self).channels@[ci].topic@ == topic@);
                        assert(old(self).has_topic(topic@));
                    }
                }
                i
            },
        }
    }

    /// Create a publisher for a topic, lazily creating the topic's
    /// channel if the bus does not hold one yet.
    pub fn create_publisher(&mut self, topic: &str) -> (r: Result<Publisher, RobotError>)
        requires
            old(self).wf(),
        ensures
            final(self).wf(),
            final(self).buffer_size == old(self).buffer_size,
            final(self).has_topic(topic@),
            r matches Ok(p) && p.topic@ == topic@ && p.chan_id == final(self).channel_at(
                topic@,
            ).chan_id,
            old(self).has_topic(topic@) ==> *final(self) == *old(self),
            !old(self).has_topic(topic@) ==> {
                let i = old(self).channels@.len() as int;
                &&& final(self).channels@ == old(self).channels@.push(final(self).channels@[i])
                &&& final(self).channels@[i].topic@ == topic@
                &&& final(self).channels@[i].log@.len() == 0
                &&& final(self).channels@[i].subscriber_count == 0
            },
    {
        let i = self.ensure_channel(topic);
        let chan_id = self.channels[i].chan_id;
        Ok(Publisher { topic: Topic::new(topic), chan_id })
    }

    /// Create a subscription to a topic, lazily creating the topic's
    /// channel if the bus does not hold one yet. The subscription's
    /// cursor starts at the end of the channel's log: messages
    /// published before this call are never delivered to it.
    pub fn subscribe(&mut self, topic: &str) -> (r: Result<Subscription, RobotError>)
        requires
            old(self).wf(),
        ensures
            final(self).wf(),
            final(self).buffer_size == old(self).buffer_size,
            final(self).has_topic(topic@),
            r matches Ok(s) && {
                let ch = final(self).channel_at(topic@);
                &&& s.topic@ == topic@
                &&& s.chan_id == ch.chan_id
                &&& s.next == ch.log@.len()
            },
            final(self).channel_at(topic@).log@ == if old(self).has_topic(topic@) {
                old(self).channel_at(topic@).log@
            } else {
                Seq::<M>::empty()
            },
            old(self).has_topic(topic@) ==> {
                let i = old(self).topic_index(topic@);
                let ch = old(self).channels@[i];
                final(self).channels@ == old(self).channels@.update(
                    i,
                    (TopicChannel { subscriber_count: sat_inc(ch.subscriber_count), ..ch }),
                )
            },
            !old(self).has_topic(topic@) ==> {
                let i = old(self).channels@.len() as int;
                &&& final(self).channels@ == old(self).channels@.push(final(self).channels@[i])
                &&& final(self).channels@[i].topic@ == topic@
                &&& final(self).channels@[i].log@.len() == 0
                &&& final(self).channels@[i].subscriber_count == 1
            },
    {
        let i = self.ensure_channel(topic);
        let ghost mid = *self;
        let ch = &mut self.channels[i];
        if ch.subscriber_count < usize::MAX {
            ch.subscriber_count = ch.subscriber_count + 1;
        }
        let chan_id = ch.chan_id;
        let next = ch.log.len();
        proof {
            assert(self.channels@[i as int].topic@ == topic@);
            assert forall|a: int, b: int|
                0 <= a < b < self.channels@.len() implies (#[trigger] self.channels@[a]).topic@
                != (#[trigger] self.channels@[b]).topic@ by {
                assert(mid.channels@[a].topic@ == self.channels@[a].topic@);
                assert(mid.channels@[b].topic@ == self.channels@[b].topic@);
            }
            let ci = self.topic_index(topic@);
            if ci != i as int {
                assert(self.channels@[ci].topic@ == topic@);
            }
        }
        Ok(Subscription { topic: Topic::new(topic), chan_id, next })
    }

    /// Publish a message to a topic. Fails exactly when the bus holds
    /// no channel for the topic: no publisher or subscriber has ever
    /// touched it, or it was removed.
    pub fn publish(&mut self, topic: &str, message: M) -> (r: Result<(), RobotError>)
        requires
            old(self).wf(),
        ensures
            final(self).wf(),
            final(self).buffer_size == old(self).buffer_size,
            r is Ok <==> old(self).accepts_publish(topic@),
            !old(self).has_topic(topic@) ==> *final(self) == *old(self) && (r matches Err(e)
                && e is Message),
            old(self).has_topic(topic@) ==> {
                let i = old(self).topic_index(topic@);
                let ch = old(self).channels@[i];
                &&& final(self).channels@ == old(self).channels@.update(
                    i,
                    (TopicChannel { log: final(self).channels@[i].log, ..ch }),
                )
                &&& final(self).channels@[i].log@ == ch.log@.push(message)
                &&& final(self).has_topic(topic@)
                &&& final(self).topic_index(topic@) == i
            },
    {
        match self.find_channel(topic) {
            Some(i) => {
                let ghost pre = *self;
                self.channels[i].log.push(message);
                proof {
                    assert forall|a: int, b: int|
                        0 <= a < b < self.channels@.len() implies (#[trigger] self.channels@[a]).topic@
                        != (#[trigger] self.channels@[b]).topic@ by {
                        assert(pre.channels@[a].topic@ == self.channels@[a].topic@);
                        assert(pre.channels@[b].topic@ == self.channels@[b].topic@);
                    }
                    assert(self.channels@[i as int].topic@ == topic@);
                    let ci = self.topic_index(topic@);
                    if ci != i as int {
                        assert(self.channels@[ci].topic@ == topic@);
                    }
                }
                Ok(())
            },
            None => Err(RobotError::Message(String::from_str("topic does not exist"))),
        }
    }

    /// The number of outstanding subscriptions to a topic, zero when
    /// the bus holds no channel for it.
    pub fn subscriber_count(&self, topic: &str) -> (r: usize)
        requires
            self.wf(),
        ensures
            self.has_topic(topic@) ==> r == self.channel_at(topic@).subscriber_count,
            !self.has_topic(topic@) ==> r == 0,
    {
        match self.find_channel(topic) {
            Some(i) => self.channels[i].subscriber_count,
            None => 0,
        }
    }

    /// All topics the bus currently holds.
    pub fn list_topics(&self) -> (r: Vec<Topic>)
        ensures
            r@.len() == self.channels@.len(),
            forall|i: int| 0 <= i < r@.len() ==> (#[trigger] r@[i])@ == self.channels@[i].topic@,
    {
        let n = self.channels.len();
        let mut r: Vec<Topic> = Vec::new();
        let mut i: usize = 0;
        while i < n
            invariant
                n == self.channels@.len(),
                i <= n,
                r@.len() == i,
                forall|j: int| 0 <= j < i ==> (#[trigger] r@[j])@ == self.channels@[j].topic@,
            decreases n - i,
        {
            r.push(self.channels[i].topic.clone());
            i += 1;
        }
        r
    }

    /// Remove a topic's channel. Every subscription bound to it will
    /// observe closure from now on. Removing an absent topic is a
    /// no-op.
    pub fn remove_topic(&mut self, topic: &str) -> (r: Result<(), RobotError>)
        requires
            old(self).wf(),
        ensures
            final(self).wf(),
            final(self).buffer_size == old(self).buffer_size,
            r is Ok,
            !final(self).has_topic(topic@),
            old(self).has_topic(topic@) ==> final(self).channels@ == old(self).channels@.remove(
                old(self).topic_index(topic@),
            ),
            !old(self).has_topic(topic@) ==> *final(self) == *old(self),
    {
        match self.find_channel(topic) {
            Some(i) => {
                let ghost pre = *self;
                let _ = self.channels.remove(i);
                proof {
                    assert forall|a: int, b: int|
                        0 <= a < b < self.channels@.len() implies (#[trigger] self.channels@[a]).topic@
                        != (#[trigger] self.channels@[b]).topic@ by {
                        if a < i as int {
                            assert(self.channels@[a] == pre.channels@[a]);
                        } else {
                            assert(self.channels@[a] == pre.channels@[a + 1]);
                        }
                        if b < i as int {
                            assert(self.channels@[b] == pre.channels@[b]);
                        } else {
                            assert(self.channels@[b] == pre.channels@[b + 1]);
                        }
                    }
                    assert forall|j: int|
                        0 <= j < self.channels@.len() implies (
                    #[trigger] self.channels@[j]).topic@ != topic@ by {
                        if j < i as int {
                            assert(self.channels@[j] == pre.channels@[j]);
                            assert(pre.channels@[j].topic@ != topic@);
                        } else {
                            assert(self.channels@[j] == pre.channels@[j + 1]);
                            assert(pre.channels@[j + 1].topic@ != topic@);
                        }
                    }
                }
                Ok(())
            },
            None => Ok(()),
        }
    }

    /// Clear all topics and subscribers. Every outstanding
    /// subscription will observe closure from now on.
    pub fn clear(&mut self) -> (r: Result<(), RobotError>)
        requires
            old(self).wf(),
        ensures
            final(self).wf(),
            final(self).buffer_size == old(self).buffer_size,
            r is Ok,
            final(self).channels@.len() == 0,
    {
        self.channels.clear();
        Ok(())
    }
}

impl Publisher {
    /// The topic this publisher sends to.
    pub fn topic(&self) -> (r: &Topic)
        ensures
            r == &self.topic,
    {
        &self.topic
    }

    /// Publish a message through the bus. Fails exactly when the bus
    /// no longer holds a channel for this publisher's topic.
    pub fn publish<M>(&self, bus: &mut MessageBus<M>, message: M) -> (r: Result<(), RobotError>)
        requires
            old(bus).wf(),
        ensures
            final(bus).wf(),
            final(bus).buffer_size == old(bus).buffer_size,
            r is Ok <==> old(bus).accepts_publish(self.topic@),
            !old(bus).has_topic(self.topic@) ==> *final(bus) == *old(bus) && (r matches Err(e)
                && e is Message),
            old(bus).has_topic(self.topic@) ==> final(bus).channel_at(self.topic@).log@ == old(
                bus,
            ).channel_at(self.topic@).log@.push(message),
    {
        bus.publish(self.topic.0.as_str(), message)
    }

    /// The number of outstanding subscriptions to this publisher's
    /// topic.
    pub fn subscriber_count<M>(&self, bus: &MessageBus<M>) -> (r: usize)
        requires
            bus.wf(),
        ensures
            bus.has_topic(self.topic@) ==> r == bus.channel_at(self.topic@).subscriber_count,
            !bus.has_topic(self.topic@) ==> r == 0,
    {
        bus.subscriber_count(self.topic.0.as_str())
    }
}

/// The log index `try_recv` would yield on this bus and subscription
/// state, or nothing when it would return an error instead.
pub open spec fn spec_yield_index<M>(bus: MessageBus<M>, sub: Subscription) -> Option<int> {
    if !bus.has_topic(sub.topic@) || bus.channel_at(sub.topic@).chan_id != sub.chan_id {
        None
    } else {
        let log_len = bus.channel_at(sub.topic@).log@.len() as int;
        if sub.next > log_len {
            None
        } else if log_len - sub.next > bus.buffer_size {
            None
        } else if sub.next == log_len {
            None
        } else {
            Some(sub.next as int)
        }
    }
}

/// The cursor `try_recv` leaves behind on this bus and subscription
/// state.
pub open spec fn spec_next_cursor<M>(bus: MessageBus<M>, sub: Subscription) -> int {
    if !bus.has_topic(sub.topic@) || bus.channel_at(sub.topic@).chan_id != sub.chan_id {
        sub.next as int
    } else {
        let log_len = bus.channel_at(sub.topic@).log@.len() as int;
        if sub.next > log_len {
            sub.next as int
        } else if log_len - sub.next > bus.buffer_size {
            log_len - bus.buffer_size
        } else if sub.next == log_len {
            sub.next as int
        } else {
            sub.next + 1
        }
    }
}

impl Subscription {
    /// The topic this subscription is for.
    pub fn topic(&self) -> (r: &Topic)
        ensures
            r == &self.topic,
    {
        &self.topic
    }

    /// Try to receive the next message without blocking.
    ///
    /// Yields the message at the cursor when one is there; reports
    /// `Empty` when the cursor stands at the end of the log, `Lagged`
    /// when the subscriber fell behind the channel's capacity (moving
    /// the cursor to the oldest message still within it), and `Closed`
    /// when the topic's channel is gone or was replaced. The cursor
    /// never moves backward, so a message published before this
    /// subscription was created is never yielded.
    pub fn try_recv<'a, M>(&mut self, bus: &'a MessageBus<M>) -> (r: Result<&'a M, RecvError>)
        requires
            bus.wf(),
        ensures
            final(self).topic == old(self).topic,
            final(self).chan_id == old(self).chan_id,
            final(self).next == spec_next_cursor(*bus, *old(self)),
            final(self).next >= old(self).next,
            r is Ok <==> spec_yield_index(*bus, *old(self)) is Some,
            r matches Ok(m) ==> spec_yield_index(*bus, *old(self)) == Some(old(self).next as int)
                && *m == bus.channel_at(old(self).topic@).log@[old(self).next as int],
            r matches Err(e) ==> {
                &&& e is Closed <==> (!bus.has_topic(old(self).topic@) || bus.channel_at(
                    old(self).topic@,
                ).chan_id != old(self).chan_id)
                &&& e is Lagged <==> (bus.has_topic(old(self).topic@) && bus.channel_at(
                    old(self).topic@,
                ).chan_id == old(self).chan_id && old(self).next <= bus.channel_at(
                    old(self).topic@,
                ).log@.len() && bus.channel_at(old(self).topic@).log@.len() - old(self).next
                    > bus.buffer_size)
                &&& e matches RecvError::Lagged(n) ==> n == bus.channel_at(
                    old(self).topic@,
                ).log@.len() - bus.buffer_size - old(self).next
            },
    {
        let found = bus.find_channel(self.topic.0.as_str());
        match found {
            None => Err(RecvError::Closed),
            Some(i) => {
                let ch = &bus.channels[i];
                if ch.chan_id != self.chan_id {
                    Err(RecvError::Closed)
                } else {
                    let log_len = ch.log.len();
                    if self.next > log_len {
                        Err(RecvError::Empty)
                    } else if log_len - self.next > bus.buffer_size {
                        let missed = log_len - bus.buffer_size - self.next;
                        self.next = log_len - bus.buffer_size;
                        Err(RecvError::Lagged(missed))
                    } else if self.next == log_len {
                        Err(RecvError::Empty)
                    } else {
                        let m = &ch.log[self.next];
                        self.next = self.next + 1;
                        Ok(m)
                    }
                }
            },
        }
    }

    /// Return this subscription to the bus, releasing its count on
    /// the topic's channel. A subscription whose channel is gone or
    /// was replaced releases nothing.
    pub fn unsubscribe<M>(self, bus: &mut MessageBus<M>)
        requires
            old(bus).wf(),
        ensures
            final(bus).wf(),
            final(bus).buffer_size == old(bus).buffer_size,
            final(bus).next_chan_id == old(bus).next_chan_id,
            (!old(bus).has_topic(self.topic@) || old(bus).channel_at(self.topic@).chan_id
                != self.chan_id) ==> *final(bus) == *old(bus),
            (old(bus).has_topic(self.topic@) && old(bus).channel_at(self.topic@).chan_id
                == self.chan_id) ==> {
                let i = old(bus).topic_index(self.topic@);
                let ch = old(bus).channels@[i];
                final(bus).channels@ == old(bus).channels@.update(
                    i,
                    (TopicChannel {
                        subscriber_count: if ch.subscriber_count > 0 {
                            (ch.subscriber_count - 1) as usize
                        } else {
                            0usize
                        },
                        ..ch
                    }),
                )
            },
    {
        let found = bus.find_channel(self.topic.0.as_str());
        match found {
            None => (),
            Some(i) => {
                let ghost pre = *bus;
                if bus.channels[i].chan_id == self.chan_id {
                    if bus.channels[i].subscriber_count > 0 {
                        bus.channels[i].subscriber_count = bus.channels[i].subscriber_count - 1;
                    } else {
                        proof {
                            assert(bus.channels@ =~= pre.channels@.update(
                                i as int,
                                pre.channels@[i as int],
                            ));
                        }
                    }
                }
                proof {
                    assert forall|a: int, b: int|
                        0 <= a < b < bus.channels@.len() implies (#[trigger] bus.channels@[a]).topic@
                        != (#[trigger] bus.channels@[b]).topic@ by {
                        assert(pre.channels@[a].topic@ == bus.channels@[a].topic@);
                        assert(pre.channels@[b].topic@ == bus.channels@[b].topic@);
                    }
                }
            },
        }
    }
}

/// Publishing reaches exactly the topics the bus holds, and a topic
/// is created by the first `subscribe` or `create_publisher` call on
/// it and never implicitly destroyed: once either call has ensured
/// the channel exists, every `publish` to that topic is accepted
/// until the topic is removed.
pub proof fn lemma_touched_topic_accepts_publish<M>(bus: MessageBus<M>, name: Seq<char>)
    requires
        bus.has_topic(name),
    ensures
        bus.accepts_publish(name),
{
}

/// A subscription created after a message entered its topic's log
/// never yields that message: `subscribe` starts the cursor at the end
/// of the log, the cursor never moves backward, and a receive only
/// ever yields the entry the cursor stands on.
pub proof fn lemma_no_replay<M>(bus: MessageBus<M>, sub: Subscription, k: int)
    requires
        k < sub.next,
    ensures
        spec_yield_index(bus, sub) != Some(k),
{
}

/// A subscription created before a message entered its topic's log
/// receives it in its turn: when the cursor stands on the message and
/// the subscriber has not fallen behind the channel's capacity, the
/// receive yields exactly that entry.
pub proof fn lemma_created_before_receives<M>(bus: MessageBus<M>, sub: Subscription, k: int)
    requires
        bus.wf(),
        bus.has_topic(sub.topic@),
        bus.channel_at(sub.topic@).chan_id == sub.chan_id,
        sub.next == k,
        0 <= k < bus.channel_at(sub.topic@).log@.len(),
        bus.channel_at(sub.topic@).log@.len() - k <= bus.buffer_size,
    ensures
        spec_yield_index(bus, sub) == Some(k),
{
}

/// Message bus statistics.
#[derive(Debug)]
pub struct MessageBusStats {
    pub total_topics: usize,
    pub total_subscribers: usize,
    pub topics_info: Vec<TopicInfo>,
}

/// Information about a specific topic.
#[derive(Debug)]
pub struct TopicInfo {
    pub name: Topic,
    pub subscriber_count: usize,
    pub buffer_size: usize,
}

impl Clone for TopicInfo {
    fn clone(&self) -> (res: Self)
        ensures
            res == *self,
    {
        TopicInfo {
            name: self.name.clone(),
            subscriber_count: self.subscriber_count,
            buffer_size: self.buffer_size,
        }
    }
}

/// The sum of the subscriber counts of these channels.
pub open spec fn subs_sum<M>(chs: Seq<TopicChannel<M>>) -> int
    decreases chs.len(),
{
    if chs.len() == 0 {
        0
    } else {
        subs_sum(chs.drop_last()) + chs.last().subscriber_count
    }
}

impl<M> MessageBus<M> {
    /// Get message bus statistics: the topic count, the subscriber
    /// total (stopping at the top of the count's range), and one entry
    /// per topic.
    pub fn get_stats(&self) -> (r: MessageBusStats)
        ensures
            r.total_topics == self.channels@.len(),
            r.topics_info@.len() == self.channels@.len(),
            forall|i: int|
                0 <= i < self.channels@.len() ==> {
                    let info = #[trigger] r.topics_info@[i];
                    &&& info.name@ == self.channels@[i].topic@
                    &&& info.subscriber_count == self.channels@[i].subscriber_count
                    &&& info.buffer_size == self.buffer_size
                },
            r.total_subscribers == if subs_sum(self.channels@) <= usize::MAX {
                subs_sum(self.channels@)
            } else {
                usize::MAX as int
            },
    {
        let n = self.channels.len();
        let mut total_subscribers: usize = 0;
        let mut topics_info: Vec<TopicInfo> = Vec::new();
        let mut i: usize = 0;
        while i < n
            invariant
                n == self.channels@.len(),
                i <= n,
                topics_info@.len() == i,
                forall|j: int|
                    0 <= j < i ==> {
                        let info = #[trigger] topics_info@[j];
                        &&& info.name@ == self.channels@[j].topic@
                        &&& info.subscriber_count == self.channels@[j].subscriber_count
                        &&& info.buffer_size == self.buffer_size
                    },
                total_subscribers == if subs_sum(self.channels@.subrange(0, i as int))
                    <= usize::MAX {
                    subs_sum(self.channels@.subrange(0, i as int))
                } else {
                    usize::MAX as int
                },
            decreases n - i,
        {
            let c = self.channels[i].subscriber_count;
            proof {
                assert(self.channels@.subrange(0, i + 1).drop_last() =~= self.channels@.subrange(
                    0,
                    i as int,
                ));
                assert(self.channels@.subrange(0, i + 1).last() == self.channels@[i as int]);
            }
            if total_subscribers <= usize::MAX - c {
                total_subscribers = total_subscribers + c;
            } else {
                total_subscribers = usize::MAX;
            }
            topics_info.push(
                TopicInfo {
                    name: self.channels[i].topic.clone(),
                    subscriber_count: c,
                    buffer_size: self.buffer_size,
                },
            );
            i += 1;
        }
        proof {
            assert(self.channels@.subrange(0, n as int) =~= self.channels@);
        }
        MessageBusStats { total_topics: n, total_subscribers, topics_info }
    }
}

} // verus!
