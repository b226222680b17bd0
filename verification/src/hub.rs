use vstd::prelude::*;

use crate::error::AppError;
use crate::room::ChatRoomId;

verus! {

/// How many pending messages one subscriber's buffer holds at most.
pub const CHANNEL_CAPACITY: usize = 100;

/// One live attachment to a room's fan-out channel: an identity that is
/// unique within the channel, and the bounded queue of messages published
/// since the attachment that this party has not yet taken out (front is
/// oldest).
#[derive(Debug)]
pub struct Subscriber {
    pub sub_id: u64,
    pub buffer: Vec<String>,
}

/// One room's fan-out channel: the currently attached subscribers and the
/// identity the next attachment will get.
#[derive(Debug)]
pub struct Channel {
    pub room_id: ChatRoomId,
    pub next_sub_id: u64,
    pub subs: Vec<Subscriber>,
}

/// A bounded buffer after one more message: room is made by letting the
/// oldest pending message go, never by blocking the publisher.
pub open spec fn push_lossy(buf: Seq<String>, msg: String, cap: int) -> Seq<String> {
    if buf.len() < cap {
        buf.push(msg)
    } else {
        buf.drop_first().push(msg)
    }
}

impl Channel {
    /// Subscriber identities are distinct, all below the next one to be
    /// handed out, and no buffer exceeds the capacity.
    pub open spec fn wf(self, cap: int) -> bool {
        &&& forall|i: int, j: int|
            0 <= i < j < self.subs@.len() ==> (#[trigger] self.subs@[i]).sub_id != (
            #[trigger] self.subs@[j]).sub_id
        &&& forall|i: int|
            0 <= i < self.subs@.len() ==> (#[trigger] self.subs@[i]).sub_id < self.next_sub_id
        &&& forall|i: int| 0 <= i < self.subs@.len() ==> (#[trigger] self.subs@[i]).buffer@.len() <= cap
    }

    /// Whether a subscriber with this identity is attached.
    pub open spec fn has_sub(self, sub_id: u64) -> bool {
        exists|i: int| 0 <= i < self.subs@.len() && (#[trigger] self.subs@[i]).sub_id == sub_id
    }

    /// The index of the subscriber with this identity, if attached.
    fn find_sub(&self, sub_id: u64) -> (r: Option<usize>)
        ensures
            r matches Some(i) ==> i < self.subs@.len() && self.subs@[i as int].sub_id == sub_id,
            r is None ==> !self.has_sub(sub_id),
    {
        let n = self.subs.len();
        let mut i: usize = 0;
        while i < n
            invariant
                n == self.subs@.len(),
                i <= n,
                forall|j: int| 0 <= j < i ==> (#[trigger] self.subs@[j]).sub_id != sub_id,
            decreases n - i,
        {
            if self.subs[i].sub_id == sub_id {
                return Some(i);
            }
            i += 1;
        }
        None
    }
}

/// The relay hub: one fan-out channel per room token. A published message
/// goes to every currently attached subscriber and to nobody else; a channel
/// is retired in the same atomic step that detaches its last subscriber. One
/// instance owns all channel state; callers that share it across tasks guard
/// the whole hub with one exclusive lock, which closes the gap between the
/// last-subscriber check and the removal.
pub struct RelayHub {
    pub channels: Vec<Channel>,
    pub capacity: usize,
}

impl RelayHub {
    /// The capacity is positive, each room token keys at most one channel,
    /// and every channel is well formed.
    pub open spec fn wf(self) -> bool {
        &&& self.capacity >= 1
        &&& forall|i: int, j: int|
            0 <= i < j < self.channels@.len() ==> (#[trigger] self.channels@[i]).room_id != (
            #[trigger] self.channels@[j]).room_id
        &&& forall|i: int|
            0 <= i < self.channels@.len() ==> (#[trigger] self.channels@[i]).wf(
                self.capacity as int,
            )
    }

    /// Whether a channel for this room token exists.
    pub open spec fn has_channel(self, room_id: ChatRoomId) -> bool {
        exists|i: int|
            0 <= i < self.channels@.len() && (#[trigger] self.channels@[i]).room_id == room_id
    }

    /// An empty hub whose buffers hold at most `capacity` pending messages
    /// each.
    pub fn with_capacity(capacity: usize) -> (r: RelayHub)
        requires
            capacity >= 1,
        ensures
            r.wf(),
            r.channels@.len() == 0,
            r.capacity == capacity,
    {
        RelayHub { channels: Vec::new(), capacity }
    }

    /// An empty hub with the default buffer bound.
    pub fn new() -> (r: RelayHub)
        ensures
            r.wf(),
            r.channels@.len() == 0,
            r.capacity == CHANNEL_CAPACITY,
    {
        RelayHub::with_capacity(CHANNEL_CAPACITY)
    }

    /// The index of the channel for this room token, if one exists.
    fn find(&self, room_id: ChatRoomId) -> (r: Option<usize>)
        ensures
            r matches Some(i) ==> i < self.channels@.len() && self.channels@[i as int].room_id
                == room_id,
            r is None ==> !self.has_channel(room_id),
    {
        let n = self.channels.len();
        let mut i: usize = 0;
        while i < n
            invariant
                n == self.channels@.len(),
                i <= n,
                forall|j: int| 0 <= j < i ==> (#[trigger] self.channels@[j]).room_id != room_id,
            decreases n - i,
        {
            if self.channels[i].room_id == room_id {
                return Some(i);
            }
            i += 1;
        }
        None
    }

    /// Allocates the fan-out channel for a room, ahead of any connection.
    /// Fails when the room already has one, leaving the hub unchanged.
    pub fn create_channel(&mut self, room_id: ChatRoomId) -> (r: Result<(), AppError>)
        requires
            old(self).wf(),
        ensures
            final(self).wf(),
            final(self).capacity == old(self).capacity,
            r is Ok <==> !old(self).has_channel(room_id),
            r is Ok ==> {
                &&& final(self).channels@.len() == old(self).channels@.len() + 1
                &&& forall|k: int|
                    0 <= k < old(self).channels@.len() ==> final(self).channels@[k] == old(
                        self,
                    ).channels@[k]
                &&& final(self).channels@.last().room_id == room_id
                &&& final(self).channels@.last().subs@.len() == 0
                &&& final(self).channels@.last().next_sub_id == 0
            },
            r is Err ==> *final(self) == *old(self),
            r matches Err(e) ==> e matches AppError::RoomAlreadyExists(m) && m@
                == "channel already exists"@,
    {
        if self.find(room_id).is_some() {
            return Err(AppError::RoomAlreadyExists(String::from_str("channel already exists")));
        }
        let channel = Channel { room_id, next_sub_id: 0, subs: Vec::new() };
        self.channels.push(channel);
        assert forall|a: int, b: int| 0 <= a < b < self.channels@.len() implies (
        #[trigger] self.channels@[a]).room_id != (#[trigger] self.channels@[b]).room_id by {
            if b + 1 == self.channels@.len() {
                assert(!old(self).has_channel(self.channels@[b].room_id));
            }
        }
        Ok(())
    }

    /// The number of currently attached subscribers of a room's channel, or
    /// nothing when the room has no channel.
    pub fn subscriber_count(&self, room_id: ChatRoomId) -> (r: Option<usize>)
        requires
            self.wf(),
        ensures
            r is None <==> !self.has_channel(room_id),
            forall|i: int|
                0 <= i < self.channels@.len() && (#[trigger] self.channels@[i]).room_id == room_id
                    ==> (r matches Some(n) && n == self.channels@[i].subs@.len()),
    {
        match self.find(room_id) {
            None => None,
            Some(i) => Some(self.channels[i].subs.len()),
        }
    }

    /// Attaches a new subscriber to a room's channel and returns its
    /// identity. The fresh subscriber starts with an empty buffer: it never
    /// sees a message published before it attached. Fails when the room has
    /// no channel (it was never created, or was retired), leaving the hub
    /// unchanged.
    pub fn subscribe(&mut self, room_id: ChatRoomId) -> (r: Result<u64, AppError>)
        requires
            old(self).wf(),
        ensures
            final(self).wf(),
            final(self).capacity == old(self).capacity,
            !old(self).has_channel(room_id) ==> final(self).channels@ == old(self).channels@ && (
            r matches Err(e) && e matches AppError::RoomNotFound(m) && m@
                == "no channel for room"@),
            forall|i: int|
                0 <= i < old(self).channels@.len() && (#[trigger] old(self).channels@[i]).room_id
                    == room_id ==> {
                    let ch = old(self).channels@[i];
                    &&& (r is Ok <==> ch.next_sub_id < u64::MAX)
                    &&& (ch.next_sub_id < u64::MAX ==> {
                        &&& r == Ok::<u64, AppError>(ch.next_sub_id)
                        &&& final(self).channels@.len() == old(self).channels@.len()
                        &&& forall|k: int|
                            0 <= k < old(self).channels@.len() && k != i
                                ==> final(self).channels@[k] == old(self).channels@[k]
                        &&& final(self).channels@[i].room_id == room_id
                        &&& final(self).channels@[i].next_sub_id == ch.next_sub_id + 1
                        &&& final(self).channels@[i].subs@.len() == ch.subs@.len() + 1
                        &&& forall|k: int|
                            0 <= k < ch.subs@.len() ==> final(self).channels@[i].subs@[k]
                                == ch.subs@[k]
                        &&& final(self).channels@[i].subs@.last().sub_id == ch.next_sub_id
                        &&& final(self).channels@[i].subs@.last().buffer@.len() == 0
                    })
                    &&& (ch.next_sub_id == u64::MAX ==> final(self).channels@ == old(
                        self,
                    ).channels@ && (r matches Err(e) && e matches AppError::InternalError(m) && m@
                        == "subscriber ids exhausted"@))
                },
    {
        match self.find(room_id) {
            None => Err(AppError::RoomNotFound(String::from_str("no channel for room"))),
            Some(i) => {
                let mut ch = self.channels.remove(i);
                if ch.next_sub_id == u64::MAX {
                    self.channels.insert(i, ch);
                    proof {
                        assert(self.channels@ =~= old(self).channels@);
                    }
                    return Err(AppError::InternalError(String::from_str("subscriber ids exhausted")));
                }
                let sub_id = ch.next_sub_id;
                ch.subs.push(Subscriber { sub_id, buffer: Vec::new() });
                ch.next_sub_id = sub_id + 1;
                self.channels.insert(i, ch);
                proof {
                    assert(forall|k: int|
                        0 <= k < old(self).channels@.len() && k != i ==> #[trigger] self.channels@[k]
                            == old(self).channels@[k]);
                }
                Ok(sub_id)
            },
        }
    }

    /// Delivers a message to every subscriber currently attached to the
    /// room's channel — exactly those, and no party of any other channel —
    /// appending it to the end of each one's buffer; a full buffer first
    /// lets its oldest pending message go, so the publisher never waits on a
    /// slow consumer. Returns how many subscribers were reached. Fails when
    /// the room has no channel, leaving the hub unchanged.
    pub fn publish(&mut self, room_id: ChatRoomId, msg: &String) -> (r: Result<usize, AppError>)
        requires
            old(self).wf(),
        ensures
            final(self).wf(),
            final(self).capacity == old(self).capacity,
            r is Ok <==> old(self).has_channel(room_id),
            !old(self).has_channel(room_id) ==> final(self).channels@ == old(self).channels@ && (
            r matches Err(e) && e matches AppError::RoomNotFound(m) && m@
                == "no channel for room"@),
            forall|i: int|
                0 <= i < old(self).channels@.len() && (#[trigger] old(self).channels@[i]).room_id
                    == room_id ==> {
                    let ch = old(self).channels@[i];
                    &&& (r matches Ok(n) && n == ch.subs@.len())
                    &&& final(self).channels@.len() == old(self).channels@.len()
                    &&& (forall|k: int|
                        0 <= k < old(self).channels@.len() && k != i
                            ==> final(self).channels@[k] == old(self).channels@[k])
                    &&& final(self).channels@[i].room_id == ch.room_id
                    &&& final(self).channels@[i].next_sub_id == ch.next_sub_id
                    &&& final(self).channels@[i].subs@.len() == ch.subs@.len()
                    &&& (forall|k: int|
                        0 <= k < ch.subs@.len() ==> (#[trigger] final(self).channels@[i].subs@[k]).sub_id == ch.subs@[k].sub_id && final(self).channels@[i].subs@[k].buffer@ == push_lossy(
                            ch.subs@[k].buffer@,
                            *msg,
                            old(self).capacity as int,
                        ))
                },
    {
        match self.find(room_id) {
            None => Err(AppError::RoomNotFound(String::from_str("no channel for room"))),
            Some(i) => {
                let cap = self.capacity;
                let mut ch = self.channels.remove(i);
                let ghost ch0 = ch;
                let count = ch.subs.len();
                let mut j: usize = 0;
                while j < count
                    invariant
                        cap >= 1,
                        count == ch0.subs@.len(),
                        j <= count,
                        ch0.wf(cap as int),
                        ch.subs@.len() == ch0.subs@.len(),
                        ch.room_id == ch0.room_id,
                        ch.next_sub_id == ch0.next_sub_id,
                        forall|k: int|
                            0 <= k < j ==> (#[trigger] ch.subs@[k]).sub_id == ch0.subs@[k].sub_id
                                && ch.subs@[k].buffer@ == push_lossy(
                                ch0.subs@[k].buffer@,
                                *msg,
                                cap as int,
                            ),
                        forall|k: int| j <= k < count ==> #[trigger] ch.subs@[k] == ch0.subs@[k],
                    decreases count - j,
                {
                    let mut sub = ch.subs.remove(j);
                    if sub.buffer.len() >= cap {
                        sub.buffer.remove(0);
                    }
                    sub.buffer.push(msg.clone());
                    ch.subs.insert(j, sub);
                    j += 1;
                }
                self.channels.insert(i, ch);
                proof {
                    assert(forall|k: int|
                        0 <= k < old(self).channels@.len() && k != i ==> #[trigger] self.channels@[k]
                            == old(self).channels@[k]);
                }
                Ok(count)
            },
        }
    }

    /// Takes out the oldest message pending for one subscriber: the front of
    /// its buffer, or nothing when the buffer is empty. Messages leave in
    /// the order they were published. Fails when the room has no channel or
    /// the subscriber is not attached, leaving the hub unchanged.
    pub fn recv(&mut self, room_id: ChatRoomId, sub_id: u64) -> (r: Result<Option<String>, AppError>)
        requires
            old(self).wf(),
        ensures
            final(self).wf(),
            final(self).capacity == old(self).capacity,
            !old(self).has_channel(room_id) ==> final(self).channels@ == old(self).channels@ && (
            r matches Err(e) && e matches AppError::RoomNotFound(m) && m@
                == "no channel for room"@),
            forall|i: int|
                0 <= i < old(self).channels@.len() && (#[trigger] old(self).channels@[i]).room_id
                    == room_id ==> {
                    let ch = old(self).channels@[i];
                    &&& (!ch.has_sub(sub_id) ==> final(self).channels@ == old(self).channels@ && (
                    r matches Err(e) && e matches AppError::InvalidRequest(m) && m@
                        == "unknown subscriber"@))
                    &&& (forall|j: int|
                        0 <= j < ch.subs@.len() && (#[trigger] ch.subs@[j]).sub_id == sub_id ==> {
                            let buf = ch.subs@[j].buffer@;
                            &&& final(self).channels@.len() == old(self).channels@.len()
                            &&& (forall|k: int|
                                0 <= k < old(self).channels@.len() && k != i
                                    ==> final(self).channels@[k] == old(self).channels@[k])
                            &&& final(self).channels@[i].room_id == ch.room_id
                            &&& final(self).channels@[i].next_sub_id == ch.next_sub_id
                            &&& final(self).channels@[i].subs@.len() == ch.subs@.len()
                            &&& (forall|k: int|
                                0 <= k < ch.subs@.len() && k != j
                                    ==> final(self).channels@[i].subs@[k] == ch.subs@[k])
                            &&& final(self).channels@[i].subs@[j].sub_id == sub_id
                            &&& (buf.len() == 0 ==> (r matches Ok(o) && o is None) && final(self).channels@[i].subs@[j].buffer@ == buf)
                            &&& (buf.len() > 0 ==> (r matches Ok(o) && o matches Some(m) && m
                                == buf[0]) && final(self).channels@[i].subs@[j].buffer@
                                == buf.drop_first())
                        })
                },
    {
        match self.find(room_id) {
            None => Err(AppError::RoomNotFound(String::from_str("no channel for room"))),
            Some(i) => {
                let mut ch = self.channels.remove(i);
                let res = match ch.find_sub(sub_id) {
                    None => Err(AppError::InvalidRequest(String::from_str("unknown subscriber"))),
                    Some(j) => {
                        let mut sub = ch.subs.remove(j);
                        let out = if sub.buffer.len() == 0 {
                            None
                        } else {
                            Some(sub.buffer.remove(0))
                        };
                        ch.subs.insert(j, sub);
                        proof {
                            assert(ch.subs@ =~= old(self).channels@[i as int].subs@.update(
                                j as int,
                                ch.subs@[j as int],
                            ));
                        }
                        Ok(out)
                    },
                };
                self.channels.insert(i, ch);
                proof {
                    if res is Err {
                        assert(self.channels@ =~= old(self).channels@);
                    }
                    assert(forall|k: int|
                        0 <= k < old(self).channels@.len() && k != i ==> #[trigger] self.channels@[k]
                            == old(self).channels@[k]);
                }
                res
            },
        }
    }

    /// Detaches one subscriber from a room's channel and returns how many
    /// remain. When the last subscriber leaves, the channel is retired in
    /// the same step: afterwards the room has no channel at all, and a later
    /// subscribe on this room token fails until a channel is created anew.
    /// Fails when the room has no channel or the subscriber is not attached,
    /// leaving the hub unchanged.
    pub fn unsubscribe(&mut self, room_id: ChatRoomId, sub_id: u64) -> (r: Result<usize, AppError>)
        requires
            old(self).wf(),
        ensures
            final(self).wf(),
            final(self).capacity == old(self).capacity,
            !old(self).has_channel(room_id) ==> final(self).channels@ == old(self).channels@ && (
            r matches Err(e) && e matches AppError::RoomNotFound(m) && m@
                == "no channel for room"@),
            forall|i: int|
                0 <= i < old(self).channels@.len() && (#[trigger] old(self).channels@[i]).room_id
                    == room_id ==> {
                    let ch = old(self).channels@[i];
                    &&& (!ch.has_sub(sub_id) ==> final(self).channels@ == old(self).channels@ && (
                    r matches Err(e) && e matches AppError::InvalidRequest(m) && m@
                        == "unknown subscriber"@))
                    &&& (ch.has_sub(sub_id) ==> (r matches Ok(n) && n + 1 == ch.subs@.len()))
                    &&& (ch.has_sub(sub_id) && ch.subs@.len() == 1 ==> final(self).channels@ == old(
                        self,
                    ).channels@.remove(i) && !final(self).has_channel(room_id))
                    &&& (forall|j: int|
                        0 <= j < ch.subs@.len() && (#[trigger] ch.subs@[j]).sub_id == sub_id
                            && ch.subs@.len() > 1 ==> {
                            &&& final(self).channels@.len() == old(self).channels@.len()
                            &&& (forall|k: int|
                                0 <= k < old(self).channels@.len() && k != i
                                    ==> final(self).channels@[k] == old(self).channels@[k])
                            &&& final(self).channels@[i].room_id == ch.room_id
                            &&& final(self).channels@[i].next_sub_id == ch.next_sub_id
                            &&& final(self).channels@[i].subs@ == ch.subs@.remove(j)
                        })
                },
    {
        match self.find(room_id) {
            None => Err(AppError::RoomNotFound(String::from_str("no channel for room"))),
            Some(i) => {
                let mut ch = self.channels.remove(i);
                match ch.find_sub(sub_id) {
                    None => {
                        self.channels.insert(i, ch);
                        proof {
                            assert(self.channels@ =~= old(self).channels@);
                        }
                        Err(AppError::InvalidRequest(String::from_str("unknown subscriber")))
                    },
                    Some(j) => {
                        ch.subs.remove(j);
                        let remaining = ch.subs.len();
                        if remaining == 0 {
                            proof {
                                assert(self.channels@ =~= old(self).channels@.remove(i as int));
                                assert forall|k: int| 0 <= k < self.channels@.len() implies (
                                #[trigger] self.channels@[k]).room_id != room_id by {
                                    if k < i {
                                        assert(self.channels@[k] == old(self).channels@[k]);
                                    } else {
                                        assert(self.channels@[k] == old(self).channels@[k + 1]);
                                    }
                                }
                            }
                        } else {
                            self.channels.insert(i, ch);
                            proof {
                                assert(forall|k: int|
                                    0 <= k < old(self).channels@.len() && k != i
                                        ==> #[trigger] self.channels@[k] == old(
                                        self,
                                    ).channels@[k]);
                            }
                        }
                        Ok(remaining)
                    },
                }
            },
        }
    }
}

/// Order preservation for one subscriber: two messages published in turn
/// land behind the pending ones in publish order, as long as the buffer has
/// room — so they are taken out in the order they were published.
pub proof fn lemma_publish_order(buf: Seq<String>, m1: String, m2: String, cap: int)
    requires
        buf.len() + 2 <= cap,
    ensures
        push_lossy(push_lossy(buf, m1, cap), m2, cap) == buf.push(m1).push(m2),
{
}

/// Fan-out delivery: whatever a subscriber's buffer held, after a publish
/// the buffer's newest entry is the published message, the buffer has grown
/// only if it had room, and it never exceeds the bound.
pub proof fn lemma_push_lossy_delivers(buf: Seq<String>, msg: String, cap: int)
    requires
        1 <= cap,
        buf.len() <= cap,
    ensures
        push_lossy(buf, msg, cap).last() == msg,
        push_lossy(buf, msg, cap).len() <= cap,
        1 <= push_lossy(buf, msg, cap).len(),
        buf.len() < cap ==> push_lossy(buf, msg, cap).len() == buf.len() + 1,
        buf.len() == cap ==> push_lossy(buf, msg, cap).len() == buf.len(),
{
}

} // verus!
