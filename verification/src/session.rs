use vstd::prelude::*;

use crate::agent::{spec_begin_room, Agents};
use crate::error::AppError;
use crate::hub::{push_lossy, RelayHub};
use crate::room::{enter_agent_allowed, spec_enter_agent, ChatRoom, ChatRoomId, Rooms};
use crate::user::UserRole;

verus! {

/// The reserved text payload that ends a conversation.
pub open spec fn spec_end_sentinel() -> Seq<char> {
    "종료"@
}

/// The reserved text payload that ends a conversation.
pub fn end_sentinel() -> (r: &'static str)
    ensures
        r@ == spec_end_sentinel(),
{
    "종료"
}

/// Whether a received text is the conversation-ending sentinel.
pub fn is_end_sentinel(text: &String) -> (r: bool)
    ensures
        r == (text@ == spec_end_sentinel()),
{
    *text == String::from_str(end_sentinel())
}

/// One transport frame as the relay sees it: a text payload, any other
/// payload (binary or control, which the relay lets pass), or the signal
/// that the transport is closed (the peer left or the read failed).
#[derive(Debug)]
pub enum Frame {
    Text(String),
    Other,
    Closed,
}

/// What one received frame means for the inbound loop: relay the text (and
/// stop afterwards when it was the sentinel, so the peer sees the sentinel
/// once more and both sides wind down), let the frame pass, or stop.
#[derive(Debug, Clone, Copy, PartialEq, Eq, Structural)]
pub enum InboundAction {
    Relay { last: bool },
    Ignore,
    Stop,
}

/// The inbound loop's decision for one frame.
pub open spec fn spec_inbound_action(frame: Frame) -> InboundAction {
    match frame {
        Frame::Closed => InboundAction::Stop,
        Frame::Other => InboundAction::Ignore,
        Frame::Text(t) => InboundAction::Relay { last: t@ == spec_end_sentinel() },
    }
}

/// Decides what one received frame means for the inbound loop.
pub fn inbound_action(frame: &Frame) -> (r: InboundAction)
    ensures
        r == spec_inbound_action(*frame),
{
    match frame {
        Frame::Closed => InboundAction::Stop,
        Frame::Other => InboundAction::Ignore,
        Frame::Text(t) => InboundAction::Relay { last: is_end_sentinel(t) },
    }
}

/// What the outbound loop does with one attempt to take a message out of
/// the subscription: write it to the transport, wait for more, or stop
/// because the subscription is gone (the channel was retired).
#[derive(Debug)]
pub enum OutboundAction {
    Deliver(String),
    Idle,
    Stop,
}

/// Decides the outbound loop's next move from the hub's answer.
pub fn outbound_action(received: Result<Option<String>, AppError>) -> (r: OutboundAction)
    ensures
        received matches Ok(o) ==> (o matches Some(m) ==> r == OutboundAction::Deliver(m)),
        received matches Ok(o) ==> (o is None ==> r is Idle),
        received is Err ==> r is Stop,
{
    match received {
        Ok(Some(m)) => OutboundAction::Deliver(m),
        Ok(None) => OutboundAction::Idle,
        Err(_) => OutboundAction::Stop,
    }
}

/// One physical connection attached to one room as one party, for the
/// lifetime of that connection: the room token, the party's role, and the
/// channel subscription it holds.
#[derive(Debug, Clone, Copy)]
pub struct ConnectionSession {
    pub room_id: ChatRoomId,
    pub role: UserRole,
    pub sub_id: u64,
}

/// Whether an authenticated party may join a room: the customer side must
/// be the room's own customer; an agent may join any existing room (becoming
/// the room's agent is the separate assignment step).
pub open spec fn spec_authorized(
    rooms: Rooms,
    room_id: ChatRoomId,
    user_id: i64,
    role: UserRole,
) -> bool {
    match role {
        UserRole::Agent => rooms.has_room(room_id),
        UserRole::User => exists|i: int|
            0 <= i < rooms.rooms@.len() && (#[trigger] rooms.rooms@[i]).room_id == room_id
                && rooms.rooms@[i].customer_id == user_id,
    }
}

/// Authorizes a party against the room registry at the join boundary. An
/// unknown room is reported as not found; a known room that the party may
/// not enter, as unauthorized.
pub fn authorize_join(rooms: &Rooms, room_id: ChatRoomId, user_id: i64, role: UserRole) -> (r:
    Result<(), AppError>)
    ensures
        r is Ok <==> spec_authorized(*rooms, room_id, user_id, role),
        !rooms.has_room(room_id) ==> (r matches Err(e) && e matches AppError::RoomNotFound(m) && m@
            == "The room does not exist"@),
        rooms.has_room(room_id) && !spec_authorized(*rooms, room_id, user_id, role) ==> (
        r matches Err(e) && e matches AppError::Unauthorized(m) && m@
            == "not a member of this room"@),
{
    if rooms.get(room_id).is_none() {
        return Err(AppError::RoomNotFound(String::from_str("The room does not exist")));
    }
    match role {
        UserRole::Agent => Ok(()),
        UserRole::User => {
            if rooms.is_member(room_id, user_id) {
                Ok(())
            } else {
                Err(AppError::Unauthorized(String::from_str("not a member of this room")))
            }
        },
    }
}

/// How a hub after a successful subscribe relates to the hub before it: the
/// channel for the room, standing at index `i`, gained exactly one fresh
/// subscriber with identity `sub_id` and an empty buffer, and nothing else
/// in the hub moved.
pub open spec fn spec_subscribed(
    pre: RelayHub,
    post: RelayHub,
    room_id: ChatRoomId,
    sub_id: u64,
    i: int,
) -> bool {
    &&& 0 <= i < pre.channels@.len()
    &&& pre.channels@[i].room_id == room_id
    &&& sub_id == pre.channels@[i].next_sub_id
    &&& post.channels@.len() == pre.channels@.len()
    &&& (forall|k: int|
        0 <= k < pre.channels@.len() && k != i ==> post.channels@[k] == pre.channels@[k])
    &&& post.channels@[i].room_id == room_id
    &&& post.channels@[i].next_sub_id == pre.channels@[i].next_sub_id + 1
    &&& post.channels@[i].subs@.len() == pre.channels@[i].subs@.len() + 1
    &&& (forall|k: int|
        0 <= k < pre.channels@[i].subs@.len() ==> post.channels@[i].subs@[k]
            == pre.channels@[i].subs@[k])
    &&& post.channels@[i].subs@.last().sub_id == sub_id
    &&& post.channels@[i].subs@.last().buffer@.len() == 0
}

/// The join sequence of one connection: authorize against the room
/// registry, then attach to the room's channel. On success the returned
/// session holds a fresh subscription that has seen no earlier message; on
/// any failure the hub is left unchanged.
pub fn join_session(
    rooms: &Rooms,
    hub: &mut RelayHub,
    room_id: ChatRoomId,
    user_id: i64,
    role: UserRole,
) -> (r: Result<ConnectionSession, AppError>)
    requires
        old(hub).wf(),
    ensures
        final(hub).wf(),
        final(hub).capacity == old(hub).capacity,
        r is Err ==> final(hub).channels@ == old(hub).channels@,
        !rooms.has_room(room_id) ==> (r matches Err(e) && e matches AppError::RoomNotFound(m) && m@
            == "The room does not exist"@),
        rooms.has_room(room_id) && !spec_authorized(*rooms, room_id, user_id, role) ==> (
        r matches Err(e) && e matches AppError::Unauthorized(m) && m@
            == "not a member of this room"@),
        spec_authorized(*rooms, room_id, user_id, role) && !old(hub).has_channel(room_id) ==> (
        r matches Err(e) && e matches AppError::RoomNotFound(m) && m@ == "no channel for room"@),
        r matches Ok(s) ==> s.room_id == room_id && s.role == role && spec_authorized(
            *rooms,
            room_id,
            user_id,
            role,
        ),
        forall|i: int|
            0 <= i < old(hub).channels@.len() && (#[trigger] old(hub).channels@[i]).room_id
                == room_id && spec_authorized(*rooms, room_id, user_id, role) ==> {
                &&& (r is Ok <==> old(hub).channels@[i].next_sub_id < u64::MAX)
                &&& (old(hub).channels@[i].next_sub_id == u64::MAX ==> final(hub).channels@ == old(
                    hub,
                ).channels@ && (r matches Err(e) && e matches AppError::InternalError(m) && m@
                    == "subscriber ids exhausted"@))
            },
        forall|i: int|
            0 <= i < old(hub).channels@.len() && (#[trigger] old(hub).channels@[i]).room_id
                == room_id && r is Ok ==> (r matches Ok(s) && spec_subscribed(
                *old(hub),
                *final(hub),
                room_id,
                s.sub_id,
                i,
            )),
{
    match authorize_join(rooms, room_id, user_id, role) {
        Err(e) => Err(e),
        Ok(()) => {
            match hub.subscribe(room_id) {
                Err(e) => Err(e),
                Ok(sub_id) => Ok(ConnectionSession { room_id, role, sub_id }),
            }
        },
    }
}

/// Opens a room for relaying: registers the record and allocates its
/// fan-out channel, ahead of any connection, so no party can try to join
/// between the two steps. Succeeds exactly when the token is fresh on both
/// sides; on failure both the registry and the hub are left as they were.
pub fn open_room(rooms: &mut Rooms, hub: &mut RelayHub, room: ChatRoom) -> (r: Result<
    ChatRoomId,
    AppError,
>)
    requires
        old(rooms).wf(),
        old(hub).wf(),
    ensures
        final(rooms).wf(),
        final(hub).wf(),
        final(hub).capacity == old(hub).capacity,
        r is Ok <==> !old(rooms).has_room(room.room_id) && !old(hub).has_channel(room.room_id),
        r matches Ok(id) ==> id == room.room_id,
        r is Ok ==> final(rooms).rooms@ == old(rooms).rooms@.push(room),
        r is Ok ==> {
            &&& final(hub).channels@.len() == old(hub).channels@.len() + 1
            &&& (forall|k: int|
                0 <= k < old(hub).channels@.len() ==> final(hub).channels@[k] == old(
                    hub,
                ).channels@[k])
            &&& final(hub).channels@.last().room_id == room.room_id
            &&& final(hub).channels@.last().subs@.len() == 0
            &&& final(hub).channels@.last().next_sub_id == 0
        },
        r is Err ==> final(rooms).rooms@ == old(rooms).rooms@ && final(hub).channels@ == old(
            hub,
        ).channels@,
        r matches Err(e) ==> e matches AppError::RoomAlreadyExists(_),
{
    match rooms.insert(room) {
        Err(e) => Err(e),
        Ok(()) => {
            match hub.create_channel(room.room_id) {
                Err(e) => {
                    let ghost mid = *rooms;
                    let _ = rooms.remove(room.room_id);
                    proof {
                        assert(mid.rooms@ == old(rooms).rooms@.push(room));
                        assert(mid.rooms@[old(rooms).rooms@.len() as int].room_id == room.room_id);
                        assert(rooms.rooms@ =~= old(rooms).rooms@);
                    }
                    Err(e)
                },
                Ok(()) => Ok(room.room_id),
            }
        },
    }
}

/// The two-sided agent assignment: writes the agent into the room and the
/// room into the agent as one operation, under both registries' exclusive
/// access at once, so no reader can see one side updated without the other.
/// Any failure — unknown room, unknown agent, or a room that already has an
/// agent — leaves both registries exactly as they were.
pub fn assign_agent_to_room(
    rooms: &mut Rooms,
    agents: &mut Agents,
    room_id: ChatRoomId,
    agent_id: i64,
) -> (r: Result<(), AppError>)
    requires
        old(rooms).wf(),
        old(agents).wf(),
    ensures
        final(rooms).wf(),
        final(agents).wf(),
        r is Err ==> final(rooms).rooms@ == old(rooms).rooms@ && final(agents).agents@ == old(
            agents,
        ).agents@,
        !old(agents).has_agent(agent_id) ==> (r matches Err(e)
            && e matches AppError::AgentNotFound(m) && m@ == "agent not found"@),
        old(agents).has_agent(agent_id) && !old(rooms).has_room(room_id) ==> (r matches Err(e)
            && e matches AppError::RoomNotFound(m) && m@ == "room not found"@),
        forall|i: int|
            0 <= i < old(rooms).rooms@.len() && (#[trigger] old(rooms).rooms@[i]).room_id
                == room_id && old(agents).has_agent(agent_id) ==> {
                let room = old(rooms).rooms@[i];
                &&& (r is Ok <==> enter_agent_allowed(room))
                &&& (room.agent_id is Some ==> (r matches Err(e)
                    && e matches AppError::InvalidRequest(m) && m@ == "This chat room is full"@))
                &&& (room.agent_id is None && room.status is Ended ==> (r matches Err(e)
                    && e matches AppError::InvalidRequest(m) && m@ == "This chat room has ended"@))
                &&& (enter_agent_allowed(room) ==> exists|t: i64|
                    final(rooms).rooms@ == old(rooms).rooms@.update(
                        i,
                        spec_enter_agent(room, agent_id, t),
                    ))
            },
        r is Ok ==> forall|j: int|
            0 <= j < old(agents).agents@.len() && (#[trigger] old(agents).agents@[j]).0 == agent_id
                ==> exists|t: i64|
                final(agents).agents@ == old(agents).agents@.update(
                    j,
                    (agent_id, spec_begin_room(old(agents).agents@[j].1, room_id, t)),
                ),
{
    if agents.get(agent_id).is_none() {
        return Err(AppError::AgentNotFound(String::from_str("agent not found")));
    }
    match rooms.assign_agent(room_id, agent_id) {
        Err(e) => Err(e),
        Ok(()) => {
            match agents.begin_room(agent_id, room_id) {
                Err(e) => Err(e),
                Ok(()) => Ok(()),
            }
        },
    }
}

/// One step of the inbound relay loop: decides what the received frame
/// means, publishes its text to the room's channel when it is to be
/// relayed, and returns whether the loop goes on. The loop stops on a
/// closed transport, after relaying the sentinel once more, and when the
/// channel is gone.
pub fn relay_inbound(hub: &mut RelayHub, session: &ConnectionSession, frame: Frame) -> (r: bool)
    requires
        old(hub).wf(),
    ensures
        final(hub).wf(),
        final(hub).capacity == old(hub).capacity,
        frame is Closed ==> final(hub).channels@ == old(hub).channels@ && r == false,
        frame is Other ==> final(hub).channels@ == old(hub).channels@ && r == true,
        frame matches Frame::Text(t) ==> {
            &&& (old(hub).has_channel(session.room_id) ==> (r <==> t@ != spec_end_sentinel()))
            &&& (!old(hub).has_channel(session.room_id) ==> r == false && final(hub).channels@
                == old(hub).channels@)
            &&& (forall|i: int|
                0 <= i < old(hub).channels@.len() && (#[trigger] old(hub).channels@[i]).room_id
                    == session.room_id ==> {
                    let ch = old(hub).channels@[i];
                    &&& final(hub).channels@.len() == old(hub).channels@.len()
                    &&& (forall|k: int|
                        0 <= k < old(hub).channels@.len() && k != i ==> final(hub).channels@[k]
                            == old(hub).channels@[k])
                    &&& final(hub).channels@[i].room_id == ch.room_id
                    &&& final(hub).channels@[i].next_sub_id == ch.next_sub_id
                    &&& final(hub).channels@[i].subs@.len() == ch.subs@.len()
                    &&& (forall|k: int|
                        0 <= k < ch.subs@.len() ==> (#[trigger] final(hub).channels@[i].subs@[k]).sub_id == ch.subs@[k].sub_id && final(hub).channels@[i].subs@[k].buffer@ == push_lossy(
                            ch.subs@[k].buffer@,
                            t,
                            old(hub).capacity as int,
                        ))
                })
        },
{
    match frame {
        Frame::Closed => false,
        Frame::Other => true,
        Frame::Text(t) => {
            let last = is_end_sentinel(&t);
            match hub.publish(session.room_id, &t) {
                Err(_) => false,
                Ok(_) => !last,
            }
        },
    }
}

/// Ends one connection session: detaches its subscription — when it was the
/// channel's last, the channel is retired in that same step — and then, best
/// effort, leaves a notice for the subscribers that remain. Returns how many
/// remain; a session whose channel or subscription is already gone counts
/// zero and changes nothing.
pub fn finish_session(hub: &mut RelayHub, session: &ConnectionSession, notice: &String) -> (r:
    usize)
    requires
        old(hub).wf(),
    ensures
        final(hub).wf(),
        final(hub).capacity == old(hub).capacity,
        !old(hub).has_channel(session.room_id) ==> final(hub).channels@ == old(hub).channels@ && r
            == 0,
        forall|i: int|
            0 <= i < old(hub).channels@.len() && (#[trigger] old(hub).channels@[i]).room_id
                == session.room_id ==> {
                let ch = old(hub).channels@[i];
                &&& (!ch.has_sub(session.sub_id) ==> final(hub).channels@ == old(hub).channels@ && r
                    == 0)
                &&& (ch.has_sub(session.sub_id) ==> r + 1 == ch.subs@.len())
                &&& (ch.has_sub(session.sub_id) && ch.subs@.len() == 1 ==> final(hub).channels@
                    == old(hub).channels@.remove(i) && !final(hub).has_channel(session.room_id))
                &&& (forall|j: int|
                    0 <= j < ch.subs@.len() && (#[trigger] ch.subs@[j]).sub_id == session.sub_id
                        && ch.subs@.len() > 1 ==> {
                        let left = ch.subs@.remove(j);
                        &&& final(hub).channels@.len() == old(hub).channels@.len()
                        &&& (forall|k: int|
                            0 <= k < old(hub).channels@.len() && k != i ==> final(hub).channels@[k]
                                == old(hub).channels@[k])
                        &&& final(hub).channels@[i].room_id == ch.room_id
                        &&& final(hub).channels@[i].next_sub_id == ch.next_sub_id
                        &&& final(hub).channels@[i].subs@.len() == left.len()
                        &&& (forall|k: int|
                            0 <= k < left.len() ==> (#[trigger] final(hub).channels@[i].subs@[k]).sub_id == left[k].sub_id && final(hub).channels@[i].subs@[k].buffer@ == push_lossy(
                                left[k].buffer@,
                                *notice,
                                old(hub).capacity as int,
                            ))
                    })
            },
{
    match hub.unsubscribe(session.room_id, session.sub_id) {
        Err(_) => 0,
        Ok(remaining) => {
            if remaining > 0 {
                let ghost mid = *hub;
                let _ = hub.publish(session.room_id, notice);
                proof {
                    assert(mid.has_channel(session.room_id));
                }
            }
            remaining
        },
    }
}

} // verus!
