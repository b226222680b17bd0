use vstd::prelude::*;

use crate::error::AppError;
use crate::time::now_ts;

verus! {

/// A room's globally unique token, handed to the parties and used as the
/// relay-hub channel key. The value is the 128-bit form of a freshly drawn
/// UUID.
#[derive(Debug, Clone, Copy, PartialEq, Eq, Structural, Hash)]
pub struct ChatRoomId(pub u128);

/// Relies on uuid::Uuid::new_v4 (and as_u128): a freshly drawn random token
/// value. Randomness promises nothing, not even that two draws differ, so
/// nothing is assumed of the result.
#[verifier::external_body]
fn fresh_token_value() -> u128 {
    uuid::Uuid::new_v4().as_u128()
}

impl ChatRoomId {
    /// Draws a fresh random token.
    pub fn fresh() -> ChatRoomId {
        ChatRoomId(fresh_token_value())
    }
}

/// The room lifecycle: Waiting (no agent yet), Connected (an agent has
/// entered), Ended (the conversation is over).
#[derive(Debug, Clone, Copy, PartialEq, Eq, Structural)]
pub enum RoomStatus {
    Waiting,
    Connected,
    Ended,
}

/// The uppercase code point of an ASCII letter; any other character is left
/// as its own code point.
pub open spec fn upper_code(c: char) -> u32 {
    if 97 <= c as u32 && c as u32 <= 122 {
        (c as u32 - 32) as u32
    } else {
        c as u32
    }
}

/// Character-wise ASCII-case-insensitive equality of two texts.
pub open spec fn eq_ignore_ascii_case(a: Seq<char>, b: Seq<char>) -> bool {
    a.len() == b.len() && (forall|i: int| 0 <= i < a.len() ==> upper_code(a[i]) == upper_code(b[i]))
}

fn char_upper_code(c: char) -> (r: u32)
    ensures
        r == upper_code(c),
{
    let u = c as u32;
    if 97 <= u && u <= 122 {
        u - 32
    } else {
        u
    }
}

fn str_eq_ignore_ascii_case(a: &str, b: &str) -> (r: bool)
    ensures
        r == eq_ignore_ascii_case(a@, b@),
{
    let alen = a.unicode_len();
    let blen = b.unicode_len();
    if alen != blen {
        return false;
    }
    let mut i: usize = 0;
    while i < alen
        invariant
            alen == a@.len(),
            blen == b@.len(),
            alen == blen,
            i <= alen,
            forall|j: int| 0 <= j < i ==> upper_code(a@[j]) == upper_code(b@[j]),
        decreases alen - i,
    {
        let ca = a.get_char(i);
        let cb = b.get_char(i);
        if char_upper_code(ca) != char_upper_code(cb) {
            return false;
        }
        i += 1;
    }
    true
}

impl RoomStatus {
    /// The canonical storage text of this status.
    pub open spec fn spec_text(self) -> Seq<char> {
        match self {
            RoomStatus::Waiting => "Waiting"@,
            RoomStatus::Connected => "Connected"@,
            RoomStatus::Ended => "Ended"@,
        }
    }

    /// The status whose name the text spells, compared without regard to
    /// ASCII case; None when it spells no status at all.
    pub open spec fn spec_of_text(s: Seq<char>) -> Option<RoomStatus> {
        if eq_ignore_ascii_case(s, "Waiting"@) {
            Some(RoomStatus::Waiting)
        } else if eq_ignore_ascii_case(s, "Connected"@) {
            Some(RoomStatus::Connected)
        } else if eq_ignore_ascii_case(s, "Ended"@) {
            Some(RoomStatus::Ended)
        } else {
            None
        }
    }

    /// The storage text of this status.
    pub fn to_text(&self) -> (r: &'static str)
        ensures
            r@ == self.spec_text(),
    {
        match self {
            RoomStatus::Waiting => "Waiting",
            RoomStatus::Connected => "Connected",
            RoomStatus::Ended => "Ended",
        }
    }

    /// Parses a stored status text, without regard to ASCII case. A text
    /// that names no status is rejected as its own internal error rather
    /// than defaulted.
    pub fn from_text(s: &str) -> (r: Result<RoomStatus, AppError>)
        ensures
            r matches Ok(st) ==> RoomStatus::spec_of_text(s@) == Some(st),
            r is Err <==> RoomStatus::spec_of_text(s@) is None,
            r matches Err(e) ==> e matches AppError::InternalError(m) && m@ == "Invalid RoomStatus: "@
                + s@,
    {
        if str_eq_ignore_ascii_case(s, "Waiting") {
            Ok(RoomStatus::Waiting)
        } else if str_eq_ignore_ascii_case(s, "Connected") {
            Ok(RoomStatus::Connected)
        } else if str_eq_ignore_ascii_case(s, "Ended") {
            Ok(RoomStatus::Ended)
        } else {
            Err(AppError::InternalError(String::from_str("Invalid RoomStatus: ").concat(s)))
        }
    }
}

/// The status texts spell distinct statuses, and parsing the canonical text
/// of a status yields that status again: the storage mapping is a bijection
/// on the three names.
pub proof fn lemma_status_text_round_trip(st: RoomStatus)
    ensures
        RoomStatus::spec_of_text(st.spec_text()) == Some(st),
{
    reveal_strlit("Waiting");
    reveal_strlit("Connected");
    reveal_strlit("Ended");
}

/// One customer-support conversation: a numeric storage identity, the unique
/// room token, the two parties, the lifecycle status and timestamps (whole
/// seconds since the Unix epoch).
#[derive(Debug, Clone, Copy)]
pub struct ChatRoom {
    pub id: i64,
    pub room_id: ChatRoomId,
    pub customer_id: i64,
    pub agent_id: Option<i64>,
    pub status: RoomStatus,
    pub created_at: i64,
    pub updated_at: i64,
}

/// Whether an agent may still enter the room: nobody holds the agent seat
/// yet, and the conversation is not already over — Ended is terminal, so an
/// ended room is never resurrected to Connected.
pub open spec fn enter_agent_allowed(room: ChatRoom) -> bool {
    room.agent_id is None && !(room.status is Ended)
}

/// The room after an agent tries to enter at instant `now`: where entry is
/// allowed, the agent is written once and the room connects; otherwise the
/// room is left exactly as it was.
pub open spec fn spec_enter_agent(room: ChatRoom, agent_id: i64, now: i64) -> ChatRoom {
    if enter_agent_allowed(room) {
        ChatRoom {
            agent_id: Some(agent_id),
            status: RoomStatus::Connected,
            updated_at: now,
            ..room
        }
    } else {
        room
    }
}

/// The room after the conversation is ended at instant `now`: a live room
/// becomes Ended with its update time refreshed; a room that is already
/// Ended is terminal and stays exactly as it was, every field included.
pub open spec fn spec_end_chat(room: ChatRoom, now: i64) -> ChatRoom {
    if room.status is Ended {
        room
    } else {
        ChatRoom { status: RoomStatus::Ended, updated_at: now, ..room }
    }
}

impl ChatRoom {
    /// A fresh room for this customer with the given token at the given
    /// instant: Waiting, no agent, no storage identity yet.
    pub fn new_at(customer_id: i64, room_id: ChatRoomId, now: i64) -> (r: ChatRoom)
        ensures
            r == (ChatRoom {
                id: 0,
                room_id,
                customer_id,
                agent_id: None,
                status: RoomStatus::Waiting,
                created_at: now,
                updated_at: now,
            }),
    {
        ChatRoom {
            id: 0,
            room_id,
            customer_id,
            agent_id: None,
            status: RoomStatus::Waiting,
            created_at: now,
            updated_at: now,
        }
    }

    /// A fresh room for this customer: Waiting, no agent, a newly drawn
    /// token, created and updated now.
    pub fn new(customer_id: i64) -> (r: ChatRoom)
        ensures
            r.customer_id == customer_id,
            r.agent_id is None,
            r.status == RoomStatus::Waiting,
            r.id == 0,
            r.created_at == r.updated_at,
    {
        let token = ChatRoomId::fresh();
        let now = now_ts();
        ChatRoom::new_at(customer_id, token, now)
    }

    /// Rebuilds a room record from its stored fields.
    pub fn from(
        id: i64,
        room_id: ChatRoomId,
        customer_id: i64,
        agent_id: Option<i64>,
        status: RoomStatus,
        created_at: i64,
        updated_at: i64,
    ) -> (r: ChatRoom)
        ensures
            r == (ChatRoom { id, room_id, customer_id, agent_id, status, created_at, updated_at }),
    {
        ChatRoom { id, room_id, customer_id, agent_id, status, created_at, updated_at }
    }

    /// An agent enters at instant `now`. Fails when an agent is already
    /// present (the room is full) or the conversation has already ended
    /// (Ended is terminal), and then changes nothing; otherwise writes the
    /// agent once and connects the room.
    pub fn enter_agent_at(&mut self, agent_id: i64, now: i64) -> (r: Result<(), AppError>)
        ensures
            *final(self) == spec_enter_agent(*old(self), agent_id, now),
            r is Ok <==> enter_agent_allowed(*old(self)),
            old(self).agent_id is Some ==> (r matches Err(e) && e matches AppError::InvalidRequest(
                m,
            ) && m@ == "This chat room is full"@),
            old(self).agent_id is None && old(self).status is Ended ==> (r matches Err(e)
                && e matches AppError::InvalidRequest(m) && m@ == "This chat room has ended"@),
    {
        if self.agent_id.is_some() {
            return Err(AppError::InvalidRequest(String::from_str("This chat room is full")));
        }
        if self.status == RoomStatus::Ended {
            return Err(AppError::InvalidRequest(String::from_str("This chat room has ended")));
        }
        self.agent_id = Some(agent_id);
        self.status = RoomStatus::Connected;
        self.updated_at = now;
        Ok(())
    }

    /// An agent enters now (clock instant drawn inside).
    pub fn enter_agent(&mut self, agent_id: i64) -> (r: Result<(), AppError>)
        ensures
            exists|t: i64| *final(self) == spec_enter_agent(*old(self), agent_id, t),
            r is Ok <==> enter_agent_allowed(*old(self)),
            r is Ok ==> final(self).agent_id == Some(agent_id) && final(self).status
                == RoomStatus::Connected,
            r is Err ==> *final(self) == *old(self),
            old(self).agent_id is Some ==> (r matches Err(e) && e matches AppError::InvalidRequest(
                m,
            ) && m@ == "This chat room is full"@),
            old(self).agent_id is None && old(self).status is Ended ==> (r matches Err(e)
                && e matches AppError::InvalidRequest(m) && m@ == "This chat room has ended"@),
    {
        let now = now_ts();
        self.enter_agent_at(agent_id, now)
    }

    /// Ends the conversation at instant `now`. A repeated call on an already
    /// Ended room is a true no-op: the record, its update time included, is
    /// left exactly as it was.
    pub fn end_chat_at(&mut self, now: i64)
        ensures
            *final(self) == spec_end_chat(*old(self), now),
            final(self).status == RoomStatus::Ended,
            old(self).status is Ended ==> *final(self) == *old(self),
    {
        if self.status == RoomStatus::Ended {
            return ;
        }
        self.status = RoomStatus::Ended;
        self.updated_at = now;
    }

    /// Ends the conversation now (clock instant drawn inside).
    pub fn end_chat(&mut self)
        ensures
            exists|t: i64| *final(self) == spec_end_chat(*old(self), t),
            final(self).status == RoomStatus::Ended,
            old(self).status is Ended ==> *final(self) == *old(self),
    {
        let now = now_ts();
        self.end_chat_at(now);
    }

    pub fn id(&self) -> (r: i64)
        ensures
            r == self.id,
    {
        self.id
    }

    pub fn room_id(&self) -> (r: ChatRoomId)
        ensures
            r == self.room_id,
    {
        self.room_id
    }

    pub fn customer_id(&self) -> (r: i64)
        ensures
            r == self.customer_id,
    {
        self.customer_id
    }

    pub fn agent_id(&self) -> (r: Option<i64>)
        ensures
            r == self.agent_id,
    {
        self.agent_id
    }

    pub fn status(&self) -> (r: &RoomStatus)
        ensures
            *r == self.status,
    {
        &self.status
    }

    pub fn created_at(&self) -> (r: i64)
        ensures
            r == self.created_at,
    {
        self.created_at
    }

    pub fn updated_at(&self) -> (r: i64)
        ensures
            r == self.updated_at,
    {
        self.updated_at
    }
}

impl From<ChatRoom> for ChatRoomId {
    fn from(value: ChatRoom) -> (r: ChatRoomId) {
        value.room_id
    }
}

impl vstd::std_specs::convert::FromSpecImpl<ChatRoom> for ChatRoomId {
    open spec fn obeys_from_spec() -> bool {
        true
    }

    open spec fn from_spec(v: ChatRoom) -> ChatRoomId {
        v.room_id
    }
}

/// The in-memory room registry: the live rooms, keyed by their unique
/// tokens. One instance owns all room state; callers that share it across
/// tasks guard the whole registry with one exclusive lock, so every
/// check-and-set here is one atomic step.
#[derive(Debug)]
pub struct Rooms {
    pub rooms: Vec<ChatRoom>,
}

impl Rooms {
    /// Every room is registered under one distinct token.
    pub open spec fn wf(self) -> bool {
        forall|i: int, j: int|
            0 <= i < j < self.rooms@.len() ==> (#[trigger] self.rooms@[i]).room_id != (
            #[trigger] self.rooms@[j]).room_id
    }

    /// Whether a room with this token is registered.
    pub open spec fn has_room(self, room_id: ChatRoomId) -> bool {
        exists|i: int| 0 <= i < self.rooms@.len() && (#[trigger] self.rooms@[i]).room_id == room_id
    }

    pub fn new() -> (r: Rooms)
        ensures
            r.wf(),
            r.rooms@.len() == 0,
    {
        Rooms { rooms: Vec::new() }
    }

    /// The index of the room with this token, if one is registered.
    fn find(&self, room_id: ChatRoomId) -> (r: Option<usize>)
        ensures
            r matches Some(i) ==> i < self.rooms@.len() && self.rooms@[i as int].room_id == room_id,
            r is None ==> !self.has_room(room_id),
    {
        let n = self.rooms.len();
        let mut i: usize = 0;
        while i < n
            invariant
                n == self.rooms@.len(),
                i <= n,
                forall|j: int| 0 <= j < i ==> (#[trigger] self.rooms@[j]).room_id != room_id,
            decreases n - i,
        {
            if self.rooms[i].room_id == room_id {
                return Some(i);
            }
            i += 1;
        }
        None
    }

    /// Registers a room under its token. Fails when the token is already
    /// registered, leaving the registry unchanged.
    pub fn insert(&mut self, room: ChatRoom) -> (r: Result<(), AppError>)
        requires
            old(self).wf(),
        ensures
            final(self).wf(),
            r is Ok <==> !old(self).has_room(room.room_id),
            r is Ok ==> final(self).rooms@ == old(self).rooms@.push(room),
            r is Err ==> *final(self) == *old(self),
            r matches Err(e) ==> e matches AppError::RoomAlreadyExists(m) && m@
                == "room token already registered"@,
    {
        if self.find(room.room_id).is_some() {
            return Err(
                AppError::RoomAlreadyExists(String::from_str("room token already registered")),
            );
        }
        self.rooms.push(room);
        assert forall|i: int, j: int| 0 <= i < j < self.rooms@.len() implies (
        #[trigger] self.rooms@[i]).room_id != (#[trigger] self.rooms@[j]).room_id by {
            if j + 1 == self.rooms@.len() {
                assert(!old(self).has_room(self.rooms@[j].room_id));
            }
        }
        Ok(())
    }

    /// True exactly when a room with this token is registered and the user
    /// is that room's customer: the join authorization of the customer
    /// party.
    pub fn is_member(&self, room_id: ChatRoomId, user_id: i64) -> (r: bool)
        ensures
            r <==> exists|i: int|
                0 <= i < self.rooms@.len() && (#[trigger] self.rooms@[i]).room_id == room_id
                    && self.rooms@[i].customer_id == user_id,
    {
        let n = self.rooms.len();
        let mut i: usize = 0;
        while i < n
            invariant
                n == self.rooms@.len(),
                i <= n,
                forall|j: int|
                    0 <= j < i ==> !((#[trigger] self.rooms@[j]).room_id == room_id
                        && self.rooms@[j].customer_id == user_id),
            decreases n - i,
        {
            if self.rooms[i].room_id == room_id && self.rooms[i].customer_id == user_id {
                return true;
            }
            i += 1;
        }
        false
    }

    /// A copy of the registered room with this token, if any.
    pub fn get(&self, room_id: ChatRoomId) -> (r: Option<ChatRoom>)
        ensures
            r matches Some(room) ==> room.room_id == room_id && exists|i: int|
                0 <= i < self.rooms@.len() && #[trigger] self.rooms@[i] == room,
            r is None <==> !self.has_room(room_id),
    {
        match self.find(room_id) {
            Some(i) => Some(self.rooms[i]),
            None => None,
        }
    }

    /// An agent enters the room with this token, one atomic check-and-set.
    /// Unknown tokens fail and change nothing; a room that already has an
    /// agent, or whose conversation has already ended, stays exactly as it
    /// was and the call reports why.
    pub fn assign_agent(&mut self, room_id: ChatRoomId, agent_id: i64) -> (r: Result<
        (),
        AppError,
    >)
        requires
            old(self).wf(),
        ensures
            final(self).wf(),
            !old(self).has_room(room_id) ==> final(self).rooms@ == old(self).rooms@ && (
            r matches Err(e) && e matches AppError::RoomNotFound(m) && m@ == "room not found"@),
            forall|i: int|
                0 <= i < old(self).rooms@.len() && (#[trigger] old(self).rooms@[i]).room_id
                    == room_id ==> {
                    let room = old(self).rooms@[i];
                    &&& (r is Ok <==> enter_agent_allowed(room))
                    &&& (enter_agent_allowed(room) ==> exists|t: i64|
                        final(self).rooms@ == old(self).rooms@.update(
                            i,
                            spec_enter_agent(room, agent_id, t),
                        ))
                    &&& (!enter_agent_allowed(room) ==> final(self).rooms@ == old(self).rooms@)
                    &&& (room.agent_id is Some ==> (r matches Err(e)
                        && e matches AppError::InvalidRequest(m) && m@
                        == "This chat room is full"@))
                    &&& (room.agent_id is None && room.status is Ended ==> (r matches Err(e)
                        && e matches AppError::InvalidRequest(m) && m@
                        == "This chat room has ended"@))
                },
    {
        match self.find(room_id) {
            None => Err(AppError::RoomNotFound(String::from_str("room not found"))),
            Some(i) => {
                let now = now_ts();
                let mut room = self.rooms.remove(i);
                let res = room.enter_agent_at(agent_id, now);
                self.rooms.insert(i, room);
                proof {
                    assert(self.rooms@ =~= old(self).rooms@.update(
                        i as int,
                        spec_enter_agent(old(self).rooms@[i as int], agent_id, now),
                    ));
                    if !enter_agent_allowed(old(self).rooms@[i as int]) {
                        assert(self.rooms@ =~= old(self).rooms@);
                    }
                }
                res
            },
        }
    }

    /// Ends the conversation in the room with this token: a live room
    /// becomes Ended, and a repeated call succeeds again as a true no-op —
    /// Ended is terminal, so the already-ended record is left exactly as it
    /// was. Unknown tokens fail and change nothing.
    pub fn end_chat(&mut self, room_id: ChatRoomId) -> (r: Result<(), AppError>)
        requires
            old(self).wf(),
        ensures
            final(self).wf(),
            r is Ok <==> old(self).has_room(room_id),
            !old(self).has_room(room_id) ==> final(self).rooms@ == old(self).rooms@ && (
            r matches Err(e) && e matches AppError::RoomNotFound(m) && m@ == "room not found"@),
            forall|i: int|
                0 <= i < old(self).rooms@.len() && (#[trigger] old(self).rooms@[i]).room_id
                    == room_id ==> {
                    &&& (exists|t: i64|
                        final(self).rooms@ == old(self).rooms@.update(
                            i,
                            spec_end_chat(old(self).rooms@[i], t),
                        ))
                    &&& (old(self).rooms@[i].status is Ended ==> final(self).rooms@ == old(
                        self,
                    ).rooms@)
                },
    {
        match self.find(room_id) {
            None => Err(AppError::RoomNotFound(String::from_str("room not found"))),
            Some(i) => {
                let now = now_ts();
                let mut room = self.rooms.remove(i);
                room.end_chat_at(now);
                self.rooms.insert(i, room);
                proof {
                    assert(self.rooms@ =~= old(self).rooms@.update(
                        i as int,
                        spec_end_chat(old(self).rooms@[i as int], now),
                    ));
                    if old(self).rooms@[i as int].status is Ended {
                        assert(self.rooms@ =~= old(self).rooms@);
                    }
                }
                Ok(())
            },
        }
    }

    /// Unregisters the room with this token; a relay-hygiene step, taken
    /// only after the room's channel has been retired. Unknown tokens fail
    /// and change nothing.
    pub fn remove(&mut self, room_id: ChatRoomId) -> (r: Result<(), AppError>)
        requires
            old(self).wf(),
        ensures
            final(self).wf(),
            r is Ok <==> old(self).has_room(room_id),
            !old(self).has_room(room_id) ==> final(self).rooms@ == old(self).rooms@ && (
            r matches Err(e) && e matches AppError::RoomNotFound(m) && m@ == "room not found"@),
            forall|i: int|
                0 <= i < old(self).rooms@.len() && (#[trigger] old(self).rooms@[i]).room_id
                    == room_id ==> final(self).rooms@ == old(self).rooms@.remove(i),
    {
        match self.find(room_id) {
            None => Err(AppError::RoomNotFound(String::from_str("room not found"))),
            Some(i) => {
                self.rooms.remove(i);
                Ok(())
            },
        }
    }
}

/// Agent assignment is write-once: after one agent has entered a room that
/// could still take one, a second entering attempt at any later instant
/// leaves the room exactly as the first left it, with the first agent still
/// assigned and the status still Connected.
pub proof fn lemma_assign_agent_write_once(room: ChatRoom, a1: i64, a2: i64, t1: i64, t2: i64)
    requires
        enter_agent_allowed(room),
    ensures
        ({
            let after_first = spec_enter_agent(room, a1, t1);
            let after_second = spec_enter_agent(after_first, a2, t2);
            after_second == after_first && after_first.agent_id == Some(a1) && after_first.status
                == RoomStatus::Connected
        }),
{
}

/// Entering refreshes the update instant: provided the clock did not run
/// backwards since the record was last touched, the connected room's update
/// instant is no earlier than it was.
pub proof fn lemma_enter_agent_refreshes(room: ChatRoom, agent_id: i64, now: i64)
    requires
        enter_agent_allowed(room),
        room.updated_at <= now,
    ensures
        spec_enter_agent(room, agent_id, now).updated_at >= room.updated_at,
{
}

/// Ending a chat is idempotent, and Ended is terminal: the first end leaves
/// the status Ended, and a repeated end at any instant is a no-op that
/// leaves the record exactly as it was, every field included.
pub proof fn lemma_end_chat_idempotent(room: ChatRoom, t1: i64, t2: i64)
    ensures
        spec_end_chat(room, t1).status == RoomStatus::Ended,
        spec_end_chat(spec_end_chat(room, t1), t2) == spec_end_chat(room, t1),
{
}

} // verus!
