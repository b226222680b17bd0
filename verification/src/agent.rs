use vstd::prelude::*;

use crate::error::AppError;
use crate::room::ChatRoomId;
use crate::time::now_ts;

verus! {

/// An agent's availability: Available to take a room, Busy in one, or Away.
#[derive(Debug, Clone, Copy, PartialEq, Eq, Structural)]
pub enum AgentStatus {
    Available,
    Busy,
    Away,
}

/// One support agent: display identity, availability, the room currently
/// served (present only while not Available), and the instant of the last
/// activity (whole seconds since the Unix epoch).
#[derive(Debug, Clone)]
pub struct Agent {
    pub agent_id: String,
    pub name: String,
    pub status: AgentStatus,
    pub active_room_id: Option<ChatRoomId>,
    pub last_active: i64,
}

/// The agent after a status update at instant `now`: the new status is
/// written and the activity instant refreshed; nothing else moves.
pub open spec fn spec_update_status(agent: Agent, status: AgentStatus, now: i64) -> Agent {
    Agent { status, last_active: now, ..agent }
}

/// The agent after taking up a room at instant `now`: Busy, serving that
/// room, freshly active — so the room reference is present only while the
/// agent is not Available.
pub open spec fn spec_begin_room(agent: Agent, room_id: ChatRoomId, now: i64) -> Agent {
    Agent {
        status: AgentStatus::Busy,
        active_room_id: Some(room_id),
        last_active: now,
        ..agent
    }
}

impl Agent {
    pub fn new(
        agent_id: String,
        name: String,
        status: AgentStatus,
        active_room_id: Option<ChatRoomId>,
        last_active: i64,
    ) -> (r: Agent)
        ensures
            r == (Agent { agent_id, name, status, active_room_id, last_active }),
    {
        Agent { agent_id, name, status, active_room_id, last_active }
    }

    pub fn is_available(&self) -> (r: bool)
        ensures
            r == (self.status == AgentStatus::Available),
    {
        self.status == AgentStatus::Available
    }

    /// Writes the new status and refreshes the activity instant to `now`.
    pub fn update_agent_status_at(&mut self, agent_status: AgentStatus, now: i64)
        ensures
            *final(self) == spec_update_status(*old(self), agent_status, now),
    {
        self.status = agent_status;
        self.last_active = now;
    }

    /// Writes the new status and refreshes the activity instant to the
    /// clock's current reading.
    pub fn update_agent_status(&mut self, agent_status: AgentStatus)
        ensures
            exists|t: i64| *final(self) == spec_update_status(*old(self), agent_status, t),
            final(self).status == agent_status,
    {
        let now = now_ts();
        self.update_agent_status_at(agent_status, now);
    }
}

/// The in-memory agent registry: the known agents, each under one distinct
/// numeric key. One instance owns all agent state; callers that share it
/// across tasks guard the whole registry with one exclusive lock.
#[derive(Debug)]
pub struct Agents {
    pub agents: Vec<(i64, Agent)>,
}

impl Agents {
    /// Every agent is registered under one distinct key.
    pub open spec fn wf(self) -> bool {
        forall|i: int, j: int|
            0 <= i < j < self.agents@.len() ==> (#[trigger] self.agents@[i]).0 != (
            #[trigger] self.agents@[j]).0
    }

    /// Whether an agent with this key is registered.
    pub open spec fn has_agent(self, agent_id: i64) -> bool {
        exists|i: int| 0 <= i < self.agents@.len() && (#[trigger] self.agents@[i]).0 == agent_id
    }

    pub fn new() -> (r: Agents)
        ensures
            r.wf(),
            r.agents@.len() == 0,
    {
        Agents { agents: Vec::new() }
    }

    /// The index of the agent with this key, if one is registered.
    fn find(&self, agent_id: i64) -> (r: Option<usize>)
        ensures
            r matches Some(i) ==> i < self.agents@.len() && self.agents@[i as int].0 == agent_id,
            r is None ==> !self.has_agent(agent_id),
    {
        let n = self.agents.len();
        let mut i: usize = 0;
        while i < n
            invariant
                n == self.agents@.len(),
                i <= n,
                forall|j: int| 0 <= j < i ==> (#[trigger] self.agents@[j]).0 != agent_id,
            decreases n - i,
        {
            if self.agents[i].0 == agent_id {
                return Some(i);
            }
            i += 1;
        }
        None
    }

    /// Registers an agent under a key. Fails when the key is already taken,
    /// leaving the registry unchanged.
    pub fn insert(&mut self, agent_id: i64, agent: Agent) -> (r: Result<(), AppError>)
        requires
            old(self).wf(),
        ensures
            final(self).wf(),
            r is Ok <==> !old(self).has_agent(agent_id),
            r is Ok ==> final(self).agents@ == old(self).agents@.push((agent_id, agent)),
            r is Err ==> *final(self) == *old(self),
            r matches Err(e) ==> e matches AppError::InvalidRequest(m) && m@
                == "agent already registered"@,
    {
        if self.find(agent_id).is_some() {
            return Err(AppError::InvalidRequest(String::from_str("agent already registered")));
        }
        self.agents.push((agent_id, agent));
        assert forall|a: int, b: int| 0 <= a < b < self.agents@.len() implies (
        #[trigger] self.agents@[a]).0 != (#[trigger] self.agents@[b]).0 by {
            if b + 1 == self.agents@.len() {
                assert(!old(self).has_agent(self.agents@[b].0));
            }
        }
        Ok(())
    }

    /// A view of the registered agent with this key, if any.
    pub fn get(&self, agent_id: i64) -> (r: Option<&Agent>)
        ensures
            r matches Some(agent) ==> exists|i: int|
                0 <= i < self.agents@.len() && #[trigger] self.agents@[i] == (agent_id, *agent),
            r is None <==> !self.has_agent(agent_id),
    {
        match self.find(agent_id) {
            Some(i) => Some(&self.agents[i].1),
            None => None,
        }
    }

    /// Picks the Available agent who has been idle the longest: the one with
    /// the least last-activity instant, and among equals the one registered
    /// earliest. Yields nothing exactly when no agent is Available.
    pub fn find_available_agent(&self) -> (r: Option<i64>)
        ensures
            r is None <==> (forall|i: int|
                0 <= i < self.agents@.len() ==> (#[trigger] self.agents@[i]).1.status
                    != AgentStatus::Available),
            r matches Some(k) ==> exists|i: int|
                {
                    &&& 0 <= i < self.agents@.len()
                    &&& (#[trigger] self.agents@[i]).0 == k
                    &&& self.agents@[i].1.status == AgentStatus::Available
                    &&& forall|j: int|
                        0 <= j < self.agents@.len() && (#[trigger] self.agents@[j]).1.status
                            == AgentStatus::Available ==> self.agents@[i].1.last_active
                            <= self.agents@[j].1.last_active && (self.agents@[j].1.last_active
                            == self.agents@[i].1.last_active ==> i <= j)
                },
    {
        let n = self.agents.len();
        let mut best: Option<usize> = None;
        let mut i: usize = 0;
        while i < n
            invariant
                n == self.agents@.len(),
                i <= n,
                best is None ==> (forall|j: int|
                    0 <= j < i ==> (#[trigger] self.agents@[j]).1.status
                        != AgentStatus::Available),
                best matches Some(b) ==> {
                    &&& b < i
                    &&& self.agents@[b as int].1.status == AgentStatus::Available
                    &&& forall|j: int|
                        0 <= j < i && (#[trigger] self.agents@[j]).1.status
                            == AgentStatus::Available ==> self.agents@[
                            b as int
                        ].1.last_active <= self.agents@[j].1.last_active && (self.agents@[
                            j
                        ].1.last_active == self.agents@[b as int].1.last_active ==> b <= j)
                },
            decreases n - i,
        {
            if self.agents[i].1.status == AgentStatus::Available {
                match best {
                    None => {
                        best = Some(i);
                    },
                    Some(b) => {
                        if self.agents[i].1.last_active < self.agents[b].1.last_active {
                            best = Some(i);
                        }
                    },
                }
            }
            i += 1;
        }
        match best {
            None => None,
            Some(b) => Some(self.agents[b].0),
        }
    }

    /// Marks the agent with this key as serving a room: Busy, holding the
    /// room reference, freshly active. An unknown key fails and leaves the
    /// registry exactly as it was.
    pub fn begin_room(&mut self, agent_id: i64, room_id: ChatRoomId) -> (r: Result<(), AppError>)
        requires
            old(self).wf(),
        ensures
            final(self).wf(),
            r is Ok <==> old(self).has_agent(agent_id),
            !old(self).has_agent(agent_id) ==> *final(self) == *old(self) && (r matches Err(e)
                && e matches AppError::AgentNotFound(m) && m@ == "agent not found"@),
            forall|i: int|
                0 <= i < old(self).agents@.len() && (#[trigger] old(self).agents@[i]).0 == agent_id
                    ==> exists|t: i64|
                    final(self).agents@ == old(self).agents@.update(
                        i,
                        (agent_id, spec_begin_room(old(self).agents@[i].1, room_id, t)),
                    ),
    {
        match self.find(agent_id) {
            None => Err(AppError::AgentNotFound(String::from_str("agent not found"))),
            Some(i) => {
                let now = now_ts();
                let (key, agent) = self.agents.remove(i);
                let taken = Agent {
                    status: AgentStatus::Busy,
                    active_room_id: Some(room_id),
                    last_active: now,
                    ..agent
                };
                self.agents.insert(i, (key, taken));
                proof {
                    assert(self.agents@ =~= old(self).agents@.update(
                        i as int,
                        (agent_id, spec_begin_room(old(self).agents@[i as int].1, room_id, now)),
                    ));
                }
                Ok(())
            },
        }
    }

    /// Updates the status of the agent with this key, refreshing the
    /// activity instant to the clock's current reading. An unknown key fails
    /// and leaves the registry exactly as it was: no partial write is ever
    /// observable.
    pub fn update_agent_status(&mut self, agent_id: i64, status: AgentStatus) -> (r: Result<
        i64,
        AppError,
    >)
        requires
            old(self).wf(),
        ensures
            final(self).wf(),
            r is Ok <==> old(self).has_agent(agent_id),
            r matches Ok(k) ==> k == agent_id,
            !old(self).has_agent(agent_id) ==> *final(self) == *old(self) && (r matches Err(e)
                && e matches AppError::AgentNotFound(m) && m@ == "agent not found"@),
            forall|i: int|
                0 <= i < old(self).agents@.len() && (#[trigger] old(self).agents@[i]).0 == agent_id
                    ==> exists|t: i64|
                    final(self).agents@ == old(self).agents@.update(
                        i,
                        (agent_id, spec_update_status(old(self).agents@[i].1, status, t)),
                    ),
    {
        match self.find(agent_id) {
            None => Err(AppError::AgentNotFound(String::from_str("agent not found"))),
            Some(i) => {
                let now = now_ts();
                let (key, mut agent) = self.agents.remove(i);
                agent.update_agent_status_at(status, now);
                self.agents.insert(i, (key, agent));
                proof {
                    assert(self.agents@ =~= old(self).agents@.update(
                        i as int,
                        (agent_id, spec_update_status(old(self).agents@[i as int].1, status, now)),
                    ));
                }
                Ok(agent_id)
            },
        }
    }
}

} // verus!
