use chat_relay::agent::{Agent, AgentStatus, Agents};
use chat_relay::error::AppError;

fn agent(name: &str, status: AgentStatus, last_active: i64) -> Agent {
    Agent::new(name.to_string(), name.to_string(), status, None, last_active)
}

#[test]
fn agent_new_and_is_available() {
    let a = agent("a1", AgentStatus::Available, 10);
    assert!(a.is_available());
    assert_eq!(a.last_active, 10);
    assert!(a.active_room_id.is_none());

    let b = agent("b1", AgentStatus::Busy, 10);
    assert!(!b.is_available());
    let c = agent("c1", AgentStatus::Away, 10);
    assert!(!c.is_available());
}

#[test]
fn agent_update_status() {
    let mut a = agent("a1", AgentStatus::Available, 10);
    a.update_agent_status(AgentStatus::Busy);
    assert!(matches!(a.status, AgentStatus::Busy));
    assert_eq!(a.name, "a1");
}

#[test]
fn find_available_empty_is_none() {
    let agents = Agents::new();
    assert_eq!(agents.find_available_agent(), None);
}

#[test]
fn find_available_none_when_nobody_available() {
    let mut agents = Agents::new();
    agents.insert(1, agent("a", AgentStatus::Busy, 5)).unwrap();
    agents.insert(2, agent("b", AgentStatus::Away, 3)).unwrap();
    assert_eq!(agents.find_available_agent(), None);
}

#[test]
fn find_available_returns_available_agent() {
    let mut agents = Agents::new();
    agents.insert(1, agent("a", AgentStatus::Busy, 5)).unwrap();
    agents.insert(2, agent("b", AgentStatus::Available, 9)).unwrap();
    agents.insert(3, agent("c", AgentStatus::Away, 1)).unwrap();
    let found = agents.find_available_agent();
    assert_eq!(found, Some(2));
    let picked = agents.get(found.unwrap()).unwrap();
    assert!(picked.is_available());
}

#[test]
fn find_available_prefers_longest_idle() {
    let mut agents = Agents::new();
    agents.insert(1, agent("a", AgentStatus::Available, 50)).unwrap();
    agents.insert(2, agent("b", AgentStatus::Available, 20)).unwrap();
    agents.insert(3, agent("c", AgentStatus::Available, 30)).unwrap();
    assert_eq!(agents.find_available_agent(), Some(2));
}

#[test]
fn find_available_breaks_ties_by_registration_order() {
    let mut agents = Agents::new();
    agents.insert(9, agent("a", AgentStatus::Available, 20)).unwrap();
    agents.insert(4, agent("b", AgentStatus::Available, 20)).unwrap();
    assert_eq!(agents.find_available_agent(), Some(9));
}

#[test]
fn update_status_unknown_agent_fails_without_partial_write() {
    let mut agents = Agents::new();
    agents.insert(1, agent("a", AgentStatus::Busy, 5)).unwrap();

    let r = agents.update_agent_status(99, AgentStatus::Available);
    match r {
        Err(AppError::AgentNotFound(m)) => assert_eq!(m, "agent not found"),
        other => panic!("expected failure, got {:?}", other),
    }
    let untouched = agents.get(1).unwrap();
    assert!(matches!(untouched.status, AgentStatus::Busy));
    assert_eq!(untouched.last_active, 5);
    assert!(agents.get(99).is_none());
}

#[test]
fn update_status_known_agent() {
    let mut agents = Agents::new();
    agents.insert(1, agent("a", AgentStatus::Busy, 5)).unwrap();
    let r = agents.update_agent_status(1, AgentStatus::Available);
    assert!(matches!(r, Ok(1)));
    assert!(agents.get(1).unwrap().is_available());
}

#[test]
fn insert_duplicate_key_fails() {
    let mut agents = Agents::new();
    agents.insert(1, agent("a", AgentStatus::Busy, 5)).unwrap();
    let r = agents.insert(1, agent("b", AgentStatus::Away, 6));
    match r {
        Err(AppError::InvalidRequest(m)) => assert_eq!(m, "agent already registered"),
        other => panic!("expected failure, got {:?}", other),
    }
    assert_eq!(agents.get(1).unwrap().name, "a");
}
