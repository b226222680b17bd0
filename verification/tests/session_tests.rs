use chat_relay::error::AppError;
use chat_relay::hub::RelayHub;
use chat_relay::room::{ChatRoom, ChatRoomId, RoomStatus, Rooms};
use chat_relay::session::{
    assign_agent_to_room, authorize_join, end_sentinel, finish_session, inbound_action,
    is_end_sentinel, join_session, open_room, outbound_action, relay_inbound, Frame,
    InboundAction, OutboundAction,
};
use chat_relay::agent::{Agent, AgentStatus, Agents};
use chat_relay::user::UserRole;

#[test]
fn sentinel_is_recognized() {
    assert!(is_end_sentinel(&end_sentinel().to_string()));
    assert!(!is_end_sentinel(&"bye".to_string()));
    assert!(!is_end_sentinel(&"".to_string()));
}

#[test]
fn inbound_action_cases() {
    assert!(matches!(inbound_action(&Frame::Closed), InboundAction::Stop));
    assert!(matches!(inbound_action(&Frame::Other), InboundAction::Ignore));
    assert!(matches!(
        inbound_action(&Frame::Text("hello".to_string())),
        InboundAction::Relay { last: false }
    ));
    assert!(matches!(
        inbound_action(&Frame::Text(end_sentinel().to_string())),
        InboundAction::Relay { last: true }
    ));
}

#[test]
fn outbound_action_cases() {
    match outbound_action(Ok(Some("m".to_string()))) {
        OutboundAction::Deliver(m) => assert_eq!(m, "m"),
        other => panic!("expected delivery, got {:?}", other),
    }
    assert!(matches!(outbound_action(Ok(None)), OutboundAction::Idle));
    let gone = Err(AppError::RoomNotFound("no channel for room".to_string()));
    assert!(matches!(outbound_action(gone), OutboundAction::Stop));
}

#[test]
fn authorize_join_cases() {
    let mut rooms = Rooms::new();
    let token = ChatRoomId(1);
    rooms.insert(ChatRoom::new_at(42, token, 0)).unwrap();

    assert!(authorize_join(&rooms, token, 42, UserRole::User).is_ok());
    assert!(authorize_join(&rooms, token, 7, UserRole::Agent).is_ok());

    match authorize_join(&rooms, token, 43, UserRole::User) {
        Err(AppError::Unauthorized(m)) => assert_eq!(m, "not a member of this room"),
        other => panic!("expected unauthorized, got {:?}", other),
    }
    match authorize_join(&rooms, ChatRoomId(2), 42, UserRole::User) {
        Err(AppError::RoomNotFound(m)) => assert_eq!(m, "The room does not exist"),
        other => panic!("expected not found, got {:?}", other),
    }
    match authorize_join(&rooms, ChatRoomId(2), 7, UserRole::Agent) {
        Err(AppError::RoomNotFound(_)) => {}
        other => panic!("expected not found, got {:?}", other),
    }
}

#[test]
fn open_room_registers_and_allocates_channel() {
    let mut rooms = Rooms::new();
    let mut hub = RelayHub::new();
    let room = ChatRoom::new_at(42, ChatRoomId(1), 0);

    let token = open_room(&mut rooms, &mut hub, room).unwrap();
    assert_eq!(token, ChatRoomId(1));
    assert!(rooms.get(token).is_some());
    assert_eq!(hub.subscriber_count(token), Some(0));

    let again = open_room(&mut rooms, &mut hub, room);
    assert!(matches!(again, Err(AppError::RoomAlreadyExists(_))));
}

#[test]
fn join_session_attaches_fresh_subscription() {
    let mut rooms = Rooms::new();
    let mut hub = RelayHub::new();
    let room = ChatRoom::new_at(42, ChatRoomId(1), 0);
    let token = open_room(&mut rooms, &mut hub, room).unwrap();

    let sess = join_session(&rooms, &mut hub, token, 42, UserRole::User).unwrap();
    assert_eq!(sess.room_id, token);
    assert!(matches!(sess.role, UserRole::User));
    assert_eq!(hub.subscriber_count(token), Some(1));

    // An unauthorized party neither joins nor disturbs the hub.
    let stranger = join_session(&rooms, &mut hub, token, 99, UserRole::User);
    assert!(matches!(stranger, Err(AppError::Unauthorized(_))));
    assert_eq!(hub.subscriber_count(token), Some(1));

    // A fresh subscription sees no earlier message.
    hub.publish(token, &"old news".to_string()).unwrap();
    let agent = join_session(&rooms, &mut hub, token, 7, UserRole::Agent).unwrap();
    assert_eq!(hub.recv(token, agent.sub_id).unwrap(), None);
}

#[test]
fn join_session_without_channel_fails() {
    let mut rooms = Rooms::new();
    let mut hub = RelayHub::new();
    let token = ChatRoomId(3);
    rooms.insert(ChatRoom::new_at(42, token, 0)).unwrap();
    match join_session(&rooms, &mut hub, token, 42, UserRole::User) {
        Err(AppError::RoomNotFound(m)) => assert_eq!(m, "no channel for room"),
        other => panic!("expected not found, got {:?}", other),
    }
}

#[test]
fn relay_inbound_cases() {
    let mut rooms = Rooms::new();
    let mut hub = RelayHub::new();
    let token = open_room(&mut rooms, &mut hub, ChatRoom::new_at(42, ChatRoomId(1), 0)).unwrap();
    let sess = join_session(&rooms, &mut hub, token, 42, UserRole::User).unwrap();

    assert!(relay_inbound(&mut hub, &sess, Frame::Other));
    assert!(!relay_inbound(&mut hub, &sess, Frame::Closed));

    assert!(relay_inbound(&mut hub, &sess, Frame::Text("hi".to_string())));
    assert_eq!(hub.recv(token, sess.sub_id).unwrap(), Some("hi".to_string()));

    // The sentinel is relayed once more, then the loop stops.
    assert!(!relay_inbound(&mut hub, &sess, Frame::Text(end_sentinel().to_string())));
    assert_eq!(
        hub.recv(token, sess.sub_id).unwrap(),
        Some(end_sentinel().to_string())
    );
}

#[test]
fn finish_session_notifies_remaining() {
    let mut rooms = Rooms::new();
    let mut hub = RelayHub::new();
    let token = open_room(&mut rooms, &mut hub, ChatRoom::new_at(42, ChatRoomId(1), 0)).unwrap();
    let customer = join_session(&rooms, &mut hub, token, 42, UserRole::User).unwrap();
    let agent = join_session(&rooms, &mut hub, token, 7, UserRole::Agent).unwrap();

    let notice = "A user has disconnected".to_string();
    assert_eq!(finish_session(&mut hub, &customer, &notice), 1);
    assert_eq!(hub.subscriber_count(token), Some(1));
    assert_eq!(hub.recv(token, agent.sub_id).unwrap(), Some(notice.clone()));

    // The last session retires the channel; nobody is left to notify.
    assert_eq!(finish_session(&mut hub, &agent, &notice), 0);
    assert_eq!(hub.subscriber_count(token), None);

    // Finishing an already-gone session changes nothing and counts zero.
    assert_eq!(finish_session(&mut hub, &agent, &notice), 0);
}

#[test]
fn end_to_end_conversation() {
    let mut rooms = Rooms::new();
    let mut hub = RelayHub::new();
    let mut agents = Agents::new();
    agents
        .insert(
            7,
            Agent::new("7".to_string(), "Agent Seven".to_string(), AgentStatus::Available, None, 0),
        )
        .unwrap();

    // Customer 42 opens a room; its channel exists before anyone connects.
    let room = ChatRoom::new(42);
    let token = open_room(&mut rooms, &mut hub, room).unwrap();

    // An available agent is found and assigned; both sides of the
    // association are written in one operation.
    let agent_id = agents.find_available_agent().unwrap();
    assert_eq!(agent_id, 7);
    assign_agent_to_room(&mut rooms, &mut agents, token, agent_id).unwrap();
    let connected = rooms.get(token).unwrap();
    assert!(matches!(connected.status(), RoomStatus::Connected));
    assert_eq!(connected.agent_id(), Some(7));
    let busy = agents.get(agent_id).unwrap();
    assert!(matches!(busy.status, AgentStatus::Busy));
    assert_eq!(busy.active_room_id, Some(token));

    // Both parties join.
    let customer = join_session(&rooms, &mut hub, token, 42, UserRole::User).unwrap();
    let agent = join_session(&rooms, &mut hub, token, 7, UserRole::Agent).unwrap();

    // The agent greets; the customer's outbound loop receives it.
    assert!(relay_inbound(&mut hub, &agent, Frame::Text("hello".to_string())));
    match outbound_action(hub.recv(token, customer.sub_id)) {
        OutboundAction::Deliver(m) => assert_eq!(m, "hello"),
        other => panic!("expected delivery, got {:?}", other),
    }
    // The sender's own subscription sees the fan-out too; drain it.
    assert_eq!(hub.recv(token, agent.sub_id).unwrap(), Some("hello".to_string()));

    // The customer sends the end sentinel: the inbound loop relays it once
    // more and exits; the agent's outbound loop observes the sentinel.
    assert!(!relay_inbound(&mut hub, &customer, Frame::Text(end_sentinel().to_string())));
    assert_eq!(
        hub.recv(token, agent.sub_id).unwrap(),
        Some(end_sentinel().to_string())
    );

    // Both sessions wind down; the channel is retired with the last one.
    assert_eq!(finish_session(&mut hub, &customer, &"customer left".to_string()), 1);
    assert_eq!(finish_session(&mut hub, &agent, &"agent left".to_string()), 0);
    assert_eq!(hub.subscriber_count(token), None);
    assert!(matches!(hub.subscribe(token), Err(AppError::RoomNotFound(_))));
}

#[test]
fn two_sided_assignment_is_all_or_nothing() {
    let mut rooms = Rooms::new();
    let mut agents = Agents::new();
    let token = ChatRoomId(1);
    rooms.insert(ChatRoom::new_at(42, token, 0)).unwrap();
    agents
        .insert(7, Agent::new("7".to_string(), "Ann".to_string(), AgentStatus::Available, None, 0))
        .unwrap();
    agents
        .insert(8, Agent::new("8".to_string(), "Ben".to_string(), AgentStatus::Available, None, 0))
        .unwrap();

    // An unknown agent fails before either side is touched.
    match assign_agent_to_room(&mut rooms, &mut agents, token, 99) {
        Err(AppError::AgentNotFound(m)) => assert_eq!(m, "agent not found"),
        other => panic!("expected failure, got {:?}", other),
    }
    assert!(rooms.get(token).unwrap().agent_id().is_none());

    // An unknown room fails and leaves the agent untouched.
    match assign_agent_to_room(&mut rooms, &mut agents, ChatRoomId(2), 7) {
        Err(AppError::RoomNotFound(m)) => assert_eq!(m, "room not found"),
        other => panic!("expected failure, got {:?}", other),
    }
    assert!(agents.get(7).unwrap().is_available());

    // Success writes both sides together.
    assign_agent_to_room(&mut rooms, &mut agents, token, 7).unwrap();
    assert_eq!(rooms.get(token).unwrap().agent_id(), Some(7));
    let taken = agents.get(7).unwrap();
    assert!(matches!(taken.status, AgentStatus::Busy));
    assert_eq!(taken.active_room_id, Some(token));

    // A second assignment conflicts; neither the room nor the second agent
    // moves.
    match assign_agent_to_room(&mut rooms, &mut agents, token, 8) {
        Err(AppError::InvalidRequest(m)) => assert_eq!(m, "This chat room is full"),
        other => panic!("expected conflict, got {:?}", other),
    }
    assert_eq!(rooms.get(token).unwrap().agent_id(), Some(7));
    assert!(agents.get(8).unwrap().is_available());
    assert_eq!(agents.get(8).unwrap().active_room_id, None);
}
