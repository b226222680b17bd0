use chat_relay::error::AppError;
use chat_relay::room::{ChatRoom, ChatRoomId, RoomStatus, Rooms};

#[test]
fn create_room_waiting_no_agent() {
    let room = ChatRoom::new(42);
    assert_eq!(room.customer_id(), 42);
    assert!(room.agent_id().is_none());
    assert!(matches!(room.status(), RoomStatus::Waiting));
    assert_eq!(room.id(), 0);
    assert_eq!(room.created_at(), room.updated_at());
}

#[test]
fn create_room_any_customer() {
    for customer in [i64::MIN, -1, 0, 7, i64::MAX] {
        let room = ChatRoom::new(customer);
        assert_eq!(room.customer_id(), customer);
        assert!(room.agent_id().is_none());
        assert!(matches!(room.status(), RoomStatus::Waiting));
    }
}

#[test]
fn assign_agent_write_once() {
    let mut room = ChatRoom::new(42);
    assert!(room.enter_agent(1).is_ok());
    assert_eq!(room.agent_id(), Some(1));
    assert!(matches!(room.status(), RoomStatus::Connected));

    let second = room.enter_agent(2);
    match second {
        Err(AppError::InvalidRequest(m)) => assert_eq!(m, "This chat room is full"),
        other => panic!("expected conflict, got {:?}", other),
    }
    assert_eq!(room.agent_id(), Some(1));
    assert!(matches!(room.status(), RoomStatus::Connected));
}

#[test]
fn end_chat_idempotent() {
    let mut room = ChatRoom::new(5);
    room.end_chat();
    assert!(matches!(room.status(), RoomStatus::Ended));
    let ended_at = room.updated_at();
    // The repeat is a true no-op: Ended is terminal, nothing moves.
    room.end_chat();
    assert!(matches!(room.status(), RoomStatus::Ended));
    assert_eq!(room.updated_at(), ended_at);
    assert_eq!(room.agent_id(), None);
    assert_eq!(room.customer_id(), 5);
}

#[test]
fn ended_room_takes_no_agent() {
    let mut room = ChatRoom::new(5);
    room.end_chat();
    match room.enter_agent(7) {
        Err(AppError::InvalidRequest(m)) => assert_eq!(m, "This chat room has ended"),
        other => panic!("expected rejection, got {:?}", other),
    }
    assert!(matches!(room.status(), RoomStatus::Ended));
    assert_eq!(room.agent_id(), None);
}

#[test]
fn room_from_fields() {
    let token = ChatRoomId(77);
    let room = ChatRoom::from(3, token, 9, Some(4), RoomStatus::Connected, 100, 200);
    assert_eq!(room.id(), 3);
    assert_eq!(room.room_id(), token);
    assert_eq!(room.customer_id(), 9);
    assert_eq!(room.agent_id(), Some(4));
    assert!(matches!(room.status(), RoomStatus::Connected));
    assert_eq!(room.created_at(), 100);
    assert_eq!(room.updated_at(), 200);
}

#[test]
fn status_text_round_trip() {
    for status in [RoomStatus::Waiting, RoomStatus::Connected, RoomStatus::Ended] {
        let text = status.to_text();
        assert!(matches!(RoomStatus::from_text(text), Ok(parsed) if parsed == status));
    }
}

#[test]
fn status_text_values() {
    assert_eq!(RoomStatus::Waiting.to_text(), "Waiting");
    assert_eq!(RoomStatus::Connected.to_text(), "Connected");
    assert_eq!(RoomStatus::Ended.to_text(), "Ended");
}

#[test]
fn status_from_text_ignores_case() {
    assert!(matches!(RoomStatus::from_text("WAITING"), Ok(RoomStatus::Waiting)));
    assert!(matches!(RoomStatus::from_text("connected"), Ok(RoomStatus::Connected)));
    assert!(matches!(RoomStatus::from_text("eNdEd"), Ok(RoomStatus::Ended)));
}

#[test]
fn status_from_text_rejects_unknown() {
    let r = RoomStatus::from_text("Closed");
    match r {
        Err(AppError::InternalError(m)) => assert_eq!(m, "Invalid RoomStatus: Closed"),
        other => panic!("expected internal error, got {:?}", other),
    }
    assert!(RoomStatus::from_text("").is_err());
    assert!(RoomStatus::from_text("Waiting ").is_err());
}

#[test]
fn room_token_from_room() {
    let room = ChatRoom::new(1);
    let token: ChatRoomId = ChatRoomId::from(room);
    assert_eq!(token, room.room_id());
}

#[test]
fn rooms_registry_flow() {
    let mut rooms = Rooms::new();
    let token = ChatRoomId(11);
    let room = ChatRoom::new_at(42, token, 1000);

    assert!(rooms.insert(room).is_ok());
    match rooms.insert(room) {
        Err(AppError::RoomAlreadyExists(m)) => assert_eq!(m, "room token already registered"),
        other => panic!("expected conflict, got {:?}", other),
    }

    assert!(rooms.is_member(token, 42));
    assert!(!rooms.is_member(token, 43));
    assert!(!rooms.is_member(ChatRoomId(12), 42));

    match rooms.assign_agent(ChatRoomId(12), 7) {
        Err(AppError::RoomNotFound(m)) => assert_eq!(m, "room not found"),
        other => panic!("expected not found, got {:?}", other),
    }

    assert!(rooms.assign_agent(token, 7).is_ok());
    let stored = rooms.get(token).unwrap();
    assert_eq!(stored.agent_id(), Some(7));
    assert!(matches!(stored.status(), RoomStatus::Connected));

    match rooms.assign_agent(token, 8) {
        Err(AppError::InvalidRequest(m)) => assert_eq!(m, "This chat room is full"),
        other => panic!("expected conflict, got {:?}", other),
    }
    assert_eq!(rooms.get(token).unwrap().agent_id(), Some(7));

    assert!(rooms.end_chat(token).is_ok());
    assert!(matches!(rooms.get(token).unwrap().status(), RoomStatus::Ended));
    let ended_at = rooms.get(token).unwrap().updated_at();
    assert!(rooms.end_chat(token).is_ok());
    assert!(matches!(rooms.get(token).unwrap().status(), RoomStatus::Ended));
    assert_eq!(rooms.get(token).unwrap().updated_at(), ended_at);

    assert!(rooms.remove(token).is_ok());
    assert!(rooms.get(token).is_none());
    assert!(matches!(rooms.remove(token), Err(AppError::RoomNotFound(_))));
    assert!(matches!(rooms.end_chat(token), Err(AppError::RoomNotFound(_))));
}
