use telnet_bbs::broadcast_events::{
    parse_event, relevance, BroadcastEvent, BroadcastMessage, Relevance,
};
use telnet_bbs::broadcast_hub::BroadcastHub;

fn all_messages() -> Vec<BroadcastMessage> {
    vec![
        BroadcastMessage::UserLogin { user_id: 1 },
        BroadcastMessage::Logout { user_id: 2 },
        BroadcastMessage::AnonLogout,
        BroadcastMessage::RoomJoin { user_id: 3, room_id: 4 },
        BroadcastMessage::RoomLeave { user_id: 5, room_id: 6 },
        BroadcastMessage::RoomMessage { user_id: 7, room_id: 8 },
        BroadcastMessage::DirectMessage { user_id: 9, to_user_id: 10 },
    ]
}

fn event(kind: &str, user: Option<i64>, room: Option<i64>, to: Option<i64>) -> BroadcastEvent {
    BroadcastEvent { event_type: kind.to_string(), user_id: user, room_id: room, to_user_id: to }
}

fn same(left: &BroadcastEvent, right: &BroadcastEvent) -> bool {
    left.event_type == right.event_type
        && left.user_id == right.user_id
        && left.room_id == right.room_id
        && left.to_user_id == right.to_user_id
}

#[test]
fn events_encode_to_their_json_text() {
    let texts: Vec<String> = all_messages().iter().map(|message| message.encode()).collect();
    assert_eq!(texts[0], "{\"event_type\": \"user_login\", \"user_id\": 1}");
    assert_eq!(texts[1], "{\"event_type\": \"logout\", \"user_id\": 2}");
    assert_eq!(texts[2], "{\"event_type\": \"anon_logout\"}");
    assert_eq!(texts[3], "{\"event_type\": \"room_join\", \"user_id\": 3, \"room_id\": 4}");
    assert_eq!(texts[4], "{\"event_type\": \"room_leave\", \"user_id\": 5, \"room_id\": 6}");
    assert_eq!(texts[5], "{\"event_type\": \"room_message\", \"user_id\": 7, \"room_id\": 8}");
    assert_eq!(
        texts[6],
        "{\"event_type\": \"direct_message\", \"user_id\": 9, \"to_user_id\": 10}"
    );
    assert_eq!(
        BroadcastMessage::Logout { user_id: -1 }.encode(),
        "{\"event_type\": \"logout\", \"user_id\": -1}"
    );
}

#[test]
fn encoded_events_parse_back() {
    for message in all_messages() {
        let parsed = parse_event(&message.encode()).unwrap();
        assert!(same(&parsed, &message.as_event()));
    }
    let parsed = parse_event(&BroadcastMessage::RoomJoin { user_id: 3, room_id: 4 }.encode());
    assert!(same(&parsed.unwrap(), &event("room_join", Some(3), Some(4), None)));
}

#[test]
fn parse_reads_only_members_of_the_right_kind() {
    let parsed = parse_event("{\"event_type\": 5, \"user_id\": \"1\", \"room_id\": 2.5}").unwrap();
    assert!(same(&parsed, &event("", None, None, None)));
    let parsed = parse_event("[1, 2]").unwrap();
    assert!(same(&parsed, &event("", None, None, None)));
    let parsed = parse_event("null").unwrap();
    assert!(same(&parsed, &event("", None, None, None)));
    let parsed = parse_event("{\"user_id\": 18446744073709551615, \"to_user_id\": -3}").unwrap();
    assert!(same(&parsed, &event("", None, None, Some(-3))));
    assert!(parse_event("not json").is_none());
    assert!(parse_event("").is_none());
    assert!(parse_event("{\"event_type\": ").is_none());
}

#[test]
fn room_events_concern_the_sessions_in_that_room() {
    for kind in ["room_message", "room_leave", "room_join"] {
        let received = event(kind, Some(1), Some(4), None);
        assert_eq!(relevance(&received, 2, 4), Relevance::Refresh);
        assert_eq!(relevance(&received, 2, 5), Relevance::Ignore);
        assert_eq!(relevance(&received, 1, -1), Relevance::Ignore);
        assert_eq!(relevance(&event(kind, Some(1), None, None), 1, 4), Relevance::Ignore);
    }
}

#[test]
fn direct_messages_concern_their_two_users() {
    let received = BroadcastMessage::DirectMessage { user_id: 2, to_user_id: 1 }.as_event();
    assert_eq!(relevance(&received, 1, -1), Relevance::Refresh);
    assert_eq!(relevance(&received, 2, -1), Relevance::Refresh);
    assert_eq!(relevance(&received, 3, -1), Relevance::Ignore);
    assert_eq!(relevance(&received, -1, -1), Relevance::Ignore);
}

#[test]
fn logout_ends_the_listener_of_that_user() {
    let received = BroadcastMessage::Logout { user_id: 2 }.as_event();
    assert_eq!(relevance(&received, 2, 7), Relevance::Terminate);
    assert_eq!(relevance(&received, 1, 7), Relevance::Ignore);
    let anonymous = BroadcastMessage::AnonLogout.as_event();
    assert_eq!(relevance(&anonymous, -1, -1), Relevance::Terminate);
    assert_eq!(relevance(&anonymous, 0, -1), Relevance::Terminate);
    assert_eq!(relevance(&anonymous, 1, -1), Relevance::Ignore);
}

#[test]
fn other_events_are_ignored() {
    assert_eq!(
        relevance(&BroadcastMessage::UserLogin { user_id: 1 }.as_event(), 1, 1),
        Relevance::Ignore
    );
    assert_eq!(relevance(&event("", Some(1), Some(1), Some(1)), 1, 1), Relevance::Ignore);
    assert_eq!(relevance(&event("shutdown", Some(1), Some(1), Some(1)), 1, 1), Relevance::Ignore);
}

#[test]
fn hub_delivers_to_every_registered_session() {
    let mut hub = BroadcastHub::new();
    assert_eq!(hub.len(), 0);
    assert_eq!(hub.publish("nobody listens"), 0);
    let first = hub.register(1);
    let second = hub.register(2);
    assert_eq!(hub.len(), 2);
    assert!(hub.is_registered(1));
    assert!(hub.is_registered(2));
    assert!(!hub.is_registered(3));
    assert_eq!(hub.publish("one"), 2);
    assert_eq!(hub.publish("two"), 2);
    assert_eq!(first.try_recv().unwrap(), "one");
    assert_eq!(first.try_recv().unwrap(), "two");
    assert!(first.try_recv().is_err());
    assert_eq!(second.try_recv().unwrap(), "one");
    assert_eq!(second.try_recv().unwrap(), "two");
}

#[test]
fn hub_passes_over_unregistered_and_dead_sessions() {
    let mut hub = BroadcastHub::new();
    let first = hub.register(1);
    let second = hub.register(2);
    let third = hub.register(3);
    hub.unregister(2);
    assert_eq!(hub.len(), 2);
    assert!(!hub.is_registered(2));
    assert_eq!(hub.publish("after"), 2);
    assert_eq!(first.try_recv().unwrap(), "after");
    assert_eq!(third.try_recv().unwrap(), "after");
    assert!(second.try_recv().is_err());
    drop(third);
    assert_eq!(hub.publish("later"), 1);
    assert_eq!(first.try_recv().unwrap(), "later");
    hub.unregister(9);
    assert_eq!(hub.len(), 2);
}

#[test]
fn hub_registration_replaces_an_earlier_one() {
    let mut hub = BroadcastHub::new();
    let old = hub.register(1);
    let new = hub.register(1);
    assert_eq!(hub.len(), 1);
    assert_eq!(hub.publish("once"), 1);
    assert_eq!(new.try_recv().unwrap(), "once");
    assert!(old.try_recv().is_err());
}
