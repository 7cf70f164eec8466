use telnet_bbs::broadcast_events::{handle_broadcast_event, BroadcastMessage, ListenerAction};
use telnet_bbs::db::manage::Manager;
use telnet_bbs::input_interface::{
    disconnect_user, remove_user_from_room, ClientStep, Events, UserInterface,
};
use telnet_bbs::terminal::InputMode;
use telnet_bbs::views::base_view::View;
use telnet_bbs::views::current_view::CurrentView;

const ENTER: &[u8] = &[13];
const UP: &[u8] = &[27, 91, 65];
const DOWN: &[u8] = &[27, 91, 66];
const CTRL_Q: &[u8] = &[17];
const CTRL_C: &[u8] = &[3];

fn repository() -> Manager {
    let mut repo = Manager::open_in_memory().unwrap();
    assert!(repo.setup_db());
    repo
}

fn frame(bytes: &[u8]) -> Vec<u8> {
    let mut buffer = vec![0u8; 30];
    buffer[..bytes.len()].copy_from_slice(bytes);
    buffer
}

fn press(session: &mut UserInterface, repo: &mut Manager, bytes: &[u8]) -> ClientStep {
    session.handle_client_input(repo, &frame(bytes))
}

fn shown(step: &ClientStep) -> String {
    String::from_utf8_lossy(&step.output).to_string()
}

/// Registers `name` through the login screen and leaves the session on the menu.
fn registered(repo: &mut Manager, name: &str) -> UserInterface {
    let mut session = UserInterface::new();
    press(&mut session, repo, DOWN);
    press(&mut session, repo, ENTER);
    press(&mut session, repo, name.as_bytes());
    press(&mut session, repo, ENTER);
    press(&mut session, repo, b"pw1");
    let step = press(&mut session, repo, ENTER);
    assert_eq!(step.result, Events::Authenticate);
    assert!(matches!(session.get_current_view(), CurrentView::Menu(_)));
    session
}

/// Walks a session from the menu into the room called `room`.
fn enter_room(session: &mut UserInterface, repo: &mut Manager, room: &str) -> ClientStep {
    press(session, repo, ENTER);
    loop {
        let selected = match session.get_current_view() {
            CurrentView::Rooms(rooms) => rooms.get_selection().to_string(),
            _ => panic!("not on the rooms listing"),
        };
        if selected == room {
            break;
        }
        press(session, repo, DOWN);
    }
    press(session, repo, ENTER)
}

fn online(repo: &mut Manager, room: &str) -> u32 {
    let rooms = repo.search_rooms(room.to_string(), 0);
    rooms.iter().find(|entry| entry.0 == room).unwrap().1
}

#[test]
fn fresh_session_is_unauthenticated_on_the_login_screen() {
    let session = UserInterface::new();
    assert_eq!(session.get_user_id(), -1);
    assert_eq!(session.get_current_room_id(), -1);
    assert_eq!(session.get_input_mode(), InputMode::Navigation);
    assert!(!session.is_in_input_mode());
    assert_eq!(session.get_user_input(), "");
    assert!(matches!(session.get_current_view(), CurrentView::Login(_)));
    assert!(session.render().contains("> Login "));
}

#[test]
fn failed_login_shows_the_error_and_enter_clears_it() {
    let mut repo = repository();
    let mut session = UserInterface::new();
    let step = press(&mut session, &mut repo, ENTER);
    assert_eq!(step.event, Events::Enter);
    assert_eq!(step.result, Events::InputModeEnable);
    assert_eq!(step.control, Some(InputMode::LineInput));
    assert_eq!(&step.output[..6], &[255, 252, 1, 255, 252, 3]);
    assert!(shown(&step).ends_with("> Username: "));
    assert_eq!(session.get_input_mode(), InputMode::LineInput);

    let step = press(&mut session, &mut repo, b"alice");
    assert_eq!(step.control, None);
    assert!(shown(&step).ends_with("> Username: alice"));
    assert_eq!(session.get_user_input(), "alice");

    let step = press(&mut session, &mut repo, ENTER);
    assert_eq!(step.result, Events::SecretInputModeEnable);
    assert_eq!(&step.output[..6], &[255, 251, 1, 255, 252, 3]);
    assert_eq!(session.get_input_mode(), InputMode::SecretLineInput);
    assert_eq!(session.get_user_input(), "");

    let step = press(&mut session, &mut repo, b"pw1");
    assert!(shown(&step).ends_with("> Password: "));
    assert!(!shown(&step).contains("pw1"));

    let step = press(&mut session, &mut repo, ENTER);
    assert_eq!(step.result, Events::InputModeDisable);
    assert_eq!(&step.output[..6], &[255, 251, 1, 255, 251, 3]);
    assert!(shown(&step).contains("Unable to validate user"));
    assert!(step.broadcasts.is_empty());
    assert_eq!(session.get_user_id(), -1);
    assert_eq!(session.get_input_mode(), InputMode::Navigation);

    let step = press(&mut session, &mut repo, ENTER);
    assert_eq!(step.result, Events::Enter);
    assert!(!shown(&step).contains("Unable to validate user"));
    assert!(shown(&step).contains("> Login "));
    assert!(shown(&step).contains("  Register"));
    assert!(matches!(session.get_current_view(), CurrentView::Login(_)));
    assert!(!step.closed);
}

#[test]
fn registration_authenticates_and_publishes_the_login() {
    let mut repo = repository();
    let mut session = UserInterface::new();
    press(&mut session, &mut repo, DOWN);
    press(&mut session, &mut repo, ENTER);
    press(&mut session, &mut repo, b"alice");
    press(&mut session, &mut repo, ENTER);
    press(&mut session, &mut repo, b"p");
    press(&mut session, &mut repo, b"w");
    press(&mut session, &mut repo, b"x");
    press(&mut session, &mut repo, &[127]);
    press(&mut session, &mut repo, b"1");
    let step = press(&mut session, &mut repo, ENTER);
    assert_eq!(step.result, Events::Authenticate);
    assert_eq!(step.broadcasts, vec![BroadcastMessage::UserLogin { user_id: 1 }]);
    assert_eq!(step.control, Some(InputMode::Navigation));
    assert_eq!(session.get_user_id(), 1);
    assert_eq!(session.get_input_mode(), InputMode::Navigation);
    assert_eq!(session.get_user_input(), "");
    assert!(shown(&step).contains("Welcome to Friendly Automations Rust BBS!"));
    assert_eq!(repo.validate_user("alice", "pw1"), 1);
    assert_eq!(repo.get_user(1)[1].1, "1");
}

#[test]
fn unauthenticated_session_never_leaves_the_login_screen() {
    let mut repo = repository();
    let mut session = UserInterface::new();
    for result in [
        Events::NavigateView,
        Events::Authenticate,
        Events::RoomJoin,
        Events::RoomLeave,
        Events::RoomMessageSent,
        Events::DirectMessageSent,
        Events::Unknown,
    ] {
        let effects = session.apply_result_event(&mut repo, result);
        assert!(effects.broadcasts.is_empty());
        assert!(!effects.exit);
        assert!(matches!(session.get_current_view(), CurrentView::Login(_)));
        assert_eq!(session.get_user_id(), -1);
    }
    session.navigate_view(&mut repo);
    session.set_user_id();
    assert_eq!(session.join_room(&mut repo), -1);
    assert!(matches!(session.get_current_view(), CurrentView::Login(_)));
    for bytes in [&[27u8][..], b"h", b"s", CTRL_Q, UP] {
        press(&mut session, &mut repo, bytes);
        assert!(matches!(session.get_current_view(), CurrentView::Login(_)));
    }
}

#[test]
fn exit_from_the_client_says_goodbye() {
    let mut repo = repository();
    let mut session = UserInterface::new();
    let step = press(&mut session, &mut repo, CTRL_C);
    assert!(step.closed);
    assert_eq!(step.event, Events::Exit);
    assert_eq!(step.output, b"\x1b[1;32mGoodbye!\x1b[0m\r\n\r\n".to_vec());
    assert!(step.broadcasts.is_empty());
}

#[test]
fn quit_on_the_menu_says_goodbye_and_teardown_logs_out() {
    let mut repo = repository();
    let mut session = registered(&mut repo, "alice");
    for _ in 0..3 {
        press(&mut session, &mut repo, DOWN);
    }
    let step = press(&mut session, &mut repo, ENTER);
    assert_eq!(step.result, Events::Exit);
    assert!(step.closed);
    assert_eq!(step.output, b"\x1b[1;32mGoodbye!\x1b[0m\r\n\r\n".to_vec());
    assert_eq!(session.disconnect(&mut repo), vec![BroadcastMessage::Logout { user_id: 1 }]);
    assert_eq!(repo.get_user(1)[1].1, "0");
}

#[test]
fn joining_a_room_adds_one_and_publishes_the_join() {
    let mut repo = repository();
    repo.create_room("attic".to_string(), "1".to_string());
    repo.create_room("lobby".to_string(), "1".to_string());
    for _ in 0..3 {
        repo.add_to_room_online(2);
    }
    assert_eq!(online(&mut repo, "lobby"), 3);
    let mut watcher = registered(&mut repo, "walt");
    enter_room(&mut watcher, &mut repo, "lobby");
    assert_eq!(online(&mut repo, "lobby"), 4);
    repo.post_message(2, "welcome".to_string(), 1);

    let mut session = registered(&mut repo, "bob");
    let step = press(&mut session, &mut repo, ENTER);
    assert_eq!(step.result, Events::NavigateView);
    assert!(matches!(session.get_current_view(), CurrentView::Rooms(_)));
    press(&mut session, &mut repo, DOWN);
    let step = press(&mut session, &mut repo, ENTER);
    assert_eq!(step.result, Events::RoomJoin);
    assert_eq!(step.broadcasts, vec![BroadcastMessage::RoomJoin { user_id: 2, room_id: 2 }]);
    assert_eq!(step.control, Some(InputMode::LineInput));
    assert_eq!(&step.output[..6], &[255, 252, 1, 255, 252, 3]);
    assert_eq!(online(&mut repo, "lobby"), 5);
    assert_eq!(online(&mut repo, "attic"), 0);
    assert_eq!(session.get_current_room_id(), 2);
    assert_eq!(session.get_input_mode(), InputMode::LineInput);
    assert!(matches!(session.get_current_view(), CurrentView::Room(_)));
    assert!(shown(&step).contains("lobby"));
    assert!(shown(&step).contains("welcome"));

    let published = step.broadcasts[0].encode();
    let before = watcher.render();
    assert!(!before.contains("welcome"));
    match handle_broadcast_event(published.clone(), &mut watcher, &mut repo) {
        ListenerAction::Write(bytes) => {
            let screen = String::from_utf8(bytes).unwrap();
            assert!(screen.contains("welcome"));
            assert_eq!(screen, watcher.render());
        }
        _ => panic!("a session in the room re-renders"),
    }
    let mut elsewhere = registered(&mut repo, "carol");
    assert!(matches!(
        handle_broadcast_event(published, &mut elsewhere, &mut repo),
        ListenerAction::Continue
    ));
}

#[test]
fn leaving_a_room_takes_one_exactly_once() {
    let mut repo = repository();
    repo.create_room("lobby".to_string(), "1".to_string());
    let mut session = registered(&mut repo, "alice");
    enter_room(&mut session, &mut repo, "lobby");
    assert_eq!(online(&mut repo, "lobby"), 1);
    let step = press(&mut session, &mut repo, CTRL_Q);
    assert_eq!(step.result, Events::RoomLeave);
    assert_eq!(step.broadcasts, vec![BroadcastMessage::RoomLeave { user_id: 1, room_id: 1 }]);
    assert_eq!(step.control, Some(InputMode::Navigation));
    assert_eq!(online(&mut repo, "lobby"), 0);
    assert_eq!(session.get_current_room_id(), -1);
    assert_eq!(session.get_input_mode(), InputMode::Navigation);
    assert!(matches!(session.get_current_view(), CurrentView::Rooms(_)));
    assert_eq!(session.leave_room(&mut repo), -1);
    assert_eq!(session.disconnect(&mut repo), vec![BroadcastMessage::Logout { user_id: 1 }]);
    assert_eq!(online(&mut repo, "lobby"), 0);
}

#[test]
fn counts_follow_the_sessions_in_each_room() {
    let mut repo = repository();
    repo.create_room("attic".to_string(), "1".to_string());
    repo.create_room("lobby".to_string(), "1".to_string());
    let mut first = registered(&mut repo, "alice");
    let mut second = registered(&mut repo, "bob");
    enter_room(&mut first, &mut repo, "lobby");
    enter_room(&mut second, &mut repo, "lobby");
    assert_eq!((online(&mut repo, "attic"), online(&mut repo, "lobby")), (0, 2));
    press(&mut first, &mut repo, CTRL_Q);
    assert_eq!((online(&mut repo, "attic"), online(&mut repo, "lobby")), (0, 1));
    press(&mut first, &mut repo, UP);
    assert_eq!(first.get_user_input(), "");
    let step = press(&mut first, &mut repo, ENTER);
    assert_eq!(step.result, Events::RoomJoin);
    assert_eq!(first.get_current_room_id(), 1);
    assert_eq!((online(&mut repo, "attic"), online(&mut repo, "lobby")), (1, 1));
    second.disconnect(&mut repo);
    assert_eq!((online(&mut repo, "attic"), online(&mut repo, "lobby")), (1, 0));
    first.disconnect(&mut repo);
    first.disconnect(&mut repo);
    assert_eq!((online(&mut repo, "attic"), online(&mut repo, "lobby")), (0, 0));
}

#[test]
fn room_message_is_stored_published_and_shown_to_the_room() {
    let mut repo = repository();
    repo.create_room("lobby".to_string(), "1".to_string());
    let mut author = registered(&mut repo, "alice");
    let mut reader = registered(&mut repo, "bob");
    enter_room(&mut author, &mut repo, "lobby");
    enter_room(&mut reader, &mut repo, "lobby");
    press(&mut author, &mut repo, b"hi");
    press(&mut author, &mut repo, &[32]);
    let step = press(&mut author, &mut repo, b"all");
    assert!(shown(&step).ends_with(">>>\x1b[0m hi all"));
    assert_eq!(author.get_user_input(), "hi all");
    let step = press(&mut author, &mut repo, ENTER);
    assert_eq!(step.result, Events::RoomMessageSent);
    assert_eq!(step.broadcasts, vec![BroadcastMessage::RoomMessage { user_id: 1, room_id: 1 }]);
    assert_eq!(step.control, None);
    assert_eq!(author.get_user_input(), "");
    assert_eq!(repo.get_message_from_room(1, 0)[0].3, "hi all");
    let published = step.broadcasts[0].encode();
    for session in [&mut author, &mut reader] {
        match handle_broadcast_event(published.clone(), session, &mut repo) {
            ListenerAction::Write(bytes) => {
                assert!(String::from_utf8(bytes).unwrap().contains("alice\x1b[0m  hi all\r\n"));
            }
            _ => panic!("both sessions are in the room"),
        }
    }
    let step = press(&mut author, &mut repo, ENTER);
    assert_eq!(step.result, Events::Unknown);
    assert!(step.broadcasts.is_empty());
}

#[test]
fn direct_message_reaches_its_two_users_only() {
    let mut repo = repository();
    let mut alice = registered(&mut repo, "alice");
    let mut bob = registered(&mut repo, "bob");
    let mut carol = registered(&mut repo, "carol");
    press(&mut bob, &mut repo, DOWN);
    let step = press(&mut bob, &mut repo, ENTER);
    assert_eq!(step.result, Events::NavigateView);
    match bob.get_current_view() {
        CurrentView::Users(users) => assert_eq!(users.get_selection(), "alice"),
        _ => panic!("not on the users listing"),
    }
    let step = press(&mut bob, &mut repo, ENTER);
    assert_eq!(step.result, Events::NavigateView);
    match bob.get_current_view() {
        CurrentView::User(profile) => assert_eq!(profile.get_user_id(), 1),
        _ => panic!("not on the profile"),
    }
    let step = press(&mut bob, &mut repo, b"s");
    assert_eq!(step.result, Events::NavigateView);
    assert_eq!(step.control, Some(InputMode::LineInput));
    assert!(matches!(bob.get_current_view(), CurrentView::DirectMessage(_)));
    assert_eq!(bob.get_input_mode(), InputMode::LineInput);
    press(&mut bob, &mut repo, b"hello");
    let step = press(&mut bob, &mut repo, ENTER);
    assert_eq!(step.result, Events::DirectMessageSent);
    assert_eq!(
        step.broadcasts,
        vec![BroadcastMessage::DirectMessage { user_id: 2, to_user_id: 1 }]
    );
    assert_eq!(repo.get_direct_messages_for(1, 2, 0)[0].3, "hello");
    let published = step.broadcasts[0].encode();
    assert_eq!(published, "{\"event_type\": \"direct_message\", \"user_id\": 2, \"to_user_id\": 1}");
    assert!(matches!(
        handle_broadcast_event(published.clone(), &mut alice, &mut repo),
        ListenerAction::Write(_)
    ));
    match handle_broadcast_event(published.clone(), &mut bob, &mut repo) {
        ListenerAction::Write(bytes) => {
            assert!(String::from_utf8(bytes).unwrap().contains("bob\x1b[0m  hello\r\n"));
        }
        _ => panic!("the sender's session refreshes"),
    }
    let before = carol.render();
    assert!(matches!(
        handle_broadcast_event(published, &mut carol, &mut repo),
        ListenerAction::Continue
    ));
    assert_eq!(carol.render(), before);

    let step = press(&mut bob, &mut repo, CTRL_Q);
    assert_eq!(step.result, Events::NavigateView);
    assert_eq!(step.control, Some(InputMode::Navigation));
    assert!(matches!(bob.get_current_view(), CurrentView::Menu(_)));
    assert_eq!(bob.get_input_mode(), InputMode::Navigation);
}

#[test]
fn end_of_input_in_a_room_tears_down_once() {
    let mut repo = repository();
    repo.create_room("lobby".to_string(), "1".to_string());
    let mut session = registered(&mut repo, "alice");
    enter_room(&mut session, &mut repo, "lobby");
    assert_eq!(online(&mut repo, "lobby"), 1);
    let notices = session.disconnect(&mut repo);
    assert_eq!(
        notices,
        vec![
            BroadcastMessage::RoomLeave { user_id: 1, room_id: 1 },
            BroadcastMessage::Logout { user_id: 1 }
        ]
    );
    assert_eq!(online(&mut repo, "lobby"), 0);
    assert_eq!(repo.get_user(1)[1].1, "0");
    assert_eq!(session.get_current_room_id(), -1);
    let leave = handle_broadcast_event(notices[0].encode(), &mut session, &mut repo);
    assert!(matches!(leave, ListenerAction::Continue));
    let logout = handle_broadcast_event(notices[1].encode(), &mut session, &mut repo);
    assert!(matches!(logout, ListenerAction::Stop));
    assert_eq!(session.disconnect(&mut repo), vec![BroadcastMessage::Logout { user_id: 1 }]);
    assert_eq!(online(&mut repo, "lobby"), 0);
}

#[test]
fn anonymous_teardown_publishes_the_anonymous_logout() {
    let mut repo = repository();
    let mut session = UserInterface::new();
    let notices = session.disconnect(&mut repo);
    assert_eq!(notices, vec![BroadcastMessage::AnonLogout]);
    assert!(matches!(
        handle_broadcast_event(notices[0].encode(), &mut session, &mut repo),
        ListenerAction::Stop
    ));
    let mut other = registered(&mut repo, "alice");
    assert!(matches!(
        handle_broadcast_event(notices[0].encode(), &mut other, &mut repo),
        ListenerAction::Continue
    ));
    assert!(matches!(
        handle_broadcast_event(BroadcastMessage::Logout { user_id: 2 }.encode(), &mut other, &mut repo),
        ListenerAction::Continue
    ));
}

#[test]
fn teardown_helpers_publish_in_order() {
    let mut repo = repository();
    repo.create_room("lobby".to_string(), "1".to_string());
    repo.add_to_room_online(1);
    repo.add_to_room_online(1);
    assert_eq!(
        remove_user_from_room(4, 1, &mut repo),
        Some(BroadcastMessage::RoomLeave { user_id: 4, room_id: 1 })
    );
    assert_eq!(online(&mut repo, "lobby"), 1);
    assert_eq!(remove_user_from_room(4, -1, &mut repo), None);
    assert_eq!(remove_user_from_room(4, 0, &mut repo), None);
    assert_eq!(online(&mut repo, "lobby"), 1);
    assert_eq!(
        disconnect_user(4, 1, &mut repo),
        vec![
            BroadcastMessage::RoomLeave { user_id: 4, room_id: 1 },
            BroadcastMessage::Logout { user_id: 4 }
        ]
    );
    assert_eq!(online(&mut repo, "lobby"), 0);
    assert_eq!(disconnect_user(-1, -1, &mut repo), vec![BroadcastMessage::AnonLogout]);
    assert_eq!(
        disconnect_user(-1, 1, &mut repo),
        vec![BroadcastMessage::RoomLeave { user_id: -1, room_id: 1 }, BroadcastMessage::AnonLogout]
    );
}

#[test]
fn text_that_is_no_event_is_passed_over() {
    let mut repo = repository();
    let mut session = registered(&mut repo, "alice");
    for raw in ["", "not json", "null", "[]", "{}", "{\"event_type\": \"user_login\", \"user_id\": 1}"] {
        assert!(matches!(
            handle_broadcast_event(raw.to_string(), &mut session, &mut repo),
            ListenerAction::Continue
        ));
    }
}

#[test]
fn router_builds_each_screen_from_the_menu() {
    let mut repo = repository();
    let mut session = registered(&mut repo, "alice");
    press(&mut session, &mut repo, DOWN);
    press(&mut session, &mut repo, DOWN);
    let step = press(&mut session, &mut repo, ENTER);
    assert_eq!(step.result, Events::NavigateView);
    assert_eq!(step.control, Some(InputMode::Navigation));
    match session.get_current_view() {
        CurrentView::User(profile) => assert_eq!(profile.get_user_id(), 1),
        _ => panic!("not on the own profile"),
    }
    assert!(shown(&step).contains("\x1b[1;32mMe\x1b[0m"));
    let step = press(&mut session, &mut repo, b"s");
    assert_eq!(step.result, Events::KeyS);
    assert!(matches!(session.get_current_view(), CurrentView::User(_)));
    press(&mut session, &mut repo, b"h");
    assert!(matches!(session.get_current_view(), CurrentView::Menu(_)));
    press(&mut session, &mut repo, DOWN);
    press(&mut session, &mut repo, ENTER);
    assert!(matches!(session.get_current_view(), CurrentView::Users(_)));
    press(&mut session, &mut repo, CTRL_Q);
    assert!(matches!(session.get_current_view(), CurrentView::Menu(_)));
    press(&mut session, &mut repo, ENTER);
    assert!(matches!(session.get_current_view(), CurrentView::Rooms(_)));
    let step = press(&mut session, &mut repo, ENTER);
    assert_eq!(step.result, Events::Enter);
    assert!(matches!(session.get_current_view(), CurrentView::Rooms(_)));
    let step = press(&mut session, &mut repo, b"c");
    assert_eq!(step.result, Events::InputModeEnable);
    press(&mut session, &mut repo, b"den");
    let step = press(&mut session, &mut repo, ENTER);
    assert_eq!(step.result, Events::InputModeDisable);
    assert_eq!(session.get_user_input(), "");
    assert_eq!(repo.get_rooms(0), vec![("den".to_string(), 0)]);
    let step = press(&mut session, &mut repo, ENTER);
    assert_eq!(step.result, Events::RoomJoin);
    assert!(matches!(session.get_current_view(), CurrentView::Room(_)));
}

#[test]
fn setters_record_without_side_effects() {
    let mut repo = repository();
    repo.create_room("lobby".to_string(), "1".to_string());
    let mut session = UserInterface::new();
    session.set_current_room_id(1);
    assert_eq!(session.get_current_room_id(), 1);
    assert_eq!(online(&mut repo, "lobby"), 0);
    session.set_current_room_id(-1);
    session.set_input_mode(true);
    session.handle_input_event(&"abc".to_string(), &Events::Unknown);
    session.clear_user_input();
    assert_eq!(session.get_user_input(), "");
    session.handle_input_event(&"abc".to_string(), &Events::Unknown);
    session.set_input_mode(false);
    assert_eq!(session.get_user_input(), "");
    session.refresh_view(&mut repo);
    assert!(!session.navigates_now());
    assert_eq!(session.dispatch(&mut repo, &frame(DOWN)), Events::DownArrow);
}

#[test]
fn entering_the_found_room_moves_one_count() {
    let mut repo = repository();
    repo.create_room("attic".to_string(), "1".to_string());
    repo.create_room("lobby".to_string(), "1".to_string());
    let mut session = registered(&mut repo, "alice");
    assert_eq!(session.enter_room(-1, &mut repo), -1);
    assert_eq!(session.enter_room(0, &mut repo), -1);
    assert_eq!(session.get_current_room_id(), -1);
    assert_eq!((online(&mut repo, "attic"), online(&mut repo, "lobby")), (0, 0));
    assert_eq!(session.enter_room(2, &mut repo), 2);
    assert_eq!(session.get_current_room_id(), 2);
    assert_eq!((online(&mut repo, "attic"), online(&mut repo, "lobby")), (0, 1));
    assert_eq!(session.enter_room(1, &mut repo), 1);
    assert_eq!(session.get_current_room_id(), 1);
    assert_eq!((online(&mut repo, "attic"), online(&mut repo, "lobby")), (1, 0));
    assert_eq!(session.get_user_id(), 1);
    assert_eq!(session.get_user_input(), "");
}

#[test]
fn join_returns_the_selected_rooms_identifier() {
    let mut repo = repository();
    repo.create_room("attic".to_string(), "1".to_string());
    repo.create_room("lobby".to_string(), "1".to_string());
    let mut session = registered(&mut repo, "alice");
    press(&mut session, &mut repo, ENTER);
    press(&mut session, &mut repo, DOWN);
    let selected = match session.get_current_view() {
        CurrentView::Rooms(rooms) => rooms.get_selection().to_string(),
        _ => panic!("not on the rooms listing"),
    };
    assert_eq!(selected, "lobby");
    assert_eq!(session.join_room(&mut repo), 2);
    assert_eq!(session.get_current_room_id(), 2);
    assert_eq!((online(&mut repo, "attic"), online(&mut repo, "lobby")), (0, 1));
}

#[test]
fn routing_keeps_the_line_typed_so_far() {
    let mut repo = repository();
    repo.create_room("lobby".to_string(), "1".to_string());
    let mut session = registered(&mut repo, "alice");
    enter_room(&mut session, &mut repo, "lobby");
    press(&mut session, &mut repo, b"abc");
    assert_eq!(session.get_user_input(), "abc");
    let step = press(&mut session, &mut repo, CTRL_Q);
    assert_eq!(step.result, Events::RoomLeave);
    assert!(matches!(session.get_current_view(), CurrentView::Rooms(_)));
    assert_eq!(session.get_input_mode(), InputMode::Navigation);
    assert_eq!(session.get_user_input(), "abc");
    let step = press(&mut session, &mut repo, ENTER);
    assert_eq!(step.result, Events::RoomJoin);
    assert!(matches!(session.get_current_view(), CurrentView::Room(_)));
    assert_eq!(session.get_input_mode(), InputMode::LineInput);
    assert_eq!(session.get_user_id(), 1);
    assert_eq!(session.get_current_room_id(), 1);
    assert_eq!(session.get_user_input(), "abc");
    let step = press(&mut session, &mut repo, b"d");
    assert_eq!(session.get_user_input(), "abcd");
    assert!(shown(&step).ends_with(">>>\x1b[0m abcd"));
}
