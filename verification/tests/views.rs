use telnet_bbs::db::manage::Manager;
use telnet_bbs::input_interface::Events;
use telnet_bbs::views::base_view::{NavigateTo, View};
use telnet_bbs::views::direct_message_view::DirectMessageView;
use telnet_bbs::views::login_register_view::{LoginRegisterView, LoginStage};
use telnet_bbs::views::menu_view::BBSMenu;
use telnet_bbs::views::room_view::{oldest_first, RoomView};
use telnet_bbs::views::rooms_view::{ListingContext, RoomsView};
use telnet_bbs::views::user_view::UserView;
use telnet_bbs::views::users_view::UsersView;

fn screen_repository() -> Manager {
    let mut repo = Manager::open_in_memory().unwrap();
    assert!(repo.setup_db());
    repo
}

fn with_rooms(count: usize) -> Manager {
    let mut repo = screen_repository();
    for i in 0..count {
        repo.create_room(format!("room{:02}", i), "1".to_string());
    }
    repo
}

fn text(value: &str) -> String {
    value.to_string()
}

#[test]
fn menu_cursor_stays_on_the_four_entries() {
    let mut repo = screen_repository();
    let mut menu = BBSMenu::new(5);
    assert_eq!(menu.get_user_id(), 5);
    assert_eq!(menu.get_selected_index(), 0);
    assert_eq!(menu.handle_event(Events::UpArrow, text(""), &mut repo), Events::UpArrow);
    assert_eq!(menu.get_selected_index(), 0);
    for expected in [1, 2, 3, 3, 3] {
        assert_eq!(menu.handle_event(Events::DownArrow, text(""), &mut repo), Events::DownArrow);
        assert_eq!(menu.get_selected_index(), expected);
    }
    menu.move_up();
    assert_eq!(menu.get_selected_index(), 2);
    menu.move_down();
    menu.move_down();
    assert_eq!(menu.get_selected_index(), 3);
}

#[test]
fn menu_enter_leads_to_the_selected_screen() {
    let mut repo = screen_repository();
    let targets = [NavigateTo::RoomsView, NavigateTo::PeopleView, NavigateTo::MeView];
    for (index, target) in targets.iter().enumerate() {
        let mut menu = BBSMenu::new(1);
        for _ in 0..index {
            menu.move_down();
        }
        assert_eq!(*menu.get_navigate_to(), NavigateTo::NoneView);
        assert_eq!(menu.handle_event(Events::Enter, text(""), &mut repo), Events::NavigateView);
        assert_eq!(menu.get_navigate_to(), target);
    }
    let mut menu = BBSMenu::new(1);
    for _ in 0..3 {
        menu.move_down();
    }
    assert_eq!(menu.get_selection(), "❌ Quit");
    assert_eq!(menu.handle_event(Events::Enter, text(""), &mut repo), Events::Exit);
    assert_eq!(*menu.get_navigate_to(), NavigateTo::NoneView);
    assert_eq!(menu.handle_event(Events::KeyH, text("h"), &mut repo), Events::KeyH);
}

#[test]
fn menu_renders_the_cursor() {
    let mut menu = BBSMenu::new(1);
    menu.move_down();
    assert_eq!(
        menu.render(),
        "\x1b[2J\x1b[H\x1b[1;32mWelcome to Friendly Automations Rust BBS!\x1b[0m\r\n\r\n  🚪 Rooms\r\n\x1b[1;33m> 👥 People \x1b[0m\r\n  👨‍💻 Me\r\n  ❌ Quit\r\n\nUse ↑ (Arrow Up) / ↓ (Arrow Down) and Enter to select.\r\n"
    );
}

#[test]
fn rooms_cursor_stays_within_the_page() {
    let mut repo = with_rooms(3);
    let mut rooms = RoomsView::new(1, &mut repo);
    assert_eq!(rooms.len(), 3);
    let keys = [
        Events::UpArrow,
        Events::DownArrow,
        Events::DownArrow,
        Events::DownArrow,
        Events::DownArrow,
        Events::UpArrow,
        Events::UpArrow,
        Events::UpArrow,
        Events::UpArrow,
        Events::DownArrow,
    ];
    let expected = [0, 1, 2, 2, 2, 1, 0, 0, 0, 1];
    for (key, index) in keys.iter().zip(expected.iter()) {
        assert_eq!(rooms.handle_event(*key, text(""), &mut repo), Events::Unknown);
        assert_eq!(rooms.get_selected_index(), *index);
        assert!(rooms.get_selected_index() < rooms.len());
        assert_eq!(rooms.get_offset(), 0);
    }
    assert_eq!(rooms.get_selection(), "room01");
}

#[test]
fn rooms_cursor_on_an_empty_page_stays_at_zero() {
    let mut repo = screen_repository();
    let mut rooms = RoomsView::new(1, &mut repo);
    assert_eq!(rooms.len(), 0);
    assert!(!rooms.has_selection());
    for key in [Events::DownArrow, Events::UpArrow, Events::DownArrow] {
        rooms.handle_event(key, text(""), &mut repo);
        assert_eq!(rooms.get_selected_index(), 0);
    }
    assert_eq!(rooms.handle_event(Events::Enter, text(""), &mut repo), Events::Enter);
    assert_eq!(*rooms.get_navigate_to(), NavigateTo::NoneView);
}

#[test]
fn rooms_up_arrow_pages_on_a_full_page_only() {
    let mut repo = with_rooms(20);
    let mut rooms = RoomsView::new(1, &mut repo);
    assert_eq!(rooms.len(), 20);
    assert_eq!(rooms.get_offset(), 0);
    assert_eq!(rooms.handle_event(Events::UpArrow, text(""), &mut repo), Events::Unknown);
    assert_eq!(rooms.get_offset(), 1);
    assert_eq!(rooms.len(), 19);
    assert_eq!(rooms.get_selected_index(), 0);
    assert_eq!(rooms.handle_event(Events::UpArrow, text(""), &mut repo), Events::Unknown);
    assert_eq!(rooms.get_offset(), 1);
    assert_eq!(rooms.len(), 19);
}

#[test]
fn rooms_down_arrow_pages_back_from_the_last_row() {
    let mut repo = with_rooms(20);
    let mut rooms = RoomsView::new(1, &mut repo);
    rooms.handle_event(Events::UpArrow, text(""), &mut repo);
    assert_eq!(rooms.get_offset(), 1);
    for _ in 0..18 {
        rooms.handle_event(Events::DownArrow, text(""), &mut repo);
        assert_eq!(rooms.get_offset(), 1);
    }
    assert_eq!(rooms.get_selected_index(), 18);
    rooms.handle_event(Events::DownArrow, text(""), &mut repo);
    assert_eq!(rooms.get_offset(), 0);
    assert_eq!(rooms.len(), 20);
    assert_eq!(rooms.get_selected_index(), 0);
    for _ in 0..25 {
        rooms.handle_event(Events::DownArrow, text(""), &mut repo);
    }
    assert_eq!(rooms.get_offset(), 0);
    assert_eq!(rooms.get_selected_index(), 19);
}

#[test]
fn rooms_enter_asks_to_join() {
    let mut repo = with_rooms(2);
    let mut rooms = RoomsView::new(1, &mut repo);
    rooms.move_down();
    assert_eq!(rooms.handle_event(Events::Enter, text(""), &mut repo), Events::RoomJoin);
    assert_eq!(*rooms.get_navigate_to(), NavigateTo::RoomView);
    assert_eq!(rooms.get_selection(), "room01");
}

#[test]
fn rooms_home_keys_lead_to_the_menu() {
    let mut repo = with_rooms(1);
    for key in [Events::KeyH, Events::CntrlQ] {
        let mut rooms = RoomsView::new(1, &mut repo);
        assert_eq!(rooms.handle_event(key, text(""), &mut repo), Events::NavigateView);
        assert_eq!(*rooms.get_navigate_to(), NavigateTo::MenuView);
    }
    let mut rooms = RoomsView::new(1, &mut repo);
    assert_eq!(rooms.handle_event(Events::KeyN, text("n"), &mut repo), Events::KeyN);
    assert_eq!(rooms.handle_event(Events::TAB, text(""), &mut repo), Events::TAB);
}

#[test]
fn rooms_search_filters_and_returns_to_selecting() {
    let mut repo = screen_repository();
    for name in ["rustaceans", "lobby", "trust"] {
        repo.create_room(text(name), text("1"));
    }
    let mut rooms = RoomsView::new(1, &mut repo);
    assert_eq!(rooms.handle_event(Events::KeyS, text("s"), &mut repo), Events::InputModeEnable);
    assert_eq!(rooms.get_context(), ListingContext::Searching);
    assert_eq!(rooms.render(), "\x1b[2J\x1b[H\x1b[1;32mRooms\x1b[0m\r\n\r\n\x1b[1;33m> Search (CNTRL+Q): ");
    assert_eq!(rooms.handle_event(Events::Enter, text(""), &mut repo), Events::Enter);
    assert_eq!(rooms.get_context(), ListingContext::Searching);
    assert_eq!(rooms.handle_event(Events::KeyR, text("r"), &mut repo), Events::Unknown);
    assert_eq!(rooms.handle_event(Events::Unknown, text("ru"), &mut repo), Events::Unknown);
    assert_eq!(rooms.handle_event(Events::KeyS, text("rus"), &mut repo), Events::Unknown);
    assert_eq!(rooms.handle_event(Events::Unknown, text("rust"), &mut repo), Events::Unknown);
    assert!(rooms.render().ends_with("> Search (CNTRL+Q): rust"));
    assert_eq!(rooms.handle_event(Events::Enter, text("rust"), &mut repo), Events::InputModeDisable);
    assert_eq!(rooms.get_context(), ListingContext::Selecting);
    assert_eq!(rooms.len(), 2);
    assert_eq!(rooms.get_selection(), "rustaceans");
}

#[test]
fn rooms_blank_search_is_not_submitted() {
    let mut repo = with_rooms(2);
    let mut rooms = RoomsView::new(1, &mut repo);
    rooms.handle_event(Events::KeyS, text("s"), &mut repo);
    rooms.handle_event(Events::SpaceBar, text("  "), &mut repo);
    assert_eq!(rooms.handle_event(Events::Enter, text("  "), &mut repo), Events::Enter);
    assert_eq!(rooms.get_context(), ListingContext::Searching);
}

#[test]
fn rooms_quit_from_a_prompt_restores_the_listing() {
    let mut repo = with_rooms(3);
    let mut rooms = RoomsView::new(1, &mut repo);
    rooms.handle_event(Events::KeyS, text("s"), &mut repo);
    rooms.handle_event(Events::Unknown, text("room00"), &mut repo);
    rooms.handle_event(Events::Enter, text("room00"), &mut repo);
    assert_eq!(rooms.len(), 1);
    rooms.handle_event(Events::KeyS, text("s"), &mut repo);
    assert_eq!(rooms.handle_event(Events::CntrlQ, text(""), &mut repo), Events::InputModeDisable);
    assert_eq!(rooms.get_context(), ListingContext::Selecting);
    assert_eq!(rooms.len(), 3);
    assert_eq!(*rooms.get_navigate_to(), NavigateTo::NoneView);
}

#[test]
fn rooms_create_stores_a_room() {
    let mut repo = screen_repository();
    let mut rooms = RoomsView::new(7, &mut repo);
    assert_eq!(rooms.get_user_id(), 7);
    assert_eq!(rooms.handle_event(Events::KeyC, text("c"), &mut repo), Events::InputModeEnable);
    assert_eq!(rooms.get_context(), ListingContext::Creating);
    assert_eq!(rooms.handle_event(Events::KeyC, text("c"), &mut repo), Events::Unknown);
    assert_eq!(rooms.handle_event(Events::Unknown, text("cellar"), &mut repo), Events::Unknown);
    assert!(rooms.render().ends_with("> Create Room (CNTRL+Q to exit): cellar"));
    assert_eq!(rooms.handle_event(Events::Enter, text("cellar"), &mut repo), Events::InputModeDisable);
    assert_eq!(rooms.get_context(), ListingContext::Selecting);
    assert_eq!(repo.get_rooms(0), vec![(text("cellar"), 0)]);
    assert_eq!(rooms.len(), 1);
    assert_eq!(rooms.get_selection(), "cellar");
}

#[test]
fn rooms_render_lists_rooms_with_counts() {
    let mut repo = with_rooms(2);
    repo.add_to_room_online(2);
    let rooms = RoomsView::new(1, &mut repo);
    assert_eq!(
        rooms.render(),
        "\x1b[2J\x1b[H\x1b[1;32mRooms\x1b[0m\r\n\r\n\x1b[1;33m> room00: 0 online\x1b[0m\r\n  room01: 1 online\r\n\nUse ↑ (Arrow Up) / ↓ (Arrow Down) and Enter to select a room\r\n[S] Search for a room.\r\n[C] Create Room.\r\n[N] Next Page\r\n[H / CNTRL+Q] Home\r\n"
    );
}

#[test]
fn rooms_refresh_reads_the_page_again() {
    let mut repo = with_rooms(2);
    let mut rooms = RoomsView::new(1, &mut repo);
    rooms.move_down();
    repo.create_room(text("late"), text("1"));
    assert_eq!(rooms.len(), 2);
    rooms.refresh_data(&mut repo);
    assert_eq!(rooms.len(), 3);
    assert_eq!(rooms.get_selected_index(), 0);
}

#[test]
fn users_listing_selects_and_searches() {
    let mut repo = screen_repository();
    assert_eq!(repo.create_user("alice", "pw1"), 1);
    assert_eq!(repo.create_user("bob", "pw1"), 2);
    repo.login_user(2);
    let mut users = UsersView::new(1, &mut repo);
    assert_eq!(users.len(), 2);
    assert_eq!(users.get_selection(), "bob");
    assert_eq!(
        users.render(),
        "\x1b[2J\x1b[H\x1b[1;32mUsers\x1b[0m\r\n\r\n\x1b[1;33m> bob: 🟢 online\x1b[0m\r\n  alice: ⚪️ offline\r\n\nUse ↑ (Arrow Up) / ↓ (Arrow Down) and Enter to select a user\r\n[S] Search for a user.\r\n[N] Next Page\r\n[H / CNTRL+Q] Home\r\n"
    );
    for (key, index) in [
        (Events::UpArrow, 0),
        (Events::DownArrow, 1),
        (Events::DownArrow, 1),
        (Events::UpArrow, 0),
        (Events::DownArrow, 1),
    ] {
        assert_eq!(users.handle_event(key, text(""), &mut repo), key);
        assert_eq!(users.get_selected_index(), index);
        assert!(users.get_selected_index() < users.len());
    }
    assert_eq!(users.get_selection(), "alice");
    assert_eq!(users.handle_event(Events::Enter, text(""), &mut repo), Events::NavigateView);
    assert_eq!(*users.get_navigate_to(), NavigateTo::UserView);

    let mut users = UsersView::new(1, &mut repo);
    assert_eq!(users.handle_event(Events::KeyS, text("s"), &mut repo), Events::InputModeEnable);
    assert!(users.is_searching());
    assert_eq!(users.handle_event(Events::Enter, text(""), &mut repo), Events::Enter);
    assert!(users.is_searching());
    assert_eq!(users.handle_event(Events::Unknown, text("ali"), &mut repo), Events::Unknown);
    assert_eq!(users.handle_event(Events::BackSpace, text(""), &mut repo), Events::BackSpace);
    assert!(users.render().ends_with("> Search (CNTRL+Q to exit): ali"));
    assert_eq!(users.handle_event(Events::Enter, text("ali"), &mut repo), Events::InputModeDisable);
    assert!(!users.is_searching());
    assert_eq!(users.len(), 1);
    assert_eq!(users.get_selection(), "alice");
    assert_eq!(users.handle_event(Events::KeyS, text("s"), &mut repo), Events::InputModeEnable);
    assert_eq!(users.handle_event(Events::CntrlQ, text(""), &mut repo), Events::InputModeDisable);
    assert_eq!(users.len(), 2);
    assert_eq!(users.handle_event(Events::KeyH, text("h"), &mut repo), Events::NavigateView);
    assert_eq!(*users.get_navigate_to(), NavigateTo::MenuView);
}

#[test]
fn users_enter_on_an_empty_listing_passes_through() {
    let mut repo = screen_repository();
    let mut users = UsersView::new(1, &mut repo);
    assert!(!users.has_selection());
    assert_eq!(users.handle_event(Events::Enter, text(""), &mut repo), Events::Enter);
    assert_eq!(*users.get_navigate_to(), NavigateTo::NoneView);
    assert_eq!(users.handle_event(Events::CntrlQ, text(""), &mut repo), Events::NavigateView);
    assert_eq!(*users.get_navigate_to(), NavigateTo::MenuView);
}

#[test]
fn profile_offers_a_conversation_with_others_only() {
    let mut repo = screen_repository();
    assert_eq!(repo.create_user("alice", "pw1"), 1);
    repo.login_user(1);
    let mut own = UserView::new(1, true, &mut repo);
    assert_eq!(own.get_user_id(), 1);
    assert_eq!(own.handle_event(Events::KeyS, text("s"), &mut repo), Events::KeyS);
    assert_eq!(*own.get_navigate_to(), NavigateTo::NoneView);
    assert_eq!(own.handle_event(Events::KeyH, text("h"), &mut repo), Events::NavigateView);
    assert_eq!(*own.get_navigate_to(), NavigateTo::MenuView);
    let rendered = own.render();
    assert!(rendered.starts_with("\x1b[2J\x1b[H\x1b[1;32mMe\x1b[0m\r\n\r\nusername: alice\r\n🟢 online\r\ncreated_date: "));
    assert!(rendered.ends_with("\r\n\n[H] Home\r\n"));

    let mut other = UserView::new(1, false, &mut repo);
    other.move_up();
    other.move_down();
    assert_eq!(other.handle_event(Events::Enter, text(""), &mut repo), Events::Enter);
    assert_eq!(other.handle_event(Events::KeyS, text("s"), &mut repo), Events::NavigateView);
    assert_eq!(*other.get_navigate_to(), NavigateTo::DirectMessageView);
    repo.logout_user(1);
    other.refresh_data(&mut repo);
    let rendered = other.render();
    assert!(rendered.starts_with("\x1b[2J\x1b[H\x1b[1;32malice\x1b[0m\r\n\r\nusername: alice\r\n⚪️  offline\r\n"));
    assert!(rendered.ends_with("\n[S] Send Message\r\n[H] Home\r\n"));

    let missing = UserView::new(9, false, &mut repo);
    assert_eq!(
        missing.render(),
        "\x1b[2J\x1b[H\x1b[1;32m\x1b[0m\r\n\r\n\n[S] Send Message\r\n[H] Home\r\n"
    );
}

#[test]
fn room_collects_a_line_and_posts_it() {
    let mut repo = screen_repository();
    assert_eq!(repo.create_user("alice", "pw1"), 1);
    repo.create_room(text("lobby"), text("1"));
    let mut room = RoomView::new(1, text("lobby"), 1, &mut repo);
    assert_eq!(room.get_user_id(), 1);
    assert_eq!(room.get_room_id(), 1);
    assert_eq!(room.render(), "\x1b[2J\x1b[H\x1b[1;32mlobby\x1b[0m\r\n\r\n\n\x1b[1;35m>>>\x1b[0m ");
    assert_eq!(room.handle_event(Events::Enter, text(""), &mut repo), Events::Unknown);
    assert_eq!(room.handle_event(Events::KeyH, text("h"), &mut repo), Events::KeyH);
    assert_eq!(room.handle_event(Events::Unknown, text("hi"), &mut repo), Events::Unknown);
    assert_eq!(room.handle_event(Events::SpaceBar, text("hi "), &mut repo), Events::SpaceBar);
    assert_eq!(room.handle_event(Events::Unknown, text("hi all"), &mut repo), Events::Unknown);
    assert!(room.render().ends_with(">>>\x1b[0m hi all"));
    assert_eq!(room.handle_event(Events::Enter, text("hi all"), &mut repo), Events::RoomMessageSent);
    assert!(room.render().ends_with(">>>\x1b[0m "));
    assert_eq!(room.handle_event(Events::Enter, text(""), &mut repo), Events::Unknown);
    let stored = repo.get_message_from_room(1, 0);
    assert_eq!(stored.len(), 1);
    assert_eq!(stored[0].3, "hi all");
    assert_eq!(room.len(), 0);
    room.refresh_data(&mut repo);
    assert_eq!(room.len(), 1);
    let rendered = room.render();
    assert!(rendered.contains("\x1b[0m \x1b[1;35malice\x1b[0m  hi all\r\n"));
    let seen_by_other = RoomView::new(1, text("lobby"), 2, &mut repo).render();
    assert!(seen_by_other.contains("\x1b[0m \x1b[38;5;214malice\x1b[0m  hi all\r\n"));
    assert_eq!(room.handle_event(Events::CntrlQ, text(""), &mut repo), Events::RoomLeave);
    assert_eq!(*room.get_navigate_to(), NavigateTo::RoomsView);
}

#[test]
fn room_history_pages_by_arrows() {
    let mut repo = screen_repository();
    repo.create_room(text("lobby"), text("1"));
    for i in 0..20 {
        repo.post_message(1, format!("message {}", i), 1);
    }
    let mut room = RoomView::new(1, text("lobby"), 1, &mut repo);
    assert_eq!(room.len(), 20);
    assert_eq!(room.get_offset(), 0);
    assert_eq!(room.handle_event(Events::DownArrow, text(""), &mut repo), Events::DownArrow);
    assert_eq!(room.get_offset(), 0);
    assert_eq!(room.handle_event(Events::UpArrow, text(""), &mut repo), Events::Unknown);
    assert_eq!(room.get_offset(), 1);
    assert_eq!(room.len(), 19);
    assert_eq!(room.handle_event(Events::UpArrow, text(""), &mut repo), Events::UpArrow);
    assert_eq!(room.get_offset(), 1);
    assert_eq!(room.handle_event(Events::DownArrow, text(""), &mut repo), Events::Unknown);
    assert_eq!(room.get_offset(), 0);
    assert_eq!(room.len(), 20);
    let rendered = room.render();
    let oldest = rendered.find("message 0\r\n").unwrap();
    let newest = rendered.find("message 19\r\n").unwrap();
    assert!(oldest < newest);
}

#[test]
fn conversation_posts_direct_messages() {
    let mut repo = screen_repository();
    assert_eq!(repo.create_user("alice", "pw1"), 1);
    assert_eq!(repo.create_user("bob", "pw1"), 2);
    let mut conversation = DirectMessageView::new(2, 1, &mut repo);
    assert_eq!(conversation.to_user_id(), 1);
    assert_eq!(conversation.get_offset(), 0);
    assert_eq!(
        conversation.render(),
        "\x1b[2J\x1b[H\x1b[1;32mMessages\x1b[0m\r\n\r\n\n\x1b[1;35m>>>\x1b[0m "
    );
    assert_eq!(conversation.handle_event(Events::Enter, text(""), &mut repo), Events::Unknown);
    assert_eq!(conversation.handle_event(Events::Unknown, text("yo"), &mut repo), Events::Unknown);
    assert_eq!(conversation.handle_event(Events::Enter, text("yo"), &mut repo), Events::DirectMessageSent);
    let stored = repo.get_direct_messages_for(1, 2, 0);
    assert_eq!(stored.len(), 1);
    assert_eq!((stored[0].0, stored[0].3.as_str()), (2, "yo"));
    conversation.refresh_data(&mut repo);
    assert_eq!(conversation.len(), 1);
    assert!(conversation.render().contains("\x1b[0m \x1b[1;35mbob\x1b[0m  yo\r\n"));
    assert_eq!(conversation.handle_event(Events::CntrlQ, text(""), &mut repo), Events::NavigateView);
    assert_eq!(*conversation.get_navigate_to(), NavigateTo::MenuView);
}

#[test]
fn login_screen_walks_through_its_stages() {
    let mut repo = screen_repository();
    let mut login = LoginRegisterView::new();
    assert_eq!(login.get_user_id(), -1);
    assert_eq!(login.get_stage(), LoginStage::Choosing);
    assert_eq!(login.get_selection(), "Login");
    assert_eq!(
        login.render(),
        "\x1b[2J\x1b[H\x1b[1;32mLogin\x1b[0m\r\n\r\n\x1b[1;33m> Login \x1b[0m\r\n  Register\r\n\nUse ↑ (Arrow Up) / ↓ (Arrow Down)"
    );
    for (key, index) in [
        (Events::UpArrow, 0),
        (Events::DownArrow, 1),
        (Events::DownArrow, 1),
        (Events::UpArrow, 0),
        (Events::DownArrow, 1),
    ] {
        assert_eq!(login.handle_event(key, text(""), &mut repo), key);
        assert_eq!(login.get_selected_index(), index);
    }
    assert_eq!(login.get_selection(), "Register");
    assert_eq!(login.handle_event(Events::Enter, text(""), &mut repo), Events::InputModeEnable);
    assert_eq!(login.get_stage(), LoginStage::Username);
    assert_eq!(login.handle_event(Events::Unknown, text("alice"), &mut repo), Events::Unknown);
    assert_eq!(login.render(), "\x1b[2J\x1b[H\x1b[1;32mLogin\x1b[0m\r\n\r\n\x1b[1;32m> Username: alice");
    assert_eq!(login.handle_event(Events::Enter, text("alice"), &mut repo), Events::SecretInputModeEnable);
    assert_eq!(login.get_stage(), LoginStage::Password);
    assert_eq!(login.handle_event(Events::Unknown, text("pw1"), &mut repo), Events::Unknown);
    assert_eq!(login.render(), "\x1b[2J\x1b[H\x1b[1;32mLogin\x1b[0m\r\n\r\n\x1b[1;32m> Password: ");
    assert_eq!(login.handle_event(Events::Enter, text("pw1"), &mut repo), Events::Authenticate);
    assert_eq!(login.get_user_id(), 1);
    assert_eq!(*login.get_navigate_to(), NavigateTo::MenuView);
    assert_eq!(repo.get_user(1)[1].1, "1");
}

#[test]
fn login_failure_shows_the_error_until_enter() {
    let mut repo = screen_repository();
    let mut login = LoginRegisterView::new();
    assert_eq!(login.handle_event(Events::Enter, text(""), &mut repo), Events::InputModeEnable);
    assert_eq!(login.handle_event(Events::Enter, text("alice"), &mut repo), Events::SecretInputModeEnable);
    assert_eq!(login.handle_event(Events::Enter, text("pw1"), &mut repo), Events::InputModeDisable);
    assert_eq!(login.get_stage(), LoginStage::Failed);
    assert_eq!(login.get_user_id(), -1);
    assert_eq!(
        login.render(),
        "\x1b[2J\x1b[H\x1b[1;31mLogin ERROR\x1b[0m\r\n\r\nUnable to validate user, maybe wrong password?"
    );
    assert_eq!(login.handle_event(Events::KeyH, text("h"), &mut repo), Events::KeyH);
    assert_eq!(login.get_stage(), LoginStage::Failed);
    assert_eq!(login.handle_event(Events::Enter, text(""), &mut repo), Events::Enter);
    assert_eq!(login.get_stage(), LoginStage::Choosing);
    assert!(login.render().contains("> Login "));
}

#[test]
fn registration_failure_names_the_taken_user() {
    let mut repo = screen_repository();
    assert_eq!(repo.create_user("alice", "pw1"), 1);
    let mut login = LoginRegisterView::new();
    login.move_down();
    login.handle_selection();
    assert_eq!(login.handle_event(Events::Enter, text("alice"), &mut repo), Events::SecretInputModeEnable);
    assert_eq!(login.handle_event(Events::Enter, text("pw2"), &mut repo), Events::InputModeDisable);
    assert!(login.render().ends_with("Unable to create user, maybe username already taken"));
    login.reset_view_state();
    assert_eq!(login.get_stage(), LoginStage::Choosing);
    assert_eq!(login.get_user_id(), -1);
}

#[test]
fn credentials_are_checked_against_the_repository() {
    let mut repo = screen_repository();
    assert_eq!(repo.create_user("alice", "pw1"), 1);
    let mut login = LoginRegisterView::new();
    login.handle_selection();
    login.handle_event(Events::Enter, text("alice"), &mut repo);
    login.handle_event(Events::Unknown, text("wrong"), &mut repo);
    assert!(!login.validate_credentials(&mut repo));
    assert_eq!(login.get_stage(), LoginStage::Failed);
    assert_eq!(login.get_user_id(), -1);
    let mut login = LoginRegisterView::new();
    login.handle_selection();
    login.handle_event(Events::Enter, text("alice"), &mut repo);
    login.handle_event(Events::Unknown, text("pw1"), &mut repo);
    assert!(login.validate_credentials(&mut repo));
    assert_eq!(login.get_user_id(), 1);
    assert_eq!(*login.get_navigate_to(), NavigateTo::MenuView);
}

#[test]
fn accepted_answer_logs_the_user_in() {
    let mut repo = screen_repository();
    assert_eq!(repo.create_user("alice", "pw1"), 1);
    let mut login = LoginRegisterView::new();
    login.handle_selection();
    assert!(login.settle_credentials(1, &mut repo));
    assert_eq!(login.get_user_id(), 1);
    assert_eq!(*login.get_navigate_to(), NavigateTo::MenuView);
    assert_eq!(repo.get_user(1)[1].1, "1");
}

#[test]
fn refused_answer_shows_the_error_and_asks_nothing() {
    let mut repo = screen_repository();
    assert_eq!(repo.create_user("alice", "pw1"), 1);
    for answer in [-1, 0] {
        let mut login = LoginRegisterView::new();
        login.handle_selection();
        assert!(!login.settle_credentials(answer, &mut repo));
        assert_eq!(login.get_stage(), LoginStage::Failed);
        assert_eq!(login.get_user_id(), -1);
        assert_eq!(*login.get_navigate_to(), NavigateTo::NoneView);
        assert_eq!(repo.get_user(1)[1].1, "0");
    }
}

#[test]
fn listings_show_the_page_they_are_given() {
    let mut repo = with_rooms(3);
    let mut rooms = RoomsView::new(1, &mut repo);
    rooms.move_down();
    rooms.show_page(vec![(text("den"), 4), (text("loft"), 0)]);
    assert_eq!(rooms.len(), 2);
    assert_eq!(rooms.get_selected_index(), 0);
    assert_eq!(rooms.get_selection(), "den");
    assert!(rooms.render().contains("> den: 4 online"));
    assert!(rooms.render().contains("  loft: 0 online"));
    rooms.show_page(Vec::new());
    assert_eq!(rooms.len(), 0);

    let mut users = UsersView::new(1, &mut repo);
    users.show_page(vec![(text("zoe"), true), (text("yan"), false)]);
    assert_eq!(users.len(), 2);
    assert_eq!(users.get_selection(), "zoe");
    let rendered = users.render();
    assert!(rendered.find("zoe").unwrap() < rendered.find("yan").unwrap());
}

#[test]
fn conversations_show_a_page_oldest_first() {
    let mut repo = screen_repository();
    let newest_first = vec![
        (2, text("12:02"), text("bob"), text("second")),
        (1, text("12:01"), text("alice"), text("first")),
    ];
    let shown = oldest_first(newest_first.clone());
    assert_eq!(shown[0].3, "first");
    assert_eq!(shown[1].3, "second");
    let mut room = RoomView::new(1, text("lobby"), 1, &mut repo);
    room.show_page(newest_first.clone());
    assert_eq!(room.len(), 2);
    let rendered = room.render();
    assert!(rendered.find("first").unwrap() < rendered.find("second").unwrap());
    let mut conversation = DirectMessageView::new(1, 2, &mut repo);
    conversation.show_page(newest_first);
    assert_eq!(conversation.len(), 2);
    let rendered = conversation.render();
    assert!(rendered.find("first").unwrap() < rendered.find("second").unwrap());
}
