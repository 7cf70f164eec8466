//! The screen a session is showing: one of the seven, as a closed sum.

use vstd::prelude::*;
use vstd::view::View as _;
use crate::db::manage::{Manager, Request, issued};
use crate::input_interface::Events;
use crate::terminal::InputMode;
use crate::views::base_view::{NavigateTo, View};
use crate::views::direct_message_view::{DirectMessageModel, DirectMessageView};
use crate::views::login_register_view::LoginRegisterView;
use crate::views::menu_view::BBSMenu;
use crate::views::room_view::{RoomModel, RoomView};
use crate::views::rooms_view::RoomsView;
use crate::views::user_view::{UserModel, UserView};
use crate::views::users_view::UsersView;

verus! {

/// The screen a session is showing.
pub enum CurrentView {
    Login(LoginRegisterView),
    Menu(BBSMenu),
    Rooms(RoomsView),
    Room(RoomView),
    Users(UsersView),
    User(UserView),
    DirectMessage(DirectMessageView),
}

impl CurrentView {
    /// The text of the screen.
    pub open spec fn screen(self) -> Seq<char> {
        match self {
            CurrentView::Login(v) => v@.screen(),
            CurrentView::Menu(v) => v@.screen(),
            CurrentView::Rooms(v) => v@.screen(),
            CurrentView::Room(v) => v@.screen(),
            CurrentView::Users(v) => v@.screen(),
            CurrentView::User(v) => v@.screen(),
            CurrentView::DirectMessage(v) => v@.screen(),
        }
    }

    /// The input mode a session enters the screen in: the two message
    /// screens take text, the others take commands.
    pub open spec fn entry_mode(self) -> InputMode {
        match self {
            CurrentView::Room(_) => InputMode::LineInput,
            CurrentView::DirectMessage(_) => InputMode::LineInput,
            _ => InputMode::Navigation,
        }
    }

    /// What the repository is asked when the screen `before` handles an
    /// event, by the rules of its kind. For submitted credentials that
    /// depends on whether they were accepted, which `after` and `result` tell.
    pub open spec fn requested(
        before: CurrentView,
        event: Events,
        buffer: Seq<char>,
        after: CurrentView,
        result: Events,
    ) -> Seq<Request> {
        match (before, after) {
            (CurrentView::Login(a), CurrentView::Login(b)) => if a@.submits(event) {
                a@.typed(buffer).submission(
                    if result == Events::Authenticate {
                        b@.user_id
                    } else {
                        -1i32
                    },
                )
            } else {
                Seq::empty()
            },
            (CurrentView::Rooms(a), CurrentView::Rooms(b)) => a@.requests(event, b@.rooms),
            (CurrentView::Room(a), CurrentView::Room(b)) => a@.requests(event, b@.messages),
            (CurrentView::Users(a), CurrentView::Users(b)) => a@.requests(event, b@.users),
            (CurrentView::DirectMessage(a), CurrentView::DirectMessage(b)) => a@.requests(
                event,
                b@.messages,
            ),
            _ => Seq::empty(),
        }
    }

    /// `after` and `result` are what the screen `before` makes of an event,
    /// by the rules of its kind.
    pub open spec fn handled(
        before: CurrentView,
        event: Events,
        buffer: Seq<char>,
        after: CurrentView,
        result: Events,
    ) -> bool {
        match (before, after) {
            (CurrentView::Login(a), CurrentView::Login(b)) => if a@.submits(event) {
                ||| (result == Events::Authenticate && b@.user_id > 0 && b@ == a@.typed(
                    buffer,
                ).accepted(b@.user_id))
                ||| (result == Events::InputModeDisable && b@ == a@.typed(buffer).rejected())
            } else {
                b@ == a@.next(event, buffer) && result == a@.outcome(event)
            },
            (CurrentView::Menu(a), CurrentView::Menu(b)) => b@ == a@.next(event) && result
                == a@.outcome(event),
            (CurrentView::Rooms(a), CurrentView::Rooms(b)) => {
                &&& b@ == a@.next(event, buffer, b@.rooms)
                &&& result == a@.outcome(event)
                &&& !a@.fetches(event) ==> b@.rooms == a@.rooms
            },
            (CurrentView::Room(a), CurrentView::Room(b)) => {
                &&& b@ == a@.next(event, buffer, b@.messages)
                &&& result == a@.outcome(event)
                &&& !a@.fetches(event) ==> b@.messages == a@.messages
            },
            (CurrentView::Users(a), CurrentView::Users(b)) => {
                &&& b@ == a@.next(event, buffer, b@.users)
                &&& result == a@.outcome(event)
                &&& !a@.fetches(event) ==> b@.users == a@.users
            },
            (CurrentView::User(a), CurrentView::User(b)) => b@ == a@.next(event) && result
                == a@.outcome(event),
            (CurrentView::DirectMessage(a), CurrentView::DirectMessage(b)) => {
                &&& b@ == a@.next(event, buffer, b@.messages)
                &&& result == a@.outcome(event)
                &&& !a@.fetches(event) ==> b@.messages == a@.messages
            },
            _ => false,
        }
    }

    /// `after` is the screen `before` with its data read again: nothing but
    /// the data has changed, and a listing's cursor is back on the first row.
    pub open spec fn refreshed(before: CurrentView, after: CurrentView) -> bool {
        match (before, after) {
            (CurrentView::Login(a), CurrentView::Login(b)) => b@ == a@,
            (CurrentView::Menu(a), CurrentView::Menu(b)) => b@ == a@,
            (CurrentView::Rooms(a), CurrentView::Rooms(b)) => b@ == a@.loaded(b@.rooms),
            (CurrentView::Room(a), CurrentView::Room(b)) => b@ == (RoomModel {
                messages: b@.messages,
                ..a@
            }),
            (CurrentView::Users(a), CurrentView::Users(b)) => b@ == a@.loaded(b@.users),
            (CurrentView::User(a), CurrentView::User(b)) => b@ == (UserModel {
                user_data: b@.user_data,
                ..a@
            }),
            (CurrentView::DirectMessage(a), CurrentView::DirectMessage(b)) => b@ == (
            DirectMessageModel { messages: b@.messages, ..a@ }),
            _ => false,
        }
    }
}

impl View for CurrentView {
    open spec fn well_formed(&self) -> bool {
        match self {
            CurrentView::Login(v) => v.well_formed(),
            CurrentView::Menu(v) => v.well_formed(),
            CurrentView::Rooms(v) => v.well_formed(),
            CurrentView::Room(v) => v.well_formed(),
            CurrentView::Users(v) => v.well_formed(),
            CurrentView::User(v) => v.well_formed(),
            CurrentView::DirectMessage(v) => v.well_formed(),
        }
    }

    open spec fn target(&self) -> NavigateTo {
        match self {
            CurrentView::Login(v) => v.target(),
            CurrentView::Menu(v) => v.target(),
            CurrentView::Rooms(v) => v.target(),
            CurrentView::Room(v) => v.target(),
            CurrentView::Users(v) => v.target(),
            CurrentView::User(v) => v.target(),
            CurrentView::DirectMessage(v) => v.target(),
        }
    }

    fn get_navigate_to(&self) -> (target: &NavigateTo) {
        match self {
            CurrentView::Login(v) => v.get_navigate_to(),
            CurrentView::Menu(v) => v.get_navigate_to(),
            CurrentView::Rooms(v) => v.get_navigate_to(),
            CurrentView::Room(v) => v.get_navigate_to(),
            CurrentView::Users(v) => v.get_navigate_to(),
            CurrentView::User(v) => v.get_navigate_to(),
            CurrentView::DirectMessage(v) => v.get_navigate_to(),
        }
    }

    fn render(&self) -> (screen: String)
        ensures
            screen@ == self.screen(),
    {
        match self {
            CurrentView::Login(v) => v.render(),
            CurrentView::Menu(v) => v.render(),
            CurrentView::Rooms(v) => v.render(),
            CurrentView::Room(v) => v.render(),
            CurrentView::Users(v) => v.render(),
            CurrentView::User(v) => v.render(),
            CurrentView::DirectMessage(v) => v.render(),
        }
    }

    open spec fn refresh_requests(&self, after: &Self) -> Seq<Request> {
        match (self, after) {
            (CurrentView::Login(a), CurrentView::Login(b)) => a.refresh_requests(b),
            (CurrentView::Menu(a), CurrentView::Menu(b)) => a.refresh_requests(b),
            (CurrentView::Rooms(a), CurrentView::Rooms(b)) => a.refresh_requests(b),
            (CurrentView::Room(a), CurrentView::Room(b)) => a.refresh_requests(b),
            (CurrentView::Users(a), CurrentView::Users(b)) => a.refresh_requests(b),
            (CurrentView::User(a), CurrentView::User(b)) => a.refresh_requests(b),
            (CurrentView::DirectMessage(a), CurrentView::DirectMessage(b)) => a.refresh_requests(b),
            _ => Seq::empty(),
        }
    }

    fn refresh_data(&mut self, repo: &mut Manager)
        ensures
            Self::refreshed(*old(self), *final(self)),
    {
        match self {
            CurrentView::Login(v) => v.refresh_data(repo),
            CurrentView::Menu(v) => v.refresh_data(repo),
            CurrentView::Rooms(v) => v.refresh_data(repo),
            CurrentView::Room(v) => v.refresh_data(repo),
            CurrentView::Users(v) => v.refresh_data(repo),
            CurrentView::User(v) => v.refresh_data(repo),
            CurrentView::DirectMessage(v) => v.refresh_data(repo),
        }
    }

    fn handle_event(&mut self, event: Events, buffer_string: String, repo: &mut Manager) -> (result:
        Events)
        ensures
            Self::handled(*old(self), event, buffer_string@, *final(self), result),
            issued(
                *old(repo),
                *final(repo),
                Self::requested(*old(self), event, buffer_string@, *final(self), result),
            ),
    {
        match self {
            CurrentView::Login(v) => v.handle_event(event, buffer_string, repo),
            CurrentView::Menu(v) => v.handle_event(event, buffer_string, repo),
            CurrentView::Rooms(v) => v.handle_event(event, buffer_string, repo),
            CurrentView::Room(v) => v.handle_event(event, buffer_string, repo),
            CurrentView::Users(v) => v.handle_event(event, buffer_string, repo),
            CurrentView::User(v) => v.handle_event(event, buffer_string, repo),
            CurrentView::DirectMessage(v) => v.handle_event(event, buffer_string, repo),
        }
    }
}

} // verus!
