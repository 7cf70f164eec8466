//! The main menu.

use vstd::prelude::*;
use vstd::view::View as _;
use crate::db::manage::{Manager, Request};
use crate::input_interface::Events;
use crate::text::{CLEAR_SCREEN, option_line, push_option_line};
use crate::views::base_view::{NavigateTo, View};

verus! {

pub const MENU_TITLE: &'static str =
    "\x1b[1;32mWelcome to Friendly Automations Rust BBS!\x1b[0m\r\n\r\n";

pub const MENU_HELP: &'static str = "\nUse ↑ (Arrow Up) / ↓ (Arrow Down) and Enter to select.\r\n";

pub const MENU_ROOMS: &'static str = "🚪 Rooms";

pub const MENU_PEOPLE: &'static str = "👥 People";

pub const MENU_ME: &'static str = "👨‍💻 Me";

pub const MENU_QUIT: &'static str = "❌ Quit";

/// Number of entries in the menu.
pub const MENU_SIZE: usize = 4;

/// The main menu: four entries and a cursor.
pub struct BBSMenu {
    user_id: i32,
    selected_index: usize,
    navigate_to: NavigateTo,
}

/// What a menu is, to a contract.
pub struct MenuModel {
    pub user_id: i32,
    pub selected: int,
    pub target: NavigateTo,
}

impl MenuModel {
    /// The label of entry `i`.
    pub open spec fn label(i: int) -> Seq<char> {
        if i == 0 {
            MENU_ROOMS@
        } else if i == 1 {
            MENU_PEOPLE@
        } else if i == 2 {
            MENU_ME@
        } else {
            MENU_QUIT@
        }
    }

    /// The cursor after `UpArrow`.
    pub open spec fn up(self) -> MenuModel {
        if self.selected > 0 {
            MenuModel { selected: self.selected - 1, ..self }
        } else {
            self
        }
    }

    /// The cursor after `DownArrow`.
    pub open spec fn down(self) -> MenuModel {
        if self.selected < MENU_SIZE - 1 {
            MenuModel { selected: self.selected + 1, ..self }
        } else {
            self
        }
    }

    /// Where `Enter` on the selected entry leads; `NoneView` for `Quit`.
    pub open spec fn chosen(self) -> NavigateTo {
        if self.selected == 0 {
            NavigateTo::RoomsView
        } else if self.selected == 1 {
            NavigateTo::PeopleView
        } else if self.selected == 2 {
            NavigateTo::MeView
        } else {
            NavigateTo::NoneView
        }
    }

    /// The menu after an event: arrows move the cursor, `Enter` on a
    /// destination records it, everything else leaves the menu alone.
    pub open spec fn next(self, event: Events) -> MenuModel {
        if event == Events::UpArrow {
            self.up()
        } else if event == Events::DownArrow {
            self.down()
        } else if event == Events::Enter && self.selected != MENU_SIZE - 1 {
            MenuModel { target: self.chosen(), ..self }
        } else {
            self
        }
    }

    /// The menu's answer to an event: `Enter` asks to navigate, or to exit
    /// on `Quit`; every other event passes through.
    pub open spec fn outcome(self, event: Events) -> Events {
        if event != Events::Enter {
            event
        } else if self.selected == MENU_SIZE - 1 {
            Events::Exit
        } else {
            Events::NavigateView
        }
    }

    /// The text of the menu.
    pub open spec fn screen(self) -> Seq<char> {
        CLEAR_SCREEN@ + MENU_TITLE@ + option_line(Self::label(0), self.selected == 0)
            + option_line(Self::label(1), self.selected == 1) + option_line(
            Self::label(2),
            self.selected == 2,
        ) + option_line(Self::label(3), self.selected == 3) + MENU_HELP@
    }
}

impl vstd::view::View for BBSMenu {
    type V = MenuModel;

    closed spec fn view(&self) -> MenuModel {
        MenuModel {
            user_id: self.user_id,
            selected: self.selected_index as int,
            target: self.navigate_to,
        }
    }
}

impl BBSMenu {
    /// The menu of `user_id`, with the cursor on the first entry.
    pub fn new(user_id: i32) -> (menu: Self)
        ensures
            menu@ == (MenuModel { user_id, selected: 0, target: NavigateTo::NoneView }),
            menu.well_formed(),
    {
        Self { user_id, selected_index: 0, navigate_to: NavigateTo::NoneView }
    }

    pub fn move_up(&mut self)
        requires
            old(self).well_formed(),
        ensures
            final(self)@ == old(self)@.up(),
            final(self).well_formed(),
    {
        if self.selected_index > 0 {
            self.selected_index = self.selected_index - 1;
        }
    }

    pub fn move_down(&mut self)
        requires
            old(self).well_formed(),
        ensures
            final(self)@ == old(self)@.down(),
            final(self).well_formed(),
    {
        if self.selected_index < MENU_SIZE - 1 {
            self.selected_index = self.selected_index + 1;
        }
    }

    /// The cursor's entry.
    pub fn get_selected_index(&self) -> (index: usize)
        ensures
            index == self@.selected,
    {
        self.selected_index
    }

    /// The label under the cursor.
    pub fn get_selection(&self) -> (label: &'static str)
        requires
            self.well_formed(),
        ensures
            label@ == MenuModel::label(self@.selected),
    {
        Self::label(self.selected_index)
    }

    fn label(i: usize) -> (label: &'static str)
        ensures
            label@ == MenuModel::label(i as int),
    {
        if i == 0 {
            MENU_ROOMS
        } else if i == 1 {
            MENU_PEOPLE
        } else if i == 2 {
            MENU_ME
        } else {
            MENU_QUIT
        }
    }

    pub fn get_user_id(&self) -> (id: i32)
        ensures
            id == self@.user_id,
    {
        self.user_id
    }
}

impl View for BBSMenu {
    open spec fn well_formed(&self) -> bool {
        0 <= self@.selected < MENU_SIZE
    }

    open spec fn target(&self) -> NavigateTo {
        self@.target
    }

    fn get_navigate_to(&self) -> (target: &NavigateTo) {
        &self.navigate_to
    }

    fn render(&self) -> (screen: String)
        ensures
            screen@ == self@.screen(),
    {
        let mut output = String::from_str(CLEAR_SCREEN);
        output.append(MENU_TITLE);
        push_option_line(&mut output, Self::label(0), self.selected_index == 0);
        push_option_line(&mut output, Self::label(1), self.selected_index == 1);
        push_option_line(&mut output, Self::label(2), self.selected_index == 2);
        push_option_line(&mut output, Self::label(3), self.selected_index == 3);
        output.append(MENU_HELP);
        output
    }

    /// The menu shows no stored data.
    open spec fn refresh_requests(&self, after: &Self) -> Seq<Request> {
        Seq::empty()
    }

    fn refresh_data(&mut self, repo: &mut Manager)
        ensures
            final(self)@ == old(self)@,
            *final(repo) == *old(repo),
    {
    }

    fn handle_event(&mut self, event: Events, buffer_string: String, repo: &mut Manager) -> (result:
        Events)
        ensures
            final(self)@ == old(self)@.next(event),
            result == old(self)@.outcome(event),
            *final(repo) == *old(repo),
    {
        if event == Events::UpArrow {
            self.move_up();
        } else if event == Events::DownArrow {
            self.move_down();
        }
        if event != Events::Enter {
            return event;
        }
        if self.selected_index == 3 {
            Events::Exit
        } else {
            if self.selected_index == 0 {
                self.navigate_to = NavigateTo::RoomsView;
            } else if self.selected_index == 1 {
                self.navigate_to = NavigateTo::PeopleView;
            } else {
                self.navigate_to = NavigateTo::MeView;
            }
            Events::NavigateView
        }
    }
}

} // verus!
