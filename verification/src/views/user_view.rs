//! A user's profile: the session's own, or somebody else's.

use vstd::prelude::*;
use vstd::view::View as _;
use crate::db::manage::{Manager, Request, is_profile, issued, lemma_issued_one};
use crate::input_interface::Events;
use crate::text::{CLEAR_SCREEN, same_text};
use crate::views::base_view::{NavigateTo, View};

verus! {

pub const PROFILE_OWN_TITLE: &'static str = "\x1b[1;32mMe\x1b[0m\r\n\r\n";

pub const PROFILE_ONLINE: &'static str = "🟢 online\r\n";

pub const PROFILE_OFFLINE: &'static str = "⚪️  offline\r\n";

pub const PROFILE_OWN_HELP: &'static str = "\n[H] Home\r\n";

pub const PROFILE_OTHER_HELP: &'static str = "\n[S] Send Message\r\n[H] Home\r\n";

/// A user's profile.
pub struct UserView {
    user_id: i32,
    navigate_to: NavigateTo,
    is_current_user: bool,
    user_data: Vec<(String, String)>,
}

/// What a profile is, to a contract.
pub struct UserModel {
    /// The user on display.
    pub user_id: i32,
    pub target: NavigateTo,
    /// The profile is the session's own.
    pub is_current_user: bool,
    /// The profile as (label, value) pairs, the user's name first.
    pub user_data: Seq<(Seq<char>, Seq<char>)>,
}

impl UserModel {
    /// The profile as first shown, given the data that was read.
    pub open spec fn initial(
        user_id: i32,
        is_current_user: bool,
        fetched: Seq<(Seq<char>, Seq<char>)>,
    ) -> UserModel {
        UserModel { user_id, target: NavigateTo::NoneView, is_current_user, user_data: fetched }
    }

    /// Whether the event opens a conversation: `KeyS` on somebody else's profile.
    pub open spec fn opens_conversation(self, event: Events) -> bool {
        event == Events::KeyS && !self.is_current_user
    }

    /// The profile after an event.
    pub open spec fn next(self, event: Events) -> UserModel {
        if self.opens_conversation(event) {
            UserModel { target: NavigateTo::DirectMessageView, ..self }
        } else if event == Events::KeyH {
            UserModel { target: NavigateTo::MenuView, ..self }
        } else {
            self
        }
    }

    /// The profile's answer to an event.
    pub open spec fn outcome(self, event: Events) -> Events {
        if self.opens_conversation(event) || event == Events::KeyH {
            Events::NavigateView
        } else {
            event
        }
    }

    /// The name of the user on display; empty where no data was found.
    pub open spec fn username(self) -> Seq<char> {
        if self.user_data.len() > 0 {
            self.user_data[0].1
        } else {
            Seq::empty()
        }
    }

    /// One line of the profile.
    pub open spec fn detail_line(entry: (Seq<char>, Seq<char>)) -> Seq<char> {
        if entry.0 == "online"@ {
            if entry.1 == "1"@ {
                PROFILE_ONLINE@
            } else {
                PROFILE_OFFLINE@
            }
        } else {
            entry.0 + ": "@ + entry.1 + "\r\n"@
        }
    }

    /// The first `count` lines of the profile.
    pub open spec fn detail_lines(self, count: int) -> Seq<char>
        decreases count,
    {
        if count <= 0 {
            Seq::empty()
        } else {
            self.detail_lines(count - 1) + Self::detail_line(self.user_data[count - 1])
        }
    }

    /// The text of the profile.
    pub open spec fn screen(self) -> Seq<char> {
        let title = if self.is_current_user {
            PROFILE_OWN_TITLE@
        } else {
            "\x1b[1;32m"@ + self.username() + "\x1b[0m\r\n\r\n"@
        };
        let help = if self.is_current_user {
            PROFILE_OWN_HELP@
        } else {
            PROFILE_OTHER_HELP@
        };
        CLEAR_SCREEN@ + title + self.detail_lines(self.user_data.len() as int) + help
    }
}

impl vstd::view::View for UserView {
    type V = UserModel;

    closed spec fn view(&self) -> UserModel {
        UserModel {
            user_id: self.user_id,
            target: self.navigate_to,
            is_current_user: self.is_current_user,
            user_data: self.user_data.deep_view(),
        }
    }
}

impl UserView {
    /// The profile of `user_id` as first shown.
    pub fn new(user_id: i32, is_current_user: bool, repo: &mut Manager) -> (view: Self)
        ensures
            view@ == UserModel::initial(user_id, is_current_user, view@.user_data),
            view.well_formed(),
            issued(
                *old(repo),
                *final(repo),
                seq![Request::GetUser { user_id, profile: view@.user_data }],
            ),
    {
        let user_data = repo.get_user(user_id);
        proof {
            lemma_issued_one(
                *old(repo),
                *repo,
                Request::GetUser { user_id, profile: user_data.deep_view() },
            );
        }
        Self { user_id, navigate_to: NavigateTo::NoneView, is_current_user, user_data }
    }

    /// A profile has no cursor to move.
    pub fn move_up(&mut self)
        ensures
            final(self)@ == old(self)@,
    {
    }

    /// A profile has no cursor to move.
    pub fn move_down(&mut self)
        ensures
            final(self)@ == old(self)@,
    {
    }

    /// The user on display.
    pub fn get_user_id(&self) -> (id: i32)
        ensures
            id == self@.user_id,
    {
        self.user_id
    }

    fn push_detail_line(out: &mut String, label: &str, value: &str)
        ensures
            final(out)@ == old(out)@ + UserModel::detail_line((label@, value@)),
    {
        if same_text(label, "online") {
            if same_text(value, "1") {
                out.append(PROFILE_ONLINE);
            } else {
                out.append(PROFILE_OFFLINE);
            }
        } else {
            out.append(label);
            out.append(": ");
            out.append(value);
            out.append("\r\n");
        }
    }
}

impl View for UserView {
    /// The data is a profile: empty, or the user's name, whether they are
    /// logged in and the date they registered, in this order.
    open spec fn well_formed(&self) -> bool {
        is_profile(self@.user_data)
    }

    open spec fn target(&self) -> NavigateTo {
        self@.target
    }

    fn get_navigate_to(&self) -> (target: &NavigateTo) {
        &self.navigate_to
    }

    fn render(&self) -> (screen: String)
        ensures
            screen@ == self@.screen(),
    {
        let mut output = String::from_str(CLEAR_SCREEN);
        if self.is_current_user {
            output.append(PROFILE_OWN_TITLE);
        } else {
            output.append("\x1b[1;32m");
            if self.user_data.len() > 0 {
                output.append(self.user_data[0].1.as_str());
            }
            output.append("\x1b[0m\r\n\r\n");
        }
        let ghost head = output@;
        let mut i: usize = 0;
        while i < self.user_data.len()
            invariant
                0 <= i <= self.user_data@.len(),
                self.user_data.deep_view().len() == self.user_data@.len(),
                output@ == head + self@.detail_lines(i as int),
            decreases self.user_data@.len() - i,
        {
            let entry = &self.user_data[i];
            Self::push_detail_line(&mut output, entry.0.as_str(), entry.1.as_str());
            i = i + 1;
        }
        if self.is_current_user {
            output.append(PROFILE_OWN_HELP);
        } else {
            output.append(PROFILE_OTHER_HELP);
        }
        output
    }

    open spec fn refresh_requests(&self, after: &Self) -> Seq<Request> {
        seq![Request::GetUser { user_id: self@.user_id, profile: after@.user_data }]
    }

    fn refresh_data(&mut self, repo: &mut Manager)
        ensures
            final(self)@ == (UserModel { user_data: final(self)@.user_data, ..old(self)@ }),
    {
        self.user_data = repo.get_user(self.user_id);
        proof {
            lemma_issued_one(
                *old(repo),
                *repo,
                Request::GetUser { user_id: self.user_id, profile: self@.user_data },
            );
        }
    }

    fn handle_event(&mut self, event: Events, buffer_string: String, repo: &mut Manager) -> (result:
        Events)
        ensures
            final(self)@ == old(self)@.next(event),
            result == old(self)@.outcome(event),
            *final(repo) == *old(repo),
    {
        if event == Events::KeyS && !self.is_current_user {
            self.navigate_to = NavigateTo::DirectMessageView;
            Events::NavigateView
        } else if event == Events::KeyH {
            self.navigate_to = NavigateTo::MenuView;
            Events::NavigateView
        } else {
            event
        }
    }
}

} // verus!
