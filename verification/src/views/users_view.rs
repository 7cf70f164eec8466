//! The users listing: select a user to look at, or search by name.

use vstd::prelude::*;
use vstd::view::View as _;
use crate::db::manage::{Manager, PAGE_SIZE, Request, issued, lemma_issued_one};
use crate::input_interface::Events;
use crate::text::CLEAR_SCREEN;
use crate::views::base_view::{NavigateTo, View};

verus! {

pub const USERS_TITLE: &'static str = "\x1b[1;32mUsers\x1b[0m\r\n\r\n";

pub const USERS_SEARCH_PROMPT: &'static str = "\x1b[1;33m> Search (CNTRL+Q to exit): ";

pub const USERS_HELP: &'static str = "\nUse ↑ (Arrow Up) / ↓ (Arrow Down) and Enter to select a user\r\n[S] Search for a user.\r\n[N] Next Page\r\n[H / CNTRL+Q] Home\r\n";

pub const USER_ONLINE: &'static str = "🟢 online";

pub const USER_OFFLINE: &'static str = "⚪️ offline";

/// The users listing.
pub struct UsersView {
    users: Vec<(String, bool)>,
    navigate_to: NavigateTo,
    searching_user: bool,
    selected_index: usize,
    offset: i32,
    query: String,
}

/// What a users listing is, to a contract.
pub struct UsersModel {
    /// The search prompt is open and keys are text.
    pub searching: bool,
    /// The text typed into the search prompt.
    pub query: Seq<char>,
    /// The page on display: name of each user and whether they are logged in.
    pub users: Seq<(Seq<char>, bool)>,
    /// The cursor: an index into `users`.
    pub selected: int,
    /// The row of the whole listing at which the page begins.
    pub offset: int,
    pub target: NavigateTo,
}

impl UsersModel {
    /// The cursor is on a row of the page (or at 0 on an empty page), the
    /// page is no longer than a page, and the offset is not negative.
    pub open spec fn wf(self) -> bool {
        &&& self.users.len() <= PAGE_SIZE
        &&& 0 <= self.selected
        &&& self.users.len() == 0 ==> self.selected == 0
        &&& self.users.len() > 0 ==> self.selected < self.users.len()
        &&& 0 <= self.offset <= i32::MAX
    }

    /// The listing as first shown, given the page that was read.
    pub open spec fn initial(fetched: Seq<(Seq<char>, bool)>) -> UsersModel {
        UsersModel {
            searching: false,
            query: Seq::empty(),
            users: fetched,
            selected: 0,
            offset: 0,
            target: NavigateTo::NoneView,
        }
    }

    /// The listing showing a page that was just read, cursor on its first row.
    pub open spec fn loaded(self, fetched: Seq<(Seq<char>, bool)>) -> UsersModel {
        UsersModel { users: fetched, selected: 0, ..self }
    }

    /// `UpArrow` with the cursor on the first row of a full page reads the
    /// next block.
    pub open spec fn pages_up(self) -> bool {
        self.selected == 0 && self.users.len() == PAGE_SIZE && self.offset < i32::MAX
    }

    /// `DownArrow` with the cursor on the last row reads the previous block,
    /// unless the page is the first.
    pub open spec fn pages_down(self) -> bool {
        !(self.selected + 1 < self.users.len()) && self.offset != 0
    }

    /// The listing after `UpArrow` while selecting.
    pub open spec fn up(self, fetched: Seq<(Seq<char>, bool)>) -> UsersModel {
        if self.selected > 0 {
            UsersModel { selected: self.selected - 1, ..self }
        } else if self.pages_up() {
            UsersModel { offset: self.offset + 1, ..self }.loaded(fetched)
        } else {
            self
        }
    }

    /// The listing after `DownArrow` while selecting.
    pub open spec fn down(self, fetched: Seq<(Seq<char>, bool)>) -> UsersModel {
        if self.selected + 1 < self.users.len() {
            UsersModel { selected: self.selected + 1, ..self }
        } else if self.pages_down() {
            UsersModel { offset: self.offset - 1, ..self }.loaded(fetched)
        } else {
            self
        }
    }

    /// The listing back to selecting on the first block with an empty
    /// prompt, showing the page that was read on the way.
    pub open spec fn settled(self, fetched: Seq<(Seq<char>, bool)>) -> UsersModel {
        UsersModel { searching: false, query: Seq::empty(), offset: 0, ..self }.loaded(fetched)
    }

    /// The request that reads the page: a search while a query is typed,
    /// the block at the current offset otherwise.
    pub open spec fn load_request(self, page: Seq<(Seq<char>, bool)>) -> Request {
        if self.query.len() > 0 {
            Request::SearchUsers { query: self.query, users: page }
        } else {
            Request::GetOnlineUsers { offset: self.offset as i32, users: page }
        }
    }

    /// What the repository is asked when the listing handles an event:
    /// - arrows that page read the block one row further on or back;
    /// - `CntrlQ` at the prompt reads the first block of the plain listing;
    /// - `Enter` on a query reads the users that match;
    /// - nothing else asks anything.
    pub open spec fn requests(self, event: Events, page: Seq<(Seq<char>, bool)>) -> Seq<Request> {
        if self.searching {
            if event == Events::CntrlQ {
                seq![Request::GetOnlineUsers { offset: 0, users: page }]
            } else if event == Events::Enter && self.query.len() > 0 {
                seq![Request::SearchUsers { query: self.query, users: page }]
            } else {
                Seq::empty()
            }
        } else {
            if event == Events::UpArrow && self.pages_up() {
                seq![(UsersModel { offset: self.offset + 1, ..self }).load_request(page)]
            } else if event == Events::DownArrow && self.pages_down() {
                seq![(UsersModel { offset: self.offset - 1, ..self }).load_request(page)]
            } else {
                Seq::empty()
            }
        }
    }

    /// Whether the event makes the listing read the repository.
    pub open spec fn fetches(self, event: Events) -> bool {
        if self.searching {
            event == Events::CntrlQ || (event == Events::Enter && self.query.len() > 0)
        } else {
            ||| (event == Events::UpArrow && self.pages_up())
            ||| (event == Events::DownArrow && self.pages_down())
        }
    }

    /// The listing after an event, where `fetched` is the page read from
    /// the repository if the event makes the listing read one.
    pub open spec fn next(
        self,
        event: Events,
        buffer: Seq<char>,
        fetched: Seq<(Seq<char>, bool)>,
    ) -> UsersModel {
        if self.searching {
            if event == Events::CntrlQ {
                self.settled(fetched)
            } else if event != Events::Enter {
                if buffer.len() > 0 {
                    UsersModel { query: buffer, ..self }
                } else {
                    self
                }
            } else if self.query.len() > 0 {
                self.settled(fetched)
            } else {
                self
            }
        } else {
            if event == Events::UpArrow {
                self.up(fetched)
            } else if event == Events::DownArrow {
                self.down(fetched)
            } else if event == Events::Enter && self.users.len() > 0 {
                UsersModel { target: NavigateTo::UserView, ..self }
            } else if event == Events::KeyH || event == Events::CntrlQ {
                UsersModel { target: NavigateTo::MenuView, ..self }
            } else if event == Events::KeyS {
                UsersModel { searching: true, query: Seq::empty(), ..self }
            } else {
                self
            }
        }
    }

    /// The listing's answer to an event.
    pub open spec fn outcome(self, event: Events) -> Events {
        if self.searching {
            if event == Events::CntrlQ || (event == Events::Enter && self.query.len() > 0) {
                Events::InputModeDisable
            } else {
                event
            }
        } else {
            if event == Events::Enter && self.users.len() > 0 {
                Events::NavigateView
            } else if event == Events::KeyH || event == Events::CntrlQ {
                Events::NavigateView
            } else if event == Events::KeyS {
                Events::InputModeEnable
            } else {
                event
            }
        }
    }

    /// One row of the page.
    pub open spec fn user_line(entry: (Seq<char>, bool), highlighted: bool) -> Seq<char> {
        let status = if entry.1 {
            USER_ONLINE@
        } else {
            USER_OFFLINE@
        };
        if highlighted {
            "\x1b[1;33m> "@ + entry.0 + ": "@ + status + "\x1b[0m\r\n"@
        } else {
            "  "@ + entry.0 + ": "@ + status + "\r\n"@
        }
    }

    /// The first `count` rows of the page.
    pub open spec fn user_lines(self, count: int) -> Seq<char>
        decreases count,
    {
        if count <= 0 {
            Seq::empty()
        } else {
            self.user_lines(count - 1) + Self::user_line(
                self.users[count - 1],
                count - 1 == self.selected,
            )
        }
    }

    /// The text of the listing.
    pub open spec fn screen(self) -> Seq<char> {
        CLEAR_SCREEN@ + USERS_TITLE@ + if self.searching {
            USERS_SEARCH_PROMPT@ + self.query
        } else {
            self.user_lines(self.users.len() as int) + USERS_HELP@
        }
    }
}

impl vstd::view::View for UsersView {
    type V = UsersModel;

    closed spec fn view(&self) -> UsersModel {
        UsersModel {
            searching: self.searching_user,
            query: self.query@,
            users: self.users.deep_view(),
            selected: self.selected_index as int,
            offset: self.offset as int,
            target: self.navigate_to,
        }
    }
}

impl UsersView {
    /// The listing as first shown: the first block of users, cursor on top.
    pub fn new(user_id: i32, repo: &mut Manager) -> (view: Self)
        ensures
            view@ == UsersModel::initial(view@.users),
            view.well_formed(),
            issued(
                *old(repo),
                *final(repo),
                seq![Request::GetOnlineUsers { offset: 0, users: view@.users }],
            ),
    {
        let users = repo.get_online_users(0);
        proof {
            lemma_issued_one(
                *old(repo),
                *repo,
                Request::GetOnlineUsers { offset: 0, users: users.deep_view() },
            );
        }
        Self {
            users,
            navigate_to: NavigateTo::NoneView,
            searching_user: false,
            selected_index: 0,
            offset: 0,
            query: String::new(),
        }
    }

    /// Moves the cursor one row up, if there is one.
    pub fn move_up(&mut self)
        requires
            old(self).well_formed(),
        ensures
            final(self).well_formed(),
            old(self)@.selected > 0 ==> final(self)@ == old(self)@.up(Seq::empty()),
            old(self)@.selected == 0 ==> final(self)@ == old(self)@,
    {
        if self.selected_index > 0 {
            self.selected_index = self.selected_index - 1;
        }
    }

    /// Moves the cursor one row down, if there is one.
    pub fn move_down(&mut self)
        requires
            old(self).well_formed(),
        ensures
            final(self).well_formed(),
            old(self)@.selected + 1 < old(self)@.users.len() ==> final(self)@ == old(self)@.down(
                Seq::empty(),
            ),
            !(old(self)@.selected + 1 < old(self)@.users.len()) ==> final(self)@ == old(self)@,
    {
        let display_size: usize = self.users.len();
        if display_size > 0 && self.selected_index < display_size - 1 {
            self.selected_index = self.selected_index + 1;
        }
    }

    /// The name of the user under the cursor.
    pub fn get_selection(&self) -> (name: &str)
        requires
            self.well_formed(),
            self@.users.len() > 0,
        ensures
            name@ == self@.users[self@.selected].0,
    {
        self.users[self.selected_index].0.as_str()
    }

    /// The row of the whole listing at which the page on display begins.
    pub fn get_offset(&self) -> (offset: i32)
        ensures
            offset == self@.offset,
    {
        self.offset
    }

    /// The cursor's row on the page.
    pub fn get_selected_index(&self) -> (index: usize)
        ensures
            index == self@.selected,
    {
        self.selected_index
    }

    /// Number of users on the page.
    pub fn len(&self) -> (count: usize)
        ensures
            count == self@.users.len(),
    {
        self.users.len()
    }

    /// Whether the search prompt is open.
    pub fn is_searching(&self) -> (searching: bool)
        ensures
            searching == self@.searching,
    {
        self.searching_user
    }

    /// Whether a user is under the cursor.
    pub fn has_selection(&self) -> (some: bool)
        ensures
            some == (self@.users.len() > 0),
    {
        self.users.len() > 0
    }

    /// Shows a page that was read, with the cursor on its first row.
    pub fn show_page(&mut self, page: Vec<(String, bool)>)
        requires
            page@.len() <= PAGE_SIZE,
            0 <= old(self)@.offset <= i32::MAX,
        ensures
            final(self)@ == old(self)@.loaded(page.deep_view()),
            final(self).well_formed(),
    {
        assert(page.deep_view().len() == page@.len());
        self.users = page;
        self.selected_index = 0;
    }

    /// Reads a page, a search while a query is typed and the block at the
    /// current offset otherwise, and shows what the repository answered.
    fn load(&mut self, repo: &mut Manager)
        requires
            0 <= old(self)@.offset <= i32::MAX,
        ensures
            final(self)@ == old(self)@.loaded(final(self)@.users),
            final(self).well_formed(),
            issued(*old(repo), *final(repo), seq![old(self)@.load_request(final(self)@.users)]),
    {
        let page = if !self.query.as_str().is_empty() {
            repo.search_users(self.query.clone())
        } else {
            repo.get_online_users(self.offset)
        };
        proof {
            lemma_issued_one(*old(repo), *repo, old(self)@.load_request(page.deep_view()));
        }
        self.show_page(page);
    }

    fn push_user_line(out: &mut String, name: &str, online: bool, highlighted: bool)
        ensures
            final(out)@ == old(out)@ + UsersModel::user_line((name@, online), highlighted),
    {
        if highlighted {
            out.append("\x1b[1;33m> ");
        } else {
            out.append("  ");
        }
        out.append(name);
        out.append(": ");
        if online {
            out.append(USER_ONLINE);
        } else {
            out.append(USER_OFFLINE);
        }
        if highlighted {
            out.append("\x1b[0m\r\n");
        } else {
            out.append("\r\n");
        }
    }
}

impl View for UsersView {
    open spec fn well_formed(&self) -> bool {
        self@.wf()
    }

    open spec fn target(&self) -> NavigateTo {
        self@.target
    }

    fn get_navigate_to(&self) -> (target: &NavigateTo) {
        &self.navigate_to
    }

    fn render(&self) -> (screen: String)
        ensures
            screen@ == self@.screen(),
    {
        let mut output = String::from_str(CLEAR_SCREEN);
        output.append(USERS_TITLE);
        if self.searching_user {
            output.append(USERS_SEARCH_PROMPT);
            output.append(self.query.as_str());
        } else {
            let ghost head = output@;
            let mut i: usize = 0;
            while i < self.users.len()
                invariant
                    0 <= i <= self.users@.len(),
                    self.users.deep_view().len() == self.users@.len(),
                    output@ == head + self@.user_lines(i as int),
                decreases self.users@.len() - i,
            {
                let entry = &self.users[i];
                Self::push_user_line(
                    &mut output,
                    entry.0.as_str(),
                    entry.1,
                    i == self.selected_index,
                );
                i = i + 1;
            }
            output.append(USERS_HELP);
        }
        output
    }

    open spec fn refresh_requests(&self, after: &Self) -> Seq<Request> {
        seq![self@.load_request(after@.users)]
    }

    fn refresh_data(&mut self, repo: &mut Manager)
        ensures
            final(self)@ == old(self)@.loaded(final(self)@.users),
    {
        self.load(repo);
    }

    fn handle_event(&mut self, event: Events, buffer_string: String, repo: &mut Manager) -> (result:
        Events)
        ensures
            final(self)@ == old(self)@.next(event, buffer_string@, final(self)@.users),
            result == old(self)@.outcome(event),
            !old(self)@.fetches(event) ==> final(self)@.users == old(self)@.users,
            issued(*old(repo), *final(repo), old(self)@.requests(event, final(self)@.users)),
    {
        if self.searching_user {
            if event == Events::CntrlQ {
                self.searching_user = false;
                self.query = String::new();
                self.offset = 0;
                self.load(repo);
                Events::InputModeDisable
            } else if event != Events::Enter {
                if !buffer_string.as_str().is_empty() {
                    self.query = buffer_string;
                }
                event
            } else if !self.query.as_str().is_empty() {
                self.offset = 0;
                self.load(repo);
                self.query = String::new();
                self.searching_user = false;
                Events::InputModeDisable
            } else {
                event
            }
        } else {
            if event == Events::UpArrow {
                if self.selected_index == 0 && self.users.len() == PAGE_SIZE && self.offset
                    < i32::MAX {
                    self.offset = self.offset + 1;
                    self.load(repo);
                } else {
                    self.move_up();
                }
                event
            } else if event == Events::DownArrow {
                if !(self.selected_index + 1 < self.users.len()) && self.offset != 0 {
                    self.offset = self.offset - 1;
                    self.load(repo);
                } else {
                    self.move_down();
                }
                event
            } else if event == Events::Enter && self.users.len() > 0 {
                self.navigate_to = NavigateTo::UserView;
                Events::NavigateView
            } else if event == Events::KeyH || event == Events::CntrlQ {
                self.navigate_to = NavigateTo::MenuView;
                Events::NavigateView
            } else if event == Events::KeyS {
                self.searching_user = true;
                self.query = String::new();
                Events::InputModeEnable
            } else {
                event
            }
        }
    }
}

/// The listing after a run of keys, each given as the event and the text
/// handed over with it, where `pages[i]` is what the repository returns if
/// key `i` makes the listing read a page.
pub open spec fn after_keys(
    start: UsersModel,
    keys: Seq<(Events, Seq<char>)>,
    pages: Seq<Seq<(Seq<char>, bool)>>,
) -> UsersModel
    decreases keys.len(),
{
    if keys.len() == 0 || pages.len() != keys.len() {
        start
    } else {
        after_keys(start, keys.drop_last(), pages.drop_last()).next(
            keys.last().0,
            keys.last().1,
            pages.last(),
        )
    }
}

/// Any run of keys on a listing, arrow keys or others, leaves the cursor
/// on a row of the page on display, whatever pages the repository returns
/// on the way.
pub proof fn lemma_arrows_keep_cursor_in_range(
    start: UsersModel,
    keys: Seq<(Events, Seq<char>)>,
    pages: Seq<Seq<(Seq<char>, bool)>>,
)
    requires
        start.wf(),
        keys.len() == pages.len(),
        forall|i: int| 0 <= i < pages.len() ==> (#[trigger] pages[i]).len() <= PAGE_SIZE,
    ensures
        after_keys(start, keys, pages).wf(),
        ({
            let end = after_keys(start, keys, pages);
            end.users.len() > 0 ==> 0 <= end.selected <= end.users.len() - 1
        }),
    decreases keys.len(),
{
    if keys.len() > 0 {
        lemma_arrows_keep_cursor_in_range(start, keys.drop_last(), pages.drop_last());
    }
}

/// An arrow key that does not turn the page moves the cursor by one row,
/// or holds it at the edge it is on, and leaves the page, the offset and
/// everything else of the listing alone; it is passed through and asks
/// nothing of the repository.
pub proof fn lemma_arrow_moves_the_cursor_only(
    model: UsersModel,
    event: Events,
    buffer: Seq<char>,
    page: Seq<(Seq<char>, bool)>,
)
    requires
        model.wf(),
        !model.searching,
        event == Events::UpArrow || event == Events::DownArrow,
        !model.fetches(event),
    ensures
        ({
            let next = model.next(event, buffer, page);
            let up = if model.selected > 0 {
                model.selected - 1
            } else {
                0
            };
            let down = if model.selected + 1 < model.users.len() {
                model.selected + 1
            } else {
                model.selected
            };
            &&& next == (UsersModel {
                selected: if event == Events::UpArrow {
                    up
                } else {
                    down
                },
                ..model
            })
            &&& next.wf()
            &&& model.users.len() > 0 ==> 0 <= next.selected <= model.users.len() - 1
            &&& model.outcome(event) == event
            &&& model.requests(event, page) == Seq::<Request>::empty()
        }),
{
}

} // verus!
