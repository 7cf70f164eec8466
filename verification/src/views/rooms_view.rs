//! The rooms listing: select a room to join, search by name, create a room.

use vstd::prelude::*;
use vstd::view::View as _;
use crate::db::manage::{
    Manager, PAGE_SIZE, Request, issued, lemma_issued_one, lemma_issued_then,
};
use crate::input_interface::Events;
use crate::text::{CLEAR_SCREEN, blank, decimal, decimal_string, is_blank, push_decimal};
use crate::views::base_view::{NavigateTo, View};

verus! {

pub const ROOMS_TITLE: &'static str = "\x1b[1;32mRooms\x1b[0m\r\n\r\n";

pub const ROOMS_SEARCH_PROMPT: &'static str = "\x1b[1;33m> Search (CNTRL+Q): ";

pub const ROOMS_CREATE_PROMPT: &'static str = "\x1b[1;32m> Create Room (CNTRL+Q to exit): ";

pub const ROOMS_HELP: &'static str = "\nUse ↑ (Arrow Up) / ↓ (Arrow Down) and Enter to select a room\r\n[S] Search for a room.\r\n[C] Create Room.\r\n[N] Next Page\r\n[H / CNTRL+Q] Home\r\n";

/// What the user of a listing is doing.
#[derive(PartialEq, Eq, Structural, Clone, Copy, Debug)]
pub enum ListingContext {
    Selecting,
    Searching,
    Creating,
}

/// The rooms listing.
pub struct RoomsView {
    context: ListingContext,
    input: String,
    rooms: Vec<(String, u32)>,
    user_id: i32,
    selected_index: usize,
    offset: i32,
    navigate_to: NavigateTo,
}

/// What a rooms listing is, to a contract.
pub struct RoomsModel {
    pub context: ListingContext,
    /// The text typed into the search or create prompt.
    pub input: Seq<char>,
    /// The page on display: name and occupancy of each room.
    pub rooms: Seq<(Seq<char>, u32)>,
    pub user_id: i32,
    /// The cursor: an index into `rooms`.
    pub selected: int,
    /// The row of the whole listing at which the page begins.
    pub offset: int,
    pub target: NavigateTo,
}

impl RoomsModel {
    /// The cursor is on a row of the page (or at 0 on an empty page), the
    /// page is no longer than a page, and the offset is not negative.
    pub open spec fn wf(self) -> bool {
        &&& self.rooms.len() <= PAGE_SIZE
        &&& 0 <= self.selected
        &&& self.rooms.len() == 0 ==> self.selected == 0
        &&& self.rooms.len() > 0 ==> self.selected < self.rooms.len()
        &&& 0 <= self.offset <= i32::MAX
    }

    /// A prompt is open and keys are text.
    pub open spec fn typing(self) -> bool {
        self.context != ListingContext::Selecting
    }

    /// The listing as first shown to `user_id`, given the page that was read.
    pub open spec fn initial(user_id: i32, fetched: Seq<(Seq<char>, u32)>) -> RoomsModel {
        RoomsModel {
            context: ListingContext::Selecting,
            input: Seq::empty(),
            rooms: fetched,
            user_id,
            selected: 0,
            offset: 0,
            target: NavigateTo::NoneView,
        }
    }

    /// The listing showing a page that was just read, cursor on its first row.
    pub open spec fn loaded(self, fetched: Seq<(Seq<char>, u32)>) -> RoomsModel {
        RoomsModel { rooms: fetched, selected: 0, ..self }
    }

    /// `UpArrow` with the cursor on the first row of a full page reads the
    /// next block.
    pub open spec fn pages_up(self) -> bool {
        self.selected == 0 && self.rooms.len() == PAGE_SIZE && self.offset < i32::MAX
    }

    /// `DownArrow` with the cursor on the last row reads the previous block,
    /// unless the page is the first.
    pub open spec fn pages_down(self) -> bool {
        !(self.selected + 1 < self.rooms.len()) && self.offset != 0
    }

    /// The listing after `UpArrow` while selecting.
    pub open spec fn up(self, fetched: Seq<(Seq<char>, u32)>) -> RoomsModel {
        if self.selected > 0 {
            RoomsModel { selected: self.selected - 1, ..self }
        } else if self.pages_up() {
            RoomsModel { offset: self.offset + 1, ..self }.loaded(fetched)
        } else {
            self
        }
    }

    /// The listing after `DownArrow` while selecting.
    pub open spec fn down(self, fetched: Seq<(Seq<char>, u32)>) -> RoomsModel {
        if self.selected + 1 < self.rooms.len() {
            RoomsModel { selected: self.selected + 1, ..self }
        } else if self.pages_down() {
            RoomsModel { offset: self.offset - 1, ..self }.loaded(fetched)
        } else {
            self
        }
    }

    /// The listing in another context: opening a prompt empties its text.
    pub open spec fn entered(self, context: ListingContext) -> RoomsModel {
        if context == ListingContext::Selecting {
            RoomsModel { context, ..self }
        } else {
            RoomsModel { context, input: Seq::empty(), ..self }
        }
    }

    /// The listing back in `Selecting` on the first block, showing the page
    /// that was read on the way.
    pub open spec fn settled(self, fetched: Seq<(Seq<char>, u32)>) -> RoomsModel {
        RoomsModel { offset: 0, ..self.entered(ListingContext::Selecting) }.loaded(fetched)
    }

    /// The request that reads the page at the current offset, answered
    /// with `page`: a search while the search prompt is open, the plain
    /// listing otherwise.
    pub open spec fn load_request(self, page: Seq<(Seq<char>, u32)>) -> Request {
        if self.context == ListingContext::Searching {
            Request::SearchRooms { query: self.input, offset: self.offset as i32, rooms: page }
        } else {
            Request::GetRooms { offset: self.offset as i32, rooms: page }
        }
    }

    /// What the repository is asked when the listing handles an event:
    /// - arrows that page read the block one row further on or back;
    /// - `CntrlQ` at a prompt reads the first block of the plain listing;
    /// - `Enter` on a search reads the first block of the rooms that match;
    /// - `Enter` on a new room's name stores the room, owned by the user,
    ///   and reads the first block of the plain listing;
    /// - nothing else asks anything.
    /// Every read is answered with `page`, the page the listing then shows.
    pub open spec fn requests(self, event: Events, page: Seq<(Seq<char>, u32)>) -> Seq<Request> {
        if self.typing() {
            if event == Events::CntrlQ {
                seq![Request::GetRooms { offset: 0, rooms: page }]
            } else if event == Events::Enter && !is_blank(self.input) {
                if self.context == ListingContext::Creating {
                    seq![
                        Request::CreateRoom {
                            name: self.input,
                            owner: decimal(self.user_id as int),
                        },
                        Request::GetRooms { offset: 0, rooms: page },
                    ]
                } else {
                    seq![Request::SearchRooms { query: self.input, offset: 0, rooms: page }]
                }
            } else {
                Seq::empty()
            }
        } else {
            if event == Events::UpArrow && self.pages_up() {
                seq![Request::GetRooms { offset: (self.offset + 1) as i32, rooms: page }]
            } else if event == Events::DownArrow && self.pages_down() {
                seq![Request::GetRooms { offset: (self.offset - 1) as i32, rooms: page }]
            } else {
                Seq::empty()
            }
        }
    }

    /// Whether the event makes the listing read the repository.
    pub open spec fn fetches(self, event: Events) -> bool {
        if self.typing() {
            event == Events::CntrlQ || (event == Events::Enter && !is_blank(self.input))
        } else {
            ||| (event == Events::UpArrow && self.pages_up())
            ||| (event == Events::DownArrow && self.pages_down())
        }
    }

    /// The listing after an event, where `fetched` is the page read from
    /// the repository if the event makes the listing read one.
    pub open spec fn next(
        self,
        event: Events,
        buffer: Seq<char>,
        fetched: Seq<(Seq<char>, u32)>,
    ) -> RoomsModel {
        if self.typing() {
            if event == Events::CntrlQ {
                self.settled(fetched)
            } else if event != Events::Enter {
                RoomsModel { input: buffer, ..self }
            } else if !is_blank(self.input) {
                self.settled(fetched)
            } else {
                self
            }
        } else {
            if event == Events::CntrlQ || event == Events::KeyH {
                RoomsModel { target: NavigateTo::MenuView, ..self }
            } else if event == Events::UpArrow {
                self.up(fetched)
            } else if event == Events::DownArrow {
                self.down(fetched)
            } else if event == Events::Enter && self.rooms.len() > 0 {
                RoomsModel { target: NavigateTo::RoomView, ..self }
            } else if event == Events::KeyC {
                self.entered(ListingContext::Creating)
            } else if event == Events::KeyS {
                self.entered(ListingContext::Searching)
            } else {
                self
            }
        }
    }

    /// The listing's answer to an event.
    pub open spec fn outcome(self, event: Events) -> Events {
        if self.typing() {
            if event == Events::CntrlQ {
                Events::InputModeDisable
            } else if event != Events::Enter {
                Events::Unknown
            } else if !is_blank(self.input) {
                Events::InputModeDisable
            } else {
                event
            }
        } else {
            if event == Events::CntrlQ || event == Events::KeyH {
                Events::NavigateView
            } else if event == Events::UpArrow || event == Events::DownArrow {
                Events::Unknown
            } else if event == Events::Enter && self.rooms.len() > 0 {
                Events::RoomJoin
            } else if event == Events::KeyC || event == Events::KeyS {
                Events::InputModeEnable
            } else {
                event
            }
        }
    }

    /// One row of the page.
    pub open spec fn room_line(entry: (Seq<char>, u32), highlighted: bool) -> Seq<char> {
        if highlighted {
            "\x1b[1;33m> "@ + entry.0 + ": "@ + decimal(entry.1 as int) + " online\x1b[0m\r\n"@
        } else {
            "  "@ + entry.0 + ": "@ + decimal(entry.1 as int) + " online\r\n"@
        }
    }

    /// The first `count` rows of the page.
    pub open spec fn room_lines(self, count: int) -> Seq<char>
        decreases count,
    {
        if count <= 0 {
            Seq::empty()
        } else {
            self.room_lines(count - 1) + Self::room_line(
                self.rooms[count - 1],
                count - 1 == self.selected,
            )
        }
    }

    /// The text of the listing.
    pub open spec fn screen(self) -> Seq<char> {
        CLEAR_SCREEN@ + ROOMS_TITLE@ + match self.context {
            ListingContext::Searching => ROOMS_SEARCH_PROMPT@ + self.input,
            ListingContext::Creating => ROOMS_CREATE_PROMPT@ + self.input,
            ListingContext::Selecting => self.room_lines(self.rooms.len() as int) + ROOMS_HELP@,
        }
    }
}

impl vstd::view::View for RoomsView {
    type V = RoomsModel;

    closed spec fn view(&self) -> RoomsModel {
        RoomsModel {
            context: self.context,
            input: self.input@,
            rooms: self.rooms.deep_view(),
            user_id: self.user_id,
            selected: self.selected_index as int,
            offset: self.offset as int,
            target: self.navigate_to,
        }
    }
}

impl RoomsView {
    /// The listing as first shown: the first block of rooms, cursor on top.
    pub fn new(user_id: i32, repo: &mut Manager) -> (view: Self)
        ensures
            view@ == RoomsModel::initial(user_id, view@.rooms),
            view.well_formed(),
            issued(
                *old(repo),
                *final(repo),
                seq![Request::GetRooms { offset: 0, rooms: view@.rooms }],
            ),
    {
        let rooms = repo.get_rooms(0);
        proof {
            lemma_issued_one(
                *old(repo),
                *repo,
                Request::GetRooms { offset: 0, rooms: rooms.deep_view() },
            );
        }
        Self {
            context: ListingContext::Selecting,
            input: String::new(),
            rooms,
            selected_index: 0,
            offset: 0,
            user_id,
            navigate_to: NavigateTo::NoneView,
        }
    }

    pub fn set_context_state(&mut self, state: ListingContext)
        ensures
            final(self)@ == old(self)@.entered(state),
    {
        self.context = state;
        if state != ListingContext::Selecting {
            self.input = String::new();
        }
    }

    /// Moves the cursor one row up, if there is one.
    pub fn move_up(&mut self)
        requires
            old(self).well_formed(),
        ensures
            final(self).well_formed(),
            old(self)@.selected > 0 ==> final(self)@ == old(self)@.up(Seq::empty()),
            old(self)@.selected == 0 ==> final(self)@ == old(self)@,
    {
        if self.selected_index > 0 {
            self.selected_index = self.selected_index - 1;
        }
    }

    /// Moves the cursor one row down, if there is one.
    pub fn move_down(&mut self)
        requires
            old(self).well_formed(),
        ensures
            final(self).well_formed(),
            old(self)@.selected + 1 < old(self)@.rooms.len() ==> final(self)@ == old(self)@.down(
                Seq::empty(),
            ),
            !(old(self)@.selected + 1 < old(self)@.rooms.len()) ==> final(self)@ == old(self)@,
    {
        let display_size: usize = self.rooms.len();
        if display_size > 0 && self.selected_index < display_size - 1 {
            self.selected_index = self.selected_index + 1;
        }
    }

    /// The name of the room under the cursor.
    pub fn get_selection(&self) -> (name: &str)
        requires
            self.well_formed(),
            self@.rooms.len() > 0,
        ensures
            name@ == self@.rooms[self@.selected].0,
    {
        self.rooms[self.selected_index].0.as_str()
    }

    /// The row of the whole listing at which the page on display begins.
    pub fn get_offset(&self) -> (offset: i32)
        ensures
            offset == self@.offset,
    {
        self.offset
    }

    /// The cursor's row on the page.
    pub fn get_selected_index(&self) -> (index: usize)
        ensures
            index == self@.selected,
    {
        self.selected_index
    }

    /// Number of rooms on the page.
    pub fn len(&self) -> (count: usize)
        ensures
            count == self@.rooms.len(),
    {
        self.rooms.len()
    }

    pub fn get_context(&self) -> (context: ListingContext)
        ensures
            context == self@.context,
    {
        self.context
    }

    /// Whether a room is under the cursor.
    pub fn has_selection(&self) -> (some: bool)
        ensures
            some == (self@.rooms.len() > 0),
    {
        self.rooms.len() > 0
    }

    pub fn get_user_id(&self) -> (id: i32)
        ensures
            id == self@.user_id,
    {
        self.user_id
    }

    /// Shows a page that was read, with the cursor on its first row.
    pub fn show_page(&mut self, page: Vec<(String, u32)>)
        requires
            page@.len() <= PAGE_SIZE,
            0 <= old(self)@.offset <= i32::MAX,
        ensures
            final(self)@ == old(self)@.loaded(page.deep_view()),
            final(self).well_formed(),
    {
        assert(page.deep_view().len() == page@.len());
        self.rooms = page;
        self.selected_index = 0;
    }

    /// Reads the page at the current offset, a search while the search
    /// prompt is open and the plain listing otherwise, and shows what the
    /// repository answered.
    fn load(&mut self, repo: &mut Manager)
        requires
            0 <= old(self)@.offset <= i32::MAX,
        ensures
            final(self)@ == old(self)@.loaded(final(self)@.rooms),
            final(self).well_formed(),
            issued(*old(repo), *final(repo), seq![old(self)@.load_request(final(self)@.rooms)]),
    {
        let page = if self.context == ListingContext::Searching {
            repo.search_rooms(self.input.clone(), self.offset)
        } else {
            repo.get_rooms(self.offset)
        };
        proof {
            lemma_issued_one(*old(repo), *repo, old(self)@.load_request(page.deep_view()));
        }
        self.show_page(page);
    }

    fn push_room_line(out: &mut String, name: &str, count: u32, highlighted: bool)
        ensures
            final(out)@ == old(out)@ + RoomsModel::room_line((name@, count), highlighted),
    {
        if highlighted {
            out.append("\x1b[1;33m> ");
        } else {
            out.append("  ");
        }
        out.append(name);
        out.append(": ");
        push_decimal(out, count as i64);
        if highlighted {
            out.append(" online\x1b[0m\r\n");
        } else {
            out.append(" online\r\n");
        }
    }
}

impl View for RoomsView {
    open spec fn well_formed(&self) -> bool {
        self@.wf()
    }

    open spec fn target(&self) -> NavigateTo {
        self@.target
    }

    fn get_navigate_to(&self) -> (target: &NavigateTo) {
        &self.navigate_to
    }

    fn render(&self) -> (screen: String)
        ensures
            screen@ == self@.screen(),
    {
        let mut output = String::from_str(CLEAR_SCREEN);
        output.append(ROOMS_TITLE);
        match self.context {
            ListingContext::Searching => {
                output.append(ROOMS_SEARCH_PROMPT);
                output.append(self.input.as_str());
            },
            ListingContext::Creating => {
                output.append(ROOMS_CREATE_PROMPT);
                output.append(self.input.as_str());
            },
            ListingContext::Selecting => {
                let ghost head = output@;
                let mut i: usize = 0;
                while i < self.rooms.len()
                    invariant
                        0 <= i <= self.rooms@.len(),
                        self.rooms.deep_view().len() == self.rooms@.len(),
                        output@ == head + self@.room_lines(i as int),
                    decreases self.rooms@.len() - i,
                {
                    let entry = &self.rooms[i];
                    Self::push_room_line(
                        &mut output,
                        entry.0.as_str(),
                        entry.1,
                        i == self.selected_index,
                    );
                    i = i + 1;
                }
                output.append(ROOMS_HELP);
            },
        }
        output
    }

    open spec fn refresh_requests(&self, after: &Self) -> Seq<Request> {
        seq![self@.load_request(after@.rooms)]
    }

    fn refresh_data(&mut self, repo: &mut Manager)
        ensures
            final(self)@ == old(self)@.loaded(final(self)@.rooms),
    {
        self.load(repo);
    }

    fn handle_event(&mut self, event: Events, buffer_string: String, repo: &mut Manager) -> (result:
        Events)
        ensures
            final(self)@ == old(self)@.next(event, buffer_string@, final(self)@.rooms),
            result == old(self)@.outcome(event),
            !old(self)@.fetches(event) ==> final(self)@.rooms == old(self)@.rooms,
            issued(*old(repo), *final(repo), old(self)@.requests(event, final(self)@.rooms)),
    {
        let typing = self.context != ListingContext::Selecting;
        if typing {
            if event == Events::CntrlQ {
                self.set_context_state(ListingContext::Selecting);
                self.offset = 0;
                self.load(repo);
                Events::InputModeDisable
            } else if event != Events::Enter {
                self.input = buffer_string;
                Events::Unknown
            } else if !blank(self.input.as_str()) {
                if self.context == ListingContext::Creating {
                    let owner = decimal_string(self.user_id as i64);
                    let ghost store = Request::CreateRoom { name: self.input@, owner: owner@ };
                    repo.create_room(self.input.clone(), owner);
                    let ghost stored = *repo;
                    self.offset = 0;
                    self.load(repo);
                    proof {
                        let read = Request::GetRooms { offset: 0, rooms: self@.rooms };
                        lemma_issued_one(*old(repo), stored, store);
                        lemma_issued_then(*old(repo), stored, *repo, seq![store], seq![read]);
                        assert(seq![store] + seq![read] =~= seq![store, read]);
                    }
                } else {
                    self.offset = 0;
                    self.load(repo);
                }
                self.set_context_state(ListingContext::Selecting);
                Events::InputModeDisable
            } else {
                event
            }
        } else {
            if event == Events::CntrlQ || event == Events::KeyH {
                self.navigate_to = NavigateTo::MenuView;
                Events::NavigateView
            } else if event == Events::UpArrow {
                if self.selected_index == 0 && self.rooms.len() == PAGE_SIZE && self.offset
                    < i32::MAX {
                    self.offset = self.offset + 1;
                    self.load(repo);
                } else {
                    self.move_up();
                }
                Events::Unknown
            } else if event == Events::DownArrow {
                if !(self.selected_index + 1 < self.rooms.len()) && self.offset != 0 {
                    self.offset = self.offset - 1;
                    self.load(repo);
                } else {
                    self.move_down();
                }
                Events::Unknown
            } else if event == Events::Enter && self.rooms.len() > 0 {
                self.navigate_to = NavigateTo::RoomView;
                Events::RoomJoin
            } else if event == Events::KeyC {
                self.set_context_state(ListingContext::Creating);
                Events::InputModeEnable
            } else if event == Events::KeyS {
                self.set_context_state(ListingContext::Searching);
                Events::InputModeEnable
            } else {
                event
            }
        }
    }
}

/// Any run of keys on a listing, arrow keys or others, leaves the cursor
/// on a row of the page on display, whatever pages the repository returns
/// on the way.
pub proof fn lemma_arrows_keep_cursor_in_range(
    start: RoomsModel,
    keys: Seq<(Events, Seq<char>)>,
    pages: Seq<Seq<(Seq<char>, u32)>>,
)
    requires
        start.wf(),
        keys.len() == pages.len(),
        forall|i: int| 0 <= i < pages.len() ==> (#[trigger] pages[i]).len() <= PAGE_SIZE,
    ensures
        after_keys(start, keys, pages).wf(),
        ({
            let end = after_keys(start, keys, pages);
            end.rooms.len() > 0 ==> 0 <= end.selected <= end.rooms.len() - 1
        }),
    decreases keys.len(),
{
    if keys.len() > 0 {
        lemma_arrows_keep_cursor_in_range(start, keys.drop_last(), pages.drop_last());
    }
}

/// The listing after a run of keys, each given as the event and the text
/// handed over with it, where `pages[i]` is what the repository returns if
/// key `i` makes the listing read a page.
pub open spec fn after_keys(
    start: RoomsModel,
    keys: Seq<(Events, Seq<char>)>,
    pages: Seq<Seq<(Seq<char>, u32)>>,
) -> RoomsModel
    decreases keys.len(),
{
    if keys.len() == 0 || pages.len() != keys.len() {
        start
    } else {
        after_keys(start, keys.drop_last(), pages.drop_last()).next(
            keys.last().0,
            keys.last().1,
            pages.last(),
        )
    }
}

/// An arrow key that does not turn the page moves the cursor by one row,
/// or holds it at the edge it is on, and leaves the page, the offset and
/// everything else of the listing alone; it asks nothing of the repository.
pub proof fn lemma_arrow_moves_the_cursor_only(
    model: RoomsModel,
    event: Events,
    buffer: Seq<char>,
    page: Seq<(Seq<char>, u32)>,
)
    requires
        model.wf(),
        !model.typing(),
        event == Events::UpArrow || event == Events::DownArrow,
        !model.fetches(event),
    ensures
        ({
            let next = model.next(event, buffer, page);
            let up = if model.selected > 0 {
                model.selected - 1
            } else {
                0
            };
            let down = if model.selected + 1 < model.rooms.len() {
                model.selected + 1
            } else {
                model.selected
            };
            &&& next == (RoomsModel {
                selected: if event == Events::UpArrow {
                    up
                } else {
                    down
                },
                ..model
            })
            &&& next.wf()
            &&& model.rooms.len() > 0 ==> 0 <= next.selected <= model.rooms.len() - 1
            &&& model.requests(event, page) == Seq::<Request>::empty()
        }),
{
}

/// `UpArrow` with the cursor on the first row of a full page reads the
/// block one row further on: the offset grows by one and the repository is
/// asked for the rooms from that offset. On a page that is not full it
/// leaves the offset and the page alone.
pub proof fn lemma_up_arrow_on_the_first_row(
    model: RoomsModel,
    buffer: Seq<char>,
    page: Seq<(Seq<char>, u32)>,
)
    requires
        model.wf(),
        !model.typing(),
        model.selected == 0,
        page.len() <= PAGE_SIZE,
    ensures
        ({
            let next = model.next(Events::UpArrow, buffer, page);
            let full = model.rooms.len() == PAGE_SIZE && model.offset < i32::MAX;
            &&& full ==> next == (RoomsModel { offset: model.offset + 1, rooms: page, ..model })
            &&& full ==> model.requests(Events::UpArrow, page) == seq![
                Request::GetRooms { offset: (model.offset + 1) as i32, rooms: page },
            ]
            &&& !full ==> next == model
            &&& !full ==> model.requests(Events::UpArrow, page) == Seq::<Request>::empty()
            &&& next.wf()
        }),
{
}

} // verus!
