//! A chat room: the latest messages and a line to type the next one.

use vstd::prelude::*;
use vstd::view::View as _;
use crate::db::manage::{
    Manager, PAGE_SIZE, Request, issued, lemma_issued_one, reversed,
};
use crate::input_interface::Events;
use crate::text::CLEAR_SCREEN;
use crate::views::base_view::{NavigateTo, View};

verus! {

pub const MESSAGE_PROMPT: &'static str = "\n\x1b[1;35m>>>\x1b[0m ";

/// A message as the screens hold it: author id, date, author name, text.
pub type Message = (i32, String, String, String);

/// A message as contracts see it.
pub type MessageModel = (i32, Seq<char>, Seq<char>, Seq<char>);

/// One message on the screen; the reader's own messages carry their name
/// in another colour.
pub open spec fn message_line(message: MessageModel, reader: i32) -> Seq<char> {
    let colour = if message.0 == reader {
        "\x1b[0m \x1b[1;35m"@
    } else {
        "\x1b[0m \x1b[38;5;214m"@
    };
    "\x1b[1;32m["@ + message.1 + "]"@ + colour + message.2 + "\x1b[0m  "@ + message.3 + "\r\n"@
}

/// The first `count` messages on the screen.
pub open spec fn message_lines(messages: Seq<MessageModel>, reader: i32, count: int) -> Seq<char>
    decreases count,
{
    if count <= 0 {
        Seq::empty()
    } else {
        message_lines(messages, reader, count - 1) + message_line(messages[count - 1], reader)
    }
}

/// The messages and the line being typed, as both message screens end.
pub open spec fn conversation(messages: Seq<MessageModel>, reader: i32, line: Seq<char>) -> Seq<
    char,
> {
    message_lines(messages, reader, messages.len() as int) + MESSAGE_PROMPT@ + line
}

/// Turns a page as the repository answers it, newest first, into the page
/// on display, oldest first.
pub fn oldest_first(page: Vec<Message>) -> (shown: Vec<Message>)
    ensures
        shown.deep_view() == page.deep_view().reverse(),
        shown.deep_view().reverse() == page.deep_view(),
        shown@.len() == page@.len(),
{
    let shown = reversed(page);
    assert(shown.deep_view() =~= page.deep_view().reverse());
    assert(shown.deep_view().reverse() =~= page.deep_view());
    shown
}

fn push_message_line(out: &mut String, message: &Message, reader: i32)
    ensures
        final(out)@ == old(out)@ + message_line(message.deep_view(), reader),
{
    out.append("\x1b[1;32m[");
    out.append(message.1.as_str());
    out.append("]");
    if message.0 == reader {
        out.append("\x1b[0m \x1b[1;35m");
    } else {
        out.append("\x1b[0m \x1b[38;5;214m");
    }
    out.append(message.2.as_str());
    out.append("\x1b[0m  ");
    out.append(message.3.as_str());
    out.append("\r\n");
}

/// Appends the messages and the line being typed to a screen.
pub fn push_conversation(out: &mut String, messages: &Vec<Message>, reader: i32, line: &str)
    ensures
        final(out)@ == old(out)@ + conversation(messages.deep_view(), reader, line@),
{
    let ghost head = out@;
    let ghost model = messages.deep_view();
    let mut i: usize = 0;
    while i < messages.len()
        invariant
            0 <= i <= messages@.len(),
            model == messages.deep_view(),
            model.len() == messages@.len(),
            out@ == head + message_lines(model, reader, i as int),
        decreases messages@.len() - i,
    {
        push_message_line(out, &messages[i], reader);
        i = i + 1;
    }
    out.append(MESSAGE_PROMPT);
    out.append(line);
}

/// A chat room.
pub struct RoomView {
    query_offset: i32,
    user_id: i32,
    room_id: i32,
    room_name: String,
    navigate_to: NavigateTo,
    message: String,
    messages: Vec<Message>,
}

/// What a chat room is, to a contract.
pub struct RoomModel {
    /// The row of the room's history, newest first, at which the page begins.
    pub offset: int,
    pub user_id: i32,
    pub room_id: i32,
    pub room_name: Seq<char>,
    pub target: NavigateTo,
    /// The line being typed.
    pub message: Seq<char>,
    /// The page on display, oldest first.
    pub messages: Seq<MessageModel>,
}

impl RoomModel {
    pub open spec fn wf(self) -> bool {
        self.messages.len() <= PAGE_SIZE && 0 <= self.offset <= i32::MAX
    }

    /// The room as first shown, given the page that was read.
    pub open spec fn initial(
        room_id: i32,
        room_name: Seq<char>,
        user_id: i32,
        fetched: Seq<MessageModel>,
    ) -> RoomModel {
        RoomModel {
            offset: 0,
            user_id,
            room_id,
            room_name,
            target: NavigateTo::NoneView,
            message: Seq::empty(),
            messages: fetched,
        }
    }

    /// `UpArrow` on a full page reads one row further back.
    pub open spec fn pages_up(self, event: Events) -> bool {
        event == Events::UpArrow && self.messages.len() == PAGE_SIZE && self.offset < i32::MAX
    }

    /// `DownArrow` behind the newest row reads one row forward.
    pub open spec fn pages_down(self, event: Events) -> bool {
        event == Events::DownArrow && self.offset != 0
    }

    /// Whether the event makes the room read the repository.
    pub open spec fn fetches(self, event: Events) -> bool {
        self.pages_up(event) || self.pages_down(event)
    }

    /// Whether the event stores the line as a message.
    pub open spec fn posts(self, event: Events) -> bool {
        !self.fetches(event) && event == Events::Enter && self.message.len() > 0
    }

    /// The request that reads the page at the current offset.
    pub open spec fn load_request(self, shown: Seq<MessageModel>) -> Request {
        Request::GetRoomMessages {
            room_id: self.room_id,
            offset: self.offset as i32,
            messages: shown.reverse(),
        }
    }

    /// What the repository is asked when the room handles an event: arrows
    /// that page read the page one row further back or forward, `Enter` on
    /// a line stores it as a message of the user in the room, and nothing
    /// else asks anything.
    pub open spec fn requests(self, event: Events, shown: Seq<MessageModel>) -> Seq<Request> {
        if self.pages_up(event) {
            seq![(RoomModel { offset: self.offset + 1, ..self }).load_request(shown)]
        } else if self.pages_down(event) {
            seq![(RoomModel { offset: self.offset - 1, ..self }).load_request(shown)]
        } else if self.posts(event) {
            seq![
                Request::PostMessage {
                    room_id: self.room_id,
                    message: self.message,
                    user_id: self.user_id,
                },
            ]
        } else {
            Seq::empty()
        }
    }

    /// The room after an event, where `fetched` is the page read from the
    /// repository if the event makes the room read one.
    pub open spec fn next(
        self,
        event: Events,
        buffer: Seq<char>,
        fetched: Seq<MessageModel>,
    ) -> RoomModel {
        if self.pages_up(event) {
            RoomModel { offset: self.offset + 1, messages: fetched, ..self }
        } else if self.pages_down(event) {
            RoomModel { offset: self.offset - 1, messages: fetched, ..self }
        } else if event == Events::Enter {
            RoomModel { message: Seq::empty(), ..self }
        } else if event == Events::CntrlQ {
            RoomModel { target: NavigateTo::RoomsView, ..self }
        } else {
            RoomModel { message: buffer, ..self }
        }
    }

    /// The room's answer to an event.
    pub open spec fn outcome(self, event: Events) -> Events {
        if self.fetches(event) {
            Events::Unknown
        } else if event == Events::Enter {
            if self.message.len() > 0 {
                Events::RoomMessageSent
            } else {
                Events::Unknown
            }
        } else if event == Events::CntrlQ {
            Events::RoomLeave
        } else {
            event
        }
    }

    /// The text of the room.
    pub open spec fn screen(self) -> Seq<char> {
        CLEAR_SCREEN@ + "\x1b[1;32m"@ + self.room_name + "\x1b[0m\r\n\r\n"@ + conversation(
            self.messages,
            self.user_id,
            self.message,
        )
    }
}

impl vstd::view::View for RoomView {
    type V = RoomModel;

    closed spec fn view(&self) -> RoomModel {
        RoomModel {
            offset: self.query_offset as int,
            user_id: self.user_id,
            room_id: self.room_id,
            room_name: self.room_name@,
            target: self.navigate_to,
            message: self.message@,
            messages: self.messages.deep_view(),
        }
    }
}

impl RoomView {
    /// The room as first shown: its newest messages and an empty line.
    pub fn new(room_id: i32, room_name: String, user_id: i32, repo: &mut Manager) -> (view: Self)
        ensures
            view@ == RoomModel::initial(room_id, room_name@, user_id, view@.messages),
            view.well_formed(),
            issued(
                *old(repo),
                *final(repo),
                seq![
                    Request::GetRoomMessages {
                        room_id,
                        offset: 0,
                        messages: view@.messages.reverse(),
                    },
                ],
            ),
    {
        let page = repo.get_message_from_room(room_id, 0);
        proof {
            lemma_issued_one(
                *old(repo),
                *repo,
                Request::GetRoomMessages { room_id, offset: 0, messages: page.deep_view() },
            );
        }
        let messages = oldest_first(page);
        Self {
            user_id,
            room_id,
            navigate_to: NavigateTo::NoneView,
            messages,
            room_name,
            message: String::new(),
            query_offset: 0,
        }
    }

    pub fn get_user_id(&self) -> (id: i32)
        ensures
            id == self@.user_id,
    {
        self.user_id
    }

    /// The row of the room's history at which the page on display begins.
    pub fn get_offset(&self) -> (offset: i32)
        ensures
            offset == self@.offset,
    {
        self.query_offset
    }

    /// Number of messages on the page.
    pub fn len(&self) -> (count: usize)
        ensures
            count == self@.messages.len(),
    {
        self.messages.len()
    }

    pub fn get_room_id(&self) -> (id: i32)
        ensures
            id == self@.room_id,
    {
        self.room_id
    }

    /// Shows a page that was read newest first: oldest first.
    pub fn show_page(&mut self, page: Vec<Message>)
        requires
            page@.len() <= PAGE_SIZE,
            0 <= old(self)@.offset <= i32::MAX,
        ensures
            final(self)@ == (RoomModel { messages: page.deep_view().reverse(), ..old(self)@ }),
            final(self).well_formed(),
    {
        self.messages = oldest_first(page);
    }

    /// Reads the page at the current offset and shows what the repository
    /// answered.
    fn load(&mut self, repo: &mut Manager)
        requires
            0 <= old(self)@.offset <= i32::MAX,
        ensures
            final(self)@ == (RoomModel { messages: final(self)@.messages, ..old(self)@ }),
            final(self).well_formed(),
            issued(
                *old(repo),
                *final(repo),
                seq![old(self)@.load_request(final(self)@.messages)],
            ),
    {
        let page = repo.get_message_from_room(self.room_id, self.query_offset);
        proof {
            assert(page.deep_view().reverse().reverse() =~= page.deep_view());
            lemma_issued_one(
                *old(repo),
                *repo,
                old(self)@.load_request(page.deep_view().reverse()),
            );
        }
        self.show_page(page);
    }
}

impl View for RoomView {
    open spec fn well_formed(&self) -> bool {
        self@.wf()
    }

    open spec fn target(&self) -> NavigateTo {
        self@.target
    }

    fn get_navigate_to(&self) -> (target: &NavigateTo) {
        &self.navigate_to
    }

    fn render(&self) -> (screen: String)
        ensures
            screen@ == self@.screen(),
    {
        let mut output = String::from_str(CLEAR_SCREEN);
        output.append("\x1b[1;32m");
        output.append(self.room_name.as_str());
        output.append("\x1b[0m\r\n\r\n");
        push_conversation(&mut output, &self.messages, self.user_id, self.message.as_str());
        output
    }

    open spec fn refresh_requests(&self, after: &Self) -> Seq<Request> {
        seq![self@.load_request(after@.messages)]
    }

    fn refresh_data(&mut self, repo: &mut Manager)
        ensures
            final(self)@ == (RoomModel { messages: final(self)@.messages, ..old(self)@ }),
    {
        self.load(repo);
    }

    fn handle_event(&mut self, event: Events, buffer_string: String, repo: &mut Manager) -> (result:
        Events)
        ensures
            final(self)@ == old(self)@.next(event, buffer_string@, final(self)@.messages),
            result == old(self)@.outcome(event),
            !old(self)@.fetches(event) ==> final(self)@.messages == old(self)@.messages,
            issued(*old(repo), *final(repo), old(self)@.requests(event, final(self)@.messages)),
    {
        if event == Events::UpArrow && self.messages.len() == PAGE_SIZE && self.query_offset
            < i32::MAX {
            self.query_offset = self.query_offset + 1;
            self.load(repo);
            Events::Unknown
        } else if event == Events::DownArrow && self.query_offset != 0 {
            self.query_offset = self.query_offset - 1;
            self.load(repo);
            Events::Unknown
        } else if event == Events::Enter {
            if !self.message.as_str().is_empty() {
                repo.post_message(self.room_id, self.message.clone(), self.user_id);
                proof {
                    lemma_issued_one(
                        *old(repo),
                        *repo,
                        Request::PostMessage {
                            room_id: self.room_id,
                            message: self.message@,
                            user_id: self.user_id,
                        },
                    );
                }
                self.message = String::new();
                Events::RoomMessageSent
            } else {
                assert(self.message@ =~= Seq::empty());
                Events::Unknown
            }
        } else if event == Events::CntrlQ {
            self.navigate_to = NavigateTo::RoomsView;
            Events::RoomLeave
        } else {
            self.message = buffer_string;
            event
        }
    }
}

} // verus!
