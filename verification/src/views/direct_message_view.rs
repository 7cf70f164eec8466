//! A conversation between two users.

use vstd::prelude::*;
use vstd::view::View as _;
use crate::db::manage::{
    Manager, PAGE_SIZE, Request, issued, lemma_issued_one,
};
use crate::input_interface::Events;
use crate::text::CLEAR_SCREEN;
use crate::views::base_view::{NavigateTo, View};
use crate::views::room_view::{
    Message, MessageModel, conversation, oldest_first, push_conversation,
};

verus! {

pub const MESSAGES_TITLE: &'static str = "\x1b[1;32mMessages\x1b[0m\r\n\r\n";

/// A conversation between the session's user and one other user.
pub struct DirectMessageView {
    query_offset: i32,
    user_id: i32,
    user_id_2: i32,
    navigate_to: NavigateTo,
    message: String,
    messages: Vec<Message>,
}

/// What a conversation is, to a contract.
pub struct DirectMessageModel {
    /// The row of the history, newest first, at which the page begins.
    pub offset: int,
    /// The session's user.
    pub user_id: i32,
    /// The other user.
    pub to_user_id: i32,
    pub target: NavigateTo,
    /// The line being typed.
    pub message: Seq<char>,
    /// The page on display, oldest first.
    pub messages: Seq<MessageModel>,
}

impl DirectMessageModel {
    pub open spec fn wf(self) -> bool {
        self.messages.len() <= PAGE_SIZE && 0 <= self.offset <= i32::MAX
    }

    /// The conversation as first shown, given the page that was read.
    pub open spec fn initial(
        user_id: i32,
        to_user_id: i32,
        fetched: Seq<MessageModel>,
    ) -> DirectMessageModel {
        DirectMessageModel {
            offset: 0,
            user_id,
            to_user_id,
            target: NavigateTo::NoneView,
            message: Seq::empty(),
            messages: fetched,
        }
    }

    /// `UpArrow` on a full page reads one row further back.
    pub open spec fn pages_up(self, event: Events) -> bool {
        event == Events::UpArrow && self.messages.len() == PAGE_SIZE && self.offset < i32::MAX
    }

    /// `DownArrow` behind the newest row reads one row forward.
    pub open spec fn pages_down(self, event: Events) -> bool {
        event == Events::DownArrow && self.offset != 0
    }

    /// Whether the event makes the conversation read the repository.
    pub open spec fn fetches(self, event: Events) -> bool {
        self.pages_up(event) || self.pages_down(event)
    }

    /// The request that reads the page at the current offset.
    pub open spec fn load_request(self, shown: Seq<MessageModel>) -> Request {
        Request::GetDirectMessages {
            user_id: self.user_id,
            to_user_id: self.to_user_id,
            offset: self.offset as i32,
            messages: shown.reverse(),
        }
    }

    /// What the repository is asked when the conversation handles an
    /// event: arrows that page read the page one row further back or
    /// forward, `Enter` on a line stores it as a message from the user to
    /// the other user, and nothing else asks anything.
    pub open spec fn requests(self, event: Events, shown: Seq<MessageModel>) -> Seq<Request> {
        if self.pages_up(event) {
            seq![(DirectMessageModel { offset: self.offset + 1, ..self }).load_request(shown)]
        } else if self.pages_down(event) {
            seq![(DirectMessageModel { offset: self.offset - 1, ..self }).load_request(shown)]
        } else if event == Events::Enter && self.message.len() > 0 {
            seq![
                Request::PostDirectMessage {
                    user_id: self.user_id,
                    to_user_id: self.to_user_id,
                    message: self.message,
                },
            ]
        } else {
            Seq::empty()
        }
    }

    /// The conversation after an event, where `fetched` is the page read
    /// from the repository if the event makes the conversation read one.
    pub open spec fn next(
        self,
        event: Events,
        buffer: Seq<char>,
        fetched: Seq<MessageModel>,
    ) -> DirectMessageModel {
        if self.pages_up(event) {
            DirectMessageModel { offset: self.offset + 1, messages: fetched, ..self }
        } else if self.pages_down(event) {
            DirectMessageModel { offset: self.offset - 1, messages: fetched, ..self }
        } else if event == Events::Enter {
            DirectMessageModel { message: Seq::empty(), ..self }
        } else if event == Events::CntrlQ {
            DirectMessageModel { target: NavigateTo::MenuView, ..self }
        } else {
            DirectMessageModel { message: buffer, ..self }
        }
    }

    /// The conversation's answer to an event.
    pub open spec fn outcome(self, event: Events) -> Events {
        if self.fetches(event) {
            Events::Unknown
        } else if event == Events::Enter {
            if self.message.len() > 0 {
                Events::DirectMessageSent
            } else {
                Events::Unknown
            }
        } else if event == Events::CntrlQ {
            Events::NavigateView
        } else {
            event
        }
    }

    /// The text of the conversation.
    pub open spec fn screen(self) -> Seq<char> {
        CLEAR_SCREEN@ + MESSAGES_TITLE@ + conversation(self.messages, self.user_id, self.message)
    }
}

impl vstd::view::View for DirectMessageView {
    type V = DirectMessageModel;

    closed spec fn view(&self) -> DirectMessageModel {
        DirectMessageModel {
            offset: self.query_offset as int,
            user_id: self.user_id,
            to_user_id: self.user_id_2,
            target: self.navigate_to,
            message: self.message@,
            messages: self.messages.deep_view(),
        }
    }
}

impl DirectMessageView {
    /// The conversation as first shown: its newest messages and an empty line.
    pub fn new(user_id: i32, user_id_2: i32, repo: &mut Manager) -> (view: Self)
        ensures
            view@ == DirectMessageModel::initial(user_id, user_id_2, view@.messages),
            view.well_formed(),
            issued(
                *old(repo),
                *final(repo),
                seq![
                    Request::GetDirectMessages {
                        user_id,
                        to_user_id: user_id_2,
                        offset: 0,
                        messages: view@.messages.reverse(),
                    },
                ],
            ),
    {
        let page = repo.get_direct_messages_for(user_id, user_id_2, 0);
        proof {
            lemma_issued_one(
                *old(repo),
                *repo,
                Request::GetDirectMessages {
                    user_id,
                    to_user_id: user_id_2,
                    offset: 0,
                    messages: page.deep_view(),
                },
            );
        }
        let messages = oldest_first(page);
        Self {
            user_id,
            user_id_2,
            navigate_to: NavigateTo::NoneView,
            messages,
            message: String::new(),
            query_offset: 0,
        }
    }

    /// The other user of the conversation.
    pub fn to_user_id(&self) -> (id: i32)
        ensures
            id == self@.to_user_id,
    {
        self.user_id_2
    }

    /// The row of the history at which the page on display begins.
    pub fn get_offset(&self) -> (offset: i32)
        ensures
            offset == self@.offset,
    {
        self.query_offset
    }

    /// Number of messages on the page.
    pub fn len(&self) -> (count: usize)
        ensures
            count == self@.messages.len(),
    {
        self.messages.len()
    }

    /// Shows a page that was read newest first: oldest first.
    pub fn show_page(&mut self, page: Vec<Message>)
        requires
            page@.len() <= PAGE_SIZE,
            0 <= old(self)@.offset <= i32::MAX,
        ensures
            final(self)@ == (DirectMessageModel {
                messages: page.deep_view().reverse(),
                ..old(self)@
            }),
            final(self).well_formed(),
    {
        self.messages = oldest_first(page);
    }

    /// Reads the page at the current offset and shows what the repository
    /// answered.
    fn load(&mut self, repo: &mut Manager)
        requires
            0 <= old(self)@.offset <= i32::MAX,
        ensures
            final(self)@ == (DirectMessageModel { messages: final(self)@.messages, ..old(self)@ }),
            final(self).well_formed(),
            issued(
                *old(repo),
                *final(repo),
                seq![old(self)@.load_request(final(self)@.messages)],
            ),
    {
        let page = repo.get_direct_messages_for(self.user_id, self.user_id_2, self.query_offset);
        proof {
            assert(page.deep_view().reverse().reverse() =~= page.deep_view());
            lemma_issued_one(
                *old(repo),
                *repo,
                old(self)@.load_request(page.deep_view().reverse()),
            );
        }
        self.show_page(page);
    }
}

impl View for DirectMessageView {
    open spec fn well_formed(&self) -> bool {
        self@.wf()
    }

    open spec fn target(&self) -> NavigateTo {
        self@.target
    }

    fn get_navigate_to(&self) -> (target: &NavigateTo) {
        &self.navigate_to
    }

    fn render(&self) -> (screen: String)
        ensures
            screen@ == self@.screen(),
    {
        let mut output = String::from_str(CLEAR_SCREEN);
        output.append(MESSAGES_TITLE);
        push_conversation(&mut output, &self.messages, self.user_id, self.message.as_str());
        output
    }

    open spec fn refresh_requests(&self, after: &Self) -> Seq<Request> {
        seq![self@.load_request(after@.messages)]
    }

    fn refresh_data(&mut self, repo: &mut Manager)
        ensures
            final(self)@ == (DirectMessageModel { messages: final(self)@.messages, ..old(self)@ }),
    {
        self.load(repo);
    }

    fn handle_event(&mut self, event: Events, buffer_string: String, repo: &mut Manager) -> (result:
        Events)
        ensures
            final(self)@ == old(self)@.next(event, buffer_string@, final(self)@.messages),
            result == old(self)@.outcome(event),
            !old(self)@.fetches(event) ==> final(self)@.messages == old(self)@.messages,
            issued(*old(repo), *final(repo), old(self)@.requests(event, final(self)@.messages)),
    {
        if event == Events::UpArrow && self.messages.len() == PAGE_SIZE && self.query_offset
            < i32::MAX {
            self.query_offset = self.query_offset + 1;
            self.load(repo);
            Events::Unknown
        } else if event == Events::DownArrow && self.query_offset != 0 {
            self.query_offset = self.query_offset - 1;
            self.load(repo);
            Events::Unknown
        } else if event == Events::Enter {
            if !self.message.as_str().is_empty() {
                repo.post_direct_message(self.user_id, self.user_id_2, self.message.clone());
                proof {
                    lemma_issued_one(
                        *old(repo),
                        *repo,
                        Request::PostDirectMessage {
                            user_id: self.user_id,
                            to_user_id: self.user_id_2,
                            message: self.message@,
                        },
                    );
                }
                self.message = String::new();
                Events::DirectMessageSent
            } else {
                assert(self.message@ =~= Seq::empty());
                Events::Unknown
            }
        } else if event == Events::CntrlQ {
            self.navigate_to = NavigateTo::MenuView;
            Events::NavigateView
        } else {
            self.message = buffer_string;
            event
        }
    }
}

} // verus!
