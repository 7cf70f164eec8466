//! A session: the events a raw input frame decodes to, the text it
//! carries, the line a user is typing, and the engine that turns each frame
//! into the next screen, the bytes for the client and the events for the bus.

use vstd::prelude::*;
use vstd::utf8::{decode_utf8, encode_utf8, is_ascii_chars, valid_utf8};
use vstd::view::View as _;
use crate::broadcast_events::BroadcastMessage;
use crate::db::manage::{
    Manager, Request, first_answer, issued, lemma_issued_one, lemma_issued_then,
};
use crate::terminal::{GOODBYE, InputMode, output_goodbye_message};
use crate::text::{is_whitespace, trimmed};
use crate::views::base_view::{NavigateTo, View};
use crate::views::current_view::CurrentView;
use crate::views::direct_message_view::{DirectMessageModel, DirectMessageView};
use crate::views::login_register_view::{LoginModel, LoginRegisterView};
use crate::views::menu_view::{BBSMenu, MenuModel};
use crate::views::room_view::{RoomModel, RoomView};
use crate::views::rooms_view::{RoomsModel, RoomsView};
use crate::views::user_view::{UserModel, UserView};
use crate::views::users_view::{UsersModel, UsersView};

verus! {

/// What a frame of input means, and what a screen answers to it.
#[derive(PartialEq, Eq, Structural, Clone, Copy, Debug)]
pub enum Events {
    UpArrow,
    DownArrow,
    LeftArrow,
    RightArrow,
    Enter,
    Exit,
    TAB,
    KeyN,
    KeyS,
    KeyH,
    KeyC,
    KeyR,
    CntrlN,
    CntrlQ,
    Authenticate,
    NavigateView,
    InputModeEnable,
    SecretInputModeEnable,
    InputModeDisable,
    Unknown,
    RoomJoin,
    RoomLeave,
    DirectMessageSent,
    RoomMessageSent,
    UserView,
    BackSpace,
    SpaceBar,
}

impl Events {
    /// The key table: the event that a single code stands for.
    pub open spec fn spec_from_int(value: int) -> Events {
        if value == 3 {
            Events::Exit
        } else if value == 13 {
            Events::Enter
        } else if value == 14 {
            Events::CntrlN
        } else if value == 17 {
            Events::CntrlQ
        } else if value == 65 {
            Events::UpArrow
        } else if value == 66 {
            Events::DownArrow
        } else if value == 99 {
            Events::KeyC
        } else if value == 104 {
            Events::KeyH
        } else if value == 110 {
            Events::KeyN
        } else if value == 114 {
            Events::KeyR
        } else if value == 115 {
            Events::KeyS
        } else {
            Events::Unknown
        }
    }

    /// Looks a code up in the key table; codes outside it are `Unknown`.
    pub fn from_int(value: i32) -> (event: Events)
        ensures
            event == Self::spec_from_int(value as int),
    {
        match value {
            3 => Events::Exit,
            13 => Events::Enter,
            14 => Events::CntrlN,
            17 => Events::CntrlQ,
            65 => Events::UpArrow,
            66 => Events::DownArrow,
            99 => Events::KeyC,
            104 => Events::KeyH,
            110 => Events::KeyN,
            114 => Events::KeyR,
            115 => Events::KeyS,
            _ => Events::Unknown,
        }
    }
}

/// Byte `i` of a frame; a frame that ends early reads as zero padding.
pub open spec fn byte_at(buffer: Seq<u8>, i: int) -> u8 {
    if 0 <= i < buffer.len() {
        buffer[i]
    } else {
        0
    }
}

/// The event a frame decodes to. An escape followed by `[` selects the key
/// table by the third byte; tab, a lone escape, delete and space are events
/// of their own; every other frame selects the key table by its first byte.
pub open spec fn decode(buffer: Seq<u8>) -> Events {
    let first = byte_at(buffer, 0);
    if first == 27 && byte_at(buffer, 1) == 91 {
        Events::spec_from_int(byte_at(buffer, 2) as int)
    } else if first == 9 {
        Events::TAB
    } else if first == 27 {
        Events::NavigateView
    } else if first == 127 {
        Events::BackSpace
    } else if first == 32 {
        Events::SpaceBar
    } else {
        Events::spec_from_int(first as int)
    }
}

/// The bytes of a frame that are not NUL, in order.
pub open spec fn without_nul(buffer: Seq<u8>) -> Seq<u8>
    decreases buffer.len(),
{
    if buffer.len() == 0 {
        Seq::empty()
    } else if buffer.last() != 0 {
        without_nul(buffer.drop_last()).push(buffer.last())
    } else {
        without_nul(buffer.drop_last())
    }
}

/// The text a frame carries: its bytes without NUL, decoded as UTF-8 and
/// trimmed; empty where those bytes are not UTF-8.
pub open spec fn clean_text(buffer: Seq<u8>) -> Seq<char> {
    let bytes = without_nul(buffer);
    if valid_utf8(bytes) {
        trimmed(decode_utf8(bytes))
    } else {
        Seq::empty()
    }
}

/// A character that may be typed into a line: an ASCII letter, digit or
/// punctuation mark.
pub open spec fn is_printable(c: char) -> bool {
    0x21 <= c as u32 <= 0x7E
}

/// The characters of a text that may be typed into a line, in order.
pub open spec fn printable_only(text: Seq<char>) -> Seq<char>
    decreases text.len(),
{
    if text.len() == 0 {
        Seq::empty()
    } else if is_printable(text.last()) {
        printable_only(text.drop_last()).push(text.last())
    } else {
        printable_only(text.drop_last())
    }
}

/// The line after one event in a text-entry mode: `Exit` and `Enter` leave
/// it alone, `BackSpace` removes its last character if there is one,
/// `SpaceBar` appends a space, and any other event appends the printable
/// characters of the frame's text.
pub open spec fn fold_input(pending: Seq<char>, text: Seq<char>, event: Events) -> Seq<char> {
    if event == Events::Exit || event == Events::Enter {
        pending
    } else if event == Events::BackSpace {
        if pending.len() > 0 {
            pending.drop_last()
        } else {
            pending
        }
    } else if event == Events::SpaceBar {
        pending.push(' ')
    } else {
        pending + printable_only(text)
    }
}

/// The line after `count` presses of backspace.
pub open spec fn erase(pending: Seq<char>, count: nat) -> Seq<char>
    decreases count,
{
    if count == 0 {
        pending
    } else {
        erase(fold_input(pending, Seq::empty(), Events::BackSpace), (count - 1) as nat)
    }
}

/// The line after a run of key presses, each given as the event and the text
/// of its frame.
pub open spec fn type_keys(pending: Seq<char>, keys: Seq<(Events, Seq<char>)>) -> Seq<char>
    decreases keys.len(),
{
    if keys.len() == 0 {
        pending
    } else {
        fold_input(type_keys(pending, keys.drop_last()), keys.last().1, keys.last().0)
    }
}

/// A key press that adds exactly one character to the line.
pub open spec fn adds_one(key: (Events, Seq<char>)) -> bool {
    fold_input(Seq::empty(), key.1, key.0).len() == 1
}

/// The characters of a frame's text that reach the line are all printable.
pub proof fn lemma_printable_only(text: Seq<char>)
    ensures
        printable_only(text).len() <= text.len(),
        forall|i: int|
            0 <= i < printable_only(text).len() ==> is_printable(
                #[trigger] printable_only(text)[i],
            ),
    decreases text.len(),
{
    if text.len() > 0 {
        lemma_printable_only(text.drop_last());
    }
}

/// Pressing backspace as many times as there are characters after a prefix
/// leaves the prefix.
pub proof fn lemma_erase_suffix(prefix: Seq<char>, suffix: Seq<char>)
    ensures
        erase(prefix + suffix, suffix.len()) == prefix,
    decreases suffix.len(),
{
    if suffix.len() > 0 {
        assert((prefix + suffix).drop_last() =~= prefix + suffix.drop_last());
        lemma_erase_suffix(prefix, suffix.drop_last());
    }
}

/// Typing N keys that each add one character and then pressing backspace N
/// times returns the line to what it was: nothing typed survives.
pub proof fn lemma_typed_then_erased(pending: Seq<char>, keys: Seq<(Events, Seq<char>)>)
    requires
        forall|i: int| 0 <= i < keys.len() ==> adds_one(#[trigger] keys[i]),
    ensures
        type_keys(pending, keys).len() == pending.len() + keys.len(),
        erase(type_keys(pending, keys), keys.len()) == pending,
{
    lemma_typed_extends(pending, keys);
    let typed = type_keys(pending, keys);
    let suffix = typed.subrange(pending.len() as int, typed.len() as int);
    assert(typed =~= pending + suffix);
    lemma_erase_suffix(pending, suffix);
}

proof fn lemma_typed_extends(pending: Seq<char>, keys: Seq<(Events, Seq<char>)>)
    requires
        forall|i: int| 0 <= i < keys.len() ==> adds_one(#[trigger] keys[i]),
    ensures
        type_keys(pending, keys).len() == pending.len() + keys.len(),
        type_keys(pending, keys).subrange(0, pending.len() as int) == pending,
    decreases keys.len(),
{
    if keys.len() > 0 {
        lemma_typed_extends(pending, keys.drop_last());
    }
}

/// NUL padding behind a frame does not change the text it carries.
pub proof fn lemma_clean_text_ignores_padding(buffer: Seq<u8>, padding: nat)
    ensures
        clean_text(buffer + Seq::new(padding, |i: int| 0u8)) == clean_text(buffer),
{
    lemma_without_nul_padding(buffer, padding);
}

proof fn lemma_without_nul_padding(buffer: Seq<u8>, padding: nat)
    ensures
        without_nul(buffer + Seq::new(padding, |i: int| 0u8)) == without_nul(buffer),
    decreases padding,
{
    let padded = buffer + Seq::new(padding, |i: int| 0u8);
    if padding > 0 {
        assert(padded.drop_last() =~= buffer + Seq::new((padding - 1) as nat, |i: int| 0u8));
        lemma_without_nul_padding(buffer, (padding - 1) as nat);
    }
}

/// The text a frame carries has no NUL in it and no white space at
/// either end.
pub proof fn lemma_clean_text_is_clean(buffer: Seq<u8>)
    ensures
        forall|i: int|
            0 <= i < clean_text(buffer).len() ==> #[trigger] clean_text(buffer)[i] != '\0',
        clean_text(buffer).len() > 0 ==> !is_whitespace(clean_text(buffer)[0]) && !is_whitespace(
            clean_text(buffer).last(),
        ),
{
    let bytes = without_nul(buffer);
    if valid_utf8(bytes) {
        let decoded = decode_utf8(bytes);
        crate::text::lemma_trimmed_edges(decoded);
        let range = crate::text::lemma_trimmed_is_part(decoded);
        lemma_without_nul_has_none(buffer);
        vstd::utf8::decode_utf8_encode_utf8(bytes);
        assert forall|i: int| 0 <= i < clean_text(buffer).len() implies #[trigger] clean_text(
            buffer,
        )[i] != '\0' by {
            let at = range.0 + i;
            if decoded[at] == '\0' {
                let j = lemma_encoded_nul(decoded, at);
                assert(bytes[j] == 0);
            }
        }
    }
}

proof fn lemma_without_nul_has_none(buffer: Seq<u8>)
    ensures
        forall|j: int|
            0 <= j < without_nul(buffer).len() ==> #[trigger] without_nul(buffer)[j] != 0,
    decreases buffer.len(),
{
    if buffer.len() > 0 {
        let front = without_nul(buffer.drop_last());
        lemma_without_nul_has_none(buffer.drop_last());
        assert forall|j: int| 0 <= j < without_nul(buffer).len() implies #[trigger] without_nul(
            buffer,
        )[j] != 0 by {
            if j < front.len() {
                assert(front[j] != 0);
            }
        }
    }
}

proof fn lemma_encoded_nul(text: Seq<char>, at: int) -> (j: int)
    requires
        0 <= at < text.len(),
        text[at] == '\0',
    ensures
        0 <= j < encode_utf8(text).len(),
        encode_utf8(text)[j] == 0,
    decreases text.len(),
{
    let first = vstd::utf8::encode_scalar(text[0] as u32);
    if at == 0 {
        assert(vstd::utf8::leading_byte_width_1(0u32) == 0u8) by (bit_vector);
        0
    } else {
        let inner = lemma_encoded_nul(text.drop_first(), at - 1);
        first.len() + inner
    }
}

/// The bytes of an ASCII text, one per character.
pub open spec fn ascii_bytes(text: Seq<char>) -> Seq<u8> {
    Seq::new(text.len(), |i: int| text[i] as u8)
}

/// A text that cleaning leaves alone: ASCII, with no NUL in it, and with no
/// white space at either end.
pub open spec fn is_clean_ascii(text: Seq<char>) -> bool {
    &&& is_ascii_chars(text)
    &&& forall|i: int| 0 <= i < text.len() ==> #[trigger] text[i] != '\0'
    &&& text.len() > 0 ==> !is_whitespace(text[0]) && !is_whitespace(text.last())
}

/// Cleaning is the identity on a clean ASCII text, with or without NUL
/// padding behind it.
pub proof fn lemma_clean_text_identity(text: Seq<char>, padding: nat)
    requires
        is_clean_ascii(text),
    ensures
        clean_text(ascii_bytes(text) + Seq::new(padding, |i: int| 0u8)) == text,
{
    lemma_clean_text_ignores_padding(ascii_bytes(text), padding);
    vstd::utf8::is_ascii_chars_encode_utf8(text);
    assert(ascii_bytes(text) =~= encode_utf8(text));
    lemma_without_nul_keeps(ascii_bytes(text));
    vstd::utf8::encode_utf8_valid_utf8(text);
    vstd::utf8::encode_utf8_decode_utf8(text);
}

proof fn lemma_without_nul_keeps(bytes: Seq<u8>)
    requires
        forall|i: int| 0 <= i < bytes.len() ==> #[trigger] bytes[i] != 0,
    ensures
        without_nul(bytes) == bytes,
    decreases bytes.len(),
{
    if bytes.len() > 0 {
        lemma_without_nul_keeps(bytes.drop_last());
    }
}

/// Whether `c` may be typed into a line.
pub fn printable(c: char) -> (b: bool)
    ensures
        b == is_printable(c),
{
    let code: u32 = c as u32;
    0x21 <= code && code <= 0x7E
}

/// One room more or less for a session: 1 while it is in `room`, else 0.
pub open spec fn occupancy(session_room: i32, room: int) -> int {
    if session_room > 0 && session_room as int == room {
        1
    } else {
        0
    }
}

/// The occupancy updates issued between two states of the repository are
/// those of one session that moved from `room_before` to `room_after`: for
/// every room, increments minus decrements equal what the session's
/// presence in that room changed by.
pub open spec fn conserved(
    room_before: i32,
    room_after: i32,
    before: Manager,
    after: Manager,
) -> bool {
    forall|room: int| #[trigger]
        after.net_joins(room) == before.net_joins(room) + occupancy(room_after, room) - occupancy(
            room_before,
            room,
        )
}

/// A session as contracts see it, apart from its screen.
pub struct SessionModel {
    /// The authenticated user; not positive while unauthenticated.
    pub user_id: i32,
    /// The room the session is in; not positive while in none.
    pub current_room: i32,
    pub mode: InputMode,
    /// The line typed so far in a text-entry mode.
    pub pending: Seq<char>,
}

/// What the session has to do after an event, beyond changing its own state.
pub struct Effects {
    /// The mode whose control sequence goes to the client, if any.
    pub control: Option<InputMode>,
    /// The events to publish, in order.
    pub broadcasts: Vec<BroadcastMessage>,
    /// The session is over: say goodbye and tear down.
    pub exit: bool,
}

/// One connection's state: who is logged in, which room they are in, how
/// input is read, the line being typed, and the screen on display.
pub struct UserInterface {
    current_view: CurrentView,
    current_room: i32,
    input_mode: InputMode,
    user_id: i32,
    user_input: String,
}

impl vstd::view::View for UserInterface {
    type V = SessionModel;

    closed spec fn view(&self) -> SessionModel {
        SessionModel {
            user_id: self.user_id,
            current_room: self.current_room,
            mode: self.input_mode,
            pending: self.user_input@,
        }
    }
}

impl UserInterface {
    /// The screen on display.
    pub closed spec fn current_view(&self) -> CurrentView {
        self.current_view
    }

    /// The screen is well formed, and a session that is not authenticated
    /// shows the login screen.
    pub open spec fn wf(&self) -> bool {
        &&& self.current_view().well_formed()
        &&& self@.user_id <= 0 ==> self.current_view() is Login
    }

    /// A session that is in a room shows that room.
    pub open spec fn room_consistent(&self) -> bool {
        self@.current_room > 0 ==> self.current_view() is Room
    }

    /// A fresh session: nobody logged in, no room, navigation mode, the
    /// login screen.
    pub fn new() -> (session: Self)
        ensures
            session@ == (SessionModel {
                user_id: -1i32,
                current_room: -1i32,
                mode: InputMode::Navigation,
                pending: Seq::empty(),
            }),
            session.current_view() is Login,
            session.current_view()->Login_0@ == LoginModel::initial(),
            session.wf(),
            session.room_consistent(),
    {
        Self {
            user_id: -1,
            current_view: CurrentView::Login(LoginRegisterView::new()),
            input_mode: InputMode::Navigation,
            current_room: -1,
            user_input: String::new(),
        }
    }

    pub fn clear_user_input(&mut self)
        ensures
            final(self)@ == (SessionModel { pending: Seq::empty(), ..old(self)@ }),
            final(self).current_view() == old(self).current_view(),
    {
        self.user_input = String::new();
    }

    pub fn get_user_input(&self) -> (line: String)
        ensures
            line@ == self@.pending,
    {
        self.user_input.clone()
    }

    /// Folds one event into the line being typed.
    pub fn handle_input_event(&mut self, buffer_str: &String, event: &Events)
        ensures
            final(self)@ == (SessionModel {
                pending: fold_input(old(self)@.pending, buffer_str@, *event),
                ..old(self)@
            }),
            final(self).current_view() == old(self).current_view(),
    {
        if *event == Events::Exit || *event == Events::Enter {
            return ;
        }
        if *event == Events::BackSpace {
            let _ = self.user_input.pop();
        } else if *event == Events::SpaceBar {
            self.user_input.push(' ');
        } else {
            let text = buffer_str.as_str();
            let count = text.unicode_len();
            let mut i: usize = 0;
            while i < count
                invariant
                    0 <= i <= count,
                    count == text@.len(),
                    self.user_input@ == old(self).user_input@ + printable_only(
                        text@.take(i as int),
                    ),
                    self.current_view == old(self).current_view,
                    self.current_room == old(self).current_room,
                    self.input_mode == old(self).input_mode,
                    self.user_id == old(self).user_id,
                decreases count - i,
            {
                let c = text.get_char(i);
                proof {
                    assert(text@.take(i + 1).drop_last() =~= text@.take(i as int));
                }
                if printable(c) {
                    self.user_input.push(c);
                }
                i = i + 1;
            }
            assert(text@.take(count as int) =~= text@);
        }
    }

    pub fn get_user_id(&self) -> (id: i32)
        ensures
            id == self@.user_id,
    {
        self.user_id
    }

    /// Records the room without telling the repository; joining and
    /// leaving go through `join_room` and `leave_room`.
    pub fn set_current_room_id(&mut self, room_id: i32)
        ensures
            final(self)@ == (SessionModel { current_room: room_id, ..old(self)@ }),
            final(self).current_view() == old(self).current_view(),
    {
        self.current_room = room_id;
    }

    pub fn get_current_room_id(&self) -> (id: i32)
        ensures
            id == self@.current_room,
    {
        self.current_room
    }

    /// Takes the user the login screen has authenticated as the session's
    /// user. On any other screen nothing changes.
    pub fn set_user_id(&mut self)
        requires
            old(self).wf(),
        ensures
            final(self).wf(),
            final(self).current_view() == old(self).current_view(),
            final(self)@ == (SessionModel {
                user_id: match old(self).current_view() {
                    CurrentView::Login(login) => login@.user_id,
                    _ => old(self)@.user_id,
                },
                ..old(self)@
            }),
    {
        match &self.current_view {
            CurrentView::Login(login) => {
                self.user_id = login.get_user_id();
            },
            _ => {},
        }
    }

    /// Switches between navigation and echoed text entry. Leaving text
    /// entry drops the line that was being typed.
    pub fn set_input_mode(&mut self, active: bool)
        ensures
            final(self).current_view() == old(self).current_view(),
            final(self)@ == (SessionModel {
                mode: if active {
                    InputMode::LineInput
                } else {
                    InputMode::Navigation
                },
                pending: if active {
                    old(self)@.pending
                } else {
                    Seq::empty()
                },
                ..old(self)@
            }),
    {
        if active {
            self.input_mode = InputMode::LineInput;
        } else {
            self.input_mode = InputMode::Navigation;
            self.user_input = String::new();
        }
    }

    /// Switches to secret text entry, on an empty line.
    pub fn set_secret_input_mode(&mut self)
        ensures
            final(self).current_view() == old(self).current_view(),
            final(self)@ == (SessionModel {
                mode: InputMode::SecretLineInput,
                pending: Seq::empty(),
                ..old(self)@
            }),
    {
        self.input_mode = InputMode::SecretLineInput;
        self.user_input = String::new();
    }

    /// Whether keys are text.
    pub fn is_in_input_mode(&self) -> (active: bool)
        ensures
            active == self@.mode.is_text_entry(),
    {
        self.input_mode != InputMode::Navigation
    }

    pub fn get_input_mode(&self) -> (mode: InputMode)
        ensures
            mode == self@.mode,
    {
        self.input_mode
    }

    pub fn get_current_view(&self) -> (view: &CurrentView)
        ensures
            *view == self.current_view(),
    {
        &self.current_view
    }

    /// Decodes one frame of input into its event.
    pub fn get_user_event(buffer: &[u8]) -> (event: Events)
        ensures
            event == decode(buffer@),
    {
        let first: u8 = if buffer.len() > 0 {
            buffer[0]
        } else {
            0
        };
        let second: u8 = if buffer.len() > 1 {
            buffer[1]
        } else {
            0
        };
        let third: u8 = if buffer.len() > 2 {
            buffer[2]
        } else {
            0
        };
        if first == 27 && second == 91 {
            Events::from_int(third as i32)
        } else if first == 9 {
            Events::TAB
        } else if first == 27 {
            Events::NavigateView
        } else if first == 127 {
            Events::BackSpace
        } else if first == 32 {
            Events::SpaceBar
        } else {
            Events::from_int(first as i32)
        }
    }

    /// Extracts the text one frame of input carries.
    pub fn clean_buffer(buffer: &[u8]) -> (text: String)
        ensures
            text@ == clean_text(buffer@),
    {
        let mut kept: Vec<u8> = Vec::new();
        let mut i: usize = 0;
        while i < buffer.len()
            invariant
                0 <= i <= buffer@.len(),
                kept@ == without_nul(buffer@.take(i as int)),
            decreases buffer@.len() - i,
        {
            proof {
                assert(buffer@.take(i + 1).drop_last() =~= buffer@.take(i as int));
            }
            if buffer[i] != 0 {
                kept.push(buffer[i]);
            }
            i = i + 1;
        }
        assert(buffer@.take(i as int) =~= buffer@);
        match String::from_utf8(kept) {
            Ok(decoded) => String::from_str(decoded.as_str().trim()),
            Err(_) => String::new(),
        }
    }

    /// The session with another user logged in.
    pub closed spec fn with_user(self, user_id: i32) -> UserInterface {
        UserInterface { user_id, ..self }
    }

    /// The session in another room.
    pub closed spec fn with_room(self, room_id: i32) -> UserInterface {
        UserInterface { current_room: room_id, ..self }
    }

    /// A session with another user or in another room differs in nothing else.
    pub proof fn lemma_with(self, id: i32)
        ensures
            self.with_user(id)@ == (SessionModel { user_id: id, ..self@ }),
            self.with_user(id).current_view() == self.current_view(),
            self.with_room(id)@ == (SessionModel { current_room: id, ..self@ }),
            self.with_room(id).current_view() == self.current_view(),
    {
    }

    /// Whether the screen's target leads anywhere. It does for a session
    /// that is authenticated, and then
    /// - to a room only while the session is in one, and anywhere else only
    ///   while it is in none;
    /// - to a user's profile only from a users listing with a user under
    ///   the cursor;
    /// - to a conversation only from a user's profile.
    pub open spec fn navigates(self) -> bool {
        &&& self@.user_id > 0
        &&& match self.current_view().target() {
            NavigateTo::NoneView => false,
            NavigateTo::RoomView => self@.current_room > 0,
            NavigateTo::UserView => self@.current_room <= 0 && self.current_view() is Users
                && self.current_view()->Users_0@.users.len() > 0,
            NavigateTo::DirectMessageView => self@.current_room <= 0 && self.current_view() is User,
            _ => self@.current_room <= 0,
        }
    }

    /// Whether `next` is the screen the session's target leads to, as first
    /// shown: built from the session's user and room, and from nothing else
    /// of the screen that is left behind but, for a profile, the user under
    /// the cursor and, for a conversation, the user of the profile.
    pub open spec fn arrives(self, next: CurrentView) -> bool {
        let user = self@.user_id;
        match self.current_view().target() {
            NavigateTo::MenuView => next is Menu && next->Menu_0@ == (MenuModel {
                user_id: user,
                selected: 0,
                target: NavigateTo::NoneView,
            }),
            NavigateTo::RoomsView => next is Rooms && next->Rooms_0@ == RoomsModel::initial(
                user,
                next->Rooms_0@.rooms,
            ),
            NavigateTo::RoomView => next is Room && next->Room_0@ == RoomModel::initial(
                self@.current_room,
                next->Room_0@.room_name,
                user,
                next->Room_0@.messages,
            ),
            NavigateTo::PeopleView => next is Users && next->Users_0@ == UsersModel::initial(
                next->Users_0@.users,
            ),
            NavigateTo::MeView => next is User && next->User_0@ == UserModel::initial(
                user,
                true,
                next->User_0@.user_data,
            ),
            NavigateTo::UserView => next is User && next->User_0@ == UserModel::initial(
                next->User_0@.user_id,
                false,
                next->User_0@.user_data,
            ),
            NavigateTo::DirectMessageView => next is DirectMessage && self.current_view() is User
                && next->DirectMessage_0@ == DirectMessageModel::initial(
                user,
                self.current_view()->User_0@.user_id,
                next->DirectMessage_0@.messages,
            ),
            NavigateTo::NoneView => false,
        }
    }

    /// What the router makes of a session: where the target leads
    /// somewhere, the screen it leads to, in that screen's entry mode;
    /// otherwise the session as it was. User, room and the line typed so
    /// far stay as they are.
    pub open spec fn routed(before: UserInterface, after: UserInterface) -> bool {
        if before.navigates() {
            &&& before.arrives(after.current_view())
            &&& after@ == (SessionModel { mode: after.current_view().entry_mode(), ..before@ })
        } else {
            after.current_view() == before.current_view() && after@ == before@
        }
    }

    /// What the router asks of the repository on the way to `next`: the
    /// first page of a listing or a conversation, the name and the first
    /// page of the session's room, the user's own profile, or the
    /// identifier and the profile of the user under the cursor. The menu
    /// needs nothing, and nothing is asked where the target leads nowhere.
    /// Each request is answered with what `next` shows: the profile of a
    /// user under the cursor is the profile of the user the repository
    /// found under that name.
    pub open spec fn route_requests(self, next: CurrentView) -> Seq<Request> {
        let user = self@.user_id;
        let room = self@.current_room;
        if !self.navigates() {
            Seq::empty()
        } else {
            match self.current_view().target() {
                NavigateTo::RoomsView => seq![
                    Request::GetRooms { offset: 0, rooms: next->Rooms_0@.rooms },
                ],
                NavigateTo::RoomView => seq![
                    Request::GetRoomName { room_id: room, name: next->Room_0@.room_name },
                    Request::GetRoomMessages {
                        room_id: room,
                        offset: 0,
                        messages: next->Room_0@.messages.reverse(),
                    },
                ],
                NavigateTo::PeopleView => seq![
                    Request::GetOnlineUsers { offset: 0, users: next->Users_0@.users },
                ],
                NavigateTo::MeView => seq![
                    Request::GetUser { user_id: user, profile: next->User_0@.user_data },
                ],
                NavigateTo::UserView => seq![
                    Request::GetUserId { name: self.selected_user(), id: next->User_0@.user_id },
                    Request::GetUser {
                        user_id: next->User_0@.user_id,
                        profile: next->User_0@.user_data,
                    },
                ],
                NavigateTo::DirectMessageView => seq![
                    Request::GetDirectMessages {
                        user_id: user,
                        to_user_id: self.current_view()->User_0@.user_id,
                        offset: 0,
                        messages: next->DirectMessage_0@.messages.reverse(),
                    },
                ],
                _ => Seq::empty(),
            }
        }
    }

    /// Replaces the screen by the one its target leads to.
    pub fn navigate_view(&mut self, repo: &mut Manager)
        requires
            old(self).wf(),
        ensures
            Self::routed(*old(self), *final(self)),
            issued(*old(repo), *final(repo), old(self).route_requests(final(self).current_view())),
            final(self).wf(),
            old(self).room_consistent() ==> final(self).room_consistent(),
    {
        if self.user_id <= 0 {
            return ;
        }
        let user_id = self.user_id;
        let room_id = self.current_room;
        let target = *self.current_view.get_navigate_to();
        let in_room = self.current_room > 0;
        let next: Option<CurrentView> = match target {
            NavigateTo::NoneView => None,
            NavigateTo::RoomView => {
                if in_room {
                    let room_name = repo.get_room_name_by_id(room_id);
                    let ghost named = *repo;
                    let room = RoomView::new(room_id, room_name, user_id, repo);
                    proof {
                        let first = Request::GetRoomName { room_id, name: room@.room_name };
                        let second = Request::GetRoomMessages {
                            room_id,
                            offset: 0,
                            messages: room@.messages.reverse(),
                        };
                        lemma_issued_one(*old(repo), named, first);
                        lemma_issued_then(*old(repo), named, *repo, seq![first], seq![second]);
                        assert(seq![first] + seq![second] =~= seq![first, second]);
                    }
                    Some(CurrentView::Room(room))
                } else {
                    None
                }
            },
            NavigateTo::MenuView => {
                if in_room {
                    None
                } else {
                    Some(CurrentView::Menu(BBSMenu::new(user_id)))
                }
            },
            NavigateTo::RoomsView => {
                if in_room {
                    None
                } else {
                    Some(CurrentView::Rooms(RoomsView::new(user_id, repo)))
                }
            },
            NavigateTo::PeopleView => {
                if in_room {
                    None
                } else {
                    Some(CurrentView::Users(UsersView::new(user_id, repo)))
                }
            },
            NavigateTo::MeView => {
                if in_room {
                    None
                } else {
                    Some(CurrentView::User(UserView::new(user_id, true, repo)))
                }
            },
            NavigateTo::UserView => {
                match &self.current_view {
                    CurrentView::Users(users) => {
                        if !in_room && users.has_selection() {
                            let shown = repo.get_user_id_by_name(users.get_selection());
                            let ghost looked = *repo;
                            let profile = UserView::new(shown, false, repo);
                            proof {
                                let first = Request::GetUserId {
                                    name: users@.users[users@.selected].0,
                                    id: shown,
                                };
                                let second = Request::GetUser {
                                    user_id: shown,
                                    profile: profile@.user_data,
                                };
                                lemma_issued_one(*old(repo), looked, first);
                                lemma_issued_then(
                                    *old(repo),
                                    looked,
                                    *repo,
                                    seq![first],
                                    seq![second],
                                );
                                assert(seq![first] + seq![second] =~= seq![first, second]);
                            }
                            Some(CurrentView::User(profile))
                        } else {
                            None
                        }
                    },
                    _ => None,
                }
            },
            NavigateTo::DirectMessageView => {
                match &self.current_view {
                    CurrentView::User(profile) => {
                        if in_room {
                            None
                        } else {
                            Some(
                                CurrentView::DirectMessage(
                                    DirectMessageView::new(user_id, profile.get_user_id(), repo),
                                ),
                            )
                        }
                    },
                    _ => None,
                }
            },
        };
        match next {
            Some(view) => {
                self.input_mode = match &view {
                    CurrentView::Room(_) => InputMode::LineInput,
                    CurrentView::DirectMessage(_) => InputMode::LineInput,
                    _ => InputMode::Navigation,
                };
                self.current_view = view;
            },
            None => {},
        }
    }

    /// Whether the login screen has authenticated a user.
    pub open spec fn authenticates(self) -> bool {
        self.current_view() is Login && self.current_view()->Login_0@.user_id > 0
    }

    /// The name under the cursor of the users listing.
    pub open spec fn selected_user(self) -> Seq<char> {
        let users = self.current_view()->Users_0@;
        users.users[users.selected].0
    }

    /// The name under the cursor of the rooms listing.
    pub open spec fn selected_room(self) -> Seq<char> {
        let rooms = self.current_view()->Rooms_0@;
        rooms.rooms[rooms.selected].0
    }

    /// Whether the rooms listing has a room under the cursor.
    pub open spec fn has_room_selected(self) -> bool {
        self.current_view() is Rooms && self.current_view()->Rooms_0@.rooms.len() > 0
    }

    /// What joining asks of the repository, where `found` is the
    /// identifier it answers with: the identifier of the room under the
    /// cursor and, if there is such a room, what entering it asks.
    pub open spec fn join_requests(self, found: i32) -> Seq<Request> {
        if !self.has_room_selected() {
            Seq::empty()
        } else {
            let lookup = seq![Request::GetRoomId { name: self.selected_room(), id: found }];
            lookup + enter_requests(self@.current_room, found)
        }
    }

    /// Enters the room the repository found, if it found one: one decrement
    /// for the room the session is in, one increment for the room it
    /// enters, and that room becomes the session's room. Returns the room,
    /// or -1 where none was found, and then nothing has changed.
    pub fn enter_room(&mut self, found: i32, repo: &mut Manager) -> (room_id: i32)
        ensures
            room_id == if found > 0 {
                found
            } else {
                -1i32
            },
            final(self).current_view() == old(self).current_view(),
            found > 0 ==> final(self)@ == (SessionModel { current_room: found, ..old(self)@ }),
            found <= 0 ==> final(self)@ == old(self)@ && *final(repo) == *old(repo),
            final(repo).journal() == old(repo).journal() + enter_requests(
                old(self)@.current_room,
                found,
            ),
            conserved(old(self)@.current_room, final(self)@.current_room, *old(repo), *final(repo)),
    {
        if found > 0 {
            let _ = remove_user_from_room(self.user_id, self.current_room, repo);
            repo.add_to_room_online(found);
            self.current_room = found;
            assert(repo.journal() =~= old(repo).journal() + enter_requests(
                old(self)@.current_room,
                found,
            ));
            found
        } else {
            assert(repo.journal() =~= old(repo).journal() + enter_requests(
                old(self)@.current_room,
                found,
            ));
            -1
        }
    }

    /// Joins the room under the cursor of the rooms listing: asks the
    /// repository for the identifier of the room of that name and enters
    /// the room it answers with. Returns that room, or -1 where no room is
    /// selected or the repository finds none, and then nothing has changed.
    pub fn join_room(&mut self, repo: &mut Manager) -> (room_id: i32)
        requires
            old(self).wf(),
        ensures
            final(self).wf(),
            final(self).current_view() == old(self).current_view(),
            room_id == -1 || room_id > 0,
            !old(self).has_room_selected() ==> room_id == -1,
            old(self).has_room_selected() ==> room_id == first_answer(*old(repo), *final(repo)),
            room_id > 0 ==> final(self)@ == (SessionModel { current_room: room_id, ..old(self)@ }),
            room_id == -1 ==> final(self)@ == old(self)@,
            final(repo).journal() == old(repo).journal() + old(self).join_requests(room_id),
            conserved(old(self)@.current_room, final(self)@.current_room, *old(repo), *final(repo)),
    {
        let selected = match &self.current_view {
            CurrentView::Rooms(rooms) => {
                if rooms.has_selection() {
                    Some(String::from_str(rooms.get_selection()))
                } else {
                    None
                }
            },
            _ => None,
        };
        match selected {
            Some(name) => {
                let found = repo.get_room_id_by_name(name);
                let ghost looked = *repo;
                let room_id = self.enter_room(found, repo);
                proof {
                    let lookup = Request::GetRoomId { name: old(self).selected_room(), id: found };
                    assert(looked.journal() =~= old(repo).journal() + seq![lookup]);
                    assert(repo.journal() =~= old(repo).journal() + (seq![lookup]
                        + enter_requests(old(self)@.current_room, found)));
                    assert(repo.journal()[old(repo).journal().len() as int] == lookup);
                }
                room_id
            },
            None => {
                assert(repo.journal() =~= old(repo).journal() + old(self).join_requests(-1i32));
                -1
            },
        }
    }

    /// Leaves the session's room, if it is in one: takes one from the
    /// room's occupancy and forgets the room at once, so that no second
    /// leave can follow. Returns the room that was left, or -1.
    pub fn leave_room(&mut self, repo: &mut Manager) -> (room_id: i32)
        ensures
            final(self).current_view() == old(self).current_view(),
            final(self)@ == (SessionModel {
                current_room: if old(self)@.current_room > 0 {
                    -1i32
                } else {
                    old(self)@.current_room
                },
                ..old(self)@
            }),
            room_id == if old(self)@.current_room > 0 {
                old(self)@.current_room
            } else {
                -1i32
            },
            final(repo).journal() == old(repo).journal() + leave_requests(old(self)@.current_room),
            conserved(old(self)@.current_room, final(self)@.current_room, *old(repo), *final(repo)),
    {
        let room_id = self.current_room;
        match remove_user_from_room(self.user_id, room_id, repo) {
            Some(_) => {
                self.current_room = -1;
                room_id
            },
            None => -1,
        }
    }

    /// Whether the rooms listing has answered `Enter` on a room: a room is
    /// under the cursor and the listing asks for the room screen.
    pub open spec fn joinable(self) -> bool {
        self.has_room_selected() && self.current_view().target() == NavigateTo::RoomView
    }

    /// What acting on `result` asks of the repository: what the router
    /// asks where the effect routes, before that what joining or leaving
    /// asks where the effect joins or leaves, and nothing otherwise.
    pub open spec fn effect_requests(
        before: UserInterface,
        result: Events,
        after: UserInterface,
    ) -> Seq<Request> {
        let room = before@.current_room;
        match result {
            Events::NavigateView => before.route_requests(after.current_view()),
            Events::Authenticate => if before.authenticates() {
                before.with_user(before.current_view()->Login_0@.user_id).route_requests(
                    after.current_view(),
                )
            } else {
                Seq::empty()
            },
            Events::RoomJoin => if !before.joinable() {
                Seq::empty()
            } else if after.current_view() is Room {
                before.join_requests(after@.current_room) + before.with_room(
                    after@.current_room,
                ).route_requests(after.current_view())
            } else {
                before.join_requests(-1i32)
            },
            Events::RoomLeave => leave_requests(room) + before.with_room(
                if room > 0 {
                    -1i32
                } else {
                    room
                },
            ).route_requests(after.current_view()),
            _ => Seq::empty(),
        }
    }

    /// What the session becomes, sends and publishes when its screen has
    /// answered `result`:
    /// - `Exit` ends the session;
    /// - `NavigateView` routes to the screen's target;
    /// - the three mode events switch the mode and send its control
    ///   sequence; leaving text entry and entering secret entry empty the line;
    /// - `Authenticate` takes the user the login screen authenticated,
    ///   routes, switches to navigation and publishes the login;
    /// - `RoomJoin` asks the repository for the room under the cursor and,
    ///   where it answers with a room, joins that room, publishes the join
    ///   and routes into the room; where it finds none, or no room is
    ///   selected, nothing happens;
    /// - `RoomLeave` leaves the session's room, publishes the leave and routes;
    /// - the two message events publish the message and empty the line;
    /// - every other event has no effect.
    /// Routing sends the control sequence of the mode it ends in. The
    /// repository is asked what joining, leaving and routing ask, and its
    /// occupancy counters move as the session's room does.
    pub open spec fn applied(
        before: UserInterface,
        repo_before: Manager,
        result: Events,
        after: UserInterface,
        repo_after: Manager,
        control: Option<InputMode>,
        broadcasts: Seq<BroadcastMessage>,
        exit: bool,
    ) -> bool {
        let user = before@.user_id;
        let room = before@.current_room;
        let unchanged = after.current_view() == before.current_view() && after@ == before@;
        let silent = control is None && broadcasts == Seq::<BroadcastMessage>::empty();
        let same_screen = after.current_view() == before.current_view();
        &&& exit == (result == Events::Exit)
        &&& repo_after.journal() == repo_before.journal() + Self::effect_requests(
            before,
            result,
            after,
        )
        &&& conserved(room, after@.current_room, repo_before, repo_after)
        &&& match result {
            Events::NavigateView => {
                &&& Self::routed(before, after)
                &&& control == if before.navigates() {
                    Some(after@.mode)
                } else {
                    None
                }
                &&& broadcasts == Seq::<BroadcastMessage>::empty()
            },
            Events::InputModeEnable => {
                &&& same_screen
                &&& after@ == (SessionModel { mode: InputMode::LineInput, ..before@ })
                &&& control == Some(InputMode::LineInput)
                &&& broadcasts == Seq::<BroadcastMessage>::empty()
            },
            Events::InputModeDisable => {
                &&& same_screen
                &&& after@ == (SessionModel {
                    mode: InputMode::Navigation,
                    pending: Seq::empty(),
                    ..before@
                })
                &&& control == Some(InputMode::Navigation)
                &&& broadcasts == Seq::<BroadcastMessage>::empty()
            },
            Events::SecretInputModeEnable => {
                &&& same_screen
                &&& after@ == (SessionModel {
                    mode: InputMode::SecretLineInput,
                    pending: Seq::empty(),
                    ..before@
                })
                &&& control == Some(InputMode::SecretLineInput)
                &&& broadcasts == Seq::<BroadcastMessage>::empty()
            },
            Events::Authenticate => {
                if before.authenticates() {
                    let authenticated = before.current_view()->Login_0@.user_id;
                    let known = before.with_user(authenticated);
                    &&& if known.navigates() {
                        known.arrives(after.current_view())
                    } else {
                        same_screen
                    }
                    &&& after@ == (SessionModel {
                        user_id: authenticated,
                        mode: InputMode::Navigation,
                        pending: Seq::empty(),
                        ..before@
                    })
                    &&& control == Some(InputMode::Navigation)
                    &&& broadcasts == seq![BroadcastMessage::UserLogin { user_id: authenticated }]
                } else {
                    unchanged && silent
                }
            },
            Events::RoomJoin => {
                if before.joinable() && first_answer(repo_before, repo_after) > 0 {
                    let found = first_answer(repo_before, repo_after);
                    &&& after@.current_room == found
                    &&& Self::routed(before.with_room(found), after)
                    &&& after.current_view() is Room
                    &&& control == Some(InputMode::LineInput)
                    &&& broadcasts == seq![
                        BroadcastMessage::RoomJoin { user_id: user, room_id: found },
                    ]
                } else {
                    unchanged && silent
                }
            },
            Events::RoomLeave => {
                let outside = before.with_room(
                    if room > 0 {
                        -1i32
                    } else {
                        room
                    },
                );
                &&& Self::routed(outside, after)
                &&& control == if outside.navigates() {
                    Some(after@.mode)
                } else {
                    None
                }
                &&& broadcasts == if room > 0 {
                    seq![BroadcastMessage::RoomLeave { user_id: user, room_id: room }]
                } else {
                    Seq::<BroadcastMessage>::empty()
                }
            },
            Events::RoomMessageSent => {
                &&& same_screen
                &&& after@ == (SessionModel { pending: Seq::empty(), ..before@ })
                &&& control is None
                &&& broadcasts == if room > 0 {
                    seq![BroadcastMessage::RoomMessage { user_id: user, room_id: room }]
                } else {
                    Seq::<BroadcastMessage>::empty()
                }
            },
            Events::DirectMessageSent => {
                &&& same_screen
                &&& after@ == (SessionModel { pending: Seq::empty(), ..before@ })
                &&& control is None
                &&& broadcasts == if before.current_view() is DirectMessage {
                    seq![
                        BroadcastMessage::DirectMessage {
                            user_id: user,
                            to_user_id: before.current_view()->DirectMessage_0@.to_user_id,
                        },
                    ]
                } else {
                    Seq::<BroadcastMessage>::empty()
                }
            },
            _ => unchanged && silent,
        }
    }

    /// Acts on the event the screen has answered with.
    pub fn apply_result_event(&mut self, repo: &mut Manager, result: Events) -> (effects: Effects)
        requires
            old(self).wf(),
        ensures
            Self::applied(
                *old(self),
                *old(repo),
                result,
                *final(self),
                *final(repo),
                effects.control,
                effects.broadcasts@,
                effects.exit,
            ),
            final(self).wf(),
            old(self).room_consistent() ==> final(self).room_consistent(),
    {
        let mut effects = Effects { control: None, broadcasts: Vec::new(), exit: false };
        let user_id = self.user_id;
        match result {
            Events::Exit => {
                effects.exit = true;
            },
            Events::NavigateView => {
                let moved = self.navigates_now();
                self.navigate_view(repo);
                if moved {
                    effects.control = Some(self.input_mode);
                }
            },
            Events::InputModeEnable => {
                self.set_input_mode(true);
                effects.control = Some(InputMode::LineInput);
            },
            Events::InputModeDisable => {
                self.set_input_mode(false);
                effects.control = Some(InputMode::Navigation);
            },
            Events::SecretInputModeEnable => {
                self.set_secret_input_mode();
                effects.control = Some(InputMode::SecretLineInput);
            },
            Events::Authenticate => {
                let authenticated: i32 = match &self.current_view {
                    CurrentView::Login(login) => login.get_user_id(),
                    _ => -1,
                };
                if authenticated > 0 {
                    self.set_user_id();
                    self.navigate_view(repo);
                    self.set_input_mode(false);
                    effects.control = Some(InputMode::Navigation);
                    effects.broadcasts.push(BroadcastMessage::UserLogin { user_id: authenticated });
                }
            },
            Events::RoomJoin => {
                let asked = match &self.current_view {
                    CurrentView::Rooms(rooms) => rooms.has_selection() && *rooms.get_navigate_to()
                        == NavigateTo::RoomView,
                    _ => false,
                };
                if asked {
                    let room_id = self.join_room(repo);
                    if room_id > 0 {
                        effects.broadcasts.push(BroadcastMessage::RoomJoin { user_id, room_id });
                        self.navigate_view(repo);
                        effects.control = Some(InputMode::LineInput);
                        proof {
                            let inside = old(self).with_room(room_id);
                            assert(repo.journal() =~= old(repo).journal() + (old(
                                self,
                            ).join_requests(room_id) + inside.route_requests(self.current_view())));
                        }
                    }
                }
            },
            Events::RoomLeave => {
                let room_id = self.leave_room(repo);
                if room_id > 0 {
                    effects.broadcasts.push(BroadcastMessage::RoomLeave { user_id, room_id });
                }
                let ghost outside = *self;
                let moved = self.navigates_now();
                self.navigate_view(repo);
                if moved {
                    effects.control = Some(self.input_mode);
                }
                proof {
                    assert(repo.journal() =~= old(repo).journal() + (leave_requests(
                        old(self)@.current_room,
                    ) + outside.route_requests(self.current_view())));
                }
            },
            Events::RoomMessageSent => {
                if self.current_room > 0 {
                    effects.broadcasts.push(
                        BroadcastMessage::RoomMessage { user_id, room_id: self.current_room },
                    );
                }
                self.clear_user_input();
            },
            Events::DirectMessageSent => {
                match &self.current_view {
                    CurrentView::DirectMessage(conversation) => {
                        effects.broadcasts.push(
                            BroadcastMessage::DirectMessage {
                                user_id,
                                to_user_id: conversation.to_user_id(),
                            },
                        );
                    },
                    _ => {},
                }
                self.clear_user_input();
            },
            _ => {},
        }
        effects
    }

    /// Whether the router would replace the screen.
    pub fn navigates_now(&self) -> (leads: bool)
        ensures
            leads == self.navigates(),
    {
        if self.user_id <= 0 {
            return false;
        }
        let in_room = self.current_room > 0;
        match *self.current_view.get_navigate_to() {
            NavigateTo::NoneView => false,
            NavigateTo::RoomView => in_room,
            NavigateTo::UserView => match &self.current_view {
                CurrentView::Users(users) => !in_room && users.has_selection(),
                _ => false,
            },
            NavigateTo::DirectMessageView => match &self.current_view {
                CurrentView::User(_) => !in_room,
                _ => false,
            },
            _ => !in_room,
        }
    }

    /// What the screen makes of one frame of input. In a text-entry mode
    /// the frame is first folded into the line, unless it is an arrow key,
    /// and the screen is handed the line; in navigation the screen is
    /// handed the frame's text. A line that the screen took with `Enter`,
    /// or sent as a message, is emptied. The repository is asked what the
    /// screen asks, and no occupancy counter moves.
    pub open spec fn dispatched(
        before: UserInterface,
        repo_before: Manager,
        buffer: Seq<u8>,
        after: UserInterface,
        repo_after: Manager,
        result: Events,
    ) -> bool {
        let event = decode(buffer);
        let typed = before@.mode.is_text_entry();
        let line = if typed && event != Events::UpArrow && event != Events::DownArrow {
            fold_input(before@.pending, clean_text(buffer), event)
        } else {
            before@.pending
        };
        let handed = if typed {
            line
        } else {
            clean_text(buffer)
        };
        let taken = typed && (result == Events::Enter || result == Events::RoomMessageSent || result
            == Events::DirectMessageSent);
        &&& CurrentView::handled(before.current_view(), event, handed, after.current_view(), result)
        &&& issued(
            repo_before,
            repo_after,
            CurrentView::requested(
                before.current_view(),
                event,
                handed,
                after.current_view(),
                result,
            ),
        )
        &&& after@ == (SessionModel {
            pending: if taken {
                Seq::empty()
            } else {
                line
            },
            ..before@
        })
    }

    /// Hands one frame of input to the screen and returns its answer.
    pub fn dispatch(&mut self, repo: &mut Manager, buffer: &[u8]) -> (result: Events)
        requires
            old(self).wf(),
        ensures
            Self::dispatched(*old(self), *old(repo), buffer@, *final(self), *final(repo), result),
            final(self).wf(),
            old(self).room_consistent() ==> final(self).room_consistent(),
    {
        let event = Self::get_user_event(buffer);
        let text = Self::clean_buffer(buffer);
        let typed = self.is_in_input_mode();
        if typed && event != Events::UpArrow && event != Events::DownArrow {
            self.handle_input_event(&text, &event);
        }
        let handed = if typed {
            self.get_user_input()
        } else {
            text
        };
        let result = self.current_view.handle_event(event, handed, repo);
        if typed && (result == Events::Enter || result == Events::RoomMessageSent || result
            == Events::DirectMessageSent) {
            self.clear_user_input();
        }
        result
    }

    /// The bytes that go to the client after a step: the control sequence
    /// of a mode, if one is due, and the text of the screen.
    pub open spec fn step_output(control: Option<InputMode>, screen: Seq<char>) -> Seq<u8> {
        match control {
            Some(mode) => mode.spec_control_sequence() + encode_utf8(screen),
            None => encode_utf8(screen),
        }
    }

    /// One turn of the session: decodes the frame, lets the screen react,
    /// acts on its answer and renders. `Exit`, from the client or from the
    /// screen, ends the session with the farewell; tearing down is the
    /// caller's next step.
    pub fn handle_client_input(&mut self, repo: &mut Manager, buffer: &[u8]) -> (step: ClientStep)
        requires
            old(self).wf(),
        ensures
            step.event == decode(buffer@),
            step.event == Events::Exit ==> {
                &&& step.closed
                &&& step.result == Events::Exit
                &&& final(self).current_view() == old(self).current_view()
                &&& final(self)@ == old(self)@
                &&& *final(repo) == *old(repo)
                &&& step.broadcasts@ == Seq::<BroadcastMessage>::empty()
            },
            step.event != Events::Exit ==> exists|between: UserInterface, repo_between: Manager|
                {
                    &&& Self::dispatched(
                        *old(self),
                        *old(repo),
                        buffer@,
                        between,
                        repo_between,
                        step.result,
                    )
                    &&& #[trigger] Self::applied(
                        between,
                        repo_between,
                        step.result,
                        *final(self),
                        *final(repo),
                        step.control,
                        step.broadcasts@,
                        step.closed,
                    )
                },
            step.closed ==> step.output@ == encode_utf8(GOODBYE@),
            !step.closed ==> step.output@ == Self::step_output(
                step.control,
                final(self).current_view().screen(),
            ),
            final(self).wf(),
            old(self).room_consistent() ==> final(self).room_consistent(),
            conserved(old(self)@.current_room, final(self)@.current_room, *old(repo), *final(repo)),
    {
        let event = Self::get_user_event(buffer);
        if event == Events::Exit {
            return ClientStep {
                event,
                result: Events::Exit,
                control: None,
                output: output_goodbye_message(),
                broadcasts: Vec::new(),
                closed: true,
            };
        }
        let result = self.dispatch(repo, buffer);
        let ghost between = *self;
        let ghost repo_between = *repo;
        let effects = self.apply_result_event(repo, result);
        let output = if effects.exit {
            output_goodbye_message()
        } else {
            let mut bytes: Vec<u8> = match effects.control {
                Some(mode) => mode.control_sequence(),
                None => Vec::new(),
            };
            let mut screen = self.current_view.render().as_str().as_bytes_vec();
            bytes.append(&mut screen);
            bytes
        };
        let step = ClientStep {
            event,
            result,
            control: effects.control,
            output,
            broadcasts: effects.broadcasts,
            closed: effects.exit,
        };
        assert(Self::applied(
            between,
            repo_between,
            step.result,
            *self,
            *repo,
            step.control,
            step.broadcasts@,
            step.closed,
        ));
        step
    }

    /// Reads the data behind the screen again.
    pub fn refresh_view(&mut self, repo: &mut Manager)
        requires
            old(self).wf(),
        ensures
            CurrentView::refreshed(old(self).current_view(), final(self).current_view()),
            issued(
                *old(repo),
                *final(repo),
                old(self).current_view().refresh_requests(&final(self).current_view()),
            ),
            final(self)@ == old(self)@,
            final(self).wf(),
            old(self).room_consistent() ==> final(self).room_consistent(),
    {
        self.current_view.refresh_data(repo);
    }

    /// The text of the screen on display.
    pub fn render(&self) -> (screen: String)
        requires
            self.wf(),
        ensures
            screen@ == self.current_view().screen(),
    {
        self.current_view.render()
    }

    /// Tears the session down: leaves its room, if it is in one, logs its
    /// user out, and returns the events to publish, the leave before the
    /// logout. The room is forgotten at once, so a second teardown leaves
    /// no room again.
    pub fn disconnect(&mut self, repo: &mut Manager) -> (notices: Vec<BroadcastMessage>)
        ensures
            notices@ == farewell(old(self)@.user_id, old(self)@.current_room),
            final(self).current_view() == old(self).current_view(),
            final(self)@ == (SessionModel {
                current_room: if old(self)@.current_room > 0 {
                    -1i32
                } else {
                    old(self)@.current_room
                },
                ..old(self)@
            }),
            final(repo).journal() == old(repo).journal() + farewell_requests(
                old(self)@.user_id,
                old(self)@.current_room,
            ),
            conserved(old(self)@.current_room, final(self)@.current_room, *old(repo), *final(repo)),
    {
        let notices = disconnect_user(self.user_id, self.current_room, repo);
        if self.current_room > 0 {
            self.current_room = -1;
        }
        notices
    }
}

/// What one turn of a session hands to its caller.
pub struct ClientStep {
    /// The event the frame decoded to.
    pub event: Events,
    /// The event the screen answered with.
    pub result: Events,
    /// The mode whose control sequence is part of `output`, if any.
    pub control: Option<InputMode>,
    /// The bytes to write to the client.
    pub output: Vec<u8>,
    /// The events to publish, in order.
    pub broadcasts: Vec<BroadcastMessage>,
    /// The session is over.
    pub closed: bool,
}

/// The events a session publishes when it ends: the leave of its room, if
/// it is in one, and then the logout of its user, or the anonymous logout
/// where nobody was logged in.
pub open spec fn farewell(user_id: i32, room_id: i32) -> Seq<BroadcastMessage> {
    let logout = if user_id > 0 {
        BroadcastMessage::Logout { user_id }
    } else {
        BroadcastMessage::AnonLogout
    };
    if room_id > 0 {
        seq![BroadcastMessage::RoomLeave { user_id, room_id }, logout]
    } else {
        seq![logout]
    }
}

/// What entering the room that was found asks of the repository: where a
/// room was found, what leaving the room the session is in asks, and one
/// increment for the room that was found; nothing where none was found.
pub open spec fn enter_requests(current_room: i32, found: i32) -> Seq<Request> {
    if found > 0 {
        leave_requests(current_room) + seq![Request::JoinRoom { room_id: found }]
    } else {
        Seq::empty()
    }
}

/// What leaving asks of the repository: one decrement for the room, where
/// there is one.
pub open spec fn leave_requests(room_id: i32) -> Seq<Request> {
    if room_id > 0 {
        seq![Request::LeaveRoom { room_id }]
    } else {
        Seq::empty()
    }
}

/// What a teardown asks of the repository: what leaving asks, and then to
/// mark the user as logged out, where somebody was logged in.
pub open spec fn farewell_requests(user_id: i32, room_id: i32) -> Seq<Request> {
    if user_id > 0 {
        leave_requests(room_id) + seq![Request::LogoutUser { user_id }]
    } else {
        leave_requests(room_id)
    }
}

/// Takes a user out of a room: one decrement of the room's occupancy, and
/// the leave to publish. Without a room there is nothing to do.
pub fn remove_user_from_room(user_id: i32, room_id: i32, repo: &mut Manager) -> (notice: Option<
    BroadcastMessage,
>)
    ensures
        notice == if room_id > 0 {
            Some(BroadcastMessage::RoomLeave { user_id, room_id })
        } else {
            None
        },
        final(repo).journal() == old(repo).journal() + leave_requests(room_id),
        conserved(room_id, -1i32, *old(repo), *final(repo)),
{
    if room_id > 0 {
        repo.subtract_from_room_online(room_id);
        Some(BroadcastMessage::RoomLeave { user_id, room_id })
    } else {
        None
    }
}

/// Ends a user's presence: takes them out of their room, marks them as
/// logged out, and returns the events to publish.
pub fn disconnect_user(user_id: i32, room_id: i32, repo: &mut Manager) -> (notices: Vec<
    BroadcastMessage,
>)
    ensures
        notices@ == farewell(user_id, room_id),
        final(repo).journal() == old(repo).journal() + farewell_requests(user_id, room_id),
        conserved(room_id, -1i32, *old(repo), *final(repo)),
{
    let mut notices: Vec<BroadcastMessage> = Vec::new();
    match remove_user_from_room(user_id, room_id, repo) {
        Some(leave) => {
            notices.push(leave);
        },
        None => {},
    }
    if user_id > 0 {
        repo.logout_user(user_id);
        notices.push(BroadcastMessage::Logout { user_id });
    } else {
        notices.push(BroadcastMessage::AnonLogout);
    }
    notices
}

/// A session that was in no room and has joined one has moved exactly one
/// counter: one increment for the room it joined.
pub proof fn lemma_join_adds_one(before: Manager, after: Manager, room_before: i32, joined: i32)
    requires
        conserved(room_before, joined, before, after),
        room_before <= 0,
        joined > 0,
    ensures
        forall|room: int| #[trigger]
            after.net_joins(room) == before.net_joins(room) + if room == joined {
                1int
            } else {
                0int
            },
{
}

/// A session that has moved from one room into another has moved exactly
/// two counters: one decrement for the room it left, one increment for the
/// room it joined.
pub proof fn lemma_move_takes_one_and_adds_one(
    before: Manager,
    after: Manager,
    room_before: i32,
    joined: i32,
)
    requires
        conserved(room_before, joined, before, after),
        room_before > 0,
        joined > 0,
        room_before != joined,
    ensures
        after.net_joins(joined as int) == before.net_joins(joined as int) + 1,
        after.net_joins(room_before as int) == before.net_joins(room_before as int) - 1,
        forall|room: int|
            room != joined && room != room_before ==> #[trigger] after.net_joins(room)
                == before.net_joins(room),
{
}

/// How many of the sessions whose rooms are listed are in `room`.
pub open spec fn joined_count(rooms: Seq<i32>, room: int) -> int
    decreases rooms.len(),
{
    if rooms.len() == 0 {
        0
    } else {
        joined_count(rooms.drop_last(), room) + occupancy(rooms.last(), room)
    }
}

/// The ledger of a repository says, for every room, how many of the listed
/// sessions are in it.
pub open spec fn ledger_matches(repo: Manager, rooms: Seq<i32>) -> bool {
    forall|room: int| #[trigger] repo.net_joins(room) == joined_count(rooms, room)
}

/// A repository that has served nothing matches sessions that are in no room.
pub proof fn lemma_ledger_starts_matched(repo: Manager, rooms: Seq<i32>)
    requires
        repo.journal() == Seq::<Request>::empty(),
        forall|i: int| 0 <= i < rooms.len() ==> #[trigger] rooms[i] <= 0,
    ensures
        ledger_matches(repo, rooms),
    decreases rooms.len(),
{
    if rooms.len() > 0 {
        lemma_ledger_starts_matched(repo, rooms.drop_last());
    }
}

proof fn lemma_joined_count_update(rooms: Seq<i32>, mover: int, room_after: i32, room: int)
    requires
        0 <= mover < rooms.len(),
    ensures
        joined_count(rooms.update(mover, room_after), room) == joined_count(rooms, room)
            + occupancy(room_after, room) - occupancy(rooms[mover], room),
    decreases rooms.len(),
{
    let updated = rooms.update(mover, room_after);
    if mover == rooms.len() - 1 {
        assert(updated.drop_last() =~= rooms.drop_last());
    } else {
        assert(updated.drop_last() =~= rooms.drop_last().update(mover, room_after));
        lemma_joined_count_update(rooms.drop_last(), mover, room_after, room);
    }
}

/// Increments minus decrements of every room equal the number of sessions
/// in it, and stay so: if the ledger matches the sessions before one of
/// them takes a step that conserves occupancy, it matches them after.
pub proof fn lemma_ledger_counts_joined_sessions(
    before: Manager,
    after: Manager,
    rooms: Seq<i32>,
    mover: int,
    room_after: i32,
)
    requires
        0 <= mover < rooms.len(),
        ledger_matches(before, rooms),
        conserved(rooms[mover], room_after, before, after),
    ensures
        ledger_matches(after, rooms.update(mover, room_after)),
{
    assert forall|room: int| #[trigger]
        after.net_joins(room) == joined_count(rooms.update(mover, room_after), room) by {
        lemma_joined_count_update(rooms, mover, room_after, room);
    }
}

} // verus!
