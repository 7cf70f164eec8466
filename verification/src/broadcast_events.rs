//! The events sessions publish to each other: their JSON form on the bus,
//! what a received text decodes to, and which of them concern a session.

use vstd::prelude::*;
use serde_json::Value;
use vstd::utf8::encode_utf8;
use vstd::view::View as _;
use crate::db::manage::{Manager, issued};
use crate::input_interface::UserInterface;
use crate::text::{decimal, push_decimal, same_text};
use crate::views::base_view::View;
use crate::views::current_view::CurrentView;

verus! {

#[verifier::external_type_specification]
#[verifier::external_body]
pub struct ExValue(Value);

#[verifier::external_type_specification]
#[verifier::external_body]
pub struct ExJsonError(serde_json::Error);

/// The members of a JSON object whose value is a string, by key. Empty for
/// a document that is not an object.
pub uninterp spec fn json_strings(value: Value) -> Map<Seq<char>, Seq<char>>;

/// The members of a JSON object whose value is an integer that fits 64
/// signed bits, by key. Empty for a document that is not an object.
pub uninterp spec fn json_integers(value: Value) -> Map<Seq<char>, int>;

/// What `serde_json::from_str` makes of a text: `None` where the text is
/// not one JSON document, else the string members and the integer members
/// of the document it parses to.
pub uninterp spec fn json_members(raw: Seq<char>) -> Option<
    (Map<Seq<char>, Seq<char>>, Map<Seq<char>, int>),
>;

/// `serde_json::from_str`: parses a text as one JSON document, or reports
/// why it is none. The outcome depends on the text alone.
#[verifier::external_body]
fn parse_json(raw: &str) -> (r: Result<Value, serde_json::Error>)
    ensures
        r is Ok ==> json_members(raw@) == Some((json_strings(r->Ok_0), json_integers(r->Ok_0))),
        r is Err ==> json_members(raw@) is None,
{
    serde_json::from_str(raw)
}

/// `serde_json::Value::get` with a key, then `Value::as_str`: the string
/// under `key` where the document is an object that has this member and the
/// member is a string; `None` in every other case.
#[verifier::external_body]
fn member_text(value: &Value, key: &str) -> (r: Option<String>)
    ensures
        r is Some == json_strings(*value).contains_key(key@),
        r is Some ==> r->0@ == json_strings(*value)[key@],
{
    value.get(key).and_then(|member| member.as_str()).map(|text| text.to_owned())
}

/// `serde_json::Value::get` with a key, then `Value::as_i64`: the number
/// under `key` where the document is an object that has this member and the
/// member is an integer that fits 64 signed bits; `None` in every other case.
#[verifier::external_body]
fn member_integer(value: &Value, key: &str) -> (r: Option<i64>)
    ensures
        r is Some == json_integers(*value).contains_key(key@),
        r is Some ==> r->0 as int == json_integers(*value)[key@],
{
    value.get(key).and_then(|member| member.as_i64())
}

pub const USER_LOGIN: &'static str = "user_login";

pub const LOGOUT: &'static str = "logout";

pub const ANON_LOGOUT: &'static str = "anon_logout";

pub const ROOM_JOIN: &'static str = "room_join";

pub const ROOM_LEAVE: &'static str = "room_leave";

pub const ROOM_MESSAGE: &'static str = "room_message";

pub const DIRECT_MESSAGE: &'static str = "direct_message";

/// An event as a session publishes it.
#[derive(PartialEq, Eq, Structural, Clone, Copy, Debug)]
pub enum BroadcastMessage {
    UserLogin { user_id: i32 },
    Logout { user_id: i32 },
    AnonLogout,
    RoomJoin { user_id: i32, room_id: i32 },
    RoomLeave { user_id: i32, room_id: i32 },
    RoomMessage { user_id: i32, room_id: i32 },
    DirectMessage { user_id: i32, to_user_id: i32 },
}

/// An event as a session receives it: the members of the JSON object that
/// the listeners look at.
pub struct BroadcastEvent {
    pub event_type: String,
    pub user_id: Option<i64>,
    pub room_id: Option<i64>,
    pub to_user_id: Option<i64>,
}

/// What a received event is, to a contract.
pub struct EventModel {
    pub event_type: Seq<char>,
    pub user_id: Option<i64>,
    pub room_id: Option<i64>,
    pub to_user_id: Option<i64>,
}

impl vstd::view::View for BroadcastEvent {
    type V = EventModel;

    open spec fn view(&self) -> EventModel {
        EventModel {
            event_type: self.event_type@,
            user_id: self.user_id,
            room_id: self.room_id,
            to_user_id: self.to_user_id,
        }
    }
}

/// What a listener does about a received event.
#[derive(PartialEq, Eq, Structural, Clone, Copy, Debug)]
pub enum Relevance {
    /// The event does not concern the session.
    Ignore,
    /// The session reads its screen's data again and shows it.
    Refresh,
    /// The session is shutting down: the listener ends.
    Terminate,
}

/// One numeric member of the JSON object.
pub open spec fn member(name: Seq<char>, value: int) -> Seq<char> {
    ", \""@ + name + "\": "@ + decimal(value)
}

/// The integer member `key` of a parsed object, if it has one.
pub open spec fn integer_member(integers: Map<Seq<char>, int>, key: Seq<char>) -> Option<i64> {
    if integers.contains_key(key) && i64::MIN <= integers[key] <= i64::MAX {
        Some(integers[key] as i64)
    } else {
        None
    }
}

impl BroadcastMessage {
    /// The value of the `event_type` member.
    pub open spec fn event_type(self) -> Seq<char> {
        match self {
            BroadcastMessage::UserLogin { .. } => USER_LOGIN@,
            BroadcastMessage::Logout { .. } => LOGOUT@,
            BroadcastMessage::AnonLogout => ANON_LOGOUT@,
            BroadcastMessage::RoomJoin { .. } => ROOM_JOIN@,
            BroadcastMessage::RoomLeave { .. } => ROOM_LEAVE@,
            BroadcastMessage::RoomMessage { .. } => ROOM_MESSAGE@,
            BroadcastMessage::DirectMessage { .. } => DIRECT_MESSAGE@,
        }
    }

    /// The members behind `event_type`: `user_id` on every event but the
    /// anonymous logout, `room_id` on room events, `to_user_id` on direct
    /// messages.
    pub open spec fn members(self) -> Seq<char> {
        match self {
            BroadcastMessage::UserLogin { user_id } => member("user_id"@, user_id as int),
            BroadcastMessage::Logout { user_id } => member("user_id"@, user_id as int),
            BroadcastMessage::AnonLogout => Seq::empty(),
            BroadcastMessage::RoomJoin { user_id, room_id } => member("user_id"@, user_id as int)
                + member("room_id"@, room_id as int),
            BroadcastMessage::RoomLeave { user_id, room_id } => member("user_id"@, user_id as int)
                + member("room_id"@, room_id as int),
            BroadcastMessage::RoomMessage { user_id, room_id } => member(
                "user_id"@,
                user_id as int,
            ) + member("room_id"@, room_id as int),
            BroadcastMessage::DirectMessage { user_id, to_user_id } => member(
                "user_id"@,
                user_id as int,
            ) + member("to_user_id"@, to_user_id as int),
        }
    }

    /// The JSON text of the event.
    pub open spec fn encoded(self) -> Seq<char> {
        "{\"event_type\": \""@ + self.event_type() + "\""@ + self.members() + "}"@
    }

    /// What a listener reads out of the event.
    pub open spec fn as_model(self) -> EventModel {
        match self {
            BroadcastMessage::UserLogin { user_id } => EventModel {
                event_type: USER_LOGIN@,
                user_id: Some(user_id as i64),
                room_id: None,
                to_user_id: None,
            },
            BroadcastMessage::Logout { user_id } => EventModel {
                event_type: LOGOUT@,
                user_id: Some(user_id as i64),
                room_id: None,
                to_user_id: None,
            },
            BroadcastMessage::AnonLogout => EventModel {
                event_type: ANON_LOGOUT@,
                user_id: None,
                room_id: None,
                to_user_id: None,
            },
            BroadcastMessage::RoomJoin { user_id, room_id } => EventModel {
                event_type: ROOM_JOIN@,
                user_id: Some(user_id as i64),
                room_id: Some(room_id as i64),
                to_user_id: None,
            },
            BroadcastMessage::RoomLeave { user_id, room_id } => EventModel {
                event_type: ROOM_LEAVE@,
                user_id: Some(user_id as i64),
                room_id: Some(room_id as i64),
                to_user_id: None,
            },
            BroadcastMessage::RoomMessage { user_id, room_id } => EventModel {
                event_type: ROOM_MESSAGE@,
                user_id: Some(user_id as i64),
                room_id: Some(room_id as i64),
                to_user_id: None,
            },
            BroadcastMessage::DirectMessage { user_id, to_user_id } => EventModel {
                event_type: DIRECT_MESSAGE@,
                user_id: Some(user_id as i64),
                room_id: None,
                to_user_id: Some(to_user_id as i64),
            },
        }
    }

    fn push_member(out: &mut String, name: &str, value: i32)
        ensures
            final(out)@ == old(out)@ + member(name@, value as int),
    {
        out.append(", \"");
        out.append(name);
        out.append("\": ");
        push_decimal(out, value as i64);
    }

    /// Writes the event as the JSON text that goes on the bus.
    pub fn encode(&self) -> (json: String)
        ensures
            json@ == self.encoded(),
    {
        let mut json = String::from_str("{\"event_type\": \"");
        match self {
            BroadcastMessage::UserLogin { user_id } => {
                json.append(USER_LOGIN);
                json.append("\"");
                Self::push_member(&mut json, "user_id", *user_id);
            },
            BroadcastMessage::Logout { user_id } => {
                json.append(LOGOUT);
                json.append("\"");
                Self::push_member(&mut json, "user_id", *user_id);
            },
            BroadcastMessage::AnonLogout => {
                json.append(ANON_LOGOUT);
                json.append("\"");
            },
            BroadcastMessage::RoomJoin { user_id, room_id } => {
                json.append(ROOM_JOIN);
                json.append("\"");
                Self::push_member(&mut json, "user_id", *user_id);
                Self::push_member(&mut json, "room_id", *room_id);
            },
            BroadcastMessage::RoomLeave { user_id, room_id } => {
                json.append(ROOM_LEAVE);
                json.append("\"");
                Self::push_member(&mut json, "user_id", *user_id);
                Self::push_member(&mut json, "room_id", *room_id);
            },
            BroadcastMessage::RoomMessage { user_id, room_id } => {
                json.append(ROOM_MESSAGE);
                json.append("\"");
                Self::push_member(&mut json, "user_id", *user_id);
                Self::push_member(&mut json, "room_id", *room_id);
            },
            BroadcastMessage::DirectMessage { user_id, to_user_id } => {
                json.append(DIRECT_MESSAGE);
                json.append("\"");
                Self::push_member(&mut json, "user_id", *user_id);
                Self::push_member(&mut json, "to_user_id", *to_user_id);
            },
        }
        json.append("}");
        json
    }

    /// The event as a listener that receives it reads it.
    pub fn as_event(&self) -> (event: BroadcastEvent)
        ensures
            event@ == self.as_model(),
    {
        match self {
            BroadcastMessage::UserLogin { user_id } => BroadcastEvent {
                event_type: String::from_str(USER_LOGIN),
                user_id: Some(*user_id as i64),
                room_id: None,
                to_user_id: None,
            },
            BroadcastMessage::Logout { user_id } => BroadcastEvent {
                event_type: String::from_str(LOGOUT),
                user_id: Some(*user_id as i64),
                room_id: None,
                to_user_id: None,
            },
            BroadcastMessage::AnonLogout => BroadcastEvent {
                event_type: String::from_str(ANON_LOGOUT),
                user_id: None,
                room_id: None,
                to_user_id: None,
            },
            BroadcastMessage::RoomJoin { user_id, room_id } => BroadcastEvent {
                event_type: String::from_str(ROOM_JOIN),
                user_id: Some(*user_id as i64),
                room_id: Some(*room_id as i64),
                to_user_id: None,
            },
            BroadcastMessage::RoomLeave { user_id, room_id } => BroadcastEvent {
                event_type: String::from_str(ROOM_LEAVE),
                user_id: Some(*user_id as i64),
                room_id: Some(*room_id as i64),
                to_user_id: None,
            },
            BroadcastMessage::RoomMessage { user_id, room_id } => BroadcastEvent {
                event_type: String::from_str(ROOM_MESSAGE),
                user_id: Some(*user_id as i64),
                room_id: Some(*room_id as i64),
                to_user_id: None,
            },
            BroadcastMessage::DirectMessage { user_id, to_user_id } => BroadcastEvent {
                event_type: String::from_str(DIRECT_MESSAGE),
                user_id: Some(*user_id as i64),
                room_id: None,
                to_user_id: Some(*to_user_id as i64),
            },
        }
    }
}

/// What a parsed object decodes to: its `event_type` string, empty where it
/// has none, and its three integer members where it has them.
pub open spec fn spec_decode(
    strings: Map<Seq<char>, Seq<char>>,
    integers: Map<Seq<char>, int>,
) -> EventModel {
    EventModel {
        event_type: if strings.contains_key("event_type"@) {
            strings["event_type"@]
        } else {
            Seq::empty()
        },
        user_id: integer_member(integers, "user_id"@),
        room_id: integer_member(integers, "room_id"@),
        to_user_id: integer_member(integers, "to_user_id"@),
    }
}

/// Reads the members a listener looks at out of a parsed document.
pub fn decode_event(value: &Value) -> (event: BroadcastEvent)
    ensures
        event@ == spec_decode(json_strings(*value), json_integers(*value)),
{
    let event_type = match member_text(value, "event_type") {
        Some(name) => name,
        None => String::new(),
    };
    BroadcastEvent {
        event_type,
        user_id: member_integer(value, "user_id"),
        room_id: member_integer(value, "room_id"),
        to_user_id: member_integer(value, "to_user_id"),
    }
}

/// What a text from the bus decodes to; `None` where it is not JSON.
pub open spec fn spec_parse(raw: Seq<char>) -> Option<EventModel> {
    match json_members(raw) {
        Some(members) => Some(spec_decode(members.0, members.1)),
        None => None,
    }
}

/// Parses a text from the bus. `None` where it is not JSON.
pub fn parse_event(raw: &str) -> (event: Option<BroadcastEvent>)
    ensures
        event is Some == spec_parse(raw@) is Some,
        event is Some ==> Some(event->0@) == spec_parse(raw@),
{
    match parse_json(raw) {
        Ok(value) => Some(decode_event(&value)),
        Err(_) => None,
    }
}

/// What a listener does about an event, for a session of `session_user`
/// (not positive while unauthenticated) that is in `session_room`:
/// - a room message, a room leave or a room join for the session's room
///   refreshes;
/// - a direct message from or to the session's user refreshes;
/// - the logout of the session's user, or an anonymous logout while the
///   session is unauthenticated, ends the listener;
/// - everything else is ignored.
pub open spec fn spec_relevance(
    event: EventModel,
    session_user: i32,
    session_room: i32,
) -> Relevance {
    if event.event_type == ROOM_MESSAGE@ || event.event_type == ROOM_LEAVE@ || event.event_type
        == ROOM_JOIN@ {
        if event.room_id == Some(session_room as i64) {
            Relevance::Refresh
        } else {
            Relevance::Ignore
        }
    } else if event.event_type == LOGOUT@ && event.user_id == Some(session_user as i64) {
        Relevance::Terminate
    } else if event.event_type == ANON_LOGOUT@ && session_user <= 0 {
        Relevance::Terminate
    } else if event.event_type == DIRECT_MESSAGE@ && (event.user_id == Some(session_user as i64)
        || event.to_user_id == Some(session_user as i64)) {
        Relevance::Refresh
    } else {
        Relevance::Ignore
    }
}

fn holds(member: Option<i64>, id: i32) -> (same: bool)
    ensures
        same == (member == Some(id as i64)),
{
    match member {
        Some(value) => value == id as i64,
        None => false,
    }
}

/// Decides what a listener does about a received event.
pub fn relevance(event: &BroadcastEvent, session_user: i32, session_room: i32) -> (verdict:
    Relevance)
    ensures
        verdict == spec_relevance(event@, session_user, session_room),
{
    let kind = event.event_type.as_str();
    if same_text(kind, ROOM_MESSAGE) || same_text(kind, ROOM_LEAVE) || same_text(kind, ROOM_JOIN) {
        if holds(event.room_id, session_room) {
            Relevance::Refresh
        } else {
            Relevance::Ignore
        }
    } else if same_text(kind, LOGOUT) && holds(event.user_id, session_user) {
        Relevance::Terminate
    } else if same_text(kind, ANON_LOGOUT) && session_user <= 0 {
        Relevance::Terminate
    } else if same_text(kind, DIRECT_MESSAGE) && (holds(event.user_id, session_user) || holds(
        event.to_user_id,
        session_user,
    )) {
        Relevance::Refresh
    } else {
        Relevance::Ignore
    }
}

/// The seven event types are seven different texts.
pub proof fn lemma_event_types_differ()
    ensures
        USER_LOGIN@ != LOGOUT@,
        USER_LOGIN@ != ANON_LOGOUT@,
        USER_LOGIN@ != ROOM_JOIN@,
        USER_LOGIN@ != ROOM_LEAVE@,
        USER_LOGIN@ != ROOM_MESSAGE@,
        USER_LOGIN@ != DIRECT_MESSAGE@,
        LOGOUT@ != ANON_LOGOUT@,
        LOGOUT@ != ROOM_JOIN@,
        LOGOUT@ != ROOM_LEAVE@,
        LOGOUT@ != ROOM_MESSAGE@,
        LOGOUT@ != DIRECT_MESSAGE@,
        ANON_LOGOUT@ != ROOM_JOIN@,
        ANON_LOGOUT@ != ROOM_LEAVE@,
        ANON_LOGOUT@ != ROOM_MESSAGE@,
        ANON_LOGOUT@ != DIRECT_MESSAGE@,
        ROOM_JOIN@ != ROOM_LEAVE@,
        ROOM_JOIN@ != ROOM_MESSAGE@,
        ROOM_JOIN@ != DIRECT_MESSAGE@,
        ROOM_LEAVE@ != ROOM_MESSAGE@,
        ROOM_LEAVE@ != DIRECT_MESSAGE@,
        ROOM_MESSAGE@ != DIRECT_MESSAGE@,
{
    reveal_strlit("user_login");
    reveal_strlit("logout");
    reveal_strlit("anon_logout");
    reveal_strlit("room_join");
    reveal_strlit("room_leave");
    reveal_strlit("room_message");
    reveal_strlit("direct_message");
    assert(LOGOUT@.len() == 6);
    assert(ANON_LOGOUT@.len() == 11);
    assert(ROOM_JOIN@.len() == 9);
    assert(ROOM_LEAVE@.len() == 10 && ROOM_LEAVE@[0] == 'r');
    assert(ROOM_MESSAGE@.len() == 12);
    assert(DIRECT_MESSAGE@.len() == 14);
}

/// A direct message makes exactly the sessions of its two users refresh.
pub proof fn lemma_direct_message_reaches_its_users(
    from: i32,
    to: i32,
    session_user: i32,
    session_room: i32,
)
    ensures
        spec_relevance(
            (BroadcastMessage::DirectMessage { user_id: from, to_user_id: to }).as_model(),
            session_user,
            session_room,
        ) == if session_user == from || session_user == to {
            Relevance::Refresh
        } else {
            Relevance::Ignore
        },
{
    lemma_event_types_differ();
}

/// A room message, a room leave and a room join each make exactly the
/// sessions in that room refresh.
pub proof fn lemma_room_events_reach_their_room(
    user: i32,
    room: i32,
    session_user: i32,
    session_room: i32,
)
    ensures
        spec_relevance(
            (BroadcastMessage::RoomMessage { user_id: user, room_id: room }).as_model(),
            session_user,
            session_room,
        ) == if session_room == room {
            Relevance::Refresh
        } else {
            Relevance::Ignore
        },
        spec_relevance(
            (BroadcastMessage::RoomLeave { user_id: user, room_id: room }).as_model(),
            session_user,
            session_room,
        ) == if session_room == room {
            Relevance::Refresh
        } else {
            Relevance::Ignore
        },
        spec_relevance(
            (BroadcastMessage::RoomJoin { user_id: user, room_id: room }).as_model(),
            session_user,
            session_room,
        ) == if session_room == room {
            Relevance::Refresh
        } else {
            Relevance::Ignore
        },
{
}

/// A logout ends exactly the listeners of that user's sessions; an
/// anonymous logout ends exactly those of unauthenticated sessions.
pub proof fn lemma_logout_ends_own_listener(user: i32, session_user: i32, session_room: i32)
    ensures
        spec_relevance(
            (BroadcastMessage::Logout { user_id: user }).as_model(),
            session_user,
            session_room,
        ) == if session_user == user {
            Relevance::Terminate
        } else {
            Relevance::Ignore
        },
        spec_relevance(BroadcastMessage::AnonLogout.as_model(), session_user, session_room)
            == if session_user <= 0 {
            Relevance::Terminate
        } else {
            Relevance::Ignore
        },
{
    lemma_event_types_differ();
}

/// What a session's listener does after an event from the bus.
pub enum ListenerAction {
    /// Wait for the next event.
    Continue,
    /// Write these bytes, the screen with its data read again, to the
    /// client, then wait for the next event.
    Write(Vec<u8>),
    /// End: the session is shutting down.
    Stop,
}

/// What a listener makes of a received event: the session itself stays as
/// it is; where the event concerns it, its screen reads its data again and
/// the new screen is what goes to the client. The repository is asked for
/// that data and nothing else.
pub open spec fn reacted(
    event: EventModel,
    before: UserInterface,
    repo_before: Manager,
    after: UserInterface,
    repo_after: Manager,
    action: ListenerAction,
) -> bool {
    &&& after@ == before@
    &&& match spec_relevance(event, before@.user_id, before@.current_room) {
        Relevance::Ignore => {
            &&& action is Continue
            &&& after.current_view() == before.current_view()
            &&& repo_after == repo_before
        },
        Relevance::Terminate => {
            &&& action is Stop
            &&& after.current_view() == before.current_view()
            &&& repo_after == repo_before
        },
        Relevance::Refresh => {
            &&& action is Write
            &&& CurrentView::refreshed(before.current_view(), after.current_view())
            &&& action->Write_0@ == encode_utf8(after.current_view().screen())
            &&& issued(
                repo_before,
                repo_after,
                before.current_view().refresh_requests(&after.current_view()),
            )
        },
    }
}

/// Applies the relevance filter to a received event and refreshes the
/// session's screen where the event concerns it.
pub fn react_to_event(
    event: &BroadcastEvent,
    ui: &mut UserInterface,
    repo: &mut Manager,
) -> (action: ListenerAction)
    requires
        old(ui).wf(),
    ensures
        reacted(event@, *old(ui), *old(repo), *final(ui), *final(repo), action),
        final(ui).wf(),
        old(ui).room_consistent() ==> final(ui).room_consistent(),
{
    match relevance(event, ui.get_user_id(), ui.get_current_room_id()) {
        Relevance::Ignore => ListenerAction::Continue,
        Relevance::Terminate => ListenerAction::Stop,
        Relevance::Refresh => {
            ui.refresh_view(repo);
            ListenerAction::Write(ui.render().as_str().as_bytes_vec())
        },
    }
}

/// Handles one text from the bus: parses it and reacts to the event in
/// it. A text that is not JSON is passed over.
pub fn handle_broadcast_event(
    raw_event: String,
    ui: &mut UserInterface,
    repo: &mut Manager,
) -> (action: ListenerAction)
    requires
        old(ui).wf(),
    ensures
        match spec_parse(raw_event@) {
            Some(event) => reacted(event, *old(ui), *old(repo), *final(ui), *final(repo), action),
            None => {
                &&& action is Continue
                &&& final(ui)@ == old(ui)@
                &&& final(ui).current_view() == old(ui).current_view()
                &&& *final(repo) == *old(repo)
            },
        },
        final(ui).wf(),
        old(ui).room_consistent() ==> final(ui).room_consistent(),
{
    match parse_event(raw_event.as_str()) {
        Some(event) => react_to_event(&event, ui, repo),
        None => ListenerAction::Continue,
    }
}

} // verus!
