//! The repository the screens and the session consume: users, rooms, room
//! messages and direct messages, read and written through one connection.
//!
//! What a query returns depends on the stored data, so the contracts here
//! state which request was served and what it was answered with, which
//! statement was handed to the database with which values, and what the
//! answer is of the rows that were read; the functions that turn raw rows
//! into the values the screens show are separate and have exact contracts.

use vstd::prelude::*;
use rusqlite::Connection;
use crate::db::connection::{
    SqlModel, SqlValue, column_integer, column_text, execute, hash_password, last_insert_rowid,
    bcrypt_verdict, made_at_cost, next_row, open, open_in_memory, prepare, query, row_integers,
    row_texts, verify_password,
};
use crate::db::queries;

verus! {

/// Rows in one page of any listing.
pub const PAGE_SIZE: usize = 20;

/// Work factor handed to bcrypt when a password is first stored.
pub const HASH_COST: u32 = 12;

/// A column to read from each row of a result.
struct Column {
    name: &'static str,
    text: bool,
}

/// What such a column is, to a contract: its name, and whether it is read
/// as text or as a number.
pub struct ColumnModel {
    pub name: Seq<char>,
    pub text: bool,
}

impl View for Column {
    type V = ColumnModel;

    closed spec fn view(&self) -> ColumnModel {
        ColumnModel { name: self.name@, text: self.text }
    }
}

/// One statement as it is handed to the database: its text, the values
/// bound to its parameters in order, the columns read from each row of its
/// result, and the most rows that are read. A statement that returns no
/// rows has no columns and reads no row.
pub struct Sent {
    pub sql: Seq<char>,
    pub params: Seq<SqlModel>,
    pub columns: Seq<ColumnModel>,
    pub rows: nat,
}

impl Sent {
    /// A statement that returns no rows.
    pub open spec fn update(sql: Seq<char>, params: Seq<SqlModel>) -> Sent {
        Sent { sql, params, columns: Seq::empty(), rows: 0 }
    }

    /// A statement whose result is read.
    pub open spec fn query(
        sql: Seq<char>,
        params: Seq<SqlModel>,
        columns: Seq<ColumnModel>,
        rows: nat,
    ) -> Sent {
        Sent { sql, params, columns, rows }
    }
}

/// A column by name and kind.
pub open spec fn column(name: Seq<char>, text: bool) -> ColumnModel {
    ColumnModel { name, text }
}

/// The values as contracts see them.
pub open spec fn values(params: Seq<SqlValue>) -> Seq<SqlModel> {
    Seq::new(params.len(), |i: int| params[i]@)
}

/// The row has one cell for each column, text where the column is read as
/// text and a number where it is read as a number.
pub open spec fn shaped(cells: Seq<SqlValue>, columns: Seq<ColumnModel>) -> bool {
    &&& cells.len() == columns.len()
    &&& forall|i: int| 0 <= i < cells.len() ==> (#[trigger] cells[i] is Text) == columns[i].text
}

/// The columns of a rooms page: name and occupancy.
pub open spec fn room_columns() -> Seq<ColumnModel> {
    seq![column("name"@, true), column("online"@, false)]
}

/// The columns of a users page: name and whether the user is logged in.
pub open spec fn user_columns() -> Seq<ColumnModel> {
    seq![column("username"@, true), column("logged_in"@, false)]
}

/// The columns of a profile: name, whether the user is logged in, date.
pub open spec fn profile_columns() -> Seq<ColumnModel> {
    seq![column("username"@, true), column("logged_in"@, false), column("created_date"@, true)]
}

/// The columns a credential check reads: identifier and stored hash.
pub open spec fn credential_columns() -> Seq<ColumnModel> {
    seq![column("id"@, false), column("password_hash"@, true)]
}

/// The statement that stores a new user under a hash of their password.
pub open spec fn new_user(username: Seq<char>, hash: Seq<char>) -> Sent {
    Sent::update(queries::CREATE_NEW_USER@, seq![SqlModel::Text(username), SqlModel::Text(hash)])
}

/// The repository has sent, between the two states, exactly the statement
/// that stores the user under `hash`, and `hash` is a hash of the password
/// made at the repository's work factor that the password matches.
pub open spec fn stored(
    before: Manager,
    after: Manager,
    username: Seq<char>,
    password: Seq<char>,
    hash: Seq<char>,
) -> bool {
    &&& after.sent() == before.sent().push(new_user(username, hash))
    &&& made_at_cost(hash, HASH_COST)
    &&& bcrypt_verdict(password, hash) == Some(true)
}

/// The `LIKE` pattern that matches every text with `needle` somewhere in it.
pub open spec fn spec_like_pattern(needle: Seq<char>) -> Seq<char> {
    seq!['%'] + needle + seq!['%']
}

/// The columns of a message: author id, date, author name, text.
pub open spec fn message_column_models() -> Seq<ColumnModel> {
    seq![
        column("user_id"@, false),
        column("created_date"@, true),
        column("username"@, true),
        column("message"@, true),
    ]
}

/// The text in cell `i` of a row; empty where the cell is missing or holds a number.
pub open spec fn cell_text(cells: Seq<SqlValue>, i: int) -> Seq<char> {
    if 0 <= i < cells.len() {
        match cells[i] {
            SqlValue::Text(t) => t@,
            SqlValue::Integer(_) => Seq::empty(),
        }
    } else {
        Seq::empty()
    }
}

/// The number in cell `i` of a row; 0 where the cell is missing or holds text.
pub open spec fn cell_integer(cells: Seq<SqlValue>, i: int) -> i64 {
    if 0 <= i < cells.len() {
        match cells[i] {
            SqlValue::Integer(n) => n,
            SqlValue::Text(_) => 0,
        }
    } else {
        0
    }
}

/// A stored row id as the identifier the screens use: itself where it is a
/// positive 32-bit number, the sentinel -1 otherwise.
pub open spec fn spec_record_id(raw: i64) -> i32 {
    if 1 <= raw <= i32::MAX {
        raw as i32
    } else {
        -1i32
    }
}

/// A stored occupancy counter as the count the rooms screen shows: negative
/// counters show as 0, oversized ones as the largest count.
pub open spec fn spec_online_count(raw: i64) -> u32 {
    if raw < 0 {
        0
    } else if raw > u32::MAX {
        u32::MAX
    } else {
        raw as u32
    }
}

/// The rooms page that a result of (name, online) rows stands for.
pub open spec fn spec_room_listing(table: Seq<Vec<SqlValue>>) -> Seq<(Seq<char>, u32)> {
    Seq::new(
        table.len(),
        |i: int| (cell_text(table[i]@, 0), spec_online_count(cell_integer(table[i]@, 1))),
    )
}

/// The users page that a result of (username, logged_in) rows stands for.
pub open spec fn spec_user_listing(table: Seq<Vec<SqlValue>>) -> Seq<(Seq<char>, bool)> {
    Seq::new(table.len(), |i: int| (cell_text(table[i]@, 0), cell_integer(table[i]@, 1) == 1))
}

/// The messages that a result of (user_id, created_date, username, message)
/// rows stands for.
pub open spec fn spec_message_listing(table: Seq<Vec<SqlValue>>) -> Seq<
    (i32, Seq<char>, Seq<char>, Seq<char>),
> {
    Seq::new(
        table.len(),
        |i: int|
            (
                spec_record_id(cell_integer(table[i]@, 0)),
                cell_text(table[i]@, 1),
                cell_text(table[i]@, 2),
                cell_text(table[i]@, 3),
            ),
    )
}

/// What a credential check answers: the stored identifier when bcrypt says
/// the password matches, -1 on a mismatch or a malformed hash.
pub open spec fn spec_checked_identity(stored_id: i64, verdict: Option<bool>) -> i32 {
    if verdict == Some(true) {
        spec_record_id(stored_id)
    } else {
        -1i32
    }
}

/// What a registration answers: the new row's identifier when a row was
/// inserted, -1 otherwise.
pub open spec fn spec_created_identity(changed: usize, rowid: i64) -> i32 {
    if changed > 0 {
        spec_record_id(rowid)
    } else {
        -1i32
    }
}

pub fn record_id(raw: i64) -> (id: i32)
    ensures
        id == spec_record_id(raw),
{
    if 1 <= raw && raw <= 2147483647 {
        raw as i32
    } else {
        -1
    }
}

pub fn online_count(raw: i64) -> (count: u32)
    ensures
        count == spec_online_count(raw),
{
    if raw < 0 {
        0
    } else if raw > 4294967295 {
        4294967295
    } else {
        raw as u32
    }
}

pub fn checked_identity(stored_id: i64, verdict: Option<bool>) -> (id: i32)
    ensures
        id == spec_checked_identity(stored_id, verdict),
{
    match verdict {
        Some(true) => record_id(stored_id),
        _ => -1,
    }
}

pub fn created_identity(changed: usize, rowid: i64) -> (id: i32)
    ensures
        id == spec_created_identity(changed, rowid),
{
    if changed > 0 {
        record_id(rowid)
    } else {
        -1
    }
}

/// The text in cell `i`, copied out of the row.
pub fn text_cell(cells: &Vec<SqlValue>, i: usize) -> (text: String)
    ensures
        text@ == cell_text(cells@, i as int),
{
    if i < cells.len() {
        match &cells[i] {
            SqlValue::Text(t) => t.clone(),
            SqlValue::Integer(_) => String::new(),
        }
    } else {
        String::new()
    }
}

/// The number in cell `i`.
pub fn integer_cell(cells: &Vec<SqlValue>, i: usize) -> (n: i64)
    ensures
        n == cell_integer(cells@, i as int),
{
    if i < cells.len() {
        match &cells[i] {
            SqlValue::Integer(n) => *n,
            SqlValue::Text(_) => 0,
        }
    } else {
        0
    }
}

/// The same items, last first.
pub fn reversed<T>(items: Vec<T>) -> (out: Vec<T>)
    ensures
        out@ == items@.reverse(),
{
    let ghost given = items@;
    let mut rest = items;
    let mut out: Vec<T> = Vec::new();
    while rest.len() > 0
        invariant
            rest@.len() + out@.len() == given.len(),
            rest@ == given.take(rest@.len() as int),
            forall|i: int| 0 <= i < out@.len() ==> out@[i] == given[given.len() - 1 - i],
        decreases rest@.len(),
    {
        let item = rest.pop();
        match item {
            Some(item) => {
                out.push(item);
            },
            None => {},
        }
    }
    out
}

/// Turns rows of (name, online) into the entries of the rooms screen.
pub fn room_listing(table: &Vec<Vec<SqlValue>>) -> (rooms: Vec<(String, u32)>)
    ensures
        rooms.deep_view() == spec_room_listing(table@),
{
    let mut rooms: Vec<(String, u32)> = Vec::new();
    let mut i: usize = 0;
    while i < table.len()
        invariant
            0 <= i <= table@.len(),
            rooms@.len() == i,
            forall|k: int|
                0 <= k < i ==> (#[trigger] rooms@[k]).deep_view() == spec_room_listing(table@)[k],
        decreases table@.len() - i,
    {
        let row = &table[i];
        rooms.push((text_cell(row, 0), online_count(integer_cell(row, 1))));
        i = i + 1;
    }
    rooms
}

/// Turns rows of (username, logged_in) into the entries of the users screen.
pub fn user_listing(table: &Vec<Vec<SqlValue>>) -> (users: Vec<(String, bool)>)
    ensures
        users.deep_view() == spec_user_listing(table@),
{
    let mut users: Vec<(String, bool)> = Vec::new();
    let mut i: usize = 0;
    while i < table.len()
        invariant
            0 <= i <= table@.len(),
            users@.len() == i,
            forall|k: int|
                0 <= k < i ==> (#[trigger] users@[k]).deep_view() == spec_user_listing(table@)[k],
        decreases table@.len() - i,
    {
        let row = &table[i];
        users.push((text_cell(row, 0), integer_cell(row, 1) == 1));
        i = i + 1;
    }
    users
}

/// Turns rows of (user_id, created_date, username, message) into messages.
pub fn message_listing(table: &Vec<Vec<SqlValue>>) -> (messages: Vec<
    (i32, String, String, String),
>)
    ensures
        messages.deep_view() == spec_message_listing(table@),
{
    let mut messages: Vec<(i32, String, String, String)> = Vec::new();
    let mut i: usize = 0;
    while i < table.len()
        invariant
            0 <= i <= table@.len(),
            messages@.len() == i,
            forall|k: int|
                0 <= k < i ==> (#[trigger] messages@[k]).deep_view() == spec_message_listing(
                    table@,
                )[k],
        decreases table@.len() - i,
    {
        let row = &table[i];
        messages.push(
            (
                record_id(integer_cell(row, 0)),
                text_cell(row, 1),
                text_cell(row, 2),
                text_cell(row, 3),
            ),
        );
        i = i + 1;
    }
    messages
}

/// The rooms page that a result of (name, online) rows, most occupied
/// first, stands for: the same rooms, most occupied last.
pub open spec fn spec_rooms_page(table: Seq<Vec<SqlValue>>) -> Seq<(Seq<char>, u32)> {
    spec_room_listing(table).reverse()
}

/// The users page that a result of (username, logged_in) rows, logged out
/// first, stands for: the same users, logged in first.
pub open spec fn spec_users_page(table: Seq<Vec<SqlValue>>) -> Seq<(Seq<char>, bool)> {
    spec_user_listing(table).reverse()
}

/// The profile that a result of (username, logged_in, created_date) rows
/// stands for: none where there is no row, else the three labelled values
/// of the first row, with `1` or `0` for whether the user is logged in.
pub open spec fn spec_profile(table: Seq<Vec<SqlValue>>) -> Seq<(Seq<char>, Seq<char>)> {
    if table.len() == 0 {
        Seq::empty()
    } else {
        seq![
            ("username"@, cell_text(table[0]@, 0)),
            ("online"@, crate::text::decimal(cell_integer(table[0]@, 1) as int)),
            ("created_date"@, cell_text(table[0]@, 2)),
        ]
    }
}

/// A profile is empty or holds a user's name, whether they are logged in,
/// and the date they registered, under these labels and in this order.
pub open spec fn is_profile(profile: Seq<(Seq<char>, Seq<char>)>) -> bool {
    ||| profile.len() == 0
    ||| {
        &&& profile.len() == 3
        &&& profile[0].0 == "username"@
        &&& profile[1].0 == "online"@
        &&& profile[2].0 == "created_date"@
    }
}

/// The identifier in the first row of a result of (id) rows; -1 where
/// there is no row.
pub open spec fn spec_first_id(table: Seq<Vec<SqlValue>>) -> i32 {
    if table.len() == 0 {
        -1i32
    } else {
        spec_record_id(cell_integer(table[0]@, 0))
    }
}

/// The text in the first row of a result of one text column; empty where
/// there is no row.
pub open spec fn spec_first_text(table: Seq<Vec<SqlValue>>) -> Seq<char> {
    if table.len() == 0 {
        Seq::empty()
    } else {
        cell_text(table[0]@, 0)
    }
}

/// What a credential check answers on a result of (id, password_hash)
/// rows: -1 where there is no row, else the identifier of the first row
/// where bcrypt says that `password` matches its hash, and -1 where it does not.
pub open spec fn spec_stored_identity(table: Seq<Vec<SqlValue>>, password: Seq<char>) -> i32 {
    if table.len() == 0 {
        -1i32
    } else {
        spec_checked_identity(
            cell_integer(table[0]@, 0),
            bcrypt_verdict(password, cell_text(table[0]@, 1)),
        )
    }
}

/// Turns rows of (name, online), most occupied first, into the page of the
/// rooms screen, most occupied last.
pub fn rooms_page(table: &Vec<Vec<SqlValue>>) -> (rooms: Vec<(String, u32)>)
    ensures
        rooms.deep_view() == spec_rooms_page(table@),
{
    let listing = room_listing(table);
    let rooms = reversed(listing);
    assert(rooms.deep_view() =~= listing.deep_view().reverse());
    rooms
}

/// Turns rows of (username, logged_in), logged out first, into the page of
/// the users screen, logged in first.
pub fn users_page(table: &Vec<Vec<SqlValue>>) -> (users: Vec<(String, bool)>)
    ensures
        users.deep_view() == spec_users_page(table@),
{
    let listing = user_listing(table);
    let users = reversed(listing);
    assert(users.deep_view() =~= listing.deep_view().reverse());
    users
}

/// Turns rows of (username, logged_in, created_date) into a profile.
pub fn profile(table: &Vec<Vec<SqlValue>>) -> (user: Vec<(String, String)>)
    ensures
        user.deep_view() == spec_profile(table@),
        is_profile(user.deep_view()),
{
    let mut user: Vec<(String, String)> = Vec::new();
    if table.len() > 0 {
        let row = &table[0];
        user.push((String::from_str("username"), text_cell(row, 0)));
        user.push((String::from_str("online"), crate::text::decimal_string(integer_cell(row, 1))));
        user.push((String::from_str("created_date"), text_cell(row, 2)));
    }
    assert(user.deep_view() =~= spec_profile(table@));
    user
}

/// The identifier in the first row, or -1.
pub fn first_id(table: &Vec<Vec<SqlValue>>) -> (id: i32)
    ensures
        id == spec_first_id(table@),
        id == -1 || id > 0,
{
    if table.len() == 0 {
        -1
    } else {
        record_id(integer_cell(&table[0], 0))
    }
}

/// The text in the first row, or the empty text.
pub fn first_text(table: &Vec<Vec<SqlValue>>) -> (text: String)
    ensures
        text@ == spec_first_text(table@),
{
    if table.len() == 0 {
        String::new()
    } else {
        text_cell(&table[0], 0)
    }
}

/// Whether bcrypt says that `password` matches `stored_hash`; a malformed
/// hash matches nothing.
pub fn password_verdict(password: &str, stored_hash: &str) -> (verdict: Option<bool>)
    ensures
        verdict == bcrypt_verdict(password@, stored_hash@),
{
    match verify_password(password, stored_hash) {
        Ok(matches) => Some(matches),
        Err(_) => None,
    }
}

/// Checks `password` against the first row of a result of (id,
/// password_hash) rows.
pub fn stored_identity(table: &Vec<Vec<SqlValue>>, password: &str) -> (id: i32)
    ensures
        id == spec_stored_identity(table@, password@),
        id == -1 || id > 0,
{
    if table.len() == 0 {
        -1
    } else {
        let row = &table[0];
        let stored_hash = text_cell(row, 1);
        let verdict = password_verdict(password, stored_hash.as_str());
        checked_identity(integer_cell(row, 0), verdict)
    }
}

/// Builds the `LIKE` pattern that matches every text with `needle`
/// somewhere in it.
pub fn like_pattern(needle: &str) -> (pattern: String)
    ensures
        pattern@ == spec_like_pattern(needle@),
{
    let mut pattern = String::new();
    pattern.push('%');
    pattern.append(needle);
    pattern.push('%');
    pattern
}

/// A page of rooms as contracts see it: name and occupancy of each room.
pub type RoomsPage = Seq<(Seq<char>, u32)>;

/// A page of users as contracts see it: name of each user and whether they
/// are logged in.
pub type UsersPage = Seq<(Seq<char>, bool)>;

/// A page of messages as contracts see it: author id, date, author name
/// and text of each message.
pub type MessagesPage = Seq<(i32, Seq<char>, Seq<char>, Seq<char>)>;

/// A profile as contracts see it: its (label, value) pairs.
pub type Profile = Seq<(Seq<char>, Seq<char>)>;

/// One call on the repository: what was handed to it and, where it
/// answers, what it answered.
pub enum Request {
    SetupDb { ready: bool },
    JoinRoom { room_id: i32 },
    LeaveRoom { room_id: i32 },
    LoginUser { user_id: i32 },
    LogoutUser { user_id: i32 },
    CreateUser { username: Seq<char>, password: Seq<char>, id: i32 },
    ValidateUser { username: Seq<char>, password: Seq<char>, id: i32 },
    GetRoomName { room_id: i32, name: Seq<char> },
    GetRooms { offset: i32, rooms: RoomsPage },
    SearchRooms { query: Seq<char>, offset: i32, rooms: RoomsPage },
    CreateRoom { name: Seq<char>, owner: Seq<char> },
    GetUser { user_id: i32, profile: Profile },
    GetOnlineUsers { offset: i32, users: UsersPage },
    GetRoomId { name: Seq<char>, id: i32 },
    GetUserId { name: Seq<char>, id: i32 },
    SearchUsers { query: Seq<char>, users: UsersPage },
    GetRoomMessages { room_id: i32, offset: i32, messages: MessagesPage },
    PostMessage { room_id: i32, message: Seq<char>, user_id: i32 },
    PostDirectMessage { user_id: i32, to_user_id: i32, message: Seq<char> },
    GetDirectMessages { user_id: i32, to_user_id: i32, offset: i32, messages: MessagesPage },
}

/// The identifier a request was answered with, for the requests that are
/// answered with one; -1 for every other request.
pub open spec fn answered_id(request: Request) -> i32 {
    match request {
        Request::CreateUser { id, .. } => id,
        Request::ValidateUser { id, .. } => id,
        Request::GetRoomId { id, .. } => id,
        Request::GetUserId { id, .. } => id,
        _ => -1i32,
    }
}

/// The identifier that the first request served between the two states
/// was answered with.
pub open spec fn first_answer(before: Manager, after: Manager) -> i32 {
    answered_id(after.journal()[before.journal().len() as int])
}

/// What a request changes the occupancy counter of `room` by.
pub open spec fn delta(request: Request, room: int) -> int {
    match request {
        Request::JoinRoom { room_id } => if room_id as int == room {
            1
        } else {
            0
        },
        Request::LeaveRoom { room_id } => if room_id as int == room {
            -1
        } else {
            0
        },
        _ => 0,
    }
}

/// Increments minus decrements of `room` among the requests.
pub open spec fn net(requests: Seq<Request>, room: int) -> int
    decreases requests.len(),
{
    if requests.len() == 0 {
        0
    } else {
        net(requests.drop_last(), room) + delta(requests.last(), room)
    }
}

/// The repository has served exactly `request` between the two states.
pub open spec fn answered(before: Manager, after: Manager, request: Request) -> bool {
    &&& after.journal() == before.journal().push(request)
    &&& forall|room: int| #[trigger]
        after.net_joins(room) == before.net_joins(room) + delta(request, room)
}

/// The repository has served no request between the two states.
pub open spec fn unasked(before: Manager, after: Manager) -> bool {
    &&& after.journal() == before.journal()
    &&& forall|room: int| #[trigger] after.net_joins(room) == before.net_joins(room)
}

/// The repository has served exactly `requests`, in order, between the two
/// states, and none of them has moved an occupancy counter.
pub open spec fn issued(before: Manager, after: Manager, requests: Seq<Request>) -> bool {
    &&& after.journal() == before.journal() + requests
    &&& forall|room: int| #[trigger] after.net_joins(room) == before.net_joins(room)
}

/// One request that moves no occupancy counter is a run of one.
pub proof fn lemma_issued_one(before: Manager, after: Manager, request: Request)
    requires
        answered(before, after, request),
        !(request is JoinRoom),
        !(request is LeaveRoom),
    ensures
        issued(before, after, seq![request]),
{
    assert(before.journal().push(request) =~= before.journal() + seq![request]);
}

/// Two runs of requests, one after the other, are one run.
pub proof fn lemma_issued_then(
    before: Manager,
    between: Manager,
    after: Manager,
    first: Seq<Request>,
    second: Seq<Request>,
)
    requires
        issued(before, between, first),
        issued(between, after, second),
    ensures
        issued(before, after, first + second),
{
    assert(before.journal() + first + second =~= before.journal() + (first + second));
}

/// One password handed to bcrypt to be hashed: the password, the work
/// factor, and the hash that came back, if one did.
pub struct Hashing {
    pub password: Seq<char>,
    pub cost: u32,
    pub hash: Option<Seq<char>>,
}

/// The repository. It owns the connection and keeps, as ghost state, the
/// journal of the requests it has served, the record of the statements it
/// has handed to the database, the record of the results it has read, the
/// record of the passwords it has handed to bcrypt, and the record of what
/// its inserts of users came to.
pub struct Manager {
    conn: Connection,
    journal: Ghost<Seq<Request>>,
    sent: Ghost<Seq<Sent>>,
    read: Ghost<Seq<Seq<Vec<SqlValue>>>>,
    hashed: Ghost<Seq<Hashing>>,
    inserted: Ghost<Seq<(usize, i64)>>,
}

/// The columns as contracts see them.
spec fn models(columns: Seq<Column>) -> Seq<ColumnModel> {
    Seq::new(columns.len(), |i: int| columns[i]@)
}

/// Whether the row gives the column as the kind the column asks for.
pub open spec fn readable(row: rusqlite::Row<'_>, column: ColumnModel) -> bool {
    if column.text {
        row_texts(row).contains_key(column.name)
    } else {
        row_integers(row).contains_key(column.name)
    }
}

/// What the row gives for a column it can give.
pub open spec fn cell_read(row: rusqlite::Row<'_>, column: ColumnModel) -> SqlModel {
    if column.text {
        SqlModel::Text(row_texts(row)[column.name])
    } else {
        SqlModel::Integer(row_integers(row)[column.name] as i64)
    }
}

impl Manager {
    /// Every request served over the life of this repository, in order.
    pub closed spec fn journal(&self) -> Seq<Request> {
        self.journal@
    }

    /// Increments of `room` served minus decrements of it, over the life of
    /// this repository.
    pub open spec fn net_joins(&self, room: int) -> int {
        net(self.journal(), room)
    }

    /// Every statement handed to the database over the life of this
    /// repository, in order.
    pub closed spec fn sent(&self) -> Seq<Sent> {
        self.sent@
    }

    /// Every result read from the database over the life of this
    /// repository, in order, each as the rows that were read of it.
    pub closed spec fn read(&self) -> Seq<Seq<Vec<SqlValue>>> {
        self.read@
    }

    /// Every password handed to bcrypt to be hashed over the life of this
    /// repository, in order, with what came back.
    pub closed spec fn hashed(&self) -> Seq<Hashing> {
        self.hashed@
    }

    /// What every insert of a user came to, over the life of this
    /// repository and in order: the number of rows it changed and the row
    /// identifier the connection gave afterwards.
    pub closed spec fn inserted(&self) -> Seq<(usize, i64)> {
        self.inserted@
    }

    /// The repository has served, sent, read, hashed and inserted nothing yet.
    pub open spec fn untouched(&self) -> bool {
        &&& self.journal() == Seq::<Request>::empty()
        &&& self.sent() == Seq::<Sent>::empty()
        &&& self.read() == Seq::<Seq<Vec<SqlValue>>>::empty()
        &&& self.hashed() == Seq::<Hashing>::empty()
        &&& self.inserted() == Seq::<(usize, i64)>::empty()
    }

    /// Opens the database file at `path`, creating it where it is missing.
    pub fn open(path: &str) -> (repo: Option<Manager>)
        ensures
            repo is Some ==> repo->0.untouched(),
    {
        Self::adopt(open(path))
    }

    /// Opens a private database in memory.
    pub fn open_in_memory() -> (repo: Option<Manager>)
        ensures
            repo is Some ==> repo->0.untouched(),
    {
        Self::adopt(open_in_memory())
    }

    /// Makes a repository of a connection, where one was opened: it has
    /// done nothing yet.
    fn adopt(opened: Result<Connection, rusqlite::Error>) -> (repo: Option<Manager>)
        ensures
            repo is Some == opened is Ok,
            repo is Some ==> repo->0.conn == opened->Ok_0,
            repo is Some ==> repo->0.untouched(),
    {
        match opened {
            Ok(conn) => Some(
                Manager {
                    conn,
                    journal: Ghost(Seq::empty()),
                    sent: Ghost(Seq::empty()),
                    read: Ghost(Seq::empty()),
                    hashed: Ghost(Seq::empty()),
                    inserted: Ghost(Seq::empty()),
                },
            ),
            Err(_) => None,
        }
    }

    /// Enters a request into the journal.
    fn record(&mut self, request: Ghost<Request>)
        ensures
            answered(*old(self), *final(self), request@),
            final(self).sent() == old(self).sent(),
            final(self).read() == old(self).read(),
            final(self).hashed() == old(self).hashed(),
            final(self).inserted() == old(self).inserted(),
    {
        let ghost before = self.journal@;
        self.journal = Ghost(before.push(request@));
        assert(before.push(request@).drop_last() =~= before);
    }

    /// Hands `sql` with `params` to the database, enters that into the
    /// record of what was sent, and reads the named columns of at most
    /// `limit` rows of the result, which it enters into the record of what
    /// was read. A failure at any point ends the result where it stands.
    /// The journal of requests is left alone.
    fn select(
        &mut self,
        sql: &str,
        params: &Vec<SqlValue>,
        columns: &Vec<Column>,
        limit: usize,
    ) -> (table: Vec<Vec<SqlValue>>)
        ensures
            final(self).sent() == old(self).sent().push(
                Sent::query(sql@, values(params@), models(columns@), limit as nat),
            ),
            final(self).read() == old(self).read().push(table@),
            unasked(*old(self), *final(self)),
            table@.len() <= limit,
            forall|r: int|
                0 <= r < table@.len() ==> shaped(#[trigger] table@[r]@, models(columns@)),
    {
        let ghost asked = Sent::query(sql@, values(params@), models(columns@), limit as nat);
        self.sent = Ghost(self.sent@.push(asked));
        let mut table: Vec<Vec<SqlValue>> = Vec::new();
        match prepare(&self.conn, sql) {
            Ok(statement) => {
                let mut statement = statement;
                let queried = query(&mut statement, params);
                match queried {
                    Ok(rows) => {
                        let mut rows = rows;
                        while table.len() < limit
                            invariant
                                table@.len() <= limit,
                                forall|r: int|
                                    0 <= r < table@.len() ==> shaped(
                                        #[trigger] table@[r]@,
                                        models(columns@),
                                    ),
                            decreases limit - table@.len(),
                        {
                            let step = next_row(&mut rows);
                            match step {
                                Ok(Some(row)) => {
                                    match Self::read_cells(row, columns) {
                                        Some(cells) => {
                                            table.push(cells);
                                        },
                                        None => {
                                            break ;
                                        },
                                    }
                                },
                                _ => {
                                    break ;
                                },
                            }
                        }
                    },
                    Err(_) => {},
                }
            },
            Err(_) => {},
        }
        self.read = Ghost(self.read@.push(table@));
        table
    }

    /// Reads the named columns of one row, each as its kind says: the
    /// cells in the order of the columns where the row gives every one of
    /// them as that kind, `None` where it does not give one of them.
    fn read_cells(row: &rusqlite::Row<'_>, columns: &Vec<Column>) -> (cells: Option<Vec<SqlValue>>)
        ensures
            cells is Some == forall|k: int|
                0 <= k < columns@.len() ==> readable(*row, #[trigger] models(columns@)[k]),
            cells is Some ==> values(cells->0@) == Seq::new(
                columns@.len(),
                |k: int| cell_read(*row, models(columns@)[k]),
            ),
            cells is Some ==> shaped(cells->0@, models(columns@)),
    {
        let mut cells: Vec<SqlValue> = Vec::new();
        let mut i: usize = 0;
        while i < columns.len()
            invariant
                0 <= i <= columns@.len(),
                cells@.len() == i,
                forall|k: int| 0 <= k < i ==> (#[trigger] cells@[k] is Text) == columns@[k].text,
                forall|k: int| 0 <= k < i ==> readable(*row, #[trigger] models(columns@)[k]),
                forall|k: int|
                    0 <= k < i ==> (#[trigger] cells@[k])@ == cell_read(*row, models(columns@)[k]),
            decreases columns@.len() - i,
        {
            let column = &columns[i];
            if column.text {
                match column_text(row, column.name) {
                    Ok(text) => {
                        cells.push(SqlValue::Text(text));
                    },
                    Err(_) => {
                        assert(!readable(*row, models(columns@)[i as int]));
                        return None;
                    },
                }
            } else {
                match column_integer(row, column.name) {
                    Ok(n) => {
                        cells.push(SqlValue::Integer(n));
                    },
                    Err(_) => {
                        assert(!readable(*row, models(columns@)[i as int]));
                        return None;
                    },
                }
            }
            i = i + 1;
        }
        Some(cells)
    }

    /// Hands a statement that returns no rows to the database, with
    /// `params`, and enters that into the record of what was sent. The
    /// journal of requests is left alone.
    fn submit(&mut self, sql: &str, params: &Vec<SqlValue>) -> (outcome: Result<
        usize,
        rusqlite::Error,
    >)
        ensures
            final(self).sent() == old(self).sent().push(Sent::update(sql@, values(params@))),
            final(self).read() == old(self).read(),
            final(self).hashed() == old(self).hashed(),
            final(self).inserted() == old(self).inserted(),
            unasked(*old(self), *final(self)),
    {
        self.sent = Ghost(self.sent@.push(Sent::update(sql@, values(params@))));
        execute(&self.conn, sql, params)
    }

    /// The rows a statement changed; none where it failed.
    fn changed_rows(outcome: Result<usize, rusqlite::Error>) -> (changed: usize)
        ensures
            changed == match outcome {
                Ok(rows) => rows,
                Err(_) => 0,
            },
    {
        match outcome {
            Ok(rows) => rows,
            Err(_) => 0,
        }
    }

    /// Runs a statement that returns no rows and answers how many rows it
    /// changed; a failure is a no-op. The statement is entered into the
    /// record of what was sent, and the journal of requests is left alone.
    fn run(&mut self, sql: &str, params: &Vec<SqlValue>) -> (changed: usize)
        ensures
            final(self).sent() == old(self).sent().push(Sent::update(sql@, values(params@))),
            final(self).read() == old(self).read(),
            final(self).hashed() == old(self).hashed(),
            final(self).inserted() == old(self).inserted(),
            unasked(*old(self), *final(self)),
    {
        let outcome = self.submit(sql, params);
        Self::changed_rows(outcome)
    }

    /// Creates the tables that are missing. Says whether all four statements ran.
    pub fn setup_db(&mut self) -> (ready: bool)
        ensures
            answered(*old(self), *final(self), (Request::SetupDb { ready })),
            final(self).read() == old(self).read(),
            final(self).sent() == old(self).sent() + seq![
                Sent::update(queries::CREATE_USERS@, Seq::empty()),
                Sent::update(queries::CREATE_ROOMS@, Seq::empty()),
                Sent::update(queries::CREATE_ROOM_MESSAGES@, Seq::empty()),
                Sent::update(queries::CREATE_DIRECT_MESSAGES@, Seq::empty()),
            ],
    {
        let none: Vec<SqlValue> = Vec::new();
        assert(values(none@) =~= Seq::empty());
        let users = self.submit(queries::CREATE_USERS, &none).is_ok();
        let rooms = self.submit(queries::CREATE_ROOMS, &none).is_ok();
        let messages = self.submit(queries::CREATE_ROOM_MESSAGES, &none).is_ok();
        let direct = self.submit(queries::CREATE_DIRECT_MESSAGES, &none).is_ok();
        assert(self.sent() =~= old(self).sent() + seq![
            Sent::update(queries::CREATE_USERS@, Seq::empty()),
            Sent::update(queries::CREATE_ROOMS@, Seq::empty()),
            Sent::update(queries::CREATE_ROOM_MESSAGES@, Seq::empty()),
            Sent::update(queries::CREATE_DIRECT_MESSAGES@, Seq::empty()),
        ]);
        let ready = users && rooms && messages && direct;
        self.record(Ghost(Request::SetupDb { ready }));
        ready
    }

    /// Adds one to the room's occupancy counter, as a relative update.
    pub fn add_to_room_online(&mut self, room_id: i32)
        ensures
            answered(*old(self), *final(self), (Request::JoinRoom { room_id })),
            final(self).read() == old(self).read(),
            final(self).sent() == old(self).sent().push(
                Sent::update(queries::JOIN_ROOM@, seq![SqlModel::Integer(room_id as i64)]),
            ),
    {
        self.record(Ghost(Request::JoinRoom { room_id }));
        let params: Vec<SqlValue> = vec![SqlValue::Integer(room_id as i64)];
        assert(values(params@) =~= seq![SqlModel::Integer(room_id as i64)]);
        let _ = self.run(queries::JOIN_ROOM, &params);
    }

    /// Takes one from the room's occupancy counter, as a relative update.
    pub fn subtract_from_room_online(&mut self, room_id: i32)
        ensures
            answered(*old(self), *final(self), (Request::LeaveRoom { room_id })),
            final(self).read() == old(self).read(),
            final(self).sent() == old(self).sent().push(
                Sent::update(queries::LEAVE_ROOM@, seq![SqlModel::Integer(room_id as i64)]),
            ),
    {
        self.record(Ghost(Request::LeaveRoom { room_id }));
        let params: Vec<SqlValue> = vec![SqlValue::Integer(room_id as i64)];
        assert(values(params@) =~= seq![SqlModel::Integer(room_id as i64)]);
        let _ = self.run(queries::LEAVE_ROOM, &params);
    }

    /// Marks the user as logged in.
    pub fn login_user(&mut self, user_id: i32)
        ensures
            answered(*old(self), *final(self), (Request::LoginUser { user_id })),
            final(self).read() == old(self).read(),
            final(self).sent() == old(self).sent().push(
                Sent::update(queries::LOGIN_USER@, seq![SqlModel::Integer(user_id as i64)]),
            ),
    {
        self.record(Ghost(Request::LoginUser { user_id }));
        let params: Vec<SqlValue> = vec![SqlValue::Integer(user_id as i64)];
        assert(values(params@) =~= seq![SqlModel::Integer(user_id as i64)]);
        let _ = self.run(queries::LOGIN_USER, &params);
    }

    /// Marks the user as logged out.
    pub fn logout_user(&mut self, user_id: i32)
        ensures
            answered(*old(self), *final(self), (Request::LogoutUser { user_id })),
            final(self).read() == old(self).read(),
            final(self).sent() == old(self).sent().push(
                Sent::update(queries::LOGOUT_USER@, seq![SqlModel::Integer(user_id as i64)]),
            ),
    {
        self.record(Ghost(Request::LogoutUser { user_id }));
        let params: Vec<SqlValue> = vec![SqlValue::Integer(user_id as i64)];
        assert(values(params@) =~= seq![SqlModel::Integer(user_id as i64)]);
        let _ = self.run(queries::LOGOUT_USER, &params);
    }

    /// Hands `password` to bcrypt to be hashed at the repository's work
    /// factor and enters that, with what came back, into the record of what
    /// was hashed. A hash that comes back has the form of a hash made at
    /// that work factor, and the password matches it.
    fn fresh_hash(&mut self, password: &str) -> (hash: Option<String>)
        ensures
            final(self).hashed() == old(self).hashed().push(
                Hashing {
                    password: password@,
                    cost: HASH_COST,
                    hash: match hash {
                        Some(text) => Some(text@),
                        None => None,
                    },
                },
            ),
            hash is Some ==> made_at_cost(hash->0@, HASH_COST),
            hash is Some ==> bcrypt_verdict(password@, hash->0@) == Some(true),
            final(self).sent() == old(self).sent(),
            final(self).read() == old(self).read(),
            final(self).inserted() == old(self).inserted(),
            unasked(*old(self), *final(self)),
    {
        let hash = match hash_password(password, HASH_COST) {
            Ok(text) => Some(text),
            Err(_) => None,
        };
        let ghost came_back = match &hash {
            Some(text) => Some(text@),
            None => None,
        };
        self.hashed = Ghost(
            self.hashed@.push(Hashing { password: password@, cost: HASH_COST, hash: came_back }),
        );
        hash
    }

    /// Stores a new user under a fresh hash of `password`: hands the
    /// password to bcrypt and, where a hash comes back, sends the insert of
    /// the user under that hash. Returns the new identifier, or -1 where
    /// hashing or the insert failed (the name is taken); where hashing
    /// fails nothing is sent.
    pub fn create_user(&mut self, username: &str, password: &str) -> (id: i32)
        ensures
            answered(
                *old(self),
                *final(self),
                (Request::CreateUser { username: username@, password: password@, id }),
            ),
            final(self).read() == old(self).read(),
            final(self).hashed() == old(self).hashed().push(
                Hashing {
                    password: password@,
                    cost: HASH_COST,
                    hash: final(self).hashed().last().hash,
                },
            ),
            match final(self).hashed().last().hash {
                Some(hash) => {
                    &&& stored(*old(self), *final(self), username@, password@, hash)
                    &&& final(self).inserted() == old(self).inserted().push(
                        final(self).inserted().last(),
                    )
                    &&& id == spec_created_identity(
                        final(self).inserted().last().0,
                        final(self).inserted().last().1,
                    )
                },
                None => {
                    &&& final(self).sent() == old(self).sent()
                    &&& final(self).inserted() == old(self).inserted()
                    &&& id == -1
                },
            },
            id > 0 ==> exists|hash: Seq<char>| #[trigger]
                stored(*old(self), *final(self), username@, password@, hash),
            id == -1 || id > 0,
    {
        let id = match self.fresh_hash(password) {
            Some(password_hash) => {
                let ghost hash = password_hash@;
                let params: Vec<SqlValue> = vec![
                    SqlValue::Text(String::from_str(username)),
                    SqlValue::Text(password_hash),
                ];
                assert(values(params@) =~= seq![
                    SqlModel::Text(username@),
                    SqlModel::Text(hash),
                ]);
                let changed = self.run(queries::CREATE_NEW_USER, &params);
                let rowid = last_insert_rowid(&self.conn);
                self.inserted = Ghost(self.inserted@.push((changed, rowid)));
                created_identity(changed, rowid)
            },
            None => -1,
        };
        self.record(Ghost(Request::CreateUser { username: username@, password: password@, id }));
        proof {
            let came_back = self.hashed().last().hash;
            if came_back is Some {
                assert(stored(*old(self), *self, username@, password@, came_back->0));
            }
        }
        id
    }

    /// Checks `password` against the hash stored for `username`. Returns the
    /// user's identifier, or -1 where there is no such user or the password
    /// does not match.
    pub fn validate_user(&mut self, username: &str, password: &str) -> (id: i32)
        ensures
            answered(
                *old(self),
                *final(self),
                (Request::ValidateUser { username: username@, password: password@, id }),
            ),
            final(self).read().len() == old(self).read().len() + 1,
            id == spec_stored_identity(final(self).read().last(), password@),
            final(self).sent() == old(self).sent().push(
                Sent::query(
                    queries::SEARCH_USER@,
                    seq![SqlModel::Text(username@)],
                    credential_columns(),
                    1,
                ),
            ),
            id == -1 || id > 0,
    {
        let params: Vec<SqlValue> = vec![SqlValue::Text(String::from_str(username))];
        let columns: Vec<Column> = vec![
            Column { name: "id", text: false },
            Column { name: "password_hash", text: true },
        ];
        assert(values(params@) =~= seq![SqlModel::Text(username@)]);
        assert(models(columns@) =~= credential_columns());
        let table = self.select(queries::SEARCH_USER, &params, &columns, 1);
        let id = stored_identity(&table, password);
        self.record(Ghost(Request::ValidateUser { username: username@, password: password@, id }));
        id
    }

    /// The room's name; empty where no room has this identifier.
    pub fn get_room_name_by_id(&mut self, room_id: i32) -> (name: String)
        ensures
            answered(*old(self), *final(self), (Request::GetRoomName { room_id, name: name@ })),
            final(self).read().len() == old(self).read().len() + 1,
            name@ == spec_first_text(final(self).read().last()),
            final(self).sent() == old(self).sent().push(
                Sent::query(
                    queries::GET_ROOM_NAME@,
                    seq![SqlModel::Integer(room_id as i64)],
                    seq![column("name"@, true)],
                    1,
                ),
            ),
    {
        let params: Vec<SqlValue> = vec![SqlValue::Integer(room_id as i64)];
        let columns: Vec<Column> = vec![Column { name: "name", text: true }];
        assert(values(params@) =~= seq![SqlModel::Integer(room_id as i64)]);
        assert(models(columns@) =~= seq![column("name"@, true)]);
        let table = self.select(queries::GET_ROOM_NAME, &params, &columns, 1);
        let name = first_text(&table);
        self.record(Ghost(Request::GetRoomName { room_id, name: name@ }));
        name
    }

    /// One page of rooms from row `offset` on, the most occupied last.
    pub fn get_rooms(&mut self, offset: i32) -> (rooms: Vec<(String, u32)>)
        ensures
            answered(
                *old(self),
                *final(self),
                (Request::GetRooms { offset, rooms: rooms.deep_view() }),
            ),
            final(self).read().len() == old(self).read().len() + 1,
            rooms.deep_view() == spec_rooms_page(final(self).read().last()),
            final(self).sent() == old(self).sent().push(
                Sent::query(
                    queries::GET_ROOMS@,
                    seq![SqlModel::Integer(offset as i64)],
                    room_columns(),
                    PAGE_SIZE as nat,
                ),
            ),
            rooms@.len() <= PAGE_SIZE,
    {
        let params: Vec<SqlValue> = vec![SqlValue::Integer(offset as i64)];
        let columns: Vec<Column> = vec![
            Column { name: "name", text: true },
            Column { name: "online", text: false },
        ];
        assert(values(params@) =~= seq![SqlModel::Integer(offset as i64)]);
        assert(models(columns@) =~= room_columns());
        let table = self.select(queries::GET_ROOMS, &params, &columns, PAGE_SIZE);
        let rooms = rooms_page(&table);
        assert(rooms@.len() == rooms.deep_view().len());
        self.record(Ghost(Request::GetRooms { offset, rooms: rooms.deep_view() }));
        rooms
    }

    /// One page of the rooms whose name contains `room_query`.
    pub fn search_rooms(&mut self, room_query: String, offset: i32) -> (rooms: Vec<
        (String, u32),
    >)
        ensures
            answered(
                *old(self),
                *final(self),
                (Request::SearchRooms { query: room_query@, offset, rooms: rooms.deep_view() }),
            ),
            final(self).read().len() == old(self).read().len() + 1,
            rooms.deep_view() == spec_room_listing(final(self).read().last()),
            final(self).sent() == old(self).sent().push(
                Sent::query(
                    queries::SEARCH_ROOMS@,
                    seq![
                        SqlModel::Text(spec_like_pattern(room_query@)),
                        SqlModel::Integer(offset as i64),
                    ],
                    room_columns(),
                    PAGE_SIZE as nat,
                ),
            ),
            rooms@.len() <= PAGE_SIZE,
    {
        let params: Vec<SqlValue> = vec![
            SqlValue::Text(like_pattern(room_query.as_str())),
            SqlValue::Integer(offset as i64),
        ];
        let columns: Vec<Column> = vec![
            Column { name: "name", text: true },
            Column { name: "online", text: false },
        ];
        assert(values(params@) =~= seq![
            SqlModel::Text(spec_like_pattern(room_query@)),
            SqlModel::Integer(offset as i64),
        ]);
        assert(models(columns@) =~= room_columns());
        let table = self.select(queries::SEARCH_ROOMS, &params, &columns, PAGE_SIZE);
        let rooms = room_listing(&table);
        assert(rooms@.len() == rooms.deep_view().len());
        self.record(
            Ghost(Request::SearchRooms { query: room_query@, offset, rooms: rooms.deep_view() }),
        );
        rooms
    }

    /// Stores a new room owned by `user_id`; a taken name is a no-op.
    pub fn create_room(&mut self, room_name: String, user_id: String)
        ensures
            answered(
                *old(self),
                *final(self),
                (Request::CreateRoom { name: room_name@, owner: user_id@ }),
            ),
            final(self).read() == old(self).read(),
            final(self).sent() == old(self).sent().push(
                Sent::update(
                    queries::CREATE_NEW_ROOM@,
                    seq![
                        SqlModel::Text(room_name@),
                        SqlModel::Text(user_id@),
                    ],
                ),
            ),
    {
        self.record(Ghost(Request::CreateRoom { name: room_name@, owner: user_id@ }));
        let params: Vec<SqlValue> = vec![SqlValue::Text(room_name), SqlValue::Text(user_id)];
        assert(values(params@) =~= seq![SqlModel::Text(room_name@), SqlModel::Text(user_id@)]);
        let _ = self.run(queries::CREATE_NEW_ROOM, &params);
    }

    /// The user's profile as (label, value) pairs in a fixed order:
    /// `username`, `online` (`1` or `0`), `created_date`. Empty where no
    /// user has this identifier.
    pub fn get_user(&mut self, user_id: i32) -> (user: Vec<(String, String)>)
        ensures
            answered(
                *old(self),
                *final(self),
                (Request::GetUser { user_id, profile: user.deep_view() }),
            ),
            final(self).read().len() == old(self).read().len() + 1,
            user.deep_view() == spec_profile(final(self).read().last()),
            final(self).sent() == old(self).sent().push(
                Sent::query(
                    queries::GET_USER@,
                    seq![SqlModel::Integer(user_id as i64)],
                    profile_columns(),
                    1,
                ),
            ),
            is_profile(user.deep_view()),
    {
        let params: Vec<SqlValue> = vec![SqlValue::Integer(user_id as i64)];
        let columns: Vec<Column> = vec![
            Column { name: "username", text: true },
            Column { name: "logged_in", text: false },
            Column { name: "created_date", text: true },
        ];
        assert(values(params@) =~= seq![SqlModel::Integer(user_id as i64)]);
        assert(models(columns@) =~= profile_columns());
        let table = self.select(queries::GET_USER, &params, &columns, 1);
        let user = profile(&table);
        self.record(Ghost(Request::GetUser { user_id, profile: user.deep_view() }));
        user
    }

    /// One page of users from row `offset` on, those logged in first.
    pub fn get_online_users(&mut self, offset: i32) -> (users: Vec<(String, bool)>)
        ensures
            answered(
                *old(self),
                *final(self),
                (Request::GetOnlineUsers { offset, users: users.deep_view() }),
            ),
            final(self).read().len() == old(self).read().len() + 1,
            users.deep_view() == spec_users_page(final(self).read().last()),
            final(self).sent() == old(self).sent().push(
                Sent::query(
                    queries::GET_ONLINE_USERS@,
                    seq![SqlModel::Integer(offset as i64)],
                    user_columns(),
                    PAGE_SIZE as nat,
                ),
            ),
            users@.len() <= PAGE_SIZE,
    {
        let params: Vec<SqlValue> = vec![SqlValue::Integer(offset as i64)];
        let columns: Vec<Column> = vec![
            Column { name: "username", text: true },
            Column { name: "logged_in", text: false },
        ];
        assert(values(params@) =~= seq![SqlModel::Integer(offset as i64)]);
        assert(models(columns@) =~= user_columns());
        let table = self.select(queries::GET_ONLINE_USERS, &params, &columns, PAGE_SIZE);
        let users = users_page(&table);
        assert(users@.len() == users.deep_view().len());
        self.record(Ghost(Request::GetOnlineUsers { offset, users: users.deep_view() }));
        users
    }

    /// The identifier of the room called `room_name`, or -1.
    pub fn get_room_id_by_name(&mut self, room_name: String) -> (id: i32)
        ensures
            answered(*old(self), *final(self), (Request::GetRoomId { name: room_name@, id })),
            final(self).read().len() == old(self).read().len() + 1,
            id == spec_first_id(final(self).read().last()),
            final(self).sent() == old(self).sent().push(
                Sent::query(
                    queries::GET_ROOM_BY_NAME@,
                    seq![SqlModel::Text(room_name@)],
                    seq![column("id"@, false)],
                    1,
                ),
            ),
            id == -1 || id > 0,
    {
        let params: Vec<SqlValue> = vec![SqlValue::Text(room_name)];
        let columns: Vec<Column> = vec![Column { name: "id", text: false }];
        assert(values(params@) =~= seq![SqlModel::Text(room_name@)]);
        assert(models(columns@) =~= seq![column("id"@, false)]);
        let table = self.select(queries::GET_ROOM_BY_NAME, &params, &columns, 1);
        let id = first_id(&table);
        self.record(Ghost(Request::GetRoomId { name: room_name@, id }));
        id
    }

    /// The identifier of the user called `user_name`, or -1.
    pub fn get_user_id_by_name(&mut self, user_name: &str) -> (id: i32)
        ensures
            answered(*old(self), *final(self), (Request::GetUserId { name: user_name@, id })),
            final(self).read().len() == old(self).read().len() + 1,
            id == spec_first_id(final(self).read().last()),
            final(self).sent() == old(self).sent().push(
                Sent::query(
                    queries::GET_USER_BY_NAME@,
                    seq![SqlModel::Text(user_name@)],
                    seq![column("id"@, false)],
                    1,
                ),
            ),
            id == -1 || id > 0,
    {
        let params: Vec<SqlValue> = vec![SqlValue::Text(String::from_str(user_name))];
        let columns: Vec<Column> = vec![Column { name: "id", text: false }];
        assert(values(params@) =~= seq![SqlModel::Text(user_name@)]);
        assert(models(columns@) =~= seq![column("id"@, false)]);
        let table = self.select(queries::GET_USER_BY_NAME, &params, &columns, 1);
        let id = first_id(&table);
        self.record(Ghost(Request::GetUserId { name: user_name@, id }));
        id
    }

    /// The first page of the users whose name contains `username_query`.
    pub fn search_users(&mut self, username_query: String) -> (users: Vec<(String, bool)>)
        ensures
            answered(
                *old(self),
                *final(self),
                (Request::SearchUsers { query: username_query@, users: users.deep_view() }),
            ),
            final(self).read().len() == old(self).read().len() + 1,
            users.deep_view() == spec_user_listing(final(self).read().last()),
            final(self).sent() == old(self).sent().push(
                Sent::query(
                    queries::QUERY_BY_USERNAME@,
                    seq![SqlModel::Text(spec_like_pattern(username_query@))],
                    user_columns(),
                    PAGE_SIZE as nat,
                ),
            ),
            users@.len() <= PAGE_SIZE,
    {
        let params: Vec<SqlValue> = vec![SqlValue::Text(like_pattern(username_query.as_str()))];
        let columns: Vec<Column> = vec![
            Column { name: "username", text: true },
            Column { name: "logged_in", text: false },
        ];
        assert(values(params@) =~= seq![SqlModel::Text(spec_like_pattern(username_query@))]);
        assert(models(columns@) =~= user_columns());
        let table = self.select(queries::QUERY_BY_USERNAME, &params, &columns, PAGE_SIZE);
        let users = user_listing(&table);
        assert(users@.len() == users.deep_view().len());
        self.record(
            Ghost(Request::SearchUsers { query: username_query@, users: users.deep_view() }),
        );
        users
    }

    /// One page of the room's messages from row `offset` on, newest first,
    /// each as (author id, date, author name, text).
    pub fn get_message_from_room(&mut self, room_id: i32, offset: i32) -> (messages: Vec<
        (i32, String, String, String),
    >)
        ensures
            answered(
                *old(self),
                *final(self),
                (Request::GetRoomMessages { room_id, offset, messages: messages.deep_view() }),
            ),
            final(self).read().len() == old(self).read().len() + 1,
            messages.deep_view() == spec_message_listing(final(self).read().last()),
            final(self).sent() == old(self).sent().push(
                Sent::query(
                    queries::GET_MESSAGES_FOR_ROOM@,
                    seq![SqlModel::Integer(room_id as i64), SqlModel::Integer(offset as i64)],
                    message_column_models(),
                    PAGE_SIZE as nat,
                ),
            ),
            messages@.len() <= PAGE_SIZE,
    {
        let params: Vec<SqlValue> = vec![
            SqlValue::Integer(room_id as i64),
            SqlValue::Integer(offset as i64),
        ];
        assert(values(params@) =~= seq![
            SqlModel::Integer(room_id as i64),
            SqlModel::Integer(offset as i64),
        ]);
        let table = self.select(
            queries::GET_MESSAGES_FOR_ROOM,
            &params,
            &Self::message_columns(),
            PAGE_SIZE,
        );
        let messages = message_listing(&table);
        assert(messages@.len() == messages.deep_view().len());
        self.record(
            Ghost(Request::GetRoomMessages { room_id, offset, messages: messages.deep_view() }),
        );
        messages
    }

    /// Stores a message of `user_id` in the room.
    pub fn post_message(&mut self, room_id: i32, message: String, user_id: i32)
        ensures
            answered(
                *old(self),
                *final(self),
                (Request::PostMessage { room_id, message: message@, user_id }),
            ),
            final(self).read() == old(self).read(),
            final(self).sent() == old(self).sent().push(
                Sent::update(
                    queries::POST_MESSAGE_TO_ROOM@,
                    seq![
                        SqlModel::Text(message@),
                        SqlModel::Integer(user_id as i64),
                        SqlModel::Integer(room_id as i64),
                    ],
                ),
            ),
    {
        self.record(Ghost(Request::PostMessage { room_id, message: message@, user_id }));
        let params: Vec<SqlValue> = vec![
            SqlValue::Text(message),
            SqlValue::Integer(user_id as i64),
            SqlValue::Integer(room_id as i64),
        ];
        assert(values(params@) =~= seq![
            SqlModel::Text(message@),
            SqlModel::Integer(user_id as i64),
            SqlModel::Integer(room_id as i64),
        ]);
        let _ = self.run(queries::POST_MESSAGE_TO_ROOM, &params);
    }

    /// Stores a direct message from `user_id` to `to_user_id`.
    pub fn post_direct_message(&mut self, user_id: i32, to_user_id: i32, message: String)
        ensures
            answered(
                *old(self),
                *final(self),
                (Request::PostDirectMessage { user_id, to_user_id, message: message@ }),
            ),
            final(self).read() == old(self).read(),
            final(self).sent() == old(self).sent().push(
                Sent::update(
                    queries::POST_DIRECT_MESSAGE@,
                    seq![
                        SqlModel::Text(message@),
                        SqlModel::Integer(user_id as i64),
                        SqlModel::Integer(to_user_id as i64),
                    ],
                ),
            ),
    {
        self.record(Ghost(Request::PostDirectMessage { user_id, to_user_id, message: message@ }));
        let params: Vec<SqlValue> = vec![
            SqlValue::Text(message),
            SqlValue::Integer(user_id as i64),
            SqlValue::Integer(to_user_id as i64),
        ];
        assert(values(params@) =~= seq![
            SqlModel::Text(message@),
            SqlModel::Integer(user_id as i64),
            SqlModel::Integer(to_user_id as i64),
        ]);
        let _ = self.run(queries::POST_DIRECT_MESSAGE, &params);
    }

    /// One page of the messages the two users sent each other from row
    /// `offset` on, newest first, each as (author id, date, author name, text).
    pub fn get_direct_messages_for(
        &mut self,
        user_id: i32,
        to_user_id: i32,
        offset: i32,
    ) -> (messages: Vec<(i32, String, String, String)>)
        ensures
            answered(
                *old(self),
                *final(self),
                (Request::GetDirectMessages {
                    user_id,
                    to_user_id,
                    offset,
                    messages: messages.deep_view(),
                }),
            ),
            final(self).read().len() == old(self).read().len() + 1,
            messages.deep_view() == spec_message_listing(final(self).read().last()),
            final(self).sent() == old(self).sent().push(
                Sent::query(
                    queries::GET_MESSAGES_FOR_USER@,
                    seq![
                        SqlModel::Integer(user_id as i64),
                        SqlModel::Integer(to_user_id as i64),
                        SqlModel::Integer(to_user_id as i64),
                        SqlModel::Integer(user_id as i64),
                        SqlModel::Integer(offset as i64),
                    ],
                    message_column_models(),
                    PAGE_SIZE as nat,
                ),
            ),
            messages@.len() <= PAGE_SIZE,
    {
        let params: Vec<SqlValue> = vec![
            SqlValue::Integer(user_id as i64),
            SqlValue::Integer(to_user_id as i64),
            SqlValue::Integer(to_user_id as i64),
            SqlValue::Integer(user_id as i64),
            SqlValue::Integer(offset as i64),
        ];
        assert(values(params@) =~= seq![
            SqlModel::Integer(user_id as i64),
            SqlModel::Integer(to_user_id as i64),
            SqlModel::Integer(to_user_id as i64),
            SqlModel::Integer(user_id as i64),
            SqlModel::Integer(offset as i64),
        ]);
        let table = self.select(
            queries::GET_MESSAGES_FOR_USER,
            &params,
            &Self::message_columns(),
            PAGE_SIZE,
        );
        let messages = message_listing(&table);
        assert(messages@.len() == messages.deep_view().len());
        self.record(
            Ghost(
                Request::GetDirectMessages {
                    user_id,
                    to_user_id,
                    offset,
                    messages: messages.deep_view(),
                },
            ),
        );
        messages
    }

    /// The columns read of every message.
    fn message_columns() -> (columns: Vec<Column>)
        ensures
            models(columns@) == message_column_models(),
    {
        vec![
            Column { name: "user_id", text: false },
            Column { name: "created_date", text: true },
            Column { name: "username", text: true },
            Column { name: "message", text: true },
        ]
    }
}

} // verus!
