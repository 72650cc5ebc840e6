//! The decisions taken while a game session runs: reading the answers of the
//! Roblox web endpoints, searching the server list, asking for an
//! authentication ticket, and watching the client process.
use vstd::prelude::*;
use vstd::utf8::encode_utf8;
use crate::codecs::{
    json_array_first_member, json_array_first_member_of, json_member, json_member_display, json_member_display_of,
    json_member_of, query_pairs_of, url_query_pairs, JsonMember, JsonMemberView,
};
use crate::launch::{query_get, query_value};
use crate::text::{
    byte_slice, chars_of, decimal, decimal_of, ends_with, has_suffix, same_text, slice_bytes,
};

verus! {

/// The answer of the place-launcher endpoint.
#[derive(Debug, Clone)]
pub struct RequestGameReponse {
    pub job_id: Option<String>,
    pub join_script_url: Option<String>,
    pub status: u8,
    pub message: Option<String>,
}

/// The value of a [`RequestGameReponse`].
pub struct RequestGameReponseView {
    pub job_id: Option<Seq<char>>,
    pub join_script_url: Option<Seq<char>>,
    pub status: u8,
    pub message: Option<Seq<char>>,
}

impl View for RequestGameReponse {
    type V = RequestGameReponseView;

    open spec fn view(&self) -> RequestGameReponseView {
        RequestGameReponseView {
            job_id: self.job_id.deep_view(),
            join_script_url: self.join_script_url.deep_view(),
            status: self.status,
            message: self.message.deep_view(),
        }
    }
}

/// Why an answer of a Roblox endpoint cannot be used.
#[derive(Debug, Clone, PartialEq, Eq)]
pub enum ReplyError {
    /// No character boundary at byte 9 of the job id that encodes the place.
    MalformedJobId,
    /// The place id in the job id is not a number.
    InvalidPlaceId,
    /// The job id of a private server lacks the `;`-separated server part.
    MissingServerId,
    /// No job id was given where one is needed.
    MissingJobId,
    /// The followed user is no longer in a game.
    UserLeftGame,
    /// The user may not join the followed user's game.
    NotAuthorized,
    /// The join was refused, with this message.
    JoinRefused(String),
    MissingJoinScriptUrl,
    /// The join script URL is not an absolute URL.
    InvalidJoinScriptUrl,
    /// The join script URL carries no `ticket`.
    MissingTicket,
    /// The ticket is not JSON.
    InvalidTicket,
    /// The ticket's user id is a number that is not a 64-bit unsigned integer.
    UserIdOutOfRange,
    /// The ticket's place id is a number that is not a 64-bit unsigned integer.
    PlaceIdOutOfRange,
    /// The product information is not JSON.
    InvalidProductInfo,
    /// The server count is not JSON, or not a 64-bit unsigned integer.
    InvalidServerCount,
    /// A 200 answer without the ticket header.
    MissingTicketHeader,
}

/// The value of a [`ReplyError`].
pub enum ReplyErrorView {
    MalformedJobId,
    InvalidPlaceId,
    MissingServerId,
    MissingJobId,
    UserLeftGame,
    NotAuthorized,
    JoinRefused(Seq<char>),
    MissingJoinScriptUrl,
    InvalidJoinScriptUrl,
    MissingTicket,
    InvalidTicket,
    UserIdOutOfRange,
    PlaceIdOutOfRange,
    InvalidProductInfo,
    InvalidServerCount,
    MissingTicketHeader,
}

impl View for ReplyError {
    type V = ReplyErrorView;

    open spec fn view(&self) -> ReplyErrorView {
        match self {
            ReplyError::MalformedJobId => ReplyErrorView::MalformedJobId,
            ReplyError::InvalidPlaceId => ReplyErrorView::InvalidPlaceId,
            ReplyError::MissingServerId => ReplyErrorView::MissingServerId,
            ReplyError::MissingJobId => ReplyErrorView::MissingJobId,
            ReplyError::UserLeftGame => ReplyErrorView::UserLeftGame,
            ReplyError::NotAuthorized => ReplyErrorView::NotAuthorized,
            ReplyError::JoinRefused(m) => ReplyErrorView::JoinRefused(m@),
            ReplyError::MissingJoinScriptUrl => ReplyErrorView::MissingJoinScriptUrl,
            ReplyError::InvalidJoinScriptUrl => ReplyErrorView::InvalidJoinScriptUrl,
            ReplyError::MissingTicket => ReplyErrorView::MissingTicket,
            ReplyError::InvalidTicket => ReplyErrorView::InvalidTicket,
            ReplyError::UserIdOutOfRange => ReplyErrorView::UserIdOutOfRange,
            ReplyError::PlaceIdOutOfRange => ReplyErrorView::PlaceIdOutOfRange,
            ReplyError::InvalidProductInfo => ReplyErrorView::InvalidProductInfo,
            ReplyError::InvalidServerCount => ReplyErrorView::InvalidServerCount,
            ReplyError::MissingTicketHeader => ReplyErrorView::MissingTicketHeader,
        }
    }
}

/// The ticket that a join script URL carries in its query.
pub open spec fn ticket_spec(join_script_url: Seq<char>) -> Result<Seq<char>, ReplyErrorView> {
    match url_query_pairs(join_script_url) {
        None => Err(ReplyErrorView::InvalidJoinScriptUrl),
        Some(query) => match query_value(query, "ticket"@) {
            None => Err(ReplyErrorView::MissingTicket),
            Some(ticket) => Ok(ticket),
        },
    }
}

/// Reads the ticket out of a join script URL.
pub fn ticket_of(join_script_url: &str) -> (res: Result<String, ReplyError>)
    ensures
        match res {
            Ok(t) => ticket_spec(join_script_url@) == Ok::<Seq<char>, ReplyErrorView>(t@),
            Err(e) => ticket_spec(join_script_url@) == Err::<Seq<char>, ReplyErrorView>(e@),
        },
{
    match query_pairs_of(join_script_url) {
        Ok(query) => match query_get(&query, "ticket") {
            Some(t) => Ok(t),
            None => Err(ReplyError::MissingTicket),
        },
        Err(_) => Err(ReplyError::InvalidJoinScriptUrl),
    }
}

/// The user name of a ticket: its `UserName` string, else "Player".
pub open spec fn ticket_user_name(member: JsonMemberView) -> Seq<char> {
    match member {
        JsonMemberView::Text(s) => s,
        _ => "Player"@,
    }
}

/// A numeric member of a ticket: its value, `0` if it is not a number, an
/// error if it is a number out of range.
pub open spec fn ticket_number(member: JsonMemberView, out_of_range: ReplyErrorView) -> Result<u64, ReplyErrorView> {
    match member {
        JsonMemberView::Number(Some(n)) => Ok(n),
        JsonMemberView::Number(None) => Err(out_of_range),
        _ => Ok(0),
    }
}

/// One member of a ticket, or the ticket's error where it is not JSON.
pub fn ticket_member(ticket: &str, key: &str) -> (res: Result<JsonMember, ReplyError>)
    ensures
        match res {
            Ok(m) => json_member_of(ticket@, key@) == Some(m@),
            Err(e) => json_member_of(ticket@, key@) is None && e@ == ReplyErrorView::InvalidTicket,
        },
{
    match json_member(ticket, key) {
        Ok(m) => Ok(m),
        Err(_) => Err(ReplyError::InvalidTicket),
    }
}

/// The user name of a ticket member.
pub fn user_name_of(member: JsonMember) -> (res: String)
    ensures
        res@ == ticket_user_name(member@),
{
    match member {
        JsonMember::Text(s) => s,
        _ => String::from_str("Player"),
    }
}

/// The number of a ticket member.
pub fn number_of(member: &JsonMember, out_of_range: ReplyError) -> (res: Result<u64, ReplyError>)
    ensures
        match res {
            Ok(n) => ticket_number(member@, out_of_range@) == Ok::<u64, ReplyErrorView>(n),
            Err(e) => ticket_number(member@, out_of_range@) == Err::<u64, ReplyErrorView>(e@),
        },
{
    match member {
        JsonMember::Number(Some(n)) => Ok(*n),
        JsonMember::Number(None) => Err(out_of_range),
        _ => Ok(0),
    }
}

/// The place name that product information gives: its `Name` string, else
/// "Unknown Game"; an error where the information is not JSON.
pub open spec fn place_name_spec(product_info: Seq<char>) -> Result<Seq<char>, ReplyErrorView> {
    match json_member_of(product_info, "Name"@) {
        None => Err(ReplyErrorView::InvalidProductInfo),
        Some(JsonMemberView::Text(name)) => Ok(name),
        Some(_) => Ok("Unknown Game"@),
    }
}

/// Reads the place name out of product information.
pub fn place_name_of(product_info: &str) -> (res: Result<String, ReplyError>)
    ensures
        match res {
            Ok(n) => place_name_spec(product_info@) == Ok::<Seq<char>, ReplyErrorView>(n@),
            Err(e) => place_name_spec(product_info@) == Err::<Seq<char>, ReplyErrorView>(e@),
        },
{
    match json_member(product_info, "Name") {
        Ok(JsonMember::Text(name)) => Ok(name),
        Ok(_) => Ok(String::from_str("Unknown Game")),
        Err(_) => Err(ReplyError::InvalidProductInfo),
    }
}

/// The number of public servers that the instance list reports in its
/// `TotalCollectionSize`.
pub open spec fn server_count_spec(body: Seq<char>) -> Result<u64, ReplyErrorView> {
    match json_member_of(body, "TotalCollectionSize"@) {
        Some(JsonMemberView::Number(Some(n))) => Ok(n),
        _ => Err(ReplyErrorView::InvalidServerCount),
    }
}

/// Reads the number of public servers.
pub fn server_count(body: &str) -> (res: Result<u64, ReplyError>)
    ensures
        match res {
            Ok(n) => server_count_spec(body@) == Ok::<u64, ReplyErrorView>(n),
            Err(e) => server_count_spec(body@) == Err::<u64, ReplyErrorView>(e@),
        },
{
    match json_member(body, "TotalCollectionSize") {
        Ok(JsonMember::Number(Some(n))) => Ok(n),
        _ => Err(ReplyError::InvalidServerCount),
    }
}

/// The account information of a user.
#[derive(Debug, Clone)]
pub struct RobloxUserInfo {
    pub id: u64,
    pub username: String,
    pub avatar_uri: Option<String>,
    pub avatar_final: bool,
    pub is_online: bool,
}

/// One public server of a game.
#[derive(Debug, Clone)]
pub struct RobloxServerData {
    pub id: String,
    pub max_players: u32,
    pub playing: Option<u32>,
    pub ping: Option<u64>,
}

/// One page of a game's public server list.
#[derive(Debug, Clone)]
pub struct RobloxServerListData {
    pub previous_page_cursor: Option<String>,
    pub next_page_cursor: Option<String>,
    pub data: Option<Vec<RobloxServerData>>,
}

/// The first server of `servers` whose id is `job_id`.
pub open spec fn first_server_with_id(servers: Seq<RobloxServerData>, job_id: Seq<char>) -> Option<int> {
    if exists|i: int| 0 <= i < servers.len() && (#[trigger] servers[i]).id@ == job_id {
        Some(choose|i: int| 0 <= i < servers.len() && servers[i].id@ == job_id
            && forall|j: int| 0 <= j < i ==> (#[trigger] servers[j]).id@ != job_id)
    } else {
        None
    }
}

/// The servers a page lists (none where it lists nothing).
pub open spec fn servers_of(page: &RobloxServerListData) -> Seq<RobloxServerData> {
    match page.data {
        Some(servers) => servers@,
        None => Seq::empty(),
    }
}

/// The server of the page whose id is `job_id`: `Some` exactly when one is
/// listed, and then the first such.
pub fn find_server(page: &RobloxServerListData, job_id: &str) -> (res: Option<RobloxServerData>)
    ensures
        match res {
            None => forall|i: int| 0 <= i < servers_of(page).len() ==> (#[trigger] servers_of(page)[i]).id@ != job_id@,
            Some(s) => exists|i: int| 0 <= i < servers_of(page).len() && servers_of(page)[i] == s && s.id@ == job_id@
                && forall|j: int| 0 <= j < i ==> (#[trigger] servers_of(page)[j]).id@ != job_id@,
        },
{
    match &page.data {
        None => None,
        Some(servers) => {
            assert(servers_of(page) == servers@);
            let n = servers.len();
            let mut i: usize = 0;
            while i < n
                invariant
                    n == servers@.len(),
                    servers_of(page) == servers@,
                    i <= n,
                    forall|j: int| 0 <= j < i ==> (#[trigger] servers@[j]).id@ != job_id@,
                decreases n - i,
            {
                if same_text(servers[i].id.as_str(), job_id) {
                    let found = RobloxServerData {
                        id: servers[i].id.clone(),
                        max_players: servers[i].max_players,
                        playing: servers[i].playing,
                        ping: servers[i].ping,
                    };
                    assert(found == servers@[i as int]);
                    assert(servers_of(page)[i as int] == found && found.id@ == job_id@
                        && forall|j: int| 0 <= j < i ==> (#[trigger] servers_of(page)[j]).id@ != job_id@);
                    return Some(found);
                }
                i += 1;
            }
            None
        },
    }
}

/// How many pages of the server list are read: one per hundred servers, and one more.
pub open spec fn pages_to_scan(total: u64) -> nat {
    (total / 100 + 1) as nat
}

/// A search through a game's public server list for the server the user is in.
pub struct ServerSearch {
    pages_left: u64,
    cursor: String,
}

/// The value of a [`ServerSearch`].
pub struct ServerSearchView {
    /// The pages that may still be read.
    pub pages_left: nat,
    /// The cursor of the next page to read.
    pub cursor: Seq<char>,
}

impl View for ServerSearch {
    type V = ServerSearchView;

    closed spec fn view(&self) -> ServerSearchView {
        ServerSearchView { pages_left: self.pages_left as nat, cursor: self.cursor@ }
    }
}

/// What to do after a page of the server list was read.
#[derive(Debug, Clone)]
pub enum SearchStep {
    /// The server was on the page.
    Found(RobloxServerData),
    /// Read the next page.
    NextPage,
    /// Every page allowed was read without finding the server.
    Exhausted,
}

impl ServerSearch {
    /// A search that reads at most `total / 100 + 1` pages, from the first.
    pub fn new(total: u64) -> (res: Self)
        ensures
            res@ == (ServerSearchView { pages_left: pages_to_scan(total), cursor: Seq::empty() }),
    {
        ServerSearch { pages_left: total / 100 + 1, cursor: String::new() }
    }

    /// The cursor of the next page, where a page may still be read.
    pub fn next_cursor(&self) -> (res: Option<String>)
        ensures
            match res {
                Some(c) => self@.pages_left > 0 && c@ == self@.cursor,
                None => self@.pages_left == 0,
            },
    {
        if self.pages_left > 0 {
            Some(self.cursor.clone())
        } else {
            None
        }
    }

    /// Takes in the page just read: it uses up one page, moves the cursor to
    /// the page's next one (the first page if there is none), and tells whether
    /// the server was found, another page may be read, or the search is over.
    pub fn on_page(&mut self, page: &RobloxServerListData, job_id: &str) -> (res: SearchStep)
        requires
            old(self)@.pages_left > 0,
        ensures
            final(self)@.pages_left == old(self)@.pages_left - 1,
            final(self)@.cursor == match page.next_page_cursor {
                Some(c) => c@,
                None => Seq::<char>::empty(),
            },
            match res {
                SearchStep::Found(s) => s.id@ == job_id@ && exists|i: int|
                    0 <= i < servers_of(page).len() && servers_of(page)[i] == s
                        && forall|j: int| 0 <= j < i ==> (#[trigger] servers_of(page)[j]).id@ != job_id@,
                SearchStep::NextPage => final(self)@.pages_left > 0 && !has_server(page, job_id@),
                SearchStep::Exhausted => final(self)@.pages_left == 0 && !has_server(page, job_id@),
            },
    {
        self.pages_left = self.pages_left - 1;
        self.cursor = match &page.next_page_cursor {
            Some(c) => c.clone(),
            None => String::new(),
        };
        match find_server(page, job_id) {
            Some(s) => SearchStep::Found(s),
            None => if self.pages_left > 0 {
                SearchStep::NextPage
            } else {
                SearchStep::Exhausted
            },
        }
    }
}

/// The page lists a server with the id `job_id`.
pub open spec fn has_server(page: &RobloxServerListData, job_id: Seq<char>) -> bool {
    exists|i: int| 0 <= i < servers_of(page).len() && (#[trigger] servers_of(page)[i]).id@ == job_id
}

/// The most attempts made to get an authentication ticket.
pub open spec fn max_ticket_attempts() -> nat {
    6
}

/// Asking for an authentication ticket: the attempts made, and the CSRF token
/// that the last refusal handed out.
pub struct TicketSession {
    attempts: u8,
    csrf_token: String,
}

/// The value of a [`TicketSession`].
pub struct TicketSessionView {
    pub attempts: nat,
    pub csrf_token: Seq<char>,
}

impl View for TicketSession {
    type V = TicketSessionView;

    closed spec fn view(&self) -> TicketSessionView {
        TicketSessionView { attempts: self.attempts as nat, csrf_token: self.csrf_token@ }
    }
}

/// What the ticket endpoint answered.
#[derive(Debug, Clone)]
pub enum TicketStep {
    /// The ticket.
    Issued(String),
    /// Forbidden: try again (with the new CSRF token, if one came).
    Retry,
    /// Any other answer: no ticket.
    Refused,
}

impl TicketSession {
    /// No attempt made, and no token.
    pub fn new() -> (res: Self)
        ensures
            res@ == (TicketSessionView { attempts: 0, csrf_token: Seq::empty() }),
    {
        TicketSession { attempts: 0, csrf_token: String::new() }
    }

    /// Starts an attempt, where fewer than six were made, and gives the token
    /// to send; `None` once six attempts were made.
    pub fn start_attempt(&mut self) -> (res: Option<String>)
        requires
            old(self)@.attempts <= max_ticket_attempts(),
        ensures
            final(self)@.attempts <= max_ticket_attempts(),
            final(self)@.csrf_token == old(self)@.csrf_token,
            match res {
                Some(token) => old(self)@.attempts < max_ticket_attempts()
                    && final(self)@.attempts == old(self)@.attempts + 1
                    && token@ == old(self)@.csrf_token,
                None => old(self)@.attempts == max_ticket_attempts()
                    && final(self)@.attempts == old(self)@.attempts,
            },
    {
        if self.attempts < 6 {
            self.attempts = self.attempts + 1;
            Some(self.csrf_token.clone())
        } else {
            None
        }
    }

    /// Takes in an answer: 200 with its ticket header gives the ticket (200
    /// without it is an error); 403 asks for a retry and keeps the new token
    /// if one came; anything else gives up.
    pub fn on_reply(&mut self, status: u16, ticket_header: Option<String>, csrf_header: Option<String>) -> (res: Result<TicketStep, ReplyError>)
        ensures
            final(self)@.attempts == old(self)@.attempts,
            final(self)@.csrf_token == if status == 403 && csrf_header is Some {
                csrf_header->0@
            } else {
                old(self)@.csrf_token
            },
            status == 200 ==> match res {
                Ok(TicketStep::Issued(t)) => ticket_header is Some && t@ == ticket_header->0@,
                Err(e) => ticket_header is None && e@ == ReplyErrorView::MissingTicketHeader,
                _ => false,
            },
            status == 403 ==> res matches Ok(TicketStep::Retry),
            status != 200 && status != 403 ==> res matches Ok(TicketStep::Refused),
    {
        if status == 200 {
            match ticket_header {
                Some(t) => Ok(TicketStep::Issued(t)),
                None => Err(ReplyError::MissingTicketHeader),
            }
        } else if status == 403 {
            match csrf_header {
                Some(token) => {
                    self.csrf_token = token;
                },
                None => {},
            }
            Ok(TicketStep::Retry)
        } else {
            Ok(TicketStep::Refused)
        }
    }
}

/// The misses of the client process that are waited out before the first
/// time it is seen.
pub open spec fn max_watch_misses() -> u8 {
    15
}

/// What to do after the client process was looked for.
#[derive(Debug, Clone, Copy, PartialEq, Eq)]
pub enum WatchAction {
    /// The client runs: keep watching.
    KeepWatching,
    /// The client was not found: see whether it is being updated, then look again.
    LookAgain,
    /// Stop watching: the client is gone.
    ShutDown,
}

/// Watching the client process: the misses counted so far; 16 once the
/// client was seen.
pub struct RobloxWatch {
    pub tries: u8,
}

/// One look for the client process: the count of misses afterwards and the action.
pub open spec fn watch_step(tries: u8, found: bool) -> (u8, WatchAction) {
    if found {
        (16, WatchAction::KeepWatching)
    } else if tries < max_watch_misses() {
        ((tries + 1) as u8, WatchAction::LookAgain)
    } else {
        (tries, WatchAction::ShutDown)
    }
}

impl RobloxWatch {
    /// Nothing counted yet.
    pub fn new() -> (res: Self)
        ensures
            res.tries == 0,
    {
        RobloxWatch { tries: 0 }
    }

    /// Takes in one look for the client process.
    pub fn on_poll(&mut self, found: bool) -> (res: WatchAction)
        ensures
            (final(self).tries, res) == watch_step(old(self).tries, found),
    {
        if found {
            self.tries = 16;
            WatchAction::KeepWatching
        } else if self.tries < 15 {
            self.tries = self.tries + 1;
            WatchAction::LookAgain
        } else {
            WatchAction::ShutDown
        }
    }
}

/// Once the client has been seen, the first look that misses it ends the watch.
pub proof fn law_watch_ends_when_seen_client_goes(tries: u8)
    ensures
        watch_step(watch_step(tries, true).0, false).1 == WatchAction::ShutDown,
{
}

/// Before the client is seen, fifteen misses are waited out and the sixteenth
/// ends the watch.
pub proof fn law_watch_waits_fifteen_misses()
    ensures
        watch_step(0, false) == (1u8, WatchAction::LookAgain),
        forall|t: u8| t < 15 ==> #[trigger] watch_step(t, false) == ((t + 1) as u8, WatchAction::LookAgain),
        watch_step(15, false).1 == WatchAction::ShutDown,
{
}

/// Watching the configuration file: the modification time last seen, in
/// seconds since the epoch; 0 before any was seen.
pub struct ConfigWatch {
    pub prev_time: u64,
}

/// One reading of the file's modification time: the time kept afterwards, and
/// whether the configuration changed. The first reading is only kept; a later
/// one that differs from the time kept is a change.
pub open spec fn config_watch_step(prev_time: u64, time: u64) -> (u64, bool) {
    if prev_time == 0 {
        (time, false)
    } else if time != prev_time {
        (time, true)
    } else {
        (prev_time, false)
    }
}

impl ConfigWatch {
    /// No modification time seen yet.
    pub fn new() -> (res: Self)
        ensures
            res.prev_time == 0,
    {
        ConfigWatch { prev_time: 0 }
    }

    /// Takes in the file's modification time; whether the configuration is to
    /// be read again and the presence updated.
    pub fn on_modified(&mut self, time: u64) -> (changed: bool)
        ensures
            (final(self).prev_time, changed) == config_watch_step(old(self).prev_time, time),
    {
        if self.prev_time == 0 {
            self.prev_time = time;
            false
        } else if time != self.prev_time {
            self.prev_time = time;
            true
        } else {
            false
        }
    }
}

/// A change is reported once: reading the same modification time again
/// reports nothing, and the first reading never reports a change.
pub proof fn law_config_change_reported_once(prev_time: u64, time: u64)
    ensures
        !config_watch_step(config_watch_step(prev_time, time).0, time).1,
        !config_watch_step(0, time).1,
{
}

/// The command the `roblox-player` protocol runs, pointing at `exe_path`.
pub open spec fn protocol_command_spec(exe_path: Seq<char>) -> Seq<char> {
    "\""@ + exe_path + "\" \"%1\""@
}

/// The command the `roblox-player` protocol runs, pointing at `exe_path`.
pub fn protocol_command(exe_path: &str) -> (res: String)
    ensures
        res@ == protocol_command_spec(exe_path@),
{
    let mut s = String::from_str("\"");
    s.append(exe_path);
    s.append("\" \"%1\"");
    s
}

/// The command that hands the protocol back to the Roblox launcher at `path`.
pub open spec fn launcher_command_spec(path: Seq<char>) -> Seq<char> {
    "\""@ + path + "\" %1"@
}

/// The command that hands the protocol back to the Roblox launcher at `path`.
pub fn launcher_command(path: &str) -> (res: String)
    ensures
        res@ == launcher_command_spec(path@),
{
    let mut s = String::from_str("\"");
    s.append(path);
    s.append("\" %1");
    s
}

/// What the protocol's registered command tells of the launcher after an
/// update of Roblox: `Ok(None)` where it still points at this program
/// (`exe_name`), else the launcher path inside it (bytes 1 to 4 before the end,
/// dropping the opening quote and the closing `" %1`), or an error where the
/// command is too short or those offsets do not fall between characters.
pub open spec fn launcher_after_update_spec(command: Seq<char>, exe_name: Seq<char>) -> Result<Option<Seq<char>>, ()> {
    if has_suffix(command, exe_name + "\" \"%1\""@) {
        Ok(None)
    } else {
        let len = encode_utf8(command).len();
        if len < 4 {
            Err(())
        } else {
            match byte_slice(command, 1, len - 4) {
                Some(path) => Ok(Some(path)),
                None => Err(()),
            }
        }
    }
}

/// Reads the launcher path out of the protocol's registered command.
pub fn launcher_after_update(command: &str, exe_name: &str) -> (res: Result<Option<String>, ()>)
    ensures
        match res {
            Ok(Some(p)) => launcher_after_update_spec(command@, exe_name@) == Ok::<Option<Seq<char>>, ()>(Some(p@)),
            Ok(None) => launcher_after_update_spec(command@, exe_name@) == Ok::<Option<Seq<char>>, ()>(None),
            Err(_) => launcher_after_update_spec(command@, exe_name@) is Err,
        },
{
    let mut ours = String::from_str(exe_name);
    ours.append("\" \"%1\"");
    if ends_with(command, ours.as_str()) {
        return Ok(None);
    }
    let len = command.as_bytes().len();
    if len < 4 {
        return Err(());
    }
    match slice_bytes(command, 1, len - 4) {
        Some(path) => Ok(Some(path)),
        None => Err(()),
    }
}

/// The position of the first `c` in `s`.
pub open spec fn first_index_of(s: Seq<char>, c: char) -> Option<nat>
    decreases s.len(),
{
    if s.len() == 0 {
        None
    } else if s[0] == c {
        Some(0)
    } else {
        match first_index_of(s.drop_first(), c) {
            Some(i) => Some(i + 1),
            None => None,
        }
    }
}

/// The cookie value in a `Set-Cookie` header: from byte 15 (after
/// `.ROBLOSECURITY=`) up to the first `;`; an error where there is no `;` or
/// those offsets do not delimit text.
pub open spec fn cookie_of_set_cookie_spec(header: Seq<char>) -> Result<Seq<char>, ()> {
    match first_index_of(header, ';') {
        None => Err(()),
        Some(i) => match byte_slice(header, 15, encode_utf8(header.take(i as int)).len() as int) {
            Some(v) => Ok(v),
            None => Err(()),
        },
    }
}

/// Reads the `.ROBLOSECURITY` cookie out of a `Set-Cookie` header.
pub fn cookie_of_set_cookie(header: &str) -> (res: Result<String, ()>)
    ensures
        match res {
            Ok(v) => cookie_of_set_cookie_spec(header@) == Ok::<Seq<char>, ()>(v@),
            Err(_) => cookie_of_set_cookie_spec(header@) is Err,
        },
{
    let chars = chars_of(header);
    let n = chars.len();
    let mut i: usize = 0;
    assert(header@.skip(0) =~= header@);
    while i < n && chars[i] != ';'
        invariant
            n == chars@.len(),
            chars@ == header@,
            i <= n,
            forall|k: int| 0 <= k < i ==> chars@[k] != ';',
            first_index_of(header@, ';') == match first_index_of(header@.skip(i as int), ';') {
                Some(j) => Some((j + i) as nat),
                None => None::<nat>,
            },
        decreases n - i,
    {
        assert(header@.skip(i as int).drop_first() =~= header@.skip(i + 1));
        i += 1;
    }
    if i == n {
        assert(header@.skip(n as int) =~= Seq::<char>::empty());
        return Err(());
    }
    assert(header@.skip(i as int)[0] == ';');
    let before = header.substring_char(0, i);
    assert(before@ =~= header@.take(i as int));
    let end = before.as_bytes().len();
    match slice_bytes(header, 15, end) {
        Some(v) => Ok(v),
        None => Err(()),
    }
}

/// Whether the newest release tag names this version: it is `v` and the version.
pub fn is_latest_tag(tag: &str, version: &str) -> (res: bool)
    ensures
        res == (tag@ == "v"@ + version@),
{
    let mut expected = String::from_str("v");
    expected.append(version);
    same_text(tag, expected.as_str())
}

/// Why a version answer cannot be read.
#[derive(Debug, Clone, Copy, PartialEq, Eq)]
pub enum VersionError {
    /// The release tag list is not a JSON array.
    InvalidTagList,
    /// The newest tag's name is not a string.
    TagNameNotText,
    /// The client settings are not JSON.
    InvalidClientSettings,
}

/// Whether the newest release, the first tag of the tag list `tags`, names
/// this version; no tag at all means it does not.
pub open spec fn latest_release_spec(tags: Seq<char>, version: Seq<char>) -> Result<bool, VersionError> {
    match json_array_first_member_of(tags, "name"@) {
        None => Err(VersionError::InvalidTagList),
        Some(None) => Ok(false),
        Some(Some(JsonMemberView::Text(name))) => Ok(name == "v"@ + version),
        Some(Some(_)) => Err(VersionError::TagNameNotText),
    }
}

/// Reads the release tag list and tells whether its newest tag names this version.
pub fn is_latest_release(tags: &str, version: &str) -> (res: Result<bool, VersionError>)
    ensures
        res == latest_release_spec(tags@, version@),
{
    proof {
        reveal_strlit("name");
    }
    match json_array_first_member(tags, "name") {
        Ok(None) => Ok(false),
        Ok(Some(JsonMember::Text(name))) => Ok(is_latest_tag(name.as_str(), version)),
        Ok(Some(_)) => Err(VersionError::TagNameNotText),
        Err(_) => Err(VersionError::InvalidTagList),
    }
}

/// The player version to look for: what the client settings give as
/// `clientVersionUpload`, or `version-0` where no settings could be had.
pub open spec fn player_version_spec(settings: Option<Seq<char>>) -> Result<Seq<char>, VersionError> {
    match settings {
        None => Ok("version-0"@),
        Some(body) => match json_member_display_of(body, "clientVersionUpload"@) {
            Some(v) => Ok(v),
            None => Err(VersionError::InvalidClientSettings),
        },
    }
}

/// The player version to look for, from the client settings' answer, if one came.
pub fn player_version(settings: Option<&str>) -> (res: Result<String, VersionError>)
    ensures
        match player_version_spec(
            match settings {
                Some(s) => Some(s@),
                None => None,
            },
        ) {
            Ok(v) => res matches Ok(r) && r@ == v,
            Err(e) => res == Err::<String, VersionError>(e),
        },
{
    match settings {
        None => Ok(String::from_str("version-0")),
        Some(body) => match json_member_display(body, "clientVersionUpload") {
            Ok(v) => Ok(v),
            Err(_) => Err(VersionError::InvalidClientSettings),
        },
    }
}

/// The pages a server search reads, a hundred servers each, cover every
/// server, and one page fewer would not: the count is the least `p` with
/// `p * 100 > total`.
pub proof fn law_server_pages_cover_every_server(total: u64)
    ensures
        pages_to_scan(total) >= 1,
        pages_to_scan(total) * 100 > total,
        (pages_to_scan(total) - 1) * 100 <= total,
{
}

} // verus!
