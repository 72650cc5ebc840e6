//! The Roblox session: what a join is about, the launch URL that starts the
//! player, and the client state that the presence is drawn from.
use vstd::prelude::*;
use crate::codecs::{json_member_of, JsonMember, JsonMemberView};
use crate::models::given_or;
use crate::session::{
    number_of, place_name_of, place_name_spec, ticket_member, ticket_number, ticket_of,
    ticket_spec, ticket_user_name, user_name_of, ReplyError, ReplyErrorView, RequestGameReponse,
    RequestGameReponseView,
};
use crate::text::{
    byte_suffix, decimal, decimal_of, has_prefix, lemma_split_on_len, parse_u64, parse_u64_spec,
    same_text, slice_from_byte, split_char, split_on, starts_with,
};

verus! {

/// Everything known about the game being joined.
#[derive(Debug, Clone)]
pub struct RobloxJoinData {
    pub user_id: u64,
    pub username: String,
    pub launch_mode: String,
    pub game_info: String,
    pub request: String,
    pub launch_time: u64,
    pub access_code: String,
    pub link_code: String,
    pub place_launcher_url: String,
    pub is_play_together: String,
    pub place_id: u64,
    pub place_name: String,
    pub job_id: String,
    pub friend_user_id: u64,
    pub browser_tracker_id: u64,
    pub roblox_locale: String,
    pub game_locale: String,
}

/// The value of a [`RobloxJoinData`].
pub struct RobloxJoinDataView {
    pub user_id: u64,
    pub username: Seq<char>,
    pub launch_mode: Seq<char>,
    pub game_info: Seq<char>,
    pub request: Seq<char>,
    pub launch_time: u64,
    pub access_code: Seq<char>,
    pub link_code: Seq<char>,
    pub place_launcher_url: Seq<char>,
    pub is_play_together: Seq<char>,
    pub place_id: u64,
    pub place_name: Seq<char>,
    pub job_id: Seq<char>,
    pub friend_user_id: u64,
    pub browser_tracker_id: u64,
    pub roblox_locale: Seq<char>,
    pub game_locale: Seq<char>,
}

impl View for RobloxJoinData {
    type V = RobloxJoinDataView;

    open spec fn view(&self) -> RobloxJoinDataView {
        RobloxJoinDataView {
            user_id: self.user_id,
            username: self.username@,
            launch_mode: self.launch_mode@,
            game_info: self.game_info@,
            request: self.request@,
            launch_time: self.launch_time,
            access_code: self.access_code@,
            link_code: self.link_code@,
            place_launcher_url: self.place_launcher_url@,
            is_play_together: self.is_play_together@,
            place_id: self.place_id,
            place_name: self.place_name@,
            job_id: self.job_id@,
            friend_user_id: self.friend_user_id,
            browser_tracker_id: self.browser_tracker_id,
            roblox_locale: self.roblox_locale@,
            game_locale: self.game_locale@,
        }
    }
}

/// The join data that a fresh client starts from.
pub open spec fn default_join_data() -> RobloxJoinDataView {
    RobloxJoinDataView {
        user_id: 0,
        username: "Player"@,
        launch_mode: "play"@,
        game_info: "abcd"@,
        request: "https://www.roblox.com/"@,
        launch_time: 0,
        access_code: Seq::empty(),
        link_code: Seq::empty(),
        place_launcher_url: "https://www.roblox.com"@,
        is_play_together: "false"@,
        place_id: 0,
        place_name: "A Roblox Game"@,
        job_id: "abcdefghijklmnopqurstuvwxyz"@,
        friend_user_id: 0,
        browser_tracker_id: 0,
        roblox_locale: "en_us"@,
        game_locale: "en_us"@,
    }
}

/// The place-launcher URL, percent-encoded, that a launch URL carries: a
/// private-server request for `RequestPrivateGame`, a game-job request otherwise.
pub open spec fn encoded_place_launcher_url(d: RobloxJoinDataView) -> Seq<char> {
    if d.request == "RequestPrivateGame"@ {
        "https%3A%2F%2Fassetgame.roblox.com%2Fgame%2FPlaceLauncher.ashx%3Frequest%3DRequestPrivateGame%26browserTrackerId%3D"@
            + decimal_of(d.browser_tracker_id as nat) + "%26placeId%3D"@ + decimal_of(
            d.place_id as nat,
        ) + "%26accessCode%3D"@ + d.access_code + "%26linkCode%3D"@ + d.link_code
    } else {
        "https%3A%2F%2Fassetgame.roblox.com%2Fgame%2FPlaceLauncher.ashx%3Frequest%3DRequestGameJob%26browserTrackerId%3D"@
            + decimal_of(d.browser_tracker_id as nat) + "%26placeId%3D"@ + decimal_of(
            d.place_id as nat,
        ) + "%26gameId%3D"@ + d.job_id + "%26isPlayTogetherGame%3D"@ + d.is_play_together
    }
}

/// The `roblox-player:` URL that starts the player on the game `d` describes.
pub open spec fn launch_url_of(d: RobloxJoinDataView) -> Seq<char> {
    "roblox-player:1+launchmode:"@ + d.launch_mode + "+gameinfo:"@ + d.game_info
        + "+launchtime:"@ + decimal_of(d.launch_time as nat) + "+placelauncherurl:"@
        + encoded_place_launcher_url(d) + "+browsertrackerid:"@ + decimal_of(
        d.browser_tracker_id as nat,
    ) + "+robloxLocale:"@ + d.roblox_locale + "+gameLocale:"@ + d.game_locale
}

impl RobloxJoinData {
    /// The join data that a fresh client starts from.
    pub fn default() -> (res: Self)
        ensures
            res@ == default_join_data(),
    {
        Self {
            user_id: 0,
            username: String::from_str("Player"),
            launch_mode: String::from_str("play"),
            game_info: String::from_str("abcd"),
            request: String::from_str("https://www.roblox.com/"),
            launch_time: 0,
            link_code: String::new(),
            access_code: String::new(),
            place_launcher_url: String::from_str("https://www.roblox.com"),
            is_play_together: String::from_str("false"),
            place_id: 0,
            place_name: String::from_str("A Roblox Game"),
            job_id: String::from_str("abcdefghijklmnopqurstuvwxyz"),
            friend_user_id: 0,
            browser_tracker_id: 0,
            roblox_locale: String::from_str("en_us"),
            game_locale: String::from_str("en_us"),
        }
    }

    /// The `roblox-player:` URL that starts the player on this game.
    pub fn as_url(&self) -> (res: String)
        ensures
            res@ == launch_url_of(self@),
    {
        let mut place = if same_text(self.request.as_str(), "RequestPrivateGame") {
            let mut p = String::from_str(
                "https%3A%2F%2Fassetgame.roblox.com%2Fgame%2FPlaceLauncher.ashx%3Frequest%3DRequestPrivateGame%26browserTrackerId%3D",
            );
            p.append(decimal(self.browser_tracker_id).as_str());
            p.append("%26placeId%3D");
            p.append(decimal(self.place_id).as_str());
            p.append("%26accessCode%3D");
            p.append(self.access_code.as_str());
            p.append("%26linkCode%3D");
            p.append(self.link_code.as_str());
            p
        } else {
            let mut p = String::from_str(
                "https%3A%2F%2Fassetgame.roblox.com%2Fgame%2FPlaceLauncher.ashx%3Frequest%3DRequestGameJob%26browserTrackerId%3D",
            );
            p.append(decimal(self.browser_tracker_id).as_str());
            p.append("%26placeId%3D");
            p.append(decimal(self.place_id).as_str());
            p.append("%26gameId%3D");
            p.append(self.job_id.as_str());
            p.append("%26isPlayTogetherGame%3D");
            p.append(self.is_play_together.as_str());
            p
        };
        assert(place@ =~= encoded_place_launcher_url(self@));
        let mut url = String::from_str("roblox-player:1+launchmode:");
        url.append(self.launch_mode.as_str());
        url.append("+gameinfo:");
        url.append(self.game_info.as_str());
        url.append("+launchtime:");
        url.append(decimal(self.launch_time).as_str());
        url.append("+placelauncherurl:");
        url.append(place.as_str());
        url.append("+browsertrackerid:");
        url.append(decimal(self.browser_tracker_id).as_str());
        url.append("+robloxLocale:");
        url.append(self.roblox_locale.as_str());
        url.append("+gameLocale:");
        url.append(self.game_locale.as_str());
        assert(url@ =~= launch_url_of(self@));
        url
    }
}

/// The Roblox client: the game joined, the launcher to start, and the session state.
pub struct Roblox {
    pub join_data: RobloxJoinData,
    pub path: String,
    pub server_hidden: bool,
    /// The `.ROBLOSECURITY` cookie that requests carry.
    pub roblosecurity: String,
    /// Whether the next game-info update is skipped.
    pub skip_update: bool,
}

/// The value of a [`Roblox`].
pub struct RobloxView {
    pub join_data: RobloxJoinDataView,
    pub path: Seq<char>,
    pub server_hidden: bool,
    /// The `.ROBLOSECURITY` cookie that requests carry.
    pub roblosecurity: Seq<char>,
    /// Whether the next game-info update is skipped.
    pub skip_update: bool,
}

impl View for Roblox {
    type V = RobloxView;

    open spec fn view(&self) -> RobloxView {
        RobloxView {
            join_data: self.join_data@,
            path: self.path@,
            server_hidden: self.server_hidden,
            roblosecurity: self.roblosecurity@,
            skip_update: self.skip_update,
        }
    }
}

impl Roblox {
    /// A client with no launcher path ("None"), the default join data, no
    /// cookie, and the first game-info update to be skipped.
    pub fn new() -> (res: Self)
        ensures
            res@ == (RobloxView {
                join_data: default_join_data(),
                path: "None"@,
                server_hidden: false,
                roblosecurity: Seq::empty(),
                skip_update: true,
            }),
    {
        Self {
            path: String::from_str("None"),
            join_data: RobloxJoinData::default(),
            server_hidden: false,
            roblosecurity: String::new(),
            skip_update: true,
        }
    }

    /// Launches the player directly, without the launcher; this does nothing yet.
    pub fn direct_launch() {
    }

    /// The join data.
    pub fn get_join_data(&self) -> (res: &RobloxJoinData)
        ensures
            res@ == self@.join_data,
    {
        proof {
            assert(self@.join_data == self.join_data@);
        }
        &self.join_data
    }

    /// The client with the given join data, the rest unchanged.
    pub fn with_join_data(self, gd: RobloxJoinData) -> (res: Self)
        ensures
            res@ == (RobloxView { join_data: gd@, ..self@ }),
    {
        let mut s = self;
        s.join_data = gd;
        s
    }

    /// The client with a custom launcher path, the rest unchanged.
    pub fn with_path(self, path: String) -> (res: Self)
        ensures
            res@ == (RobloxView { path: path@, ..self@ }),
    {
        let mut s = self;
        s.path = path;
        s
    }

    /// The client with the given `.ROBLOSECURITY` cookie, the rest unchanged.
    pub fn with_roblosecurity(self, roblosecurity: String) -> (res: Self)
        ensures
            res@ == (RobloxView { roblosecurity: roblosecurity@, ..self@ }),
    {
        let mut s = self;
        s.roblosecurity = roblosecurity;
        s
    }

    /// Whether the server the user is in is hidden (a private server, or a place
    /// of a universe other than its root).
    pub fn is_server_hidden(&self) -> (res: bool)
        ensures
            res == self@.server_hidden,
    {
        self.server_hidden
    }

    /// The `Cookie` header that authenticates requests with the client's cookie.
    pub fn cookie_header(&self) -> (res: String)
        ensures
            res@ == ".ROBLOSECURITY="@ + self@.roblosecurity + ";path=/;domain=.roblox.com;"@,
    {
        let mut s = String::from_str(".ROBLOSECURITY=");
        s.append(self.roblosecurity.as_str());
        s.append(";path=/;domain=.roblox.com;");
        s
    }

    /// The place-launcher request that asks where the user is playing.
    pub fn follow_user_url(&self) -> (res: String)
        ensures
            res@ == "https://assetgame.roblox.com/game/PlaceLauncher.ashx?request=RequestFollowUser&browserTrackerId=0&userId="@
                + decimal_of(self@.join_data.user_id as nat),
    {
        let mut s = String::from_str(
            "https://assetgame.roblox.com/game/PlaceLauncher.ashx?request=RequestFollowUser&browserTrackerId=0&userId=",
        );
        s.append(decimal(self.join_data.user_id).as_str());
        s
    }

    /// The product information request for the current place.
    pub fn product_info_url(&self) -> (res: String)
        ensures
            res@ == "https://api.roblox.com/Marketplace/ProductInfo?assetId="@ + decimal_of(
                self@.join_data.place_id as nat,
            ),
    {
        let mut s = String::from_str("https://api.roblox.com/Marketplace/ProductInfo?assetId=");
        s.append(decimal(self.join_data.place_id).as_str());
        s
    }

    /// The request for the current place's instance list, which counts its servers.
    pub fn server_count_url(&self) -> (res: String)
        ensures
            res@ == "https://www.roblox.com/games/getgameinstancesjson?placeId="@ + decimal_of(
                self@.join_data.place_id as nat,
            ) + "&startIndex=0"@,
    {
        let mut s = String::from_str("https://www.roblox.com/games/getgameinstancesjson?placeId=");
        s.append(decimal(self.join_data.place_id).as_str());
        s.append("&startIndex=0");
        s
    }

    /// The current place's web page (the referer of the instance-list request).
    pub fn game_page_url(&self) -> (res: String)
        ensures
            res@ == "https://www.roblox.com/games/"@ + decimal_of(self@.join_data.place_id as nat),
    {
        let mut s = String::from_str("https://www.roblox.com/games/");
        s.append(decimal(self.join_data.place_id).as_str());
        s
    }

    /// The request for the page at `cursor` of the current place's public servers.
    pub fn server_page_url(&self, cursor: &str) -> (res: String)
        ensures
            res@ == "https://games.roblox.com/v1/games/"@ + decimal_of(self@.join_data.place_id as nat)
                + "/servers/Public?sortOrder=Asc&limit=100&cursor="@ + cursor@,
    {
        let mut s = String::from_str("https://games.roblox.com/v1/games/");
        s.append(decimal(self.join_data.place_id).as_str());
        s.append("/servers/Public?sortOrder=Asc&limit=100&cursor=");
        s.append(cursor);
        s
    }

    /// Whether this game-info update is the first one, which is skipped (the
    /// web API does not know the game yet); it is skipped only once.
    pub fn skip_first_update(&mut self) -> (skipped: bool)
        ensures
            skipped == old(self)@.skip_update,
            final(self)@ == (RobloxView { skip_update: false, ..old(self)@ }),
    {
        let skipped = self.skip_update;
        self.skip_update = false;
        skipped
    }

    /// Takes in where the followed user plays (see [`follow_update_spec`]); on
    /// an error the client is left unchanged.
    pub fn apply_follow_response(&mut self, resp: &RequestGameReponse) -> (res: Result<FollowUpdate, ReplyError>)
        ensures
            match follow_update_spec(old(self)@, resp@) {
                Ok((v, u)) => res == Ok::<FollowUpdate, ReplyError>(u) && final(self)@ == v,
                Err(e) => (res matches Err(err) && err@ == e) && final(self)@ == old(self)@,
            },
    {
        let job = match &resp.job_id {
            Some(j) => j,
            None => return Ok(FollowUpdate::NotInGame),
        };
        if resp.status == 0 || resp.status == 12 {
            let rest = match slice_from_byte(job.as_str(), 9) {
                Some(r) => r,
                None => return Err(ReplyError::MalformedJobId),
            };
            let parts = split_char(rest.as_str(), ';');
            proof {
                lemma_split_on_len(rest@, ';');
                assert(parts.deep_view()[0] == parts@[0]@);
            }
            let place_id = match parse_u64(parts[0].as_str()) {
                Some(p) => p,
                None => return Err(ReplyError::InvalidPlaceId),
            };
            if resp.status == 12 && parts.len() < 2 {
                return Err(ReplyError::MissingServerId);
            }
            let new_job = if resp.status == 0 {
                String::new()
            } else {
                assert(parts.deep_view()[1] == parts@[1]@);
                parts[1].clone()
            };
            let changed = self.join_data.place_id != place_id;
            self.join_data.place_id = place_id;
            self.join_data.job_id = new_job;
            self.server_hidden = true;
            Ok(FollowUpdate::Updated { place_changed: changed })
        } else {
            let url = match &resp.join_script_url {
                Some(u) => u,
                None => return Err(ReplyError::MissingJoinScriptUrl),
            };
            let ticket = match ticket_of(url.as_str()) {
                Ok(t) => t,
                Err(e) => return Err(e),
            };
            let member = match ticket_member(ticket.as_str(), "PlaceId") {
                Ok(m) => m,
                Err(e) => return Err(e),
            };
            match member {
                JsonMember::Number(Some(place_id)) => {
                    let changed = self.join_data.place_id != place_id;
                    self.join_data.job_id = job.clone();
                    self.join_data.place_id = place_id;
                    self.server_hidden = false;
                    Ok(FollowUpdate::Updated { place_changed: changed })
                },
                JsonMember::Number(None) => Err(ReplyError::PlaceIdOutOfRange),
                _ => {
                    self.join_data.job_id = job.clone();
                    Ok(FollowUpdate::NotInGame)
                },
            }
        }
    }

    /// Takes in the current place's product information: its name becomes the
    /// place name (see [`place_name_spec`]); on an error nothing changes.
    pub fn apply_product_info(&mut self, body: &str) -> (res: Result<(), ReplyError>)
        ensures
            match place_name_spec(body@) {
                Ok(name) => res is Ok && final(self)@ == (RobloxView {
                    join_data: RobloxJoinDataView { place_name: name, ..old(self)@.join_data },
                    ..old(self)@
                }),
                Err(e) => (res matches Err(err) && err@ == e) && final(self)@ == old(self)@,
            },
    {
        match place_name_of(body) {
            Ok(name) => {
                self.join_data.place_name = name;
                Ok(())
            },
            Err(e) => Err(e),
        }
    }

    /// Which request completes the join data.
    pub fn additional_info_request(&self) -> (res: AdditionalInfoRequest)
        ensures
            res == additional_info_request_spec(self@.join_data.request),
    {
        let r = self.join_data.request.as_str();
        if same_text(r, "RequestGame") || same_text(r, "RequestGameJob") || same_text(r, "RequestPrivateGame") {
            AdditionalInfoRequest::ReserveServer
        } else if same_text(r, "RequestFollowUser") {
            AdditionalInfoRequest::FollowUser
        } else {
            AdditionalInfoRequest::Nothing
        }
    }

    /// Takes in the answer to a game, game-job or private-game request (see
    /// [`reserved_server_spec`]); on an error, or while waiting, nothing changes.
    pub fn apply_reserved_server(&mut self, resp: &RequestGameReponse) -> (res: Result<ServerWait, ReplyError>)
        ensures
            match reserved_server_spec(old(self)@, resp@) {
                Ok((v, w)) => res == Ok::<ServerWait, ReplyError>(w) && final(self)@ == v,
                Err(e) => (res matches Err(err) && err@ == e) && final(self)@ == old(self)@,
            },
    {
        let job = match &resp.job_id {
            Some(j) => j,
            None => return Err(ReplyError::MissingJobId),
        };
        proof {
            reveal_strlit("Join");
        }
        if starts_with(job.as_str(), "Join") {
            return Ok(ServerWait::WaitForServer);
        }
        let url = match &resp.join_script_url {
            Some(u) => u,
            None => return Err(ReplyError::MissingJoinScriptUrl),
        };
        let ticket = match ticket_of(url.as_str()) {
            Ok(t) => t,
            Err(e) => return Err(e),
        };
        let name = match ticket_member(ticket.as_str(), "UserName") {
            Ok(m) => m,
            Err(e) => return Err(e),
        };
        let id = match ticket_member(ticket.as_str(), "UserId") {
            Ok(m) => m,
            Err(e) => return Err(e),
        };
        let user_id = match number_of(&id, ReplyError::UserIdOutOfRange) {
            Ok(n) => n,
            Err(e) => return Err(e),
        };
        self.join_data.username = user_name_of(name);
        self.join_data.user_id = user_id;
        self.join_data.job_id = job.clone();
        Ok(ServerWait::Found)
    }

    /// Takes in the answer to a follow-user request (see
    /// [`followed_user_spec`]); on an error nothing changes.
    pub fn apply_followed_user(&mut self, resp: &RequestGameReponse) -> (res: Result<(), ReplyError>)
        ensures
            match followed_user_spec(old(self)@, resp@) {
                Ok(v) => res is Ok && final(self)@ == v,
                Err(e) => (res matches Err(err) && err@ == e) && final(self)@ == old(self)@,
            },
    {
        let job = match &resp.job_id {
            Some(j) => j,
            None => {
                if resp.status == 10 {
                    return Err(ReplyError::UserLeftGame);
                } else if resp.status == 12 {
                    return Err(ReplyError::NotAuthorized);
                } else {
                    let message = match &resp.message {
                        Some(m) => m.clone(),
                        None => String::from_str("Unknown error occurred"),
                    };
                    return Err(ReplyError::JoinRefused(message));
                }
            },
        };
        let url = match &resp.join_script_url {
            Some(u) => u,
            None => return Err(ReplyError::MissingJoinScriptUrl),
        };
        let ticket = match ticket_of(url.as_str()) {
            Ok(t) => t,
            Err(e) => return Err(e),
        };
        let name = match ticket_member(ticket.as_str(), "UserName") {
            Ok(m) => m,
            Err(e) => return Err(e),
        };
        let id = match ticket_member(ticket.as_str(), "UserId") {
            Ok(m) => m,
            Err(e) => return Err(e),
        };
        let place = match ticket_member(ticket.as_str(), "PlaceId") {
            Ok(m) => m,
            Err(e) => return Err(e),
        };
        let user_id = match number_of(&id, ReplyError::UserIdOutOfRange) {
            Ok(n) => n,
            Err(e) => return Err(e),
        };
        let place_id = match number_of(&place, ReplyError::PlaceIdOutOfRange) {
            Ok(n) => n,
            Err(e) => return Err(e),
        };
        self.join_data.job_id = job.clone();
        self.join_data.username = user_name_of(name);
        self.join_data.user_id = user_id;
        self.join_data.place_id = place_id;
        Ok(())
    }
}

/// What the answer about the followed user's game changed.
#[derive(Debug, Clone, Copy, PartialEq, Eq)]
pub enum FollowUpdate {
    /// The user is not in a game the client can follow.
    NotInGame,
    /// The game was updated; `place_changed` tells whether the place name must
    /// be fetched again.
    Updated { place_changed: bool },
}

/// Where the followed user plays. Without a job id the user is in no game.
/// For status 0 (a place of a universe other than its root) and 12 (a private
/// server), the place id is the text from byte 9 of the job id up to the first
/// `;`, the server is hidden, and the job id becomes empty (status 0) or the
/// text after that `;` (status 12). For any other status the job id is kept,
/// and the place id is read from the `PlaceId` of the ticket that the join
/// script URL carries: where it is not a number the user is in no game, and
/// the server is shown.
pub open spec fn follow_update_spec(r: RobloxView, resp: RequestGameReponseView) -> Result<(RobloxView, FollowUpdate), ReplyErrorView> {
    match resp.job_id {
        None => Ok((r, FollowUpdate::NotInGame)),
        Some(job) => if resp.status == 0 || resp.status == 12 {
            match byte_suffix(job, 9) {
                None => Err(ReplyErrorView::MalformedJobId),
                Some(rest) => {
                    let parts = split_on(rest, ';');
                    match parse_u64_spec(parts[0]) {
                        None => Err(ReplyErrorView::InvalidPlaceId),
                        Some(place_id) => if resp.status == 12 && parts.len() < 2 {
                            Err(ReplyErrorView::MissingServerId)
                        } else {
                            let job_id = if resp.status == 0 {
                                Seq::empty()
                            } else {
                                parts[1]
                            };
                            Ok(
                                (
                                    RobloxView {
                                        join_data: RobloxJoinDataView {
                                            place_id,
                                            job_id,
                                            ..r.join_data
                                        },
                                        server_hidden: true,
                                        ..r
                                    },
                                    FollowUpdate::Updated {
                                        place_changed: r.join_data.place_id != place_id,
                                    },
                                ),
                            )
                        },
                    }
                },
            }
        } else {
            let moved = RobloxView {
                join_data: RobloxJoinDataView { job_id: job, ..r.join_data },
                ..r
            };
            match resp.join_script_url {
                None => Err(ReplyErrorView::MissingJoinScriptUrl),
                Some(url) => match ticket_spec(url) {
                    Err(e) => Err(e),
                    Ok(ticket) => match json_member_of(ticket, "PlaceId"@) {
                        None => Err(ReplyErrorView::InvalidTicket),
                        Some(JsonMemberView::Number(Some(place_id))) => Ok(
                            (
                                RobloxView {
                                    join_data: RobloxJoinDataView { place_id, ..moved.join_data },
                                    server_hidden: false,
                                    ..moved
                                },
                                FollowUpdate::Updated {
                                    place_changed: r.join_data.place_id != place_id,
                                },
                            ),
                        ),
                        Some(JsonMemberView::Number(None)) => Err(ReplyErrorView::PlaceIdOutOfRange),
                        Some(_) => Ok((moved, FollowUpdate::NotInGame)),
                    },
                },
            }
        },
    }
}

/// The request that completes the join data.
#[derive(Debug, Clone, Copy, PartialEq, Eq)]
pub enum AdditionalInfoRequest {
    /// Ask the place launcher for a server, until one is ready.
    ReserveServer,
    /// Ask the place launcher where the followed user plays.
    FollowUser,
    /// Nothing to ask.
    Nothing,
}

/// The request that completes the join data of a launch with `request`.
pub open spec fn additional_info_request_spec(request: Seq<char>) -> AdditionalInfoRequest {
    if request == "RequestGame"@ || request == "RequestGameJob"@ || request == "RequestPrivateGame"@ {
        AdditionalInfoRequest::ReserveServer
    } else if request == "RequestFollowUser"@ {
        AdditionalInfoRequest::FollowUser
    } else {
        AdditionalInfoRequest::Nothing
    }
}

/// Whether the requested server is ready.
#[derive(Debug, Clone, Copy, PartialEq, Eq)]
pub enum ServerWait {
    /// The server is ready and the join data complete.
    Found,
    /// The server is being prepared: ask again.
    WaitForServer,
}

/// The answer to a game request taken in. A job id is needed; one that begins
/// with `Join` means the server is not ready yet. Otherwise the ticket of the
/// join script URL gives the user name (`UserName`, else "Player") and the
/// user id (`UserId`, else 0), and the job id is kept.
pub open spec fn reserved_server_spec(r: RobloxView, resp: RequestGameReponseView) -> Result<(RobloxView, ServerWait), ReplyErrorView> {
    match resp.job_id {
        None => Err(ReplyErrorView::MissingJobId),
        Some(job) => if has_prefix(job, "Join"@) {
            Ok((r, ServerWait::WaitForServer))
        } else {
            match resp.join_script_url {
                None => Err(ReplyErrorView::MissingJoinScriptUrl),
                Some(url) => match ticket_spec(url) {
                    Err(e) => Err(e),
                    Ok(ticket) => match (json_member_of(ticket, "UserName"@), json_member_of(ticket, "UserId"@)) {
                        (Some(name), Some(id)) => match ticket_number(id, ReplyErrorView::UserIdOutOfRange) {
                            Err(e) => Err(e),
                            Ok(user_id) => Ok(
                                (
                                    RobloxView {
                                        join_data: RobloxJoinDataView {
                                            username: ticket_user_name(name),
                                            user_id,
                                            job_id: job,
                                            ..r.join_data
                                        },
                                        ..r
                                    },
                                    ServerWait::Found,
                                ),
                            ),
                        },
                        _ => Err(ReplyErrorView::InvalidTicket),
                    },
                },
            }
        },
    }
}

/// The answer to a follow-user request taken in. Without a job id the join is
/// refused: status 10, the user left the game; 12, not authorized; otherwise
/// with the answer's message ("Unknown error occurred" if none). With one, the
/// job id is kept and the ticket of the join script URL gives the user name
/// (else "Player"), the user id (else 0) and the place id (else 0).
pub open spec fn followed_user_spec(r: RobloxView, resp: RequestGameReponseView) -> Result<RobloxView, ReplyErrorView> {
    match resp.job_id {
        None => Err(
            if resp.status == 10 {
                ReplyErrorView::UserLeftGame
            } else if resp.status == 12 {
                ReplyErrorView::NotAuthorized
            } else {
                ReplyErrorView::JoinRefused(given_or(resp.message, "Unknown error occurred"@))
            },
        ),
        Some(job) => match resp.join_script_url {
            None => Err(ReplyErrorView::MissingJoinScriptUrl),
            Some(url) => match ticket_spec(url) {
                Err(e) => Err(e),
                Ok(ticket) => match (
                    json_member_of(ticket, "UserName"@),
                    json_member_of(ticket, "UserId"@),
                    json_member_of(ticket, "PlaceId"@),
                ) {
                    (Some(name), Some(id), Some(place)) => match ticket_number(id, ReplyErrorView::UserIdOutOfRange) {
                        Err(e) => Err(e),
                        Ok(user_id) => match ticket_number(place, ReplyErrorView::PlaceIdOutOfRange) {
                            Err(e) => Err(e),
                            Ok(place_id) => Ok(
                                RobloxView {
                                    join_data: RobloxJoinDataView {
                                        job_id: job,
                                        username: ticket_user_name(name),
                                        user_id,
                                        place_id,
                                        ..r.join_data
                                    },
                                    ..r
                                },
                            ),
                        },
                    },
                    _ => Err(ReplyErrorView::InvalidTicket),
                },
            },
        },
    }
}

/// A follow reply for a public server (a job id, a status other than 0 or 12)
/// whose ticket holds the place id `n` moves the client to place `n` on that
/// job, with the server shown; the place counts as changed exactly when the
/// client was on another place; nothing else of the client changes.
pub proof fn law_follow_reply_moves_to_ticket_place(
    r: RobloxView,
    resp: RequestGameReponseView,
    ticket: Seq<char>,
    n: u64,
)
    requires
        resp.job_id is Some,
        resp.status != 0,
        resp.status != 12,
        resp.join_script_url is Some,
        ticket_spec(resp.join_script_url->0) == Ok::<Seq<char>, ReplyErrorView>(ticket),
        json_member_of(ticket, "PlaceId"@) == Some(JsonMemberView::Number(Some(n))),
    ensures
        follow_update_spec(r, resp) matches Ok((v, u)) && {
            &&& v.join_data.place_id == n
            &&& v.join_data.job_id == resp.job_id->0
            &&& !v.server_hidden
            &&& u == (FollowUpdate::Updated { place_changed: r.join_data.place_id != n })
            &&& v.path == r.path
            &&& v.roblosecurity == r.roblosecurity
            &&& v.skip_update == r.skip_update
            &&& v.join_data == (RobloxJoinDataView { place_id: n, job_id: resp.job_id->0, ..r.join_data })
        },
{
}

/// Whatever the follow reply, an update reports the place as changed exactly
/// when the client's place id afterwards differs from the one before.
pub proof fn law_follow_update_reports_place_change(r: RobloxView, resp: RequestGameReponseView)
    ensures
        follow_update_spec(r, resp) matches Ok((v, FollowUpdate::Updated { place_changed })) ==> place_changed
            == (r.join_data.place_id != v.join_data.place_id),
{
}

} // verus!
