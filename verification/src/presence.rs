//! What the Discord rich presence shows, and the join secret that lets friends
//! join the same server.
use vstd::prelude::*;
use vstd::utf8::{decode_utf8, encode_utf8, encode_utf8_decode_utf8, encode_utf8_valid_utf8, valid_utf8};
use vstd::string::StringSliceAdditionalSpecFns;
use crate::codecs::{base64_decode, base64_decoded, base64_encode, base64_encoding, string_from_utf8};
use crate::models::{DiscordEventHandler, PresenceConfig};
use crate::roblox::{Roblox, RobloxJoinData};
use crate::session::RobloxServerData;
use crate::text::{decimal, decimal_of, same_text};

verus! {

/// The party of a presence: the server, its size, and the secret to join it.
#[derive(Debug, Clone)]
pub struct PresenceParty {
    pub id: String,
    pub size: u32,
    pub max: u32,
    pub join_secret: String,
}

/// A rich presence to show on Discord (its start time is the session's).
#[derive(Debug, Clone)]
pub struct Presence {
    pub state: String,
    pub details: String,
    pub large_image_key: String,
    pub large_image_text: String,
    pub small_image_key: String,
    pub small_image_text: String,
    pub party: Option<PresenceParty>,
}

/// The value of a [`PresenceParty`].
pub struct PresencePartyView {
    pub id: Seq<char>,
    pub size: u32,
    pub max: u32,
    pub join_secret: Seq<char>,
}

/// The value of a [`Presence`].
pub struct PresenceView {
    pub state: Seq<char>,
    pub details: Seq<char>,
    pub large_image_key: Seq<char>,
    pub large_image_text: Seq<char>,
    pub small_image_key: Seq<char>,
    pub small_image_text: Seq<char>,
    pub party: Option<PresencePartyView>,
}

impl View for PresenceParty {
    type V = PresencePartyView;

    open spec fn view(&self) -> PresencePartyView {
        PresencePartyView {
            id: self.id@,
            size: self.size,
            max: self.max,
            join_secret: self.join_secret@,
        }
    }
}

impl View for Presence {
    type V = PresenceView;

    open spec fn view(&self) -> PresenceView {
        PresenceView {
            state: self.state@,
            details: self.details@,
            large_image_key: self.large_image_key@,
            large_image_text: self.large_image_text@,
            small_image_key: self.small_image_key@,
            small_image_text: self.small_image_text@,
            party: match self.party {
                Some(p) => Some(p@),
                None => None,
            },
        }
    }
}

/// The JSON text of a join secret.
pub open spec fn join_secret_text_spec(place_id: u64, job_id: Seq<char>) -> Seq<char> {
    "{\"place_id\": "@ + decimal_of(place_id as nat) + ", \"job_id\": \""@ + job_id + "\"}"@
}

/// The join secret: the JSON text naming the place and the job, in base64.
pub open spec fn join_secret_spec(place_id: u64, job_id: Seq<char>) -> Seq<char> {
    base64_encoding(encode_utf8(join_secret_text_spec(place_id, job_id)))
}

/// The JSON text of a join secret.
pub fn join_secret_text(place_id: u64, job_id: &str) -> (res: String)
    ensures
        res@ == join_secret_text_spec(place_id, job_id@),
{
    let mut s = String::from_str("{\"place_id\": ");
    s.append(decimal(place_id).as_str());
    s.append(", \"job_id\": \"");
    s.append(job_id);
    s.append("\"}");
    s
}

/// The secret that lets friends join the server `job_id` of the place `place_id`.
pub fn join_secret(place_id: u64, job_id: &str) -> (res: String)
    ensures
        res@ == join_secret_spec(place_id, job_id@),
{
    let text = join_secret_text(place_id, job_id);
    base64_encode(text.as_str().as_bytes())
}

/// Why a join secret cannot be read.
#[derive(Debug, Clone, Copy, PartialEq, Eq)]
pub enum JoinSecretError {
    /// The secret is not standard base64.
    InvalidBase64,
    /// The bytes it stands for are not UTF-8.
    InvalidUtf8,
}

/// The text that a join secret stands for.
pub open spec fn decoded_join_secret_spec(secret: Seq<char>) -> Result<Seq<char>, JoinSecretError> {
    match base64_decoded(secret) {
        None => Err(JoinSecretError::InvalidBase64),
        Some(bytes) => if valid_utf8(bytes) {
            Ok(decode_utf8(bytes))
        } else {
            Err(JoinSecretError::InvalidUtf8)
        },
    }
}

impl DiscordEventHandler {
    /// The JSON text that the secret of a join request stands for. A secret
    /// made by [`join_secret`] reads back as the text it was made from.
    pub fn decode_join_secret(secret: &str) -> (res: Result<String, JoinSecretError>)
        ensures
            match res {
                Ok(text) => decoded_join_secret_spec(secret@) == Ok::<Seq<char>, JoinSecretError>(text@),
                Err(e) => decoded_join_secret_spec(secret@) == Err::<Seq<char>, JoinSecretError>(e),
            },
            forall|place_id: u64, job_id: Seq<char>|
                secret@ == #[trigger] join_secret_spec(place_id, job_id) ==> (res matches Ok(text) && text@
                    == join_secret_text_spec(place_id, job_id)),
    {
        match base64_decode(secret) {
            Ok(bytes) => {
                let ghost b = bytes@;
                match string_from_utf8(bytes) {
                    Ok(text) => {
                        proof {
                            assert forall|place_id: u64, job_id: Seq<char>|
                                secret@ == #[trigger] join_secret_spec(place_id, job_id) implies text@
                                    == join_secret_text_spec(place_id, job_id) by {
                                let t = join_secret_text_spec(place_id, job_id);
                                assert(base64_encoding(encode_utf8(t)) == secret@);
                                assert(b == encode_utf8(t));
                                encode_utf8_decode_utf8(t);
                            }
                        }
                        Ok(text)
                    },
                    Err(_) => {
                        proof {
                            assert forall|place_id: u64, job_id: Seq<char>|
                                secret@ != #[trigger] join_secret_spec(place_id, job_id) by {
                                let t = join_secret_text_spec(place_id, job_id);
                                if secret@ == join_secret_spec(place_id, job_id) {
                                    assert(base64_encoding(encode_utf8(t)) == secret@);
                                    assert(b == encode_utf8(t));
                                    encode_utf8_valid_utf8(t);
                                }
                            }
                        }
                        Err(JoinSecretError::InvalidUtf8)
                    },
                }
            },
            Err(_) => {
                proof {
                    assert forall|place_id: u64, job_id: Seq<char>|
                        secret@ != #[trigger] join_secret_spec(place_id, job_id) by {
                        let t = join_secret_text_spec(place_id, job_id);
                        if secret@ == join_secret_spec(place_id, job_id) {
                            assert(base64_encoding(encode_utf8(t)) == secret@);
                        }
                    }
                }
                Err(JoinSecretError::InvalidBase64)
            },
        }
    }
}

/// The large image's text: the username where it is to be shown.
pub open spec fn large_image_text_spec(config: PresenceConfig, username: Seq<char>) -> Seq<char> {
    if config.show_username {
        "Playing ROBLOX as "@ + username
    } else {
        "Playing ROBLOX"@
    }
}

/// The place shown: the place name where the game is to be shown, unless it is unknown.
pub open spec fn shown_place_spec(config: PresenceConfig, place_name: Seq<char>) -> Seq<char> {
    if config.show_game && place_name != "Unknown Game"@ {
        place_name
    } else {
        Seq::empty()
    }
}

/// The presence of a game: "In a game", the place shown as details and as the
/// small image's text, the logo with its text, and no party.
pub open spec fn game_presence_spec(config: PresenceConfig, d: crate::roblox::RobloxJoinDataView) -> PresenceView {
    PresenceView {
        state: "In a game"@,
        details: shown_place_spec(config, d.place_name),
        large_image_key: "logo"@,
        large_image_text: large_image_text_spec(config, d.username),
        small_image_key: "play_status"@,
        small_image_text: shown_place_spec(config, d.place_name),
        party: None,
    }
}

/// The presence of a game on a known server: the game's, with the server as
/// the party (its players, 1 if not given; its capacity) and its join secret.
pub open spec fn server_presence_spec(config: PresenceConfig, d: crate::roblox::RobloxJoinDataView, server: RobloxServerData) -> PresenceView {
    PresenceView {
        party: Some(
            PresencePartyView {
                id: d.job_id,
                size: match server.playing {
                    Some(n) => n,
                    None => 1,
                },
                max: server.max_players,
                join_secret: join_secret_spec(d.place_id, d.job_id),
            },
        ),
        ..game_presence_spec(config, d)
    }
}

/// The presence of a game.
pub fn game_presence(config: &PresenceConfig, d: &RobloxJoinData) -> (res: Presence)
    ensures
        res@ == game_presence_spec(*config, d@),
{
    let large_image_text = if config.show_username {
        let mut t = String::from_str("Playing ROBLOX as ");
        t.append(d.username.as_str());
        t
    } else {
        String::from_str("Playing ROBLOX")
    };
    let place = if config.show_game && !same_text(d.place_name.as_str(), "Unknown Game") {
        d.place_name.clone()
    } else {
        String::new()
    };
    Presence {
        state: String::from_str("In a game"),
        details: place.clone(),
        large_image_key: String::from_str("logo"),
        large_image_text,
        small_image_key: String::from_str("play_status"),
        small_image_text: place,
        party: None,
    }
}

/// What to do with the presence after a game-info update.
#[derive(Debug, Clone)]
pub enum PresencePlan {
    /// The presence is not to be shown: clear it.
    Clear,
    /// Show this presence.
    Show(Presence),
    /// The server may be found: search the server list, then call [`presence_with_server`].
    FindServer,
}

/// The plan: clear where the presence is hidden; the game's presence where the
/// update failed or the server is hidden; otherwise find the server.
pub open spec fn presence_plan_spec(config: PresenceConfig, server_hidden: bool, d: crate::roblox::RobloxJoinDataView, updated: bool) -> Option<Option<PresenceView>> {
    if !config.show_presence {
        None
    } else if !updated || server_hidden {
        Some(Some(game_presence_spec(config, d)))
    } else {
        Some(None)
    }
}

/// What to do with the presence, given the settings, the client after its
/// game-info update, and whether that update succeeded.
pub fn presence_plan(config: &PresenceConfig, rblx: &Roblox, updated: bool) -> (res: PresencePlan)
    ensures
        match res {
            PresencePlan::Clear => presence_plan_spec(*config, rblx@.server_hidden, rblx@.join_data, updated) is None,
            PresencePlan::Show(p) => presence_plan_spec(*config, rblx@.server_hidden, rblx@.join_data, updated) == Some(Some(p@)),
            PresencePlan::FindServer => presence_plan_spec(*config, rblx@.server_hidden, rblx@.join_data, updated) == Some(None::<PresenceView>),
        },
{
    if !config.show_presence {
        PresencePlan::Clear
    } else if !updated || rblx.is_server_hidden() {
        PresencePlan::Show(game_presence(config, rblx.get_join_data()))
    } else {
        PresencePlan::FindServer
    }
}

/// The presence once the server list was searched: with the server as the
/// party where it was found, the game's presence otherwise.
pub fn presence_with_server(config: &PresenceConfig, d: &RobloxJoinData, server: Option<&RobloxServerData>) -> (res: Presence)
    ensures
        res@ == match server {
            Some(s) => server_presence_spec(*config, d@, *s),
            None => game_presence_spec(*config, d@),
        },
{
    let mut p = game_presence(config, d);
    match server {
        Some(s) => {
            p.party = Some(
                PresenceParty {
                    id: d.job_id.clone(),
                    size: match s.playing {
                        Some(n) => n,
                        None => 1,
                    },
                    max: s.max_players,
                    join_secret: join_secret(d.place_id, d.job_id.as_str()),
                },
            );
        },
        None => {},
    }
    p
}

/// The party of a server's presence has as many members as the server reports
/// players (1 where it reports none), the server's capacity as its maximum,
/// and the job id as its id; the rest is the game's presence.
pub proof fn law_server_party_counts_players(config: PresenceConfig, d: crate::roblox::RobloxJoinDataView, server: RobloxServerData)
    ensures
        server_presence_spec(config, d, server).party matches Some(p) && {
            &&& p.max == server.max_players
            &&& p.id == d.job_id
            &&& (server.playing matches Some(n) ==> p.size == n)
            &&& (server.playing is None ==> p.size == 1)
        },
        server_presence_spec(config, d, server).state == game_presence_spec(config, d).state,
        server_presence_spec(config, d, server).details == game_presence_spec(config, d).details,
{
}

/// The presence is cleared exactly when it is turned off in the settings,
/// whatever the update gave and whether the server is hidden; while it is on,
/// a failed update or a hidden server shows the game without a party.
pub proof fn law_presence_off_means_cleared(
    config: PresenceConfig,
    server_hidden: bool,
    d: crate::roblox::RobloxJoinDataView,
    updated: bool,
)
    ensures
        !config.show_presence ==> presence_plan_spec(config, server_hidden, d, updated) is None,
        config.show_presence ==> presence_plan_spec(config, server_hidden, d, updated) is Some,
        config.show_presence && (!updated || server_hidden) ==> (presence_plan_spec(config, server_hidden, d, updated)
            matches Some(Some(p)) && p.party is None),
        config.show_presence && updated && !server_hidden ==> presence_plan_spec(config, server_hidden, d, updated)
            == Some(None::<PresenceView>),
{
}

} // verus!
