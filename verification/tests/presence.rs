use rblx_rich_presence::models::{DiscordEventHandler, PresenceConfig};
use rblx_rich_presence::presence::{
    game_presence, join_secret, join_secret_text, presence_plan, presence_with_server,
    JoinSecretError, PresencePlan,
};
use rblx_rich_presence::roblox::{Roblox, RobloxJoinData};
use rblx_rich_presence::session::RobloxServerData;

fn data() -> RobloxJoinData {
    let mut d = RobloxJoinData::default();
    d.username = "bob".to_string();
    d.place_name = "Natural Disaster Survival".to_string();
    d.place_id = 1818;
    d.job_id = "abc-123".to_string();
    d
}

#[test]
fn join_secret_text_and_base64() {
    assert_eq!(join_secret_text(1818, "abc-123"), "{\"place_id\": 1818, \"job_id\": \"abc-123\"}");
    assert_eq!(join_secret(1818, "abc-123"), "eyJwbGFjZV9pZCI6IDE4MTgsICJqb2JfaWQiOiAiYWJjLTEyMyJ9");
}

#[test]
fn join_secret_decodes_back() {
    let secret = join_secret(1818, "abc-123");
    assert_eq!(
        DiscordEventHandler::decode_join_secret(&secret),
        Ok("{\"place_id\": 1818, \"job_id\": \"abc-123\"}".to_string())
    );
    assert_eq!(DiscordEventHandler::decode_join_secret("***"), Err(JoinSecretError::InvalidBase64));
    assert_eq!(DiscordEventHandler::decode_join_secret("/w=="), Err(JoinSecretError::InvalidUtf8));
}

#[test]
fn game_presence_hides_what_is_off() {
    let mut c = PresenceConfig::default();
    let p = game_presence(&c, &data());
    assert_eq!(p.state, "In a game");
    assert_eq!(p.details, "Natural Disaster Survival");
    assert_eq!(p.large_image_key, "logo");
    assert_eq!(p.large_image_text, "Playing ROBLOX");
    assert_eq!(p.small_image_key, "play_status");
    assert_eq!(p.small_image_text, "Natural Disaster Survival");
    assert!(p.party.is_none());
    c.show_username = true;
    c.show_game = false;
    let q = game_presence(&c, &data());
    assert_eq!(q.large_image_text, "Playing ROBLOX as bob");
    assert_eq!(q.details, "");
    let mut unknown = data();
    unknown.place_name = "Unknown Game".to_string();
    assert_eq!(game_presence(&PresenceConfig::default(), &unknown).details, "");
}

#[test]
fn presence_plans() {
    let mut c = PresenceConfig::default();
    let r = Roblox::new().with_join_data(data());
    assert!(matches!(presence_plan(&c, &r, true), PresencePlan::FindServer));
    assert!(matches!(presence_plan(&c, &r, false), PresencePlan::Show(_)));
    let mut hidden = Roblox::new().with_join_data(data());
    hidden.server_hidden = true;
    assert!(matches!(presence_plan(&c, &hidden, true), PresencePlan::Show(_)));
    c.show_presence = false;
    assert!(matches!(presence_plan(&c, &r, true), PresencePlan::Clear));
}

#[test]
fn presence_with_found_server_has_party() {
    let c = PresenceConfig::default();
    let s = RobloxServerData { id: "abc-123".to_string(), max_players: 20, playing: None, ping: Some(40) };
    let p = presence_with_server(&c, &data(), Some(&s));
    let party = p.party.unwrap();
    assert_eq!(party.id, "abc-123");
    assert_eq!(party.size, 1);
    assert_eq!(party.max, 20);
    assert_eq!(party.join_secret, join_secret(1818, "abc-123"));
    assert!(presence_with_server(&c, &data(), None).party.is_none());
}
