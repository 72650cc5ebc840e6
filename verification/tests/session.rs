use rblx_rich_presence::codecs::JsonMember;
use rblx_rich_presence::roblox::{AdditionalInfoRequest, FollowUpdate, Roblox, RobloxJoinData, ServerWait};
use rblx_rich_presence::session::{
    cookie_of_set_cookie, find_server, is_latest_tag, launcher_after_update, launcher_command,
    place_name_of, protocol_command, server_count, ticket_member, ticket_of, ReplyError,
    RequestGameReponse, RobloxServerData, RobloxServerListData, RobloxWatch, SearchStep,
    ServerSearch, TicketSession, TicketStep, WatchAction, ConfigWatch, is_latest_release,
    player_version, VersionError,
};

const JOIN_SCRIPT: &str = "https://assetgame.roblox.com/Game/Join.ashx?ticket=%7B%22PlaceId%22%3A1818%2C%22UserName%22%3A%22bob%22%2C%22UserId%22%3A42%7D";

fn reply(job_id: Option<&str>, join_script_url: Option<&str>, status: u8, message: Option<&str>) -> RequestGameReponse {
    RequestGameReponse {
        job_id: job_id.map(|s| s.to_string()),
        join_script_url: join_script_url.map(|s| s.to_string()),
        status,
        message: message.map(|s| s.to_string()),
    }
}

fn client_at(place_id: u64) -> Roblox {
    let mut d = RobloxJoinData::default();
    d.place_id = place_id;
    Roblox::new().with_join_data(d)
}

fn server(id: &str, playing: Option<u32>) -> RobloxServerData {
    RobloxServerData { id: id.to_string(), max_players: 10, playing, ping: None }
}

#[test]
fn ticket_is_read_from_join_script() {
    let t = ticket_of(JOIN_SCRIPT).unwrap();
    assert_eq!(t, "{\"PlaceId\":1818,\"UserName\":\"bob\",\"UserId\":42}");
    assert_eq!(ticket_member(&t, "UserId").unwrap(), JsonMember::Number(Some(42)));
    assert_eq!(ticket_member(&t, "UserName").unwrap(), JsonMember::Text("bob".to_string()));
    assert_eq!(ticket_member(&t, "Missing").unwrap(), JsonMember::Other);
    assert_eq!(ticket_member("{", "x").err(), Some(ReplyError::InvalidTicket));
    assert_eq!(ticket_of("not a url").err(), Some(ReplyError::InvalidJoinScriptUrl));
    assert_eq!(ticket_of("https://x/?a=b").err(), Some(ReplyError::MissingTicket));
}

#[test]
fn first_update_is_skipped_once() {
    let mut r = Roblox::new();
    assert!(r.skip_first_update());
    assert!(!r.skip_first_update());
}

#[test]
fn follow_without_job_is_not_in_game() {
    let mut r = client_at(5);
    assert_eq!(r.apply_follow_response(&reply(None, None, 2, None)), Ok(FollowUpdate::NotInGame));
    assert_eq!(r.get_join_data().place_id, 5);
}

#[test]
fn follow_status_zero_hides_server() {
    let mut r = client_at(5);
    let u = r.apply_follow_response(&reply(Some("Followed:1818;server"), None, 0, None));
    assert_eq!(u, Ok(FollowUpdate::Updated { place_changed: true }));
    assert_eq!(r.get_join_data().place_id, 1818);
    assert_eq!(r.get_join_data().job_id, "");
    assert!(r.is_server_hidden());
}

#[test]
fn follow_status_twelve_keeps_server_part() {
    let mut r = client_at(1818);
    let u = r.apply_follow_response(&reply(Some("Followed:1818;server-9"), None, 12, None));
    assert_eq!(u, Ok(FollowUpdate::Updated { place_changed: false }));
    assert_eq!(r.get_join_data().job_id, "server-9");
    assert!(r.is_server_hidden());
    let mut r2 = client_at(1);
    assert_eq!(
        r2.apply_follow_response(&reply(Some("Followed:1818"), None, 12, None)),
        Err(ReplyError::MissingServerId)
    );
    assert_eq!(r2.get_join_data().place_id, 1);
}

#[test]
fn follow_job_id_errors() {
    let mut r = client_at(1);
    assert_eq!(r.apply_follow_response(&reply(Some("short"), None, 0, None)), Err(ReplyError::MalformedJobId));
    assert_eq!(r.apply_follow_response(&reply(Some("Followed:1x;a"), None, 0, None)), Err(ReplyError::InvalidPlaceId));
    assert_eq!(r.apply_follow_response(&reply(Some("Followeeé1"), None, 0, None)), Err(ReplyError::MalformedJobId));
}

#[test]
fn follow_other_status_reads_ticket() {
    let mut r = client_at(1818);
    r.server_hidden = true;
    let u = r.apply_follow_response(&reply(Some("job-7"), Some(JOIN_SCRIPT), 2, None));
    assert_eq!(u, Ok(FollowUpdate::Updated { place_changed: false }));
    assert_eq!(r.get_join_data().job_id, "job-7");
    assert!(!r.is_server_hidden());
    let mut r2 = client_at(1);
    assert_eq!(r2.apply_follow_response(&reply(Some("job"), None, 2, None)), Err(ReplyError::MissingJoinScriptUrl));
    let no_place = "https://x/?ticket=%7B%22UserId%22%3A1%7D";
    assert_eq!(r2.apply_follow_response(&reply(Some("job"), Some(no_place), 2, None)), Ok(FollowUpdate::NotInGame));
    assert_eq!(r2.get_join_data().job_id, "job");
    let negative = "https://x/?ticket=%7B%22PlaceId%22%3A-1%7D";
    assert_eq!(r2.apply_follow_response(&reply(Some("job"), Some(negative), 2, None)), Err(ReplyError::PlaceIdOutOfRange));
}

#[test]
fn product_info_names_place() {
    let mut r = client_at(1);
    assert_eq!(r.apply_product_info("{\"Name\":\"Natural Disaster Survival\"}"), Ok(()));
    assert_eq!(r.get_join_data().place_name, "Natural Disaster Survival");
    assert_eq!(r.apply_product_info("{\"Name\":5}"), Ok(()));
    assert_eq!(r.get_join_data().place_name, "Unknown Game");
    assert_eq!(r.apply_product_info("nope"), Err(ReplyError::InvalidProductInfo));
    assert_eq!(place_name_of("[]"), Ok("Unknown Game".to_string()));
}

#[test]
fn additional_info_kinds() {
    let mut d = RobloxJoinData::default();
    for (req, kind) in [
        ("RequestGame", AdditionalInfoRequest::ReserveServer),
        ("RequestGameJob", AdditionalInfoRequest::ReserveServer),
        ("RequestPrivateGame", AdditionalInfoRequest::ReserveServer),
        ("RequestFollowUser", AdditionalInfoRequest::FollowUser),
        ("Other", AdditionalInfoRequest::Nothing),
    ] {
        d.request = req.to_string();
        let r = Roblox::new().with_join_data(d.clone());
        assert_eq!(r.additional_info_request(), kind);
    }
}

#[test]
fn reserved_server_waits_then_joins() {
    let mut r = client_at(1818);
    assert_eq!(r.apply_reserved_server(&reply(Some("JoiningGame"), None, 0, None)), Ok(ServerWait::WaitForServer));
    assert_eq!(r.apply_reserved_server(&reply(None, None, 0, None)), Err(ReplyError::MissingJobId));
    assert_eq!(r.apply_reserved_server(&reply(Some("job-1"), Some(JOIN_SCRIPT), 2, None)), Ok(ServerWait::Found));
    assert_eq!(r.get_join_data().username, "bob");
    assert_eq!(r.get_join_data().user_id, 42);
    assert_eq!(r.get_join_data().job_id, "job-1");
}

#[test]
fn followed_user_refusals() {
    let mut r = client_at(1);
    assert_eq!(r.apply_followed_user(&reply(None, None, 10, None)), Err(ReplyError::UserLeftGame));
    assert_eq!(r.apply_followed_user(&reply(None, None, 12, None)), Err(ReplyError::NotAuthorized));
    assert_eq!(
        r.apply_followed_user(&reply(None, None, 3, None)),
        Err(ReplyError::JoinRefused("Unknown error occurred".to_string()))
    );
    assert_eq!(
        r.apply_followed_user(&reply(None, None, 3, Some("Game full"))),
        Err(ReplyError::JoinRefused("Game full".to_string()))
    );
}

#[test]
fn followed_user_reads_ticket() {
    let mut r = client_at(1);
    assert_eq!(r.apply_followed_user(&reply(Some("job-2"), Some(JOIN_SCRIPT), 2, None)), Ok(()));
    assert_eq!(r.get_join_data().job_id, "job-2");
    assert_eq!(r.get_join_data().username, "bob");
    assert_eq!(r.get_join_data().user_id, 42);
    assert_eq!(r.get_join_data().place_id, 1818);
    let anonymous = "https://x/?ticket=%7B%7D";
    assert_eq!(r.apply_followed_user(&reply(Some("job-3"), Some(anonymous), 2, None)), Ok(()));
    assert_eq!(r.get_join_data().username, "Player");
    assert_eq!(r.get_join_data().user_id, 0);
    assert_eq!(r.get_join_data().place_id, 0);
    let big = "https://x/?ticket=%7B%22UserId%22%3A1.5%7D";
    assert_eq!(r.apply_followed_user(&reply(Some("j"), Some(big), 2, None)), Err(ReplyError::UserIdOutOfRange));
}

#[test]
fn request_urls() {
    let mut d = RobloxJoinData::default();
    d.place_id = 1818;
    d.user_id = 42;
    let r = Roblox::new().with_join_data(d).with_roblosecurity("C".to_string());
    assert_eq!(r.cookie_header(), ".ROBLOSECURITY=C;path=/;domain=.roblox.com;");
    assert_eq!(
        r.follow_user_url(),
        "https://assetgame.roblox.com/game/PlaceLauncher.ashx?request=RequestFollowUser&browserTrackerId=0&userId=42"
    );
    assert_eq!(r.product_info_url(), "https://api.roblox.com/Marketplace/ProductInfo?assetId=1818");
    assert_eq!(r.server_count_url(), "https://www.roblox.com/games/getgameinstancesjson?placeId=1818&startIndex=0");
    assert_eq!(r.game_page_url(), "https://www.roblox.com/games/1818");
    assert_eq!(
        r.server_page_url("abc"),
        "https://games.roblox.com/v1/games/1818/servers/Public?sortOrder=Asc&limit=100&cursor=abc"
    );
}

#[test]
fn server_count_is_read() {
    assert_eq!(server_count("{\"TotalCollectionSize\": 250}"), Ok(250));
    assert_eq!(server_count("{\"TotalCollectionSize\": \"250\"}"), Err(ReplyError::InvalidServerCount));
    assert_eq!(server_count("x"), Err(ReplyError::InvalidServerCount));
}

#[test]
fn find_server_takes_first_match() {
    let page = RobloxServerListData {
        previous_page_cursor: None,
        next_page_cursor: None,
        data: Some(vec![server("a", Some(3)), server("b", Some(4)), server("b", Some(5))]),
    };
    let s = find_server(&page, "b").unwrap();
    assert_eq!(s.playing, Some(4));
    assert!(find_server(&page, "c").is_none());
    let empty = RobloxServerListData { previous_page_cursor: None, next_page_cursor: None, data: None };
    assert!(find_server(&empty, "a").is_none());
}

#[test]
fn server_search_reads_limited_pages() {
    let mut search = ServerSearch::new(150);
    let page = RobloxServerListData {
        previous_page_cursor: None,
        next_page_cursor: Some("next".to_string()),
        data: Some(vec![server("a", None)]),
    };
    assert_eq!(search.next_cursor().as_deref(), Some(""));
    assert!(matches!(search.on_page(&page, "z"), SearchStep::NextPage));
    assert_eq!(search.next_cursor().as_deref(), Some("next"));
    assert!(matches!(search.on_page(&page, "z"), SearchStep::Exhausted));
    assert_eq!(search.next_cursor(), None);
    let mut other = ServerSearch::new(0);
    match other.on_page(&page, "a") {
        SearchStep::Found(s) => assert_eq!(s.id, "a"),
        _ => panic!("server not found"),
    }
}

#[test]
fn ticket_session_at_most_six_attempts() {
    let mut t = TicketSession::new();
    for _ in 0..6 {
        assert!(t.start_attempt().is_some());
    }
    assert!(t.start_attempt().is_none());
}

#[test]
fn ticket_session_replies() {
    let mut t = TicketSession::new();
    assert_eq!(t.start_attempt().as_deref(), Some(""));
    assert!(matches!(t.on_reply(403, None, Some("tok".to_string())), Ok(TicketStep::Retry)));
    assert_eq!(t.start_attempt().as_deref(), Some("tok"));
    assert!(matches!(t.on_reply(403, None, None), Ok(TicketStep::Retry)));
    assert_eq!(t.start_attempt().as_deref(), Some("tok"));
    match t.on_reply(200, Some("TICKET".to_string()), None) {
        Ok(TicketStep::Issued(s)) => assert_eq!(s, "TICKET"),
        _ => panic!("no ticket"),
    }
    assert_eq!(t.on_reply(200, None, None).err(), Some(ReplyError::MissingTicketHeader));
    assert!(matches!(t.on_reply(500, None, None), Ok(TicketStep::Refused)));
}

#[test]
fn watch_waits_fifteen_misses_before_seen() {
    let mut w = RobloxWatch::new();
    for _ in 0..15 {
        assert_eq!(w.on_poll(false), WatchAction::LookAgain);
    }
    assert_eq!(w.on_poll(false), WatchAction::ShutDown);
}

#[test]
fn watch_ends_when_seen_client_goes() {
    let mut w = RobloxWatch::new();
    assert_eq!(w.on_poll(false), WatchAction::LookAgain);
    assert_eq!(w.on_poll(true), WatchAction::KeepWatching);
    assert_eq!(w.on_poll(false), WatchAction::ShutDown);
}

#[test]
fn protocol_commands() {
    assert_eq!(protocol_command("C:\\a\\rp.exe"), "\"C:\\a\\rp.exe\" \"%1\"");
    assert_eq!(launcher_command("C:\\r\\L.exe"), "\"C:\\r\\L.exe\" %1");
}

#[test]
fn launcher_is_read_back_after_update() {
    assert_eq!(launcher_after_update("\"C:\\r\\L.exe\" %1", "rp.exe"), Ok(Some("C:\\r\\L.exe".to_string())));
    assert_eq!(launcher_after_update("\"C:\\a\\rp.exe\" \"%1\"", "rp.exe"), Ok(None));
    assert_eq!(launcher_after_update("ab", "rp.exe"), Err(()));
}

#[test]
fn cookie_is_read_from_set_cookie() {
    assert_eq!(
        cookie_of_set_cookie(".ROBLOSECURITY=_|WARNING:abc;domain=.roblox.com"),
        Ok("_|WARNING:abc".to_string())
    );
    assert_eq!(cookie_of_set_cookie(".ROBLOSECURITY=abc"), Err(()));
    assert_eq!(cookie_of_set_cookie("a=b;c"), Err(()));
}

#[test]
fn latest_tag() {
    assert!(is_latest_tag("v0.1.0", "0.1.0"));
    assert!(!is_latest_tag("0.1.0", "0.1.0"));
    assert!(!is_latest_tag("v0.2.0", "0.1.0"));
}

#[test]
fn config_watch_reports_each_change_once() {
    let mut w = ConfigWatch::new();
    assert!(!w.on_modified(1000));
    assert_eq!(w.prev_time, 1000);
    assert!(!w.on_modified(1000));
    assert!(w.on_modified(1005));
    assert_eq!(w.prev_time, 1005);
    assert!(!w.on_modified(1005));
}

#[test]
fn latest_release_reads_the_first_tag() {
    assert_eq!(is_latest_release(r#"[{"name":"v0.1.0"},{"name":"v0.0.9"}]"#, "0.1.0"), Ok(true));
    assert_eq!(is_latest_release(r#"[{"name":"v0.2.0"},{"name":"v0.1.0"}]"#, "0.1.0"), Ok(false));
    assert_eq!(is_latest_release("[]", "0.1.0"), Ok(false));
    assert_eq!(is_latest_release("{}", "0.1.0"), Err(VersionError::InvalidTagList));
    assert_eq!(is_latest_release(r#"[{"name":1}]"#, "0.1.0"), Err(VersionError::TagNameNotText));
}

#[test]
fn player_version_from_client_settings() {
    assert_eq!(player_version(None), Ok("version-0".to_string()));
    assert_eq!(
        player_version(Some(r#"{"version":"0.5","clientVersionUpload":"version-abc123"}"#)),
        Ok("version-abc123".to_string())
    );
    assert_eq!(player_version(Some("{}")), Ok("null".to_string()));
    assert_eq!(player_version(Some("not json")), Err(VersionError::InvalidClientSettings));
}
