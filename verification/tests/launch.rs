use rblx_rich_presence::launch::{join_data_from_launch, parse_launch_args, parse_launch_url, query_get, LaunchArgs, LaunchUrlError};
use rblx_rich_presence::roblox::{Roblox, RobloxJoinData};

const GAME_URL: &str = "roblox-player:1+launchmode:play+gameinfo:TICKET+launchtime:1600000000000+placelauncherurl:https%3A%2F%2Fassetgame.roblox.com%2Fgame%2FPlaceLauncher.ashx%3Frequest%3DRequestGame%26browserTrackerId%3D123%26placeId%3D1818%26isPlayTogetherGame%3Dfalse+browsertrackerid:123+robloxLocale:en_us+gameLocale:de_de";

fn args() -> LaunchArgs {
    LaunchArgs {
        launch_mode: Some("play".to_string()),
        game_info: Some("TICKET".to_string()),
        launch_time: Some("5".to_string()),
        place_launcher_url: Some("https://x/?request=RequestGame".to_string()),
        browser_tracker_id: Some("7".to_string()),
        roblox_locale: Some("en_us".to_string()),
        game_locale: Some("en_us".to_string()),
    }
}

fn query(pairs: &[(&str, &str)]) -> Vec<(String, String)> {
    pairs.iter().map(|(k, v)| (k.to_string(), v.to_string())).collect()
}

#[test]
fn launch_args_are_read() {
    let a = parse_launch_args(GAME_URL).unwrap();
    assert_eq!(a.launch_mode.as_deref(), Some("play"));
    assert_eq!(a.game_info.as_deref(), Some("TICKET"));
    assert_eq!(a.launch_time.as_deref(), Some("1600000000000"));
    assert_eq!(
        a.place_launcher_url.as_deref(),
        Some("https://assetgame.roblox.com/game/PlaceLauncher.ashx?request=RequestGame&browserTrackerId=123&placeId=1818&isPlayTogetherGame=false")
    );
    assert_eq!(a.browser_tracker_id.as_deref(), Some("123"));
    assert_eq!(a.roblox_locale.as_deref(), Some("en_us"));
    assert_eq!(a.game_locale.as_deref(), Some("de_de"));
}

#[test]
fn launch_args_later_value_wins_and_unknown_keys_pass() {
    let a = parse_launch_args("launchmode:a+foo:bar+launchmode:b:c+roblox-player:").unwrap();
    assert_eq!(a.launch_mode.as_deref(), Some("b"));
    assert_eq!(a.game_info, None);
}

#[test]
fn launch_args_piece_without_colon_is_refused() {
    assert!(parse_launch_args("launchmode:play+oops").is_none());
    assert!(parse_launch_args("").is_none());
}

#[test]
fn launch_url_is_read() {
    let d = parse_launch_url(GAME_URL).unwrap();
    assert_eq!(d.user_id, 0);
    assert_eq!(d.username, "");
    assert_eq!(d.launch_mode, "play");
    assert_eq!(d.game_info, "TICKET");
    assert_eq!(d.request, "RequestGame");
    assert_eq!(d.launch_time, 1600000000000);
    assert_eq!(d.access_code, "");
    assert_eq!(d.link_code, "");
    assert_eq!(d.is_play_together, "false");
    assert_eq!(d.place_id, 1818);
    assert_eq!(d.place_name, "");
    assert_eq!(d.job_id, "");
    assert_eq!(d.friend_user_id, 0);
    assert_eq!(d.browser_tracker_id, 123);
    assert_eq!(d.roblox_locale, "en_us");
    assert_eq!(d.game_locale, "de_de");
}

#[test]
fn launch_url_errors() {
    assert_eq!(parse_launch_url("nocolon").err(), Some(LaunchUrlError::MissingArgumentValue));
    assert_eq!(parse_launch_url("launchmode:play").err(), Some(LaunchUrlError::MissingPlaceLauncherUrl));
    assert_eq!(
        parse_launch_url("launchmode:play+placelauncherurl:not a url").err(),
        Some(LaunchUrlError::InvalidPlaceLauncherUrl)
    );
}

#[test]
fn join_data_errors_in_order() {
    let q = query(&[("request", "RequestGame")]);
    let mut a = args();
    a.place_launcher_url = None;
    assert_eq!(join_data_from_launch(&a, &q).err(), Some(LaunchUrlError::MissingPlaceLauncherUrl));
    let mut a = args();
    a.launch_mode = None;
    assert_eq!(join_data_from_launch(&a, &q).err(), Some(LaunchUrlError::MissingLaunchMode));
    let mut a = args();
    a.game_info = None;
    assert_eq!(join_data_from_launch(&a, &q).err(), Some(LaunchUrlError::MissingGameInfo));
    assert_eq!(join_data_from_launch(&args(), &query(&[])).err(), Some(LaunchUrlError::MissingRequest));
    let mut a = args();
    a.launch_time = None;
    assert_eq!(join_data_from_launch(&a, &q).err(), Some(LaunchUrlError::MissingLaunchTime));
    let mut a = args();
    a.launch_time = Some("x".to_string());
    assert_eq!(join_data_from_launch(&a, &q).err(), Some(LaunchUrlError::InvalidLaunchTime));
    let bad_place = query(&[("request", "RequestGame"), ("placeId", "-1")]);
    assert_eq!(join_data_from_launch(&args(), &bad_place).err(), Some(LaunchUrlError::InvalidPlaceId));
    let bad_user = query(&[("request", "RequestGame"), ("userId", "")]);
    assert_eq!(join_data_from_launch(&args(), &bad_user).err(), Some(LaunchUrlError::InvalidFriendUserId));
    let mut a = args();
    a.browser_tracker_id = None;
    assert_eq!(join_data_from_launch(&a, &q).err(), Some(LaunchUrlError::MissingBrowserTrackerId));
    let mut a = args();
    a.browser_tracker_id = Some("1.5".to_string());
    assert_eq!(join_data_from_launch(&a, &q).err(), Some(LaunchUrlError::InvalidBrowserTrackerId));
    let mut a = args();
    a.roblox_locale = None;
    assert_eq!(join_data_from_launch(&a, &q).err(), Some(LaunchUrlError::MissingRobloxLocale));
    let mut a = args();
    a.game_locale = None;
    assert_eq!(join_data_from_launch(&a, &q).err(), Some(LaunchUrlError::MissingGameLocale));
}

#[test]
fn join_data_reads_query_with_last_value() {
    let q = query(&[
        ("request", "RequestPrivateGame"),
        ("placeId", "1"),
        ("placeId", "2"),
        ("accessCode", "acc"),
        ("linkCode", "lnk"),
        ("gameId", "job"),
        ("userId", "99"),
        ("isPlayTogetherGame", "true"),
    ]);
    let d = join_data_from_launch(&args(), &q).unwrap();
    assert_eq!(d.place_id, 2);
    assert_eq!(d.access_code, "acc");
    assert_eq!(d.link_code, "lnk");
    assert_eq!(d.job_id, "job");
    assert_eq!(d.friend_user_id, 99);
    assert_eq!(d.is_play_together, "true");
    assert_eq!(d.launch_time, 5);
    assert_eq!(d.browser_tracker_id, 7);
    assert_eq!(query_get(&q, "placeId").as_deref(), Some("2"));
    assert_eq!(query_get(&q, "nope"), None);
}

#[test]
fn default_join_data_values() {
    let d = RobloxJoinData::default();
    assert_eq!(d.username, "Player");
    assert_eq!(d.launch_mode, "play");
    assert_eq!(d.game_info, "abcd");
    assert_eq!(d.request, "https://www.roblox.com/");
    assert_eq!(d.place_launcher_url, "https://www.roblox.com");
    assert_eq!(d.is_play_together, "false");
    assert_eq!(d.place_name, "A Roblox Game");
    assert_eq!(d.job_id, "abcdefghijklmnopqurstuvwxyz");
    assert_eq!(d.roblox_locale, "en_us");
    assert_eq!(d.game_locale, "en_us");
    assert_eq!(d.place_id, 0);
}

#[test]
fn as_url_game_job() {
    let mut d = RobloxJoinData::default();
    d.request = "RequestGameJob".to_string();
    d.place_id = 1818;
    d.job_id = "job-1".to_string();
    d.browser_tracker_id = 12;
    d.launch_time = 34;
    assert_eq!(
        d.as_url(),
        "roblox-player:1+launchmode:play+gameinfo:abcd+launchtime:34+placelauncherurl:https%3A%2F%2Fassetgame.roblox.com%2Fgame%2FPlaceLauncher.ashx%3Frequest%3DRequestGameJob%26browserTrackerId%3D12%26placeId%3D1818%26gameId%3Djob-1%26isPlayTogetherGame%3Dfalse+browsertrackerid:12+robloxLocale:en_us+gameLocale:en_us"
    );
}

#[test]
fn as_url_private_game() {
    let mut d = RobloxJoinData::default();
    d.request = "RequestPrivateGame".to_string();
    d.place_id = 5;
    d.access_code = "AC".to_string();
    d.link_code = "LC".to_string();
    assert_eq!(
        d.as_url(),
        "roblox-player:1+launchmode:play+gameinfo:abcd+launchtime:0+placelauncherurl:https%3A%2F%2Fassetgame.roblox.com%2Fgame%2FPlaceLauncher.ashx%3Frequest%3DRequestPrivateGame%26browserTrackerId%3D0%26placeId%3D5%26accessCode%3DAC%26linkCode%3DLC+browsertrackerid:0+robloxLocale:en_us+gameLocale:en_us"
    );
}

#[test]
fn as_url_reads_back() {
    let mut d = RobloxJoinData::default();
    d.request = "RequestGameJob".to_string();
    d.place_id = 1818;
    d.job_id = "job-1".to_string();
    d.browser_tracker_id = 12;
    d.launch_time = 34;
    d.game_locale = "fr_fr".to_string();
    let back = parse_launch_url(&d.as_url()).unwrap();
    assert_eq!(back.launch_mode, d.launch_mode);
    assert_eq!(back.game_info, d.game_info);
    assert_eq!(back.launch_time, d.launch_time);
    assert_eq!(back.browser_tracker_id, d.browser_tracker_id);
    assert_eq!(back.roblox_locale, d.roblox_locale);
    assert_eq!(back.game_locale, d.game_locale);
    assert_eq!(back.request, "RequestGameJob");
    assert_eq!(back.place_id, 1818);
    assert_eq!(back.job_id, "job-1");
}

#[test]
fn with_url_sets_join_data() {
    let r = Roblox::new().with_path("launcher.exe".to_string()).with_url(GAME_URL.to_string());
    assert_eq!(r.get_join_data().place_id, 1818);
    assert_eq!(r.path, "launcher.exe");
}

#[test]
fn try_with_url_keeps_client_on_error() {
    let r = Roblox::new().with_path("p".to_string());
    match r.try_with_url("bad".to_string()) {
        Err((r, e)) => {
            assert_eq!(e, LaunchUrlError::MissingArgumentValue);
            assert_eq!(r.path, "p");
            assert_eq!(r.get_join_data().username, "Player");
        }
        Ok(_) => panic!("accepted a bad URL"),
    }
    assert!(Roblox::new().try_with_url(GAME_URL.to_string()).is_ok());
}
