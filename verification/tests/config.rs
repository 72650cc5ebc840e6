use rblx_rich_presence::models::{
    Config, GeneralConfig, PartialConfig, PartialGeneralConfig, PartialPresenceConfig,
    PresenceConfig, PresenceOption,
};

fn full_partial() -> PartialConfig {
    PartialConfig {
        general: Some(PartialGeneralConfig {
            launcher: Some("C:\\Roblox\\RobloxPlayerLauncher.exe".to_string()),
            is_custom_launcher: Some(true),
            roblosecurity: Some("cookie".to_string()),
        }),
        presence: Some(PartialPresenceConfig {
            show_username: Some(true),
            show_game: Some(false),
            show_presence: Some(false),
            update_interval: Some(5),
        }),
    }
}

#[test]
fn default_config_values() {
    let c = Config::default();
    assert_eq!(c.general.launcher, "");
    assert!(!c.general.is_custom_launcher);
    assert_eq!(c.general.roblosecurity, "");
    assert!(!c.presence.show_username);
    assert!(c.presence.show_game);
    assert!(c.presence.show_presence);
    assert_eq!(c.presence.update_interval, 30);
}

#[test]
fn general_and_presence_defaults() {
    let g = GeneralConfig::default();
    assert_eq!(g.launcher, "");
    assert!(!g.is_custom_launcher);
    let p = PresenceConfig::default();
    assert_eq!(p.update_interval, 30);
    assert!(p.show_presence && p.show_game && !p.show_username);
}

#[test]
fn empty_partial_completes_to_default() {
    let p = PartialConfig { general: None, presence: None };
    assert!(!p.has_all_some());
    let c = p.to_complete();
    assert_eq!(c.general.launcher, "");
    assert!(c.presence.show_game);
    assert_eq!(c.presence.update_interval, 30);
}

#[test]
fn full_partial_is_kept() {
    let p = full_partial();
    assert!(p.has_all_some());
    let c = p.to_complete();
    assert_eq!(c.general.launcher, "C:\\Roblox\\RobloxPlayerLauncher.exe");
    assert!(c.general.is_custom_launcher);
    assert_eq!(c.general.roblosecurity, "cookie");
    assert!(c.presence.show_username);
    assert!(!c.presence.show_game);
    assert!(!c.presence.show_presence);
    assert_eq!(c.presence.update_interval, 5);
}

#[test]
fn missing_keys_take_defaults() {
    let p = PartialConfig {
        general: Some(PartialGeneralConfig {
            launcher: None,
            is_custom_launcher: Some(true),
            roblosecurity: None,
        }),
        presence: Some(PartialPresenceConfig {
            show_username: None,
            show_game: Some(false),
            show_presence: None,
            update_interval: None,
        }),
    };
    assert!(!p.has_all_some());
    let c = p.to_complete();
    assert_eq!(c.general.launcher, "");
    assert!(c.general.is_custom_launcher);
    assert!(!c.presence.show_username);
    assert!(!c.presence.show_game);
    assert!(c.presence.show_presence);
    assert_eq!(c.presence.update_interval, 30);
}

#[test]
fn missing_table_is_not_all_some() {
    let mut p = full_partial();
    p.presence = None;
    assert!(!p.has_all_some());
    let mut q = full_partial();
    q.general.as_mut().unwrap().roblosecurity = None;
    assert!(!q.has_all_some());
}

#[test]
fn autofill_tells_when_to_save() {
    let (c, save) = full_partial().autofill();
    assert!(!save);
    assert_eq!(c.presence.update_interval, 5);
    let (d, save2) = PartialConfig { general: None, presence: None }.autofill();
    assert!(save2);
    assert_eq!(d.presence.update_interval, 30);
}

#[test]
fn saved_config_reads_back_unchanged() {
    let (c, _) = full_partial().autofill();
    let again = PartialConfig {
        general: Some(PartialGeneralConfig {
            launcher: Some(c.general.launcher.clone()),
            is_custom_launcher: Some(c.general.is_custom_launcher),
            roblosecurity: Some(c.general.roblosecurity.clone()),
        }),
        presence: Some(PartialPresenceConfig {
            show_username: Some(c.presence.show_username),
            show_game: Some(c.presence.show_game),
            show_presence: Some(c.presence.show_presence),
            update_interval: Some(c.presence.update_interval),
        }),
    };
    let (d, save) = again.autofill();
    assert!(!save);
    assert_eq!(d.general.launcher, c.general.launcher);
    assert_eq!(d.general.roblosecurity, c.general.roblosecurity);
    assert_eq!(d.presence.update_interval, c.presence.update_interval);
    assert_eq!(d.presence.show_game, c.presence.show_game);
}

#[test]
fn toggle_flips_one_option() {
    let mut p = PresenceConfig::default();
    p.toggle(PresenceOption::ShowUsername);
    assert!(p.show_username && p.show_game && p.show_presence);
    p.toggle(PresenceOption::ShowGame);
    assert!(!p.show_game);
    p.toggle(PresenceOption::ShowPresence);
    assert!(!p.show_presence);
    assert_eq!(p.update_interval, 30);
}

#[test]
fn toggle_twice_restores() {
    let mut p = PresenceConfig::default();
    p.toggle(PresenceOption::ShowGame);
    p.toggle(PresenceOption::ShowGame);
    assert!(p.show_game && p.show_presence && !p.show_username);
}
