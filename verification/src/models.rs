//! The configuration file's model: complete and partial configurations, and
//! how a partial one is completed with defaults.
use vstd::prelude::*;

verus! {

/// The whole configuration.
#[derive(Debug, Clone)]
pub struct Config {
    pub general: GeneralConfig,
    pub presence: PresenceConfig,
}

/// The `[general]` table.
#[derive(Debug, Clone)]
pub struct GeneralConfig {
    pub launcher: String,
    pub is_custom_launcher: bool,
    pub roblosecurity: String,
}

/// The `[presence]` table.
#[derive(Debug, Clone, Copy)]
pub struct PresenceConfig {
    pub show_username: bool,
    pub show_game: bool,
    pub show_presence: bool,
    pub update_interval: u64,
}

/// A configuration as read from disk, where any table or key may be missing.
#[derive(Debug, Clone)]
pub struct PartialConfig {
    pub general: Option<PartialGeneralConfig>,
    pub presence: Option<PartialPresenceConfig>,
}

/// A `[general]` table as read from disk.
#[derive(Debug, Clone)]
pub struct PartialGeneralConfig {
    pub launcher: Option<String>,
    pub is_custom_launcher: Option<bool>,
    pub roblosecurity: Option<String>,
}

/// A `[presence]` table as read from disk.
#[derive(Debug, Clone, Copy)]
pub struct PartialPresenceConfig {
    pub show_username: Option<bool>,
    pub show_game: Option<bool>,
    pub show_presence: Option<bool>,
    pub update_interval: Option<u64>,
}

/// The value of a whole configuration.
pub struct ConfigView {
    pub launcher: Seq<char>,
    pub is_custom_launcher: bool,
    pub roblosecurity: Seq<char>,
    pub show_username: bool,
    pub show_game: bool,
    pub show_presence: bool,
    pub update_interval: u64,
}

/// The value of a partial configuration: each key, if it was given.
pub struct PartialConfigView {
    pub launcher: Option<Seq<char>>,
    pub is_custom_launcher: Option<bool>,
    pub roblosecurity: Option<Seq<char>>,
    pub show_username: Option<bool>,
    pub show_game: Option<bool>,
    pub show_presence: Option<bool>,
    pub update_interval: Option<u64>,
}

impl View for Config {
    type V = ConfigView;

    open spec fn view(&self) -> ConfigView {
        ConfigView {
            launcher: self.general.launcher@,
            is_custom_launcher: self.general.is_custom_launcher,
            roblosecurity: self.general.roblosecurity@,
            show_username: self.presence.show_username,
            show_game: self.presence.show_game,
            show_presence: self.presence.show_presence,
            update_interval: self.presence.update_interval,
        }
    }
}

/// A key that a missing table lacks too.
pub open spec fn present_in<T, V>(table: Option<T>, key: spec_fn(T) -> Option<V>) -> Option<V> {
    match table {
        Some(t) => key(t),
        None => None,
    }
}

impl View for PartialConfig {
    type V = PartialConfigView;

    open spec fn view(&self) -> PartialConfigView {
        PartialConfigView {
            launcher: present_in(self.general, |g: PartialGeneralConfig| g.launcher.deep_view()),
            is_custom_launcher: present_in(
                self.general,
                |g: PartialGeneralConfig| g.is_custom_launcher,
            ),
            roblosecurity: present_in(
                self.general,
                |g: PartialGeneralConfig| g.roblosecurity.deep_view(),
            ),
            show_username: present_in(self.presence, |p: PartialPresenceConfig| p.show_username),
            show_game: present_in(self.presence, |p: PartialPresenceConfig| p.show_game),
            show_presence: present_in(self.presence, |p: PartialPresenceConfig| p.show_presence),
            update_interval: present_in(
                self.presence,
                |p: PartialPresenceConfig| p.update_interval,
            ),
        }
    }
}

/// The default configuration: no launcher, no cookie, the username hidden,
/// the game and the presence shown, and an update every 30 seconds.
pub open spec fn default_config() -> ConfigView {
    ConfigView {
        launcher: Seq::empty(),
        is_custom_launcher: false,
        roblosecurity: Seq::empty(),
        show_username: false,
        show_game: true,
        show_presence: true,
        update_interval: 30,
    }
}

/// The given value, or the default one.
pub open spec fn given_or<V>(given: Option<V>, default: V) -> V {
    match given {
        Some(v) => v,
        None => default,
    }
}

/// A partial configuration completed: each given key keeps its value, each
/// missing one takes the default.
pub open spec fn complete_spec(p: PartialConfigView) -> ConfigView {
    let d = default_config();
    ConfigView {
        launcher: given_or(p.launcher, d.launcher),
        is_custom_launcher: given_or(p.is_custom_launcher, d.is_custom_launcher),
        roblosecurity: given_or(p.roblosecurity, d.roblosecurity),
        show_username: given_or(p.show_username, d.show_username),
        show_game: given_or(p.show_game, d.show_game),
        show_presence: given_or(p.show_presence, d.show_presence),
        update_interval: given_or(p.update_interval, d.update_interval),
    }
}

/// Every key of the configuration was given.
pub open spec fn all_given(p: PartialConfigView) -> bool {
    &&& p.launcher is Some
    &&& p.is_custom_launcher is Some
    &&& p.roblosecurity is Some
    &&& p.show_username is Some
    &&& p.show_game is Some
    &&& p.show_presence is Some
    &&& p.update_interval is Some
}

/// The partial configuration in which every key of `c` is given.
pub open spec fn fully_given(c: ConfigView) -> PartialConfigView {
    PartialConfigView {
        launcher: Some(c.launcher),
        is_custom_launcher: Some(c.is_custom_launcher),
        roblosecurity: Some(c.roblosecurity),
        show_username: Some(c.show_username),
        show_game: Some(c.show_game),
        show_presence: Some(c.show_presence),
        update_interval: Some(c.update_interval),
    }
}

/// The partial configuration in which nothing is given.
pub open spec fn nothing_given() -> PartialConfigView {
    PartialConfigView {
        launcher: None,
        is_custom_launcher: None,
        roblosecurity: None,
        show_username: None,
        show_game: None,
        show_presence: None,
        update_interval: None,
    }
}

/// A configuration that is written out in full and read back is complete as
/// it stands (so it is not written again) and completes to itself.
pub proof fn law_saved_config_reads_back(c: ConfigView)
    ensures
        all_given(fully_given(c)),
        complete_spec(fully_given(c)) == c,
{
}

/// A configuration file that gives nothing completes to the default configuration.
pub proof fn law_nothing_given_is_default()
    ensures
        complete_spec(nothing_given()) == default_config(),
        !all_given(nothing_given()),
{
}

/// Completing is idempotent: completing, saving in full and completing again
/// changes nothing.
pub proof fn law_complete_idempotent(p: PartialConfigView)
    ensures
        complete_spec(fully_given(complete_spec(p))) == complete_spec(p),
{
}

impl Config {
    /// The default configuration.
    pub fn default() -> (res: Self)
        ensures
            res@ == default_config(),
    {
        Self { general: GeneralConfig::default(), presence: PresenceConfig::default() }
    }
}

impl GeneralConfig {
    /// No launcher, not a custom one, and no cookie.
    pub fn default() -> (res: Self)
        ensures
            res.launcher@ == Seq::<char>::empty(),
            !res.is_custom_launcher,
            res.roblosecurity@ == Seq::<char>::empty(),
    {
        GeneralConfig {
            launcher: String::new(),
            is_custom_launcher: false,
            roblosecurity: String::new(),
        }
    }
}

impl PresenceConfig {
    /// The username hidden, the game and the presence shown, an update every 30 seconds.
    pub fn default() -> (res: Self)
        ensures
            !res.show_username,
            res.show_presence,
            res.show_game,
            res.update_interval == 30,
    {
        PresenceConfig {
            show_username: false,
            show_presence: true,
            show_game: true,
            update_interval: 30,
        }
    }
}

/// One of the options that the tray menu turns on and off.
#[derive(Debug, Clone, Copy, PartialEq, Eq)]
pub enum PresenceOption {
    ShowUsername,
    ShowGame,
    ShowPresence,
}

/// The presence settings with `option` turned over.
pub open spec fn toggled(c: PresenceConfig, option: PresenceOption) -> PresenceConfig {
    match option {
        PresenceOption::ShowUsername => PresenceConfig { show_username: !c.show_username, ..c },
        PresenceOption::ShowGame => PresenceConfig { show_game: !c.show_game, ..c },
        PresenceOption::ShowPresence => PresenceConfig { show_presence: !c.show_presence, ..c },
    }
}

impl PresenceConfig {
    /// Turns one option over and leaves the others as they are.
    pub fn toggle(&mut self, option: PresenceOption)
        ensures
            *final(self) == toggled(*old(self), option),
    {
        match option {
            PresenceOption::ShowUsername => self.show_username = !self.show_username,
            PresenceOption::ShowGame => self.show_game = !self.show_game,
            PresenceOption::ShowPresence => self.show_presence = !self.show_presence,
        }
    }
}

/// Turning an option over twice gives back the settings one started with.
pub proof fn law_toggle_twice(c: PresenceConfig, option: PresenceOption)
    ensures
        toggled(toggled(c, option), option) == c,
{
}

impl PartialConfig {
    /// Transforms a partial configuration into a complete one: every key that
    /// was given keeps its value, every missing key takes its default.
    pub fn to_complete(self) -> (res: Config)
        ensures
            res@ == complete_spec(self@),
    {
        let mut config: Config = Config::default();
        match self.general {
            Some(general) => {
                match general.launcher {
                    Some(v) => config.general.launcher = v,
                    None => {},
                }
                match general.is_custom_launcher {
                    Some(v) => config.general.is_custom_launcher = v,
                    None => {},
                }
                match general.roblosecurity {
                    Some(v) => config.general.roblosecurity = v,
                    None => {},
                }
            },
            None => {},
        }
        match self.presence {
            Some(presence) => {
                match presence.show_username {
                    Some(v) => config.presence.show_username = v,
                    None => {},
                }
                match presence.show_game {
                    Some(v) => config.presence.show_game = v,
                    None => {},
                }
                match presence.show_presence {
                    Some(v) => config.presence.show_presence = v,
                    None => {},
                }
                match presence.update_interval {
                    Some(v) => config.presence.update_interval = v,
                    None => {},
                }
            },
            None => {},
        }
        config
    }

    /// Whether every key of the configuration was given.
    pub fn has_all_some(&self) -> (res: bool)
        ensures
            res == all_given(self@),
    {
        match &self.general {
            Some(general) => {
                if general.launcher.is_none() || general.is_custom_launcher.is_none()
                    || general.roblosecurity.is_none() {
                    return false;
                }
            },
            None => {
                return false;
            },
        }
        match &self.presence {
            Some(presence) => {
                if presence.show_username.is_none() || presence.show_game.is_none()
                    || presence.show_presence.is_none() || presence.update_interval.is_none() {
                    return false;
                }
            },
            None => {
                return false;
            },
        }
        true
    }

    /// Completes the configuration read from disk and tells whether it must be
    /// written back (because a key was missing).
    pub fn autofill(self) -> (res: (Config, bool))
        ensures
            res.0@ == complete_spec(self@),
            res.1 == !all_given(self@),
    {
        let complete = self.has_all_some();
        (self.to_complete(), !complete)
    }
}

/// What a Discord join request carries once decoded.
#[derive(Debug, Clone)]
pub struct DiscordJoinAccept {
    pub place_id: u64,
    pub job_id: String,
}

/// Receives the events that Discord sends.
pub struct DiscordEventHandler;

} // verus!
