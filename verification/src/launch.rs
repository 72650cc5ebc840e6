//! Reading a `roblox-player:` launch URL: its `+`-separated `key:value`
//! arguments, then the query of the place-launcher URL it carries.
use vstd::prelude::*;
use crate::codecs::{query_pairs_of, url_query_pairs};
use crate::roblox::{
    encoded_place_launcher_url, launch_url_of, Roblox, RobloxJoinData, RobloxJoinDataView,
    RobloxView,
};
use crate::text::{
    decimal_of, free_of, lemma_decimal_of, lemma_split_concat, lemma_split_free,
    lemma_split_on_len, law_decimal_round_trip, parse_u64, parse_u64_spec, replace_all,
    replace_spec, same_text, split_char, split_on,
};

verus! {

/// The arguments of a launch URL that the client keeps, each if it was given.
#[derive(Debug, Clone)]
pub struct LaunchArgs {
    pub launch_mode: Option<String>,
    pub game_info: Option<String>,
    pub launch_time: Option<String>,
    pub place_launcher_url: Option<String>,
    pub browser_tracker_id: Option<String>,
    pub roblox_locale: Option<String>,
    pub game_locale: Option<String>,
}

/// The value of [`LaunchArgs`].
pub struct LaunchArgsView {
    pub launch_mode: Option<Seq<char>>,
    pub game_info: Option<Seq<char>>,
    pub launch_time: Option<Seq<char>>,
    pub place_launcher_url: Option<Seq<char>>,
    pub browser_tracker_id: Option<Seq<char>>,
    pub roblox_locale: Option<Seq<char>>,
    pub game_locale: Option<Seq<char>>,
}

impl View for LaunchArgs {
    type V = LaunchArgsView;

    open spec fn view(&self) -> LaunchArgsView {
        LaunchArgsView {
            launch_mode: self.launch_mode.deep_view(),
            game_info: self.game_info.deep_view(),
            launch_time: self.launch_time.deep_view(),
            place_launcher_url: self.place_launcher_url.deep_view(),
            browser_tracker_id: self.browser_tracker_id.deep_view(),
            roblox_locale: self.roblox_locale.deep_view(),
            game_locale: self.game_locale.deep_view(),
        }
    }
}

/// No argument given yet.
pub open spec fn no_launch_args() -> LaunchArgsView {
    LaunchArgsView {
        launch_mode: None,
        game_info: None,
        launch_time: None,
        place_launcher_url: None,
        browser_tracker_id: None,
        roblox_locale: None,
        game_locale: None,
    }
}

/// The place-launcher URL with its percent-escapes for `&`, `:`, `/`, `=` and
/// `?` undone, in that order.
pub open spec fn unescape_place_launcher_url(v: Seq<char>) -> Seq<char> {
    replace_spec(
        replace_spec(
            replace_spec(replace_spec(replace_spec(v, "%26"@, "&"@), "%3A"@, ":"@), "%2F"@, "/"@),
            "%3D"@,
            "="@,
        ),
        "%3F"@,
        "?"@,
    )
}

/// One `+`-separated piece of a launch URL taken into the arguments. The piece
/// `roblox-player:` is passed over; any other must hold a `:`, or the URL is
/// refused (`None`). The text before the first `:` is the key, the text
/// between the first and the second `:` the value; a later value of a key
/// replaces an earlier one, and unknown keys are passed over.
pub open spec fn with_launch_arg(args: LaunchArgsView, piece: Seq<char>) -> Option<LaunchArgsView> {
    if piece == "roblox-player:"@ {
        Some(args)
    } else {
        let pair = split_on(piece, ':');
        if pair.len() < 2 {
            None
        } else {
            let key = pair[0];
            let value = pair[1];
            Some(
                if key == "launchmode"@ {
                    LaunchArgsView { launch_mode: Some(value), ..args }
                } else if key == "gameinfo"@ {
                    LaunchArgsView { game_info: Some(value), ..args }
                } else if key == "launchtime"@ {
                    LaunchArgsView { launch_time: Some(value), ..args }
                } else if key == "placelauncherurl"@ {
                    LaunchArgsView {
                        place_launcher_url: Some(unescape_place_launcher_url(value)),
                        ..args
                    }
                } else if key == "browsertrackerid"@ {
                    LaunchArgsView { browser_tracker_id: Some(value), ..args }
                } else if key == "robloxLocale"@ {
                    LaunchArgsView { roblox_locale: Some(value), ..args }
                } else if key == "gameLocale"@ {
                    LaunchArgsView { game_locale: Some(value), ..args }
                } else {
                    args
                },
            )
        }
    }
}

/// The pieces taken in, first to last.
pub open spec fn launch_args_of_pieces(pieces: Seq<Seq<char>>) -> Option<LaunchArgsView>
    decreases pieces.len(),
{
    if pieces.len() == 0 {
        Some(no_launch_args())
    } else {
        match launch_args_of_pieces(pieces.drop_last()) {
            Some(args) => with_launch_arg(args, pieces.last()),
            None => None,
        }
    }
}

/// The arguments of the launch URL `url`, or `None` where a piece lacks a `:`.
pub open spec fn launch_args_spec(url: Seq<char>) -> Option<LaunchArgsView> {
    launch_args_of_pieces(split_on(url, '+'))
}

proof fn lemma_refused_prefix_refuses(pieces: Seq<Seq<char>>, k: int)
    requires
        0 <= k <= pieces.len(),
        launch_args_of_pieces(pieces.take(k)) is None,
    ensures
        launch_args_of_pieces(pieces) is None,
    decreases pieces.len() - k,
{
    if k < pieces.len() {
        assert(pieces.take(k + 1).drop_last() =~= pieces.take(k));
        lemma_refused_prefix_refuses(pieces, k + 1);
    } else {
        assert(pieces.take(k) =~= pieces);
    }
}

/// Undoes the place-launcher URL's percent-escapes.
fn unescape(value: &str) -> (res: String)
    ensures
        res@ == unescape_place_launcher_url(value@),
{
    proof {
        reveal_strlit("%26");
        reveal_strlit("%3A");
        reveal_strlit("%2F");
        reveal_strlit("%3D");
        reveal_strlit("%3F");
    }
    let v1 = replace_all(value, "%26", "&");
    let v2 = replace_all(v1.as_str(), "%3A", ":");
    let v3 = replace_all(v2.as_str(), "%2F", "/");
    let v4 = replace_all(v3.as_str(), "%3D", "=");
    replace_all(v4.as_str(), "%3F", "?")
}

/// Takes one piece of a launch URL into `args`; false where the piece is refused.
fn take_launch_arg(args: &mut LaunchArgs, piece: &str) -> (ok: bool)
    ensures
        ok == (with_launch_arg(old(args)@, piece@) is Some),
        ok ==> with_launch_arg(old(args)@, piece@) == Some(final(args)@),
{
    if same_text(piece, "roblox-player:") {
        return true;
    }
    let pair = split_char(piece, ':');
    proof {
        lemma_split_on_len(piece@, ':');
    }
    if pair.len() < 2 {
        return false;
    }
    let key = pair[0].as_str();
    let value = pair[1].clone();
    assert(pair.deep_view()[0] == pair[0]@);
    assert(pair.deep_view()[1] == pair[1]@);
    if same_text(key, "launchmode") {
        args.launch_mode = Some(value);
    } else if same_text(key, "gameinfo") {
        args.game_info = Some(value);
    } else if same_text(key, "launchtime") {
        args.launch_time = Some(value);
    } else if same_text(key, "placelauncherurl") {
        args.place_launcher_url = Some(unescape(value.as_str()));
    } else if same_text(key, "browsertrackerid") {
        args.browser_tracker_id = Some(value);
    } else if same_text(key, "robloxLocale") {
        args.roblox_locale = Some(value);
    } else if same_text(key, "gameLocale") {
        args.game_locale = Some(value);
    }
    true
}

/// Reads the arguments of a launch URL; `None` where a piece lacks a `:`.
pub fn parse_launch_args(url: &str) -> (res: Option<LaunchArgs>)
    ensures
        match res {
            Some(args) => launch_args_spec(url@) == Some(args@),
            None => launch_args_spec(url@) is None,
        },
{
    let pieces = split_char(url, '+');
    let ghost all = pieces.deep_view();
    let mut args = LaunchArgs {
        launch_mode: None,
        game_info: None,
        launch_time: None,
        place_launcher_url: None,
        browser_tracker_id: None,
        roblox_locale: None,
        game_locale: None,
    };
    let n = pieces.len();
    let mut i: usize = 0;
    assert(all.take(0) =~= Seq::<Seq<char>>::empty());
    while i < n
        invariant
            n == pieces@.len(),
            all == pieces.deep_view(),
            all == split_on(url@, '+'),
            i <= n,
            launch_args_of_pieces(all.take(i as int)) == Some(args@),
        decreases n - i,
    {
        assert(all.take(i + 1).drop_last() =~= all.take(i as int));
        assert(all.take(i + 1).last() == pieces@[i as int]@);
        if !take_launch_arg(&mut args, pieces[i].as_str()) {
            proof {
                lemma_refused_prefix_refuses(all, i + 1);
            }
            return None;
        }
        i += 1;
    }
    assert(all.take(n as int) =~= all);
    Some(args)
}

/// The value of the last `key` among the query pairs, as a map collected from
/// them holds it.
pub open spec fn query_value(pairs: Seq<(Seq<char>, Seq<char>)>, key: Seq<char>) -> Option<Seq<char>>
    decreases pairs.len(),
{
    if pairs.len() == 0 {
        None
    } else if pairs.last().0 == key {
        Some(pairs.last().1)
    } else {
        query_value(pairs.drop_last(), key)
    }
}

/// The value of `key` in the query, or `default`.
pub open spec fn query_value_or(pairs: Seq<(Seq<char>, Seq<char>)>, key: Seq<char>, default: Seq<char>) -> Seq<char> {
    match query_value(pairs, key) {
        Some(v) => v,
        None => default,
    }
}

/// The value of the last `key` among the query pairs.
pub fn query_get(pairs: &Vec<(String, String)>, key: &str) -> (res: Option<String>)
    ensures
        res.deep_view() == query_value(pairs.deep_view(), key@),
{
    let ghost all = pairs.deep_view();
    let n = pairs.len();
    let mut found: Option<String> = None;
    let mut i: usize = 0;
    assert(all.take(0) =~= Seq::<(Seq<char>, Seq<char>)>::empty());
    while i < n
        invariant
            n == pairs@.len(),
            all == pairs.deep_view(),
            i <= n,
            found.deep_view() == query_value(all.take(i as int), key@),
        decreases n - i,
    {
        assert(all.take(i + 1).drop_last() =~= all.take(i as int));
        assert(all.take(i + 1).last() == (pairs@[i as int].0@, pairs@[i as int].1@));
        if same_text(pairs[i].0.as_str(), key) {
            found = Some(pairs[i].1.clone());
        }
        i += 1;
    }
    assert(all.take(n as int) =~= all);
    found
}

/// Why a launch URL cannot be read.
#[derive(Debug, Clone, Copy, PartialEq, Eq)]
pub enum LaunchUrlError {
    /// A `+`-separated piece has no `:`.
    MissingArgumentValue,
    MissingPlaceLauncherUrl,
    /// The place-launcher URL is not an absolute URL.
    InvalidPlaceLauncherUrl,
    MissingLaunchMode,
    MissingGameInfo,
    /// The place-launcher URL's query has no `request`.
    MissingRequest,
    MissingLaunchTime,
    InvalidLaunchTime,
    InvalidPlaceId,
    InvalidFriendUserId,
    MissingBrowserTrackerId,
    InvalidBrowserTrackerId,
    MissingRobloxLocale,
    MissingGameLocale,
}

/// The join data read from launch arguments and the place-launcher URL's
/// query, checked in this order: the place-launcher URL, the launch mode, the
/// game info, the request, the launch time (given, then a number), the place
/// id (`0` if absent), the followed user id (`0` if absent), the browser
/// tracker id (given, then a number), the two locales.
pub open spec fn join_data_spec(args: LaunchArgsView, query: Seq<(Seq<char>, Seq<char>)>) -> Result<RobloxJoinDataView, LaunchUrlError> {
    match args.place_launcher_url {
        None => Err(LaunchUrlError::MissingPlaceLauncherUrl),
        Some(place_launcher_url) => match args.launch_mode {
            None => Err(LaunchUrlError::MissingLaunchMode),
            Some(launch_mode) => match args.game_info {
                None => Err(LaunchUrlError::MissingGameInfo),
                Some(game_info) => match query_value(query, "request"@) {
                    None => Err(LaunchUrlError::MissingRequest),
                    Some(request) => match args.launch_time {
                        None => Err(LaunchUrlError::MissingLaunchTime),
                        Some(lt) => match parse_u64_spec(lt) {
                            None => Err(LaunchUrlError::InvalidLaunchTime),
                            Some(launch_time) => match parse_u64_spec(query_value_or(query, "placeId"@, "0"@)) {
                                None => Err(LaunchUrlError::InvalidPlaceId),
                                Some(place_id) => match parse_u64_spec(query_value_or(query, "userId"@, "0"@)) {
                                    None => Err(LaunchUrlError::InvalidFriendUserId),
                                    Some(friend_user_id) => match args.browser_tracker_id {
                                        None => Err(LaunchUrlError::MissingBrowserTrackerId),
                                        Some(bt) => match parse_u64_spec(bt) {
                                            None => Err(LaunchUrlError::InvalidBrowserTrackerId),
                                            Some(browser_tracker_id) => match args.roblox_locale {
                                                None => Err(LaunchUrlError::MissingRobloxLocale),
                                                Some(roblox_locale) => match args.game_locale {
                                                    None => Err(LaunchUrlError::MissingGameLocale),
                                                    Some(game_locale) => Ok(RobloxJoinDataView {
                                                        user_id: 0,
                                                        username: Seq::empty(),
                                                        launch_mode,
                                                        game_info,
                                                        request,
                                                        launch_time,
                                                        access_code: query_value_or(query, "accessCode"@, Seq::empty()),
                                                        link_code: query_value_or(query, "linkCode"@, Seq::empty()),
                                                        place_launcher_url,
                                                        is_play_together: query_value_or(query, "isPlayTogetherGame"@, "false"@),
                                                        place_id,
                                                        place_name: Seq::empty(),
                                                        job_id: query_value_or(query, "gameId"@, Seq::empty()),
                                                        friend_user_id,
                                                        browser_tracker_id,
                                                        roblox_locale,
                                                        game_locale,
                                                    }),
                                                },
                                            },
                                        },
                                    },
                                },
                            },
                        },
                    },
                },
            },
        },
    }
}

/// The join data that the launch URL `url` describes, or why it cannot be read.
pub open spec fn launch_url_spec(url: Seq<char>) -> Result<RobloxJoinDataView, LaunchUrlError> {
    match launch_args_spec(url) {
        None => Err(LaunchUrlError::MissingArgumentValue),
        Some(args) => match args.place_launcher_url {
            None => Err(LaunchUrlError::MissingPlaceLauncherUrl),
            Some(place_launcher_url) => match url_query_pairs(place_launcher_url) {
                None => Err(LaunchUrlError::InvalidPlaceLauncherUrl),
                Some(query) => join_data_spec(args, query),
            },
        },
    }
}

/// The value of `key` in the query, or a copy of `default`.
fn query_get_or(pairs: &Vec<(String, String)>, key: &str, default: &str) -> (res: String)
    ensures
        res@ == query_value_or(pairs.deep_view(), key@, default@),
{
    match query_get(pairs, key) {
        Some(v) => v,
        None => String::from_str(default),
    }
}

/// Builds the join data from launch arguments and the place-launcher URL's query.
pub fn join_data_from_launch(args: &LaunchArgs, query: &Vec<(String, String)>) -> (res: Result<RobloxJoinData, LaunchUrlError>)
    ensures
        match res {
            Ok(d) => join_data_spec(args@, query.deep_view()) == Ok::<RobloxJoinDataView, LaunchUrlError>(d@),
            Err(e) => join_data_spec(args@, query.deep_view()) == Err::<RobloxJoinDataView, LaunchUrlError>(e),
        },
{
    let place_launcher_url = match &args.place_launcher_url {
        Some(v) => v.clone(),
        None => return Err(LaunchUrlError::MissingPlaceLauncherUrl),
    };
    let launch_mode = match &args.launch_mode {
        Some(v) => v.clone(),
        None => return Err(LaunchUrlError::MissingLaunchMode),
    };
    let game_info = match &args.game_info {
        Some(v) => v.clone(),
        None => return Err(LaunchUrlError::MissingGameInfo),
    };
    let request = match query_get(query, "request") {
        Some(v) => v,
        None => return Err(LaunchUrlError::MissingRequest),
    };
    let launch_time = match &args.launch_time {
        Some(v) => match parse_u64(v.as_str()) {
            Some(n) => n,
            None => return Err(LaunchUrlError::InvalidLaunchTime),
        },
        None => return Err(LaunchUrlError::MissingLaunchTime),
    };
    let access_code = query_get_or(query, "accessCode", "");
    let link_code = query_get_or(query, "linkCode", "");
    let is_play_together = query_get_or(query, "isPlayTogetherGame", "false");
    let place_id = match parse_u64(query_get_or(query, "placeId", "0").as_str()) {
        Some(n) => n,
        None => return Err(LaunchUrlError::InvalidPlaceId),
    };
    let job_id = query_get_or(query, "gameId", "");
    let friend_user_id = match parse_u64(query_get_or(query, "userId", "0").as_str()) {
        Some(n) => n,
        None => return Err(LaunchUrlError::InvalidFriendUserId),
    };
    let browser_tracker_id = match &args.browser_tracker_id {
        Some(v) => match parse_u64(v.as_str()) {
            Some(n) => n,
            None => return Err(LaunchUrlError::InvalidBrowserTrackerId),
        },
        None => return Err(LaunchUrlError::MissingBrowserTrackerId),
    };
    let roblox_locale = match &args.roblox_locale {
        Some(v) => v.clone(),
        None => return Err(LaunchUrlError::MissingRobloxLocale),
    };
    let game_locale = match &args.game_locale {
        Some(v) => v.clone(),
        None => return Err(LaunchUrlError::MissingGameLocale),
    };
    let d = RobloxJoinData {
        user_id: 0,
        username: String::new(),
        launch_mode,
        game_info,
        request,
        launch_time,
        access_code,
        link_code,
        place_launcher_url,
        is_play_together,
        place_id,
        place_name: String::new(),
        job_id,
        friend_user_id,
        browser_tracker_id,
        roblox_locale,
        game_locale,
    };
    proof {
        reveal_strlit("");
        assert(""@ =~= Seq::<char>::empty());
    }
    Ok(d)
}

/// Reads the join data from a launch URL, or tells why it cannot be read.
pub fn parse_launch_url(url: &str) -> (res: Result<RobloxJoinData, LaunchUrlError>)
    ensures
        match res {
            Ok(d) => launch_url_spec(url@) == Ok::<RobloxJoinDataView, LaunchUrlError>(d@),
            Err(e) => launch_url_spec(url@) == Err::<RobloxJoinDataView, LaunchUrlError>(e),
        },
{
    let args = match parse_launch_args(url) {
        Some(a) => a,
        None => return Err(LaunchUrlError::MissingArgumentValue),
    };
    let query = match &args.place_launcher_url {
        Some(p) => match query_pairs_of(p.as_str()) {
            Ok(q) => q,
            Err(_) => return Err(LaunchUrlError::InvalidPlaceLauncherUrl),
        },
        None => return Err(LaunchUrlError::MissingPlaceLauncherUrl),
    };
    join_data_from_launch(&args, &query)
}

impl Roblox {
    /// The client with the join data that the launch URL describes, the rest
    /// unchanged. The URL must be readable (see [`parse_launch_url`]).
    pub fn with_url(self, url: String) -> (res: Self)
        requires
            launch_url_spec(url@) is Ok,
        ensures
            res@ == (RobloxView { join_data: launch_url_spec(url@)->Ok_0, ..self@ }),
    {
        match parse_launch_url(url.as_str()) {
            Ok(d) => self.with_join_data(d),
            Err(_) => self,
        }
    }

    /// The client with the join data that the launch URL describes, or, where
    /// the URL cannot be read, the reason and the client unchanged.
    pub fn try_with_url(self, url: String) -> (res: Result<Self, (Self, LaunchUrlError)>)
        ensures
            match res {
                Ok(r) => launch_url_spec(url@) is Ok && r@ == (RobloxView {
                    join_data: launch_url_spec(url@)->Ok_0,
                    ..self@
                }),
                Err((r, e)) => launch_url_spec(url@) == Err::<RobloxJoinDataView, LaunchUrlError>(e)
                    && r@ == self@,
            },
    {
        match parse_launch_url(url.as_str()) {
            Ok(_) => Ok(self.with_url(url)),
            Err(e) => Err((self, e)),
        }
    }
}

/// A value that a launch URL carries as it is: it holds no `+` and no `:`.
pub open spec fn plain_launch_value(s: Seq<char>) -> bool {
    free_of(s, '+') && free_of(s, ':')
}

/// The values that the place-launcher URL of `d` carries are plain: the
/// access and link codes of a private-server request, the job id and the
/// play-together flag of any other.
pub open spec fn place_values_plain(d: RobloxJoinDataView) -> bool {
    if d.request == "RequestPrivateGame"@ {
        plain_launch_value(d.access_code) && plain_launch_value(d.link_code)
    } else {
        plain_launch_value(d.job_id) && plain_launch_value(d.is_play_together)
    }
}

/// No `+` or `:` from position `i` on.
spec fn plain_from(s: Seq<char>, i: nat) -> bool
    decreases s.len() - i,
{
    if i >= s.len() {
        true
    } else {
        s[i as int] != '+' && s[i as int] != ':' && plain_from(s, i + 1)
    }
}

proof fn lemma_plain_from(s: Seq<char>, i: nat)
    requires
        plain_from(s, i),
    ensures
        forall|k: int| i <= k < s.len() ==> s[k] != '+' && s[k] != ':',
    decreases s.len() - i,
{
    if i < s.len() {
        lemma_plain_from(s, i + 1);
    }
}

proof fn lemma_plain_concat(a: Seq<char>, b: Seq<char>)
    requires
        plain_launch_value(a),
        plain_launch_value(b),
    ensures
        plain_launch_value(a + b),
{
    assert forall|i: int| 0 <= i < (a + b).len() implies (a + b)[i] != '+' && (a + b)[i] != ':' by {
        if i < a.len() {
            assert((a + b)[i] == a[i]);
        } else {
            assert((a + b)[i] == b[i - a.len()]);
        }
    }
}

proof fn lemma_decimal_plain(n: nat)
    ensures
        plain_launch_value(decimal_of(n)),
{
    lemma_decimal_of(n);
}

/// The two openings of a place-launcher URL, up to the browser tracker id,
/// hold no `+` and no `:`.
proof fn lemma_place_launcher_prefix_plain(l: Seq<char>)
    requires
        l == "https%3A%2F%2Fassetgame.roblox.com%2Fgame%2FPlaceLauncher.ashx%3Frequest%3DRequestPrivateGame%26browserTrackerId%3D"@ || l == "https%3A%2F%2Fassetgame.roblox.com%2Fgame%2FPlaceLauncher.ashx%3Frequest%3DRequestGameJob%26browserTrackerId%3D"@,
    ensures
        plain_launch_value(l),
{
    reveal_strlit(
        "https%3A%2F%2Fassetgame.roblox.com%2Fgame%2FPlaceLauncher.ashx%3Frequest%3DRequestPrivateGame%26browserTrackerId%3D",
    );
    reveal_strlit(
        "https%3A%2F%2Fassetgame.roblox.com%2Fgame%2FPlaceLauncher.ashx%3Frequest%3DRequestGameJob%26browserTrackerId%3D",
    );
    assert(plain_from(l, 110)) by { reveal_with_fuel(plain_from, 12); }
    assert(plain_from(l, 100)) by { reveal_with_fuel(plain_from, 12); }
    assert(plain_from(l, 90)) by { reveal_with_fuel(plain_from, 12); }
    assert(plain_from(l, 80)) by { reveal_with_fuel(plain_from, 12); }
    assert(plain_from(l, 70)) by { reveal_with_fuel(plain_from, 12); }
    assert(plain_from(l, 60)) by { reveal_with_fuel(plain_from, 12); }
    assert(plain_from(l, 50)) by { reveal_with_fuel(plain_from, 12); }
    assert(plain_from(l, 40)) by { reveal_with_fuel(plain_from, 12); }
    assert(plain_from(l, 30)) by { reveal_with_fuel(plain_from, 12); }
    assert(plain_from(l, 20)) by { reveal_with_fuel(plain_from, 12); }
    assert(plain_from(l, 10)) by { reveal_with_fuel(plain_from, 12); }
    assert(plain_from(l, 0)) by { reveal_with_fuel(plain_from, 12); }
    lemma_plain_from(l, 0);
}

proof fn lemma_encoded_place_launcher_url_plain(d: RobloxJoinDataView)
    requires
        place_values_plain(d),
    ensures
        plain_launch_value(encoded_place_launcher_url(d)),
{
    reveal_strlit("%26placeId%3D");
    reveal_strlit("%26accessCode%3D");
    reveal_strlit("%26linkCode%3D");
    reveal_strlit("%26gameId%3D");
    reveal_strlit("%26isPlayTogetherGame%3D");
    lemma_decimal_plain(d.browser_tracker_id as nat);
    lemma_decimal_plain(d.place_id as nat);
    let bt = decimal_of(d.browser_tracker_id as nat);
    let pl = decimal_of(d.place_id as nat);
    if d.request == "RequestPrivateGame"@ {
        let a = "https%3A%2F%2Fassetgame.roblox.com%2Fgame%2FPlaceLauncher.ashx%3Frequest%3DRequestPrivateGame%26browserTrackerId%3D"@;
        lemma_place_launcher_prefix_plain(a);
        assert(plain_launch_value("%26placeId%3D"@));
        assert(plain_launch_value("%26accessCode%3D"@));
        assert(plain_launch_value("%26linkCode%3D"@));
        lemma_plain_concat(a, bt);
        lemma_plain_concat(a + bt, "%26placeId%3D"@);
        lemma_plain_concat(a + bt + "%26placeId%3D"@, pl);
        lemma_plain_concat(a + bt + "%26placeId%3D"@ + pl, "%26accessCode%3D"@);
        lemma_plain_concat(a + bt + "%26placeId%3D"@ + pl + "%26accessCode%3D"@, d.access_code);
        lemma_plain_concat(
            a + bt + "%26placeId%3D"@ + pl + "%26accessCode%3D"@ + d.access_code,
            "%26linkCode%3D"@,
        );
        lemma_plain_concat(
            a + bt + "%26placeId%3D"@ + pl + "%26accessCode%3D"@ + d.access_code + "%26linkCode%3D"@,
            d.link_code,
        );
    } else {
        let a = "https%3A%2F%2Fassetgame.roblox.com%2Fgame%2FPlaceLauncher.ashx%3Frequest%3DRequestGameJob%26browserTrackerId%3D"@;
        lemma_place_launcher_prefix_plain(a);
        assert(plain_launch_value("%26placeId%3D"@));
        assert(plain_launch_value("%26gameId%3D"@));
        assert(plain_launch_value("%26isPlayTogetherGame%3D"@));
        lemma_plain_concat(a, bt);
        lemma_plain_concat(a + bt, "%26placeId%3D"@);
        lemma_plain_concat(a + bt + "%26placeId%3D"@, pl);
        lemma_plain_concat(a + bt + "%26placeId%3D"@ + pl, "%26gameId%3D"@);
        lemma_plain_concat(a + bt + "%26placeId%3D"@ + pl + "%26gameId%3D"@, d.job_id);
        lemma_plain_concat(
            a + bt + "%26placeId%3D"@ + pl + "%26gameId%3D"@ + d.job_id,
            "%26isPlayTogetherGame%3D"@,
        );
        lemma_plain_concat(
            a + bt + "%26placeId%3D"@ + pl + "%26gameId%3D"@ + d.job_id + "%26isPlayTogetherGame%3D"@,
            d.is_play_together,
        );
    }
}

/// A `key:value` piece splits at its colon into the key and the value.
proof fn lemma_key_value_piece(key: Seq<char>, value: Seq<char>)
    requires
        free_of(key, ':'),
        free_of(value, ':'),
    ensures
        split_on(key + seq![':'] + value, ':') == seq![key, value],
{
    lemma_split_concat(key, value, ':');
    lemma_split_free(key, ':');
    lemma_split_free(value, ':');
    assert(seq![key] + seq![value] =~= seq![key, value]);
}

/// A plain piece is not split at `+`.
proof fn lemma_plain_piece(key: Seq<char>, value: Seq<char>)
    requires
        plain_launch_value(key),
        plain_launch_value(value),
    ensures
        free_of(key + seq![':'] + value, '+'),
{
    assert forall|i: int| 0 <= i < (key + seq![':'] + value).len() implies (key + seq![':']
        + value)[i] != '+' by {
        if i < key.len() {
            assert((key + seq![':'] + value)[i] == key[i]);
        } else if i == key.len() {
            assert((key + seq![':'] + value)[i] == ':');
        } else {
            assert((key + seq![':'] + value)[i] == value[i - key.len() - 1]);
        }
    }
}

/// A `key:value` piece of a launch URL.
spec fn url_piece(key: Seq<char>, value: Seq<char>) -> Seq<char> {
    key + seq![':'] + value
}

/// The `+`-separated pieces of the launch URL of `d`.
spec fn launch_url_pieces(d: RobloxJoinDataView) -> Seq<Seq<char>> {
    seq![
        url_piece("roblox-player"@, "1"@),
        url_piece("launchmode"@, d.launch_mode),
        url_piece("gameinfo"@, d.game_info),
        url_piece("launchtime"@, decimal_of(d.launch_time as nat)),
        url_piece("placelauncherurl"@, encoded_place_launcher_url(d)),
        url_piece("browsertrackerid"@, decimal_of(d.browser_tracker_id as nat)),
        url_piece("robloxLocale"@, d.roblox_locale),
        url_piece("gameLocale"@, d.game_locale),
    ]
}

/// The values of a launch URL that carries only plain values.
spec fn launch_url_values_plain(d: RobloxJoinDataView) -> bool {
    &&& plain_launch_value(d.launch_mode)
    &&& plain_launch_value(d.game_info)
    &&& plain_launch_value(d.roblox_locale)
    &&& plain_launch_value(d.game_locale)
    &&& place_values_plain(d)
}

proof fn lemma_launch_url_splits(d: RobloxJoinDataView)
    requires
        launch_url_values_plain(d),
    ensures
        split_on(launch_url_of(d), '+') == launch_url_pieces(d),
{
    let k0 = "roblox-player"@;
    let k1 = "launchmode"@;
    let k2 = "gameinfo"@;
    let k3 = "launchtime"@;
    let k4 = "placelauncherurl"@;
    let k5 = "browsertrackerid"@;
    let k6 = "robloxLocale"@;
    let k7 = "gameLocale"@;
    let v3 = decimal_of(d.launch_time as nat);
    let v4 = encoded_place_launcher_url(d);
    let v5 = decimal_of(d.browser_tracker_id as nat);
    let p0 = url_piece(k0, "1"@);
    let p1 = url_piece(k1, d.launch_mode);
    let p2 = url_piece(k2, d.game_info);
    let p3 = url_piece(k3, v3);
    let p4 = url_piece(k4, v4);
    let p5 = url_piece(k5, v5);
    let p6 = url_piece(k6, d.roblox_locale);
    let p7 = url_piece(k7, d.game_locale);
    let t1 = p0 + seq!['+'] + p1;
    let t2 = t1 + seq!['+'] + p2;
    let t3 = t2 + seq!['+'] + p3;
    let t4 = t3 + seq!['+'] + p4;
    let t5 = t4 + seq!['+'] + p5;
    let t6 = t5 + seq!['+'] + p6;
    let t7 = t6 + seq!['+'] + p7;
    assert(launch_url_of(d) =~= t7) by {
        reveal_strlit("roblox-player:1+launchmode:");
        reveal_strlit("+gameinfo:");
        reveal_strlit("+launchtime:");
        reveal_strlit("+placelauncherurl:");
        reveal_strlit("+browsertrackerid:");
        reveal_strlit("+robloxLocale:");
        reveal_strlit("+gameLocale:");
        reveal_strlit("roblox-player");
        reveal_strlit("1");
        reveal_strlit("launchmode");
        reveal_strlit("gameinfo");
        reveal_strlit("launchtime");
        reveal_strlit("placelauncherurl");
        reveal_strlit("browsertrackerid");
        reveal_strlit("robloxLocale");
        reveal_strlit("gameLocale");
        assert("roblox-player:1+launchmode:"@ =~= p0 + seq!['+'] + k1 + seq![':']);
        assert("+gameinfo:"@ =~= seq!['+'] + k2 + seq![':']);
        assert("+launchtime:"@ =~= seq!['+'] + k3 + seq![':']);
        assert("+placelauncherurl:"@ =~= seq!['+'] + k4 + seq![':']);
        assert("+browsertrackerid:"@ =~= seq!['+'] + k5 + seq![':']);
        assert("+robloxLocale:"@ =~= seq!['+'] + k6 + seq![':']);
        assert("+gameLocale:"@ =~= seq!['+'] + k7 + seq![':']);
    }
    assert(forall|j: int| 0 <= j < 8 ==> free_of(#[trigger] launch_url_pieces(d)[j], '+')) by {
        reveal_strlit("roblox-player");
        reveal_strlit("1");
        reveal_strlit("launchmode");
        reveal_strlit("gameinfo");
        reveal_strlit("launchtime");
        reveal_strlit("placelauncherurl");
        reveal_strlit("browsertrackerid");
        reveal_strlit("robloxLocale");
        reveal_strlit("gameLocale");
        lemma_decimal_plain(d.launch_time as nat);
        lemma_decimal_plain(d.browser_tracker_id as nat);
        lemma_encoded_place_launcher_url_plain(d);
        assert(plain_launch_value(k0));
        assert(plain_launch_value("1"@));
        assert(plain_launch_value(k1));
        assert(plain_launch_value(k2));
        assert(plain_launch_value(k3));
        assert(plain_launch_value(k4));
        assert(plain_launch_value(k5));
        assert(plain_launch_value(k6));
        assert(plain_launch_value(k7));
        lemma_plain_piece(k0, "1"@);
        lemma_plain_piece(k1, d.launch_mode);
        lemma_plain_piece(k2, d.game_info);
        lemma_plain_piece(k3, v3);
        lemma_plain_piece(k4, v4);
        lemma_plain_piece(k5, v5);
        lemma_plain_piece(k6, d.roblox_locale);
        lemma_plain_piece(k7, d.game_locale);
    }
    let ps = launch_url_pieces(d);
    assert(free_of(ps[0], '+'));
    assert(free_of(ps[1], '+'));
    assert(free_of(ps[2], '+'));
    assert(free_of(ps[3], '+'));
    assert(free_of(ps[4], '+'));
    assert(free_of(ps[5], '+'));
    assert(free_of(ps[6], '+'));
    assert(free_of(ps[7], '+'));
    lemma_split_free(p0, '+');
    lemma_split_free(p1, '+');
    lemma_split_free(p2, '+');
    lemma_split_free(p3, '+');
    lemma_split_free(p4, '+');
    lemma_split_free(p5, '+');
    lemma_split_free(p6, '+');
    lemma_split_free(p7, '+');
    lemma_split_concat(p0, p1, '+');
    lemma_split_concat(t1, p2, '+');
    lemma_split_concat(t2, p3, '+');
    lemma_split_concat(t3, p4, '+');
    lemma_split_concat(t4, p5, '+');
    lemma_split_concat(t5, p6, '+');
    lemma_split_concat(t6, p7, '+');
    assert(split_on(t7, '+') =~= ps);
}

/// Taking a plain `key:value` piece into the arguments.
proof fn lemma_take_piece(args: LaunchArgsView, key: Seq<char>, value: Seq<char>)
    requires
        plain_launch_value(key),
        plain_launch_value(value),
        url_piece(key, value) != "roblox-player:"@,
    ensures
        with_launch_arg(args, url_piece(key, value)) == Some(
            if key == "launchmode"@ {
                LaunchArgsView { launch_mode: Some(value), ..args }
            } else if key == "gameinfo"@ {
                LaunchArgsView { game_info: Some(value), ..args }
            } else if key == "launchtime"@ {
                LaunchArgsView { launch_time: Some(value), ..args }
            } else if key == "placelauncherurl"@ {
                LaunchArgsView {
                    place_launcher_url: Some(unescape_place_launcher_url(value)),
                    ..args
                }
            } else if key == "browsertrackerid"@ {
                LaunchArgsView { browser_tracker_id: Some(value), ..args }
            } else if key == "robloxLocale"@ {
                LaunchArgsView { roblox_locale: Some(value), ..args }
            } else if key == "gameLocale"@ {
                LaunchArgsView { game_locale: Some(value), ..args }
            } else {
                args
            },
        ),
{
    lemma_key_value_piece(key, value);
}

proof fn lemma_launch_url_pieces_taken(d: RobloxJoinDataView)
    requires
        launch_url_values_plain(d),
    ensures
        launch_args_of_pieces(launch_url_pieces(d)) == Some(
            LaunchArgsView {
                launch_mode: Some(d.launch_mode),
                game_info: Some(d.game_info),
                launch_time: Some(decimal_of(d.launch_time as nat)),
                place_launcher_url: Some(unescape_place_launcher_url(encoded_place_launcher_url(d))),
                browser_tracker_id: Some(decimal_of(d.browser_tracker_id as nat)),
                roblox_locale: Some(d.roblox_locale),
                game_locale: Some(d.game_locale),
            },
        ),
{
    reveal_strlit("roblox-player");
    reveal_strlit("roblox-player:");
    reveal_strlit("1");
    reveal_strlit("launchmode");
    reveal_strlit("gameinfo");
    reveal_strlit("launchtime");
    reveal_strlit("placelauncherurl");
    reveal_strlit("browsertrackerid");
    reveal_strlit("robloxLocale");
    reveal_strlit("gameLocale");
    let k0 = "roblox-player"@;
    let k1 = "launchmode"@;
    let k2 = "gameinfo"@;
    let k3 = "launchtime"@;
    let k4 = "placelauncherurl"@;
    let k5 = "browsertrackerid"@;
    let k6 = "robloxLocale"@;
    let k7 = "gameLocale"@;
    let v3 = decimal_of(d.launch_time as nat);
    let v4 = encoded_place_launcher_url(d);
    let v5 = decimal_of(d.browser_tracker_id as nat);
    lemma_decimal_plain(d.launch_time as nat);
    lemma_decimal_plain(d.browser_tracker_id as nat);
    lemma_encoded_place_launcher_url_plain(d);
    let ps = launch_url_pieces(d);
    let s0 = ps.take(1);
    let s1 = ps.take(2);
    let s2 = ps.take(3);
    let s3 = ps.take(4);
    let s4 = ps.take(5);
    let s5 = ps.take(6);
    let s6 = ps.take(7);
    let s7 = ps.take(8);
    let a0 = no_launch_args();
    assert(s0.drop_last() =~= Seq::<Seq<char>>::empty());
    assert(launch_args_of_pieces(s0) == Some(a0)) by {
        assert(plain_launch_value(k0));
        assert(plain_launch_value("1"@));
        assert(url_piece(k0, "1"@).len() != "roblox-player:"@.len());
        lemma_take_piece(a0, k0, "1"@);
        assert(k0.len() == 13);
        assert(k0 != k1 && k0 != k2 && k0 != k3 && k0 != k4 && k0 != k5 && k0 != k6 && k0 != k7);
        assert(with_launch_arg(a0, url_piece(k0, "1"@)) == Some(a0));
        assert(s0.last() == url_piece(k0, "1"@));
        assert(launch_args_of_pieces(s0.drop_last()) == Some(a0));
    }
    let a1 = LaunchArgsView { launch_mode: Some(d.launch_mode), ..a0 };
    assert(launch_args_of_pieces(s1) == Some(a1)) by {
        assert(s1.drop_last() =~= s0);
        assert(plain_launch_value(k1));
        assert(url_piece(k1, d.launch_mode)[0] != "roblox-player:"@[0]);
        lemma_take_piece(a0, k1, d.launch_mode);
    }
    let a2 = LaunchArgsView { game_info: Some(d.game_info), ..a1 };
    assert(launch_args_of_pieces(s2) == Some(a2)) by {
        assert(s2.drop_last() =~= s1);
        assert(plain_launch_value(k2));
        assert(url_piece(k2, d.game_info)[0] != "roblox-player:"@[0]);
        lemma_take_piece(a1, k2, d.game_info);
    }
    let a3 = LaunchArgsView { launch_time: Some(v3), ..a2 };
    assert(launch_args_of_pieces(s3) == Some(a3)) by {
        assert(s3.drop_last() =~= s2);
        assert(plain_launch_value(k3));
        assert(url_piece(k3, v3)[0] != "roblox-player:"@[0]);
        assert(k3[6] != k1[6]);
        lemma_take_piece(a2, k3, v3);
    }
    let a4 = LaunchArgsView { place_launcher_url: Some(unescape_place_launcher_url(v4)), ..a3 };
    assert(launch_args_of_pieces(s4) == Some(a4)) by {
        assert(s4.drop_last() =~= s3);
        assert(plain_launch_value(k4));
        assert(url_piece(k4, v4)[0] != "roblox-player:"@[0]);
        lemma_take_piece(a3, k4, v4);
    }
    let a5 = LaunchArgsView { browser_tracker_id: Some(v5), ..a4 };
    assert(launch_args_of_pieces(s5) == Some(a5)) by {
        assert(s5.drop_last() =~= s4);
        assert(plain_launch_value(k5));
        assert(url_piece(k5, v5)[0] != "roblox-player:"@[0]);
        assert(k5[0] != k4[0]);
        lemma_take_piece(a4, k5, v5);
    }
    let a6 = LaunchArgsView { roblox_locale: Some(d.roblox_locale), ..a5 };
    assert(launch_args_of_pieces(s6) == Some(a6)) by {
        assert(s6.drop_last() =~= s5);
        assert(plain_launch_value(k6));
        assert(url_piece(k6, d.roblox_locale)[6] != "roblox-player:"@[6]);
        lemma_take_piece(a5, k6, d.roblox_locale);
    }
    let a7 = LaunchArgsView { game_locale: Some(d.game_locale), ..a6 };
    assert(launch_args_of_pieces(s7) == Some(a7)) by {
        assert(s7.drop_last() =~= s6);
        assert(plain_launch_value(k7));
        assert(url_piece(k7, d.game_locale)[0] != "roblox-player:"@[0]);
        assert(k7[0] != k1[0]);
        assert(k7[0] != k3[0]);
        lemma_take_piece(a6, k7, d.game_locale);
    }
    assert(s7 =~= ps);
}

/// The launch URL that [`RobloxJoinData::as_url`] writes reads back, through the
/// same reading as [`parse_launch_url`], with the launch mode, the game info,
/// the launch time, the browser tracker id and the two locales it was written
/// from, and with the place-launcher URL unescaped; where the values it carries
/// hold no `+` and no `:`.
pub proof fn law_launch_url_reads_back(d: RobloxJoinDataView)
    requires
        plain_launch_value(d.launch_mode),
        plain_launch_value(d.game_info),
        plain_launch_value(d.roblox_locale),
        plain_launch_value(d.game_locale),
        place_values_plain(d),
    ensures
        launch_args_spec(launch_url_of(d)) == Some(
            LaunchArgsView {
                launch_mode: Some(d.launch_mode),
                game_info: Some(d.game_info),
                launch_time: Some(decimal_of(d.launch_time as nat)),
                place_launcher_url: Some(unescape_place_launcher_url(encoded_place_launcher_url(d))),
                browser_tracker_id: Some(decimal_of(d.browser_tracker_id as nat)),
                roblox_locale: Some(d.roblox_locale),
                game_locale: Some(d.game_locale),
            },
        ),
        parse_u64_spec(decimal_of(d.launch_time as nat)) == Some(d.launch_time),
        parse_u64_spec(decimal_of(d.browser_tracker_id as nat)) == Some(d.browser_tracker_id),
{
    law_decimal_round_trip(d.launch_time);
    law_decimal_round_trip(d.browser_tracker_id);
    lemma_launch_url_splits(d);
    lemma_launch_url_pieces_taken(d);
}

/// Where no query pair has the key, the query holds no value for it.
pub proof fn lemma_query_value_absent(pairs: Seq<(Seq<char>, Seq<char>)>, key: Seq<char>)
    requires
        forall|i: int| 0 <= i < pairs.len() ==> #[trigger] pairs[i].0 != key,
    ensures
        query_value(pairs, key) is None,
    decreases pairs.len(),
{
    if pairs.len() > 0 {
        assert(pairs.last() == pairs[pairs.len() - 1]);
        lemma_query_value_absent(pairs.drop_last(), key);
    }
}

/// The value the query holds for a key is that of the last pair with the key.
pub proof fn lemma_query_value_last(pairs: Seq<(Seq<char>, Seq<char>)>, key: Seq<char>, i: int)
    requires
        0 <= i < pairs.len(),
        pairs[i].0 == key,
        forall|j: int| i < j < pairs.len() ==> #[trigger] pairs[j].0 != key,
    ensures
        query_value(pairs, key) == Some(pairs[i].1),
    decreases pairs.len(),
{
    if i < pairs.len() - 1 {
        assert(pairs.last() == pairs[pairs.len() - 1]);
        assert forall|j: int| i < j < pairs.drop_last().len() implies #[trigger] pairs.drop_last()[j].0 != key by {
            assert(pairs.drop_last()[j] == pairs[j]);
        }
        lemma_query_value_last(pairs.drop_last(), key, i);
    }
}

/// A launch whose place-launcher query has no `isPlayTogetherGame` is not a
/// play-together game (`false`); where the query has it, the last such pair
/// gives the flag.
pub proof fn law_play_together_defaults_to_false(
    args: LaunchArgsView,
    query: Seq<(Seq<char>, Seq<char>)>,
    i: int,
)
    ensures
        (forall|k: int| 0 <= k < query.len() ==> #[trigger] query[k].0 != "isPlayTogetherGame"@)
            ==> (join_data_spec(args, query) matches Ok(d) ==> d.is_play_together == "false"@),
        (0 <= i < query.len() && query[i].0 == "isPlayTogetherGame"@ && forall|j: int|
            i < j < query.len() ==> #[trigger] query[j].0 != "isPlayTogetherGame"@)
            ==> (join_data_spec(args, query) matches Ok(d) ==> d.is_play_together == query[i].1),
{
    if forall|k: int| 0 <= k < query.len() ==> #[trigger] query[k].0 != "isPlayTogetherGame"@ {
        lemma_query_value_absent(query, "isPlayTogetherGame"@);
    }
    if 0 <= i < query.len() && query[i].0 == "isPlayTogetherGame"@ && forall|j: int|
        i < j < query.len() ==> #[trigger] query[j].0 != "isPlayTogetherGame"@ {
        lemma_query_value_last(query, "isPlayTogetherGame"@, i);
    }
}

} // verus!
