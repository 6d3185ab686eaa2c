//! The records that detectors produce and the scan returns.

use vstd::prelude::*;
use crate::assoc::{assoc_insert, assoc_map, key_views, keys_unique};

verus! {

/// The operating system a scan runs on.
#[derive(Clone, Copy, PartialEq, Eq, Structural, Debug, Hash)]
pub enum HostOs {
    Windows,
    MacOs,
    Linux,
    Other,
}

impl HostOs {
    /// The host named as `std::env::consts::OS` names it: `"windows"`,
    /// `"macos"`, `"linux"`; any other name is `Other`.
    pub fn from_os_name(name: &str) -> (r: HostOs)
        ensures
            r == (if name@ == "windows"@ {
                HostOs::Windows
            } else if name@ == "macos"@ {
                HostOs::MacOs
            } else if name@ == "linux"@ {
                HostOs::Linux
            } else {
                HostOs::Other
            }),
    {
        let n = crate::text::chars_of(name);
        let w = crate::text::chars_of("windows");
        let m = crate::text::chars_of("macos");
        let l = crate::text::chars_of("linux");
        if crate::text::same_chars(&n, &w) {
            HostOs::Windows
        } else if crate::text::same_chars(&n, &m) {
            HostOs::MacOs
        } else if crate::text::same_chars(&n, &l) {
            HostOs::Linux
        } else {
            HostOs::Other
        }
    }
}

/// The platforms a scan knows, in the order in which they are scanned.
#[derive(Clone, Copy, PartialEq, Eq, Structural, Debug, Hash)]
pub enum PlatformKind {
    Steam,
    EpicGames,
    Uplay,
    GogGalaxy,
    RiotGames,
    WinRegistry,
    OsxBundle,
    EaApp,
}

/// The display name of a platform.
pub open spec fn platform_name(k: PlatformKind) -> Seq<char> {
    match k {
        PlatformKind::Steam => GamePlatform::STEAM_NAME@,
        PlatformKind::EpicGames => GamePlatform::EPIC_GAMES_NAME@,
        PlatformKind::Uplay => GamePlatform::UPLAY_NAME@,
        PlatformKind::GogGalaxy => GamePlatform::GOG_GALAXY_NAME@,
        PlatformKind::RiotGames => GamePlatform::RIOT_GAMES_NAME@,
        PlatformKind::WinRegistry => GamePlatform::WIN_REGISTRY_NAME@,
        PlatformKind::OsxBundle => GamePlatform::OSX_BUNDLE_NAME@,
        PlatformKind::EaApp => GamePlatform::EA_APP_NAME@,
    }
}

impl PlatformKind {
    /// The platform's display name.
    pub fn display_name(&self) -> (r: &'static str)
        ensures
            r@ == platform_name(*self),
    {
        match self {
            PlatformKind::Steam => GamePlatform::STEAM_NAME,
            PlatformKind::EpicGames => GamePlatform::EPIC_GAMES_NAME,
            PlatformKind::Uplay => GamePlatform::UPLAY_NAME,
            PlatformKind::GogGalaxy => GamePlatform::GOG_GALAXY_NAME,
            PlatformKind::RiotGames => GamePlatform::RIOT_GAMES_NAME,
            PlatformKind::WinRegistry => GamePlatform::WIN_REGISTRY_NAME,
            PlatformKind::OsxBundle => GamePlatform::OSX_BUNDLE_NAME,
            PlatformKind::EaApp => GamePlatform::EA_APP_NAME,
        }
    }
}

/// A platform together with the identifier the platform gives the game.
#[derive(Debug, PartialEq, Eq, Hash)]
pub enum GamePlatform {
    Steam { app_id: String },
    EpicGames { app_name: String },
    WinRegistry { registry_key: String },
    Uplay { app_id: String },
    GogGalaxy { product_id: String },
    RiotGames { app_name: String },
    OsxBundle { bundle_id: String },
    EaApp { game_id: String },
}

impl GamePlatform {
    pub const STEAM_NAME: &'static str = "Steam";
    pub const EPIC_GAMES_NAME: &'static str = "Epic Games";
    pub const WIN_REGISTRY_NAME: &'static str = "Windows Registry";
    pub const UPLAY_NAME: &'static str = "Ubisoft Connect";
    pub const GOG_GALAXY_NAME: &'static str = "GOG Galaxy";
    pub const RIOT_GAMES_NAME: &'static str = "Riot Games";
    pub const OSX_BUNDLE_NAME: &'static str = "macOS App";
    pub const EA_APP_NAME: &'static str = "EA App";

    /// Which platform this is.
    pub open spec fn platform_kind(self) -> PlatformKind {
        match self {
            GamePlatform::Steam { .. } => PlatformKind::Steam,
            GamePlatform::EpicGames { .. } => PlatformKind::EpicGames,
            GamePlatform::WinRegistry { .. } => PlatformKind::WinRegistry,
            GamePlatform::Uplay { .. } => PlatformKind::Uplay,
            GamePlatform::GogGalaxy { .. } => PlatformKind::GogGalaxy,
            GamePlatform::RiotGames { .. } => PlatformKind::RiotGames,
            GamePlatform::OsxBundle { .. } => PlatformKind::OsxBundle,
            GamePlatform::EaApp { .. } => PlatformKind::EaApp,
        }
    }

    /// The identifier the platform gives the game.
    pub open spec fn spec_identifier(self) -> Seq<char> {
        match self {
            GamePlatform::Steam { app_id } => app_id@,
            GamePlatform::EpicGames { app_name } => app_name@,
            GamePlatform::WinRegistry { registry_key } => registry_key@,
            GamePlatform::Uplay { app_id } => app_id@,
            GamePlatform::GogGalaxy { product_id } => product_id@,
            GamePlatform::RiotGames { app_name } => app_name@,
            GamePlatform::OsxBundle { bundle_id } => bundle_id@,
            GamePlatform::EaApp { game_id } => game_id@,
        }
    }

    /// A platform value is valid when its identifier is not empty.
    pub open spec fn is_valid(self) -> bool {
        self.spec_identifier().len() > 0
    }

    /// Which platform this is.
    pub fn kind(&self) -> (r: PlatformKind)
        ensures
            r == self.platform_kind(),
    {
        match self {
            GamePlatform::Steam { .. } => PlatformKind::Steam,
            GamePlatform::EpicGames { .. } => PlatformKind::EpicGames,
            GamePlatform::WinRegistry { .. } => PlatformKind::WinRegistry,
            GamePlatform::Uplay { .. } => PlatformKind::Uplay,
            GamePlatform::GogGalaxy { .. } => PlatformKind::GogGalaxy,
            GamePlatform::RiotGames { .. } => PlatformKind::RiotGames,
            GamePlatform::OsxBundle { .. } => PlatformKind::OsxBundle,
            GamePlatform::EaApp { .. } => PlatformKind::EaApp,
        }
    }

    /// The platform's display name.
    pub fn name(&self) -> (r: &str)
        ensures
            r@ == platform_name(self.platform_kind()),
    {
        match self {
            GamePlatform::Steam { .. } => Self::STEAM_NAME,
            GamePlatform::EpicGames { .. } => Self::EPIC_GAMES_NAME,
            GamePlatform::WinRegistry { .. } => Self::WIN_REGISTRY_NAME,
            GamePlatform::Uplay { .. } => Self::UPLAY_NAME,
            GamePlatform::GogGalaxy { .. } => Self::GOG_GALAXY_NAME,
            GamePlatform::RiotGames { .. } => Self::RIOT_GAMES_NAME,
            GamePlatform::OsxBundle { .. } => Self::OSX_BUNDLE_NAME,
            GamePlatform::EaApp { .. } => Self::EA_APP_NAME,
        }
    }

    /// The identifier the platform gives the game.
    pub fn identifier(&self) -> (r: &str)
        ensures
            r@ == self.spec_identifier(),
    {
        match self {
            GamePlatform::Steam { app_id } => app_id.as_str(),
            GamePlatform::EpicGames { app_name } => app_name.as_str(),
            GamePlatform::WinRegistry { registry_key } => registry_key.as_str(),
            GamePlatform::Uplay { app_id } => app_id.as_str(),
            GamePlatform::GogGalaxy { product_id } => product_id.as_str(),
            GamePlatform::RiotGames { app_name } => app_name.as_str(),
            GamePlatform::OsxBundle { bundle_id } => bundle_id.as_str(),
            GamePlatform::EaApp { game_id } => game_id.as_str(),
        }
    }
}

impl Clone for GamePlatform {
    fn clone(&self) -> (r: Self)
        ensures
            r == *self,
    {
        match self {
            GamePlatform::Steam { app_id } => GamePlatform::Steam { app_id: app_id.clone() },
            GamePlatform::EpicGames { app_name } => GamePlatform::EpicGames { app_name: app_name.clone() },
            GamePlatform::WinRegistry { registry_key } => GamePlatform::WinRegistry { registry_key: registry_key.clone() },
            GamePlatform::Uplay { app_id } => GamePlatform::Uplay { app_id: app_id.clone() },
            GamePlatform::GogGalaxy { product_id } => GamePlatform::GogGalaxy { product_id: product_id.clone() },
            GamePlatform::RiotGames { app_name } => GamePlatform::RiotGames { app_name: app_name.clone() },
            GamePlatform::OsxBundle { bundle_id } => GamePlatform::OsxBundle { bundle_id: bundle_id.clone() },
            GamePlatform::EaApp { game_id } => GamePlatform::EaApp { game_id: game_id.clone() },
        }
    }
}


/// The view of an optional string.
pub open spec fn opt_view(o: Option<String>) -> Option<Seq<char>> {
    match o {
        Some(s) => Some(s@),
        None => None,
    }
}

/// What a detected game holds, as mathematical values.
pub struct GameView {
    pub id: Seq<char>,
    pub name: Seq<char>,
    pub executable_path: Option<Seq<char>>,
    pub install_path: Option<Seq<char>>,
    pub platform: GamePlatform,
    pub platform_data: Map<Seq<char>, Seq<char>>,
}

/// One located installation of a game.
#[derive(Debug)]
pub struct DetectedGame {
    /// The platform-scoped identifier, usually the platform's own.
    pub id: String,
    /// The display name.
    pub name: String,
    /// The game's executable, where one was found.
    pub executable_path: Option<String>,
    /// The root of the installation, where known.
    pub install_path: Option<String>,
    /// Where the game was found and under which identifier.
    pub platform: GamePlatform,
    /// Platform-specific extras such as a version or a publisher; each key once.
    pub platform_data: Vec<(String, String)>,
}

/// The view of a pair of strings.
pub open spec fn pair_view(p: (String, String)) -> (Seq<char>, Seq<char>) {
    (p.0@, p.1@)
}

impl View for DetectedGame {
    type V = GameView;

    open spec fn view(&self) -> GameView {
        GameView {
            id: self.id@,
            name: self.name@,
            executable_path: opt_view(self.executable_path),
            install_path: opt_view(self.install_path),
            platform: self.platform,
            platform_data: assoc_map(self.platform_data@.map_values(|p: (String, String)| pair_view(p))),
        }
    }
}

impl DetectedGame {
    /// Each key of the extras occurs once.
    pub open spec fn wf(&self) -> bool {
        keys_unique(key_views(self.platform_data@))
    }

    /// A game with the given fields and no extras.
    pub fn new(
        id: String,
        name: String,
        executable_path: Option<String>,
        install_path: Option<String>,
        platform: GamePlatform,
    ) -> (r: Self)
        ensures
            r.wf(),
            r.id == id,
            r.name == name,
            r.executable_path == executable_path,
            r.install_path == install_path,
            r.platform == platform,
            r@.platform_data == Map::<Seq<char>, Seq<char>>::empty(),
    {
        let r = DetectedGame {
            id,
            name,
            executable_path,
            install_path,
            platform,
            platform_data: Vec::new(),
        };
        assert(r.platform_data@.map_values(|p: (String, String)| pair_view(p)) =~= Seq::empty());
        r
    }

    /// The same game with the extra `key` set to `value`.
    pub fn with_platform_data(self, key: String, value: String) -> (r: Self)
        requires
            self.wf(),
        ensures
            r.wf(),
            r.id == self.id,
            r.name == self.name,
            r.executable_path == self.executable_path,
            r.install_path == self.install_path,
            r.platform == self.platform,
            r@.platform_data == self@.platform_data.insert(key@, value@),
    {
        let mut game = self;
        assoc_insert(&mut game.platform_data, key, value);
        proof {
            lemma_pairs_view(self.platform_data@);
            lemma_pairs_view(game.platform_data@);
        }
        game
    }
}

/// Viewing the values of string pairs changes nothing in their keys.
pub proof fn lemma_pairs_view(s: Seq<(String, String)>)
    ensures
        assoc_map(s.map_values(|p: (String, String)| pair_view(p))) == crate::assoc::assoc_map(
            key_views(s),
        ).map_values(|v: String| v@),
        keys_unique(s.map_values(|p: (String, String)| pair_view(p))) == keys_unique(key_views(s)),
    decreases s.len(),
{
    let a = s.map_values(|p: (String, String)| pair_view(p));
    let b = key_views(s);
    assert(keys_unique(a) == keys_unique(b)) by {
        assert forall|i: int| 0 <= i < s.len() implies a[i].0 == b[i].0 by {}
    }
    if s.len() > 0 {
        lemma_pairs_view(s.drop_last());
        assert(s.drop_last().map_values(|p: (String, String)| pair_view(p)) =~= a.drop_last());
        assert(key_views(s.drop_last()) =~= b.drop_last());
        assert(assoc_map(a) =~= assoc_map(b).map_values(|v: String| v@));
    } else {
        assert(assoc_map(a) =~= assoc_map(b).map_values(|v: String| v@));
    }
}

impl Clone for DetectedGame {
    fn clone(&self) -> (r: Self)
        ensures
            r.id == self.id,
            r.name == self.name,
            r.executable_path == self.executable_path,
            r.install_path == self.install_path,
            r.platform == self.platform,
            r.platform_data@ == self.platform_data@,
            r@ == self@,
            r.wf() == self.wf(),
    {
        let mut data: Vec<(String, String)> = Vec::new();
        let mut i: usize = 0;
        while i < self.platform_data.len()
            invariant
                i <= self.platform_data.len(),
                data@ == self.platform_data@.subrange(0, i as int),
            decreases self.platform_data.len() - i,
        {
            let (k, v) = &self.platform_data[i];
            data.push((k.clone(), v.clone()));
            i = i + 1;
        }
        assert(data@ =~= self.platform_data@);
        let executable_path = match &self.executable_path {
            Some(p) => Some(p.clone()),
            None => None,
        };
        let install_path = match &self.install_path {
            Some(p) => Some(p.clone()),
            None => None,
        };
        DetectedGame {
            id: self.id.clone(),
            name: self.name.clone(),
            executable_path,
            install_path,
            platform: self.platform.clone(),
            platform_data: data,
        }
    }
}


/// The views of a sequence of games.
pub open spec fn games_view(v: Seq<DetectedGame>) -> Seq<GameView> {
    v.map_values(|g: DetectedGame| g@)
}

/// The views of a sequence of strings.
pub open spec fn strings_view(v: Seq<String>) -> Seq<Seq<char>> {
    v.map_values(|s: String| s@)
}

/// The view of a platform/games pair.
pub open spec fn group_view(p: (String, Vec<DetectedGame>)) -> (Seq<char>, Seq<GameView>) {
    (p.0@, games_view(p.1@))
}

/// What a scan result holds, as mathematical values.
pub struct ScanResultView {
    pub games: Seq<GameView>,
    pub games_by_platform: Map<Seq<char>, Seq<GameView>>,
    pub total_count: nat,
    pub scan_duration_ms: u64,
    pub scanned_platforms: Seq<Seq<char>>,
    pub failed_platforms: Seq<Seq<char>>,
    pub errors: Seq<Seq<char>>,
}

/// The result with nothing recorded yet.
pub open spec fn empty_result() -> ScanResultView {
    ScanResultView {
        games: Seq::empty(),
        games_by_platform: Map::empty(),
        total_count: 0,
        scan_duration_ms: 0,
        scanned_platforms: Seq::empty(),
        failed_platforms: Seq::empty(),
        errors: Seq::empty(),
    }
}

/// `r` after a platform contributed `games`.
pub open spec fn with_games(r: ScanResultView, name: Seq<char>, games: Seq<GameView>) -> ScanResultView {
    ScanResultView {
        games: r.games + games,
        games_by_platform: r.games_by_platform.insert(name, games),
        total_count: r.total_count + games.len(),
        scanned_platforms: r.scanned_platforms.push(name),
        ..r
    }
}

/// `r` after a platform failed with `error`.
pub open spec fn with_failure(r: ScanResultView, name: Seq<char>, error: Seq<char>) -> ScanResultView {
    ScanResultView {
        failed_platforms: r.failed_platforms.push(name),
        errors: r.errors.push(error),
        ..r
    }
}

/// The aggregate outcome of one scan.
#[derive(Debug)]
pub struct GameScanResult {
    /// Every game found, in the order the platforms were scanned.
    pub games: Vec<DetectedGame>,
    /// The games each platform contributed, by platform name; each name once.
    pub games_by_platform: Vec<(String, Vec<DetectedGame>)>,
    /// How many games were added.
    pub total_count: usize,
    /// Wall-clock time of the whole scan.
    pub scan_duration_ms: u64,
    /// The platforms scanned without error, in scan order.
    pub scanned_platforms: Vec<String>,
    /// The platforms whose detector failed.
    pub failed_platforms: Vec<String>,
    /// One message for each failed platform, in the same order.
    pub errors: Vec<String>,
}

impl View for GameScanResult {
    type V = ScanResultView;

    open spec fn view(&self) -> ScanResultView {
        ScanResultView {
            games: games_view(self.games@),
            games_by_platform: assoc_map(
                self.games_by_platform@.map_values(|p: (String, Vec<DetectedGame>)| group_view(p)),
            ),
            total_count: self.total_count as nat,
            scan_duration_ms: self.scan_duration_ms,
            scanned_platforms: strings_view(self.scanned_platforms@),
            failed_platforms: strings_view(self.failed_platforms@),
            errors: strings_view(self.errors@),
        }
    }
}

/// Viewing the games of each group changes nothing in the keys.
pub proof fn lemma_groups_view(s: Seq<(String, Vec<DetectedGame>)>)
    ensures
        assoc_map(s.map_values(|p: (String, Vec<DetectedGame>)| group_view(p))) == assoc_map(
            key_views(s),
        ).map_values(|v: Vec<DetectedGame>| games_view(v@)),
    decreases s.len(),
{
    let a = s.map_values(|p: (String, Vec<DetectedGame>)| group_view(p));
    let b = key_views(s);
    if s.len() > 0 {
        lemma_groups_view(s.drop_last());
        assert(s.drop_last().map_values(|p: (String, Vec<DetectedGame>)| group_view(p)) =~= a.drop_last());
        assert(key_views(s.drop_last()) =~= b.drop_last());
        assert(assoc_map(a) =~= assoc_map(b).map_values(|v: Vec<DetectedGame>| games_view(v@)));
    } else {
        assert(assoc_map(a) =~= assoc_map(b).map_values(|v: Vec<DetectedGame>| games_view(v@)));
    }
}

impl GameScanResult {
    /// Each platform name keys one group.
    pub open spec fn wf(&self) -> bool {
        keys_unique(key_views(self.games_by_platform@))
    }

    /// A result with nothing recorded.
    pub fn new() -> (r: Self)
        ensures
            r.wf(),
            r@ == empty_result(),
    {
        let r = GameScanResult {
            games: Vec::new(),
            games_by_platform: Vec::new(),
            total_count: 0,
            scan_duration_ms: 0,
            scanned_platforms: Vec::new(),
            failed_platforms: Vec::new(),
            errors: Vec::new(),
        };
        assert(r@.games =~= Seq::empty());
        assert(r@.scanned_platforms =~= Seq::empty());
        assert(r@.failed_platforms =~= Seq::empty());
        assert(r@.errors =~= Seq::empty());
        assert(r.games_by_platform@.map_values(|p: (String, Vec<DetectedGame>)| group_view(p)) =~= Seq::empty());
        r
    }

    /// Records that `platform_name` was scanned and contributed `games`.
    pub fn add_games(&mut self, platform_name: String, games: Vec<DetectedGame>)
        requires
            old(self).wf(),
            old(self).total_count + games@.len() <= usize::MAX,
        ensures
            final(self).wf(),
            final(self)@ == with_games(old(self)@, platform_name@, games_view(games@)),
            crate::scanner::counts_agree(old(self)@) && !old(self)@.games_by_platform.contains_key(platform_name@)
                ==> crate::scanner::counts_agree(final(self)@),
    {
        proof {
            if crate::scanner::counts_agree(old(self)@) && !old(self)@.games_by_platform.contains_key(platform_name@) {
                crate::scanner::lemma_add_games_keeps_count(old(self)@, platform_name@, games_view(games@));
            }
        }
        self.total_count = self.total_count + games.len();
        let copy = games.clone();
        assert(games_view(copy@) =~= games_view(games@)) by {
            assert forall|i: int| 0 <= i < games@.len() implies copy@[i]@ == games@[i]@ by {
                assert(cloned::<DetectedGame>(games@[i], copy@[i]));
            }
        }
        let ghost before = self.games_by_platform@;
        let ghost name = platform_name@;
        assoc_insert(&mut self.games_by_platform, platform_name.clone(), copy);
        proof {
            lemma_groups_view(before);
            lemma_groups_view(self.games_by_platform@);
            assert(assoc_map(key_views(self.games_by_platform@)).map_values(|v: Vec<DetectedGame>| games_view(v@))
                =~= assoc_map(key_views(before)).map_values(|v: Vec<DetectedGame>| games_view(v@)).insert(name, games_view(games@)));
        }
        let mut moved = games;
        let ghost old_games = self.games@;
        let ghost added = moved@;
        self.games.append(&mut moved);
        assert(games_view(self.games@) =~= games_view(old_games) + games_view(added));
        self.scanned_platforms.push(platform_name);
        assert(strings_view(self.scanned_platforms@) =~= strings_view(old(self).scanned_platforms@).push(name));
    }

    /// Records that the detector of `platform_name` failed with `error`.
    pub fn mark_failed(&mut self, platform_name: String, error: String)
        ensures
            final(self).wf() == old(self).wf(),
            final(self)@ == with_failure(old(self)@, platform_name@, error@),
    {
        let ghost name = platform_name@;
        let ghost e = error@;
        self.failed_platforms.push(platform_name);
        self.errors.push(error);
        assert(strings_view(self.failed_platforms@) =~= strings_view(old(self).failed_platforms@).push(name));
        assert(strings_view(self.errors@) =~= strings_view(old(self).errors@).push(e));
    }

    /// The result with the duration of the whole scan attached; nothing else changes.
    pub fn finalize(self, duration_ms: u64) -> (r: Self)
        ensures
            r.wf() == self.wf(),
            r@ == (ScanResultView { scan_duration_ms: duration_ms, ..self@ }),
    {
        let mut r = self;
        r.scan_duration_ms = duration_ms;
        r
    }
}

impl Default for GameScanResult {
    fn default() -> (r: Self)
        ensures
            r.wf(),
            r@ == empty_result(),
    {
        Self::new()
    }
}


/// Which platforms a scan visits.
#[derive(Clone, Copy, PartialEq, Eq, Structural, Debug)]
pub struct ScanOptions {
    pub scan_steam: bool,
    pub scan_epic_games: bool,
    pub scan_uplay: bool,
    pub scan_gog_galaxy: bool,
    pub scan_riot_games: bool,
    pub scan_win_registry: bool,
    pub scan_osx_bundle: bool,
    pub scan_ea_app: bool,
}

/// `s` followed by `k` where `on` holds.
pub open spec fn push_if(s: Seq<PlatformKind>, on: bool, k: PlatformKind) -> Seq<PlatformKind> {
    if on {
        s.push(k)
    } else {
        s
    }
}

/// The platforms that `o` enables, in scan order.
pub open spec fn enabled_platforms(o: ScanOptions) -> Seq<PlatformKind> {
    let s0 = push_if(Seq::empty(), o.scan_steam, PlatformKind::Steam);
    let s1 = push_if(s0, o.scan_epic_games, PlatformKind::EpicGames);
    let s2 = push_if(s1, o.scan_uplay, PlatformKind::Uplay);
    let s3 = push_if(s2, o.scan_gog_galaxy, PlatformKind::GogGalaxy);
    let s4 = push_if(s3, o.scan_riot_games, PlatformKind::RiotGames);
    let s5 = push_if(s4, o.scan_win_registry, PlatformKind::WinRegistry);
    let s6 = push_if(s5, o.scan_osx_bundle, PlatformKind::OsxBundle);
    push_if(s6, o.scan_ea_app, PlatformKind::EaApp)
}

/// Whether `o` enables platform `k`.
pub open spec fn is_enabled(o: ScanOptions, k: PlatformKind) -> bool {
    match k {
        PlatformKind::Steam => o.scan_steam,
        PlatformKind::EpicGames => o.scan_epic_games,
        PlatformKind::Uplay => o.scan_uplay,
        PlatformKind::GogGalaxy => o.scan_gog_galaxy,
        PlatformKind::RiotGames => o.scan_riot_games,
        PlatformKind::WinRegistry => o.scan_win_registry,
        PlatformKind::OsxBundle => o.scan_osx_bundle,
        PlatformKind::EaApp => o.scan_ea_app,
    }
}

impl ScanOptions {
    /// Every platform enabled.
    pub fn all() -> (r: Self)
        ensures
            forall|k: PlatformKind| is_enabled(r, k),
    {
        ScanOptions {
            scan_steam: true,
            scan_epic_games: true,
            scan_uplay: true,
            scan_gog_galaxy: true,
            scan_riot_games: true,
            scan_win_registry: true,
            scan_osx_bundle: true,
            scan_ea_app: true,
        }
    }

    /// The common platforms: Steam, Epic Games, GOG Galaxy, Riot Games and EA
    /// App; application bundles only on macOS.
    pub fn quick(host: HostOs) -> (r: Self)
        ensures
            r == (ScanOptions {
                scan_steam: true,
                scan_epic_games: true,
                scan_uplay: false,
                scan_gog_galaxy: true,
                scan_riot_games: true,
                scan_win_registry: false,
                scan_osx_bundle: host == HostOs::MacOs,
                scan_ea_app: true,
            }),
    {
        ScanOptions {
            scan_steam: true,
            scan_epic_games: true,
            scan_uplay: false,
            scan_gog_galaxy: true,
            scan_riot_games: true,
            scan_win_registry: false,
            scan_osx_bundle: host == HostOs::MacOs,
            scan_ea_app: true,
        }
    }

    /// No platform enabled.
    pub fn none() -> (r: Self)
        ensures
            forall|k: PlatformKind| !is_enabled(r, k),
    {
        ScanOptions {
            scan_steam: false,
            scan_epic_games: false,
            scan_uplay: false,
            scan_gog_galaxy: false,
            scan_riot_games: false,
            scan_win_registry: false,
            scan_osx_bundle: false,
            scan_ea_app: false,
        }
    }

    /// The enabled platforms, in scan order.
    pub fn enabled_platforms(&self) -> (r: Vec<PlatformKind>)
        ensures
            r@ == enabled_platforms(*self),
    {
        let mut r: Vec<PlatformKind> = Vec::new();
        assert(r@ =~= Seq::empty());
        if self.scan_steam {
            r.push(PlatformKind::Steam);
        }
        if self.scan_epic_games {
            r.push(PlatformKind::EpicGames);
        }
        if self.scan_uplay {
            r.push(PlatformKind::Uplay);
        }
        if self.scan_gog_galaxy {
            r.push(PlatformKind::GogGalaxy);
        }
        if self.scan_riot_games {
            r.push(PlatformKind::RiotGames);
        }
        if self.scan_win_registry {
            r.push(PlatformKind::WinRegistry);
        }
        if self.scan_osx_bundle {
            r.push(PlatformKind::OsxBundle);
        }
        if self.scan_ea_app {
            r.push(PlatformKind::EaApp);
        }
        r
    }
}

impl Default for ScanOptions {
    fn default() -> (r: Self)
        ensures
            forall|k: PlatformKind| is_enabled(r, k),
    {
        Self::all()
    }
}

} // verus!
