//! macOS application bundles, read from their `Info.plist`.

use vstd::prelude::*;
use crate::models::{opt_view, DetectedGame, GamePlatform, HostOs};
use crate::paths::{join_path, joined, PathStyle};
use crate::text::{chars_of, contains, contains_text, has_prefix, lower_of, lowercase, starts_with};

verus! {

/// The string entries of a bundle's `Info.plist` that a game needs.
#[derive(Debug)]
pub struct BundleInfo {
    /// `CFBundleIdentifier`.
    pub bundle_id: Option<String>,
    /// `CFBundleDisplayName`.
    pub display_name: Option<String>,
    /// `CFBundleName`.
    pub bundle_name: Option<String>,
    /// `CFBundleExecutable`.
    pub executable: Option<String>,
    /// `CFBundleShortVersionString`.
    pub short_version: Option<String>,
}

/// Why a bundle yields no game.
#[derive(Clone, Copy, PartialEq, Eq, Structural, Debug)]
pub enum BundleError {
    MissingBundleId,
    MissingBundleName,
}

/// Words that mark a bundle as a game or a game store.
pub open spec fn game_indicators() -> Seq<Seq<char>> {
    seq![
        "steam"@, "epic"@, "blizzard"@, "ubisoft"@, "ea"@, "game"@, "unity"@, "unreal"@, "riot"@,
        "gog"@, "itch"@, "origin"@, "bethesda"@, "rockstar"@,
    ]
}

/// Identifier prefixes and name words of system and vendor utilities.
pub open spec fn system_markers() -> Seq<Seq<char>> {
    seq![
        "com.apple."@, "com.microsoft."@, "com.adobe."@, "com.google."@, "utility"@, "settings"@,
        "system"@, "preferences"@,
    ]
}

/// Whether a bundle with lower-case name `name` and identifier `id` is taken
/// for a game: it is when a game word occurs in either; otherwise it is not
/// when its identifier starts with, or its name holds, a system marker; and it
/// is in every other case.
pub open spec fn likely_game(name: Seq<char>, id: Seq<char>) -> bool {
    if exists|i: int| 0 <= i < game_indicators().len() && (contains_text(name, #[trigger] game_indicators()[i])
        || contains_text(id, game_indicators()[i])) {
        true
    } else {
        !exists|i: int| 0 <= i < system_markers().len() && (starts_with(id, #[trigger] system_markers()[i])
            || contains_text(name, system_markers()[i]))
    }
}

/// macOS application bundle detector.
pub struct OsxDetector;

impl OsxDetector {
    pub fn new() -> (r: Self) {
        OsxDetector
    }

    /// Application bundles are scanned on macOS alone.
    pub fn is_supported(host: HostOs) -> (r: bool)
        ensures
            r == (host == HostOs::MacOs),
    {
        host == HostOs::MacOs
    }

    /// Whether a bundle's game is taken for a game.
    pub fn is_likely_game(&self, game: &DetectedGame) -> (r: bool)
        ensures
            r == likely_game(lower_of(game.name@), lower_of(game.id@)),
    {
        let name_lower = chars_of(lowercase(game.name.as_str()).as_str());
        let id_lower = chars_of(lowercase(game.id.as_str()).as_str());
        assert(name_lower@ == lower_of(game.name@));
        assert(id_lower@ == lower_of(game.id@));
        let indicators = vec![
            "steam", "epic", "blizzard", "ubisoft", "ea", "game", "unity", "unreal", "riot", "gog", "itch",
            "origin", "bethesda", "rockstar",
        ];
        assert(indicators@.len() == game_indicators().len());
        let mut i: usize = 0;
        while i < indicators.len()
            invariant
                i <= indicators.len(),
                name_lower@ == lower_of(game.name@),
                id_lower@ == lower_of(game.id@),
                indicators@.len() == game_indicators().len(),
                forall|k: int| 0 <= k < indicators@.len() ==> #[trigger] indicators@[k]@ == game_indicators()[k],
                forall|k: int| 0 <= k < i ==> !(contains_text(name_lower@, #[trigger] game_indicators()[k])
                    || contains_text(id_lower@, game_indicators()[k])),
            decreases indicators.len() - i,
        {
            let word = chars_of(indicators[i]);
            if contains(&name_lower, &word) || contains(&id_lower, &word) {
                assert(word@ == game_indicators()[i as int]);
                assert(contains_text(name_lower@, game_indicators()[i as int]) || contains_text(id_lower@, game_indicators()[i as int]));
                assert(exists|k: int| 0 <= k < game_indicators().len() && (contains_text(name_lower@, #[trigger] game_indicators()[k])
                    || contains_text(id_lower@, game_indicators()[k])));
                assert(likely_game(name_lower@, id_lower@));
                return true;
            }
            i = i + 1;
        }
        let markers = vec![
            "com.apple.", "com.microsoft.", "com.adobe.", "com.google.", "utility", "settings", "system",
            "preferences",
        ];
        let mut j: usize = 0;
        while j < markers.len()
            invariant
                j <= markers.len(),
                name_lower@ == lower_of(game.name@),
                id_lower@ == lower_of(game.id@),
                markers@.len() == system_markers().len(),
                forall|k: int| 0 <= k < markers@.len() ==> #[trigger] markers@[k]@ == system_markers()[k],
                forall|k: int| 0 <= k < j ==> !(starts_with(id_lower@, #[trigger] system_markers()[k])
                    || contains_text(name_lower@, system_markers()[k])),
                !exists|k: int| 0 <= k < game_indicators().len() && (contains_text(name_lower@, #[trigger] game_indicators()[k])
                    || contains_text(id_lower@, game_indicators()[k])),
            decreases markers.len() - j,
        {
            let word = chars_of(markers[j]);
            if has_prefix(&id_lower, &word) || contains(&name_lower, &word) {
                assert(word@ == system_markers()[j as int]);
                assert(starts_with(id_lower@, system_markers()[j as int]) || contains_text(name_lower@, system_markers()[j as int]));
                assert(exists|k: int| 0 <= k < system_markers().len() && (starts_with(id_lower@, #[trigger] system_markers()[k])
                    || contains_text(name_lower@, system_markers()[k])));
                assert(!likely_game(name_lower@, id_lower@));
                return false;
            }
            j = j + 1;
        }
        true
    }

    /// The game of the bundle at `bundle_path`: identified by its bundle id,
    /// named by its display name or else its bundle name, with its executable
    /// under `Contents/MacOS` and its version as an extra.
    pub fn parse_app_bundle(&self, bundle_path: &str, info: &BundleInfo) -> (r: Result<DetectedGame, BundleError>)
        ensures
            info.bundle_id is None ==> r == Err::<DetectedGame, BundleError>(BundleError::MissingBundleId),
            info.bundle_id is Some && info.display_name is None && info.bundle_name is None ==> r == Err::<
                DetectedGame,
                BundleError,
            >(BundleError::MissingBundleName),
            info.bundle_id is Some && (info.display_name is Some || info.bundle_name is Some) ==> (r matches Ok(g) && {
                &&& g.wf()
                &&& g.id@ == info.bundle_id->Some_0@
                &&& g.name@ == (if info.display_name is Some {
                    info.display_name->Some_0@
                } else {
                    info.bundle_name->Some_0@
                })
                &&& opt_view(g.executable_path) == (match info.executable {
                    Some(e) => Some(joined(joined(bundle_path@, "Contents/MacOS"@, PathStyle::Unix), e@, PathStyle::Unix)),
                    None => None,
                })
                &&& opt_view(g.install_path) == Some(bundle_path@)
                &&& g.platform matches GamePlatform::OsxBundle { bundle_id } && bundle_id@ == info.bundle_id->Some_0@
                &&& g@.platform_data == (match info.short_version {
                    Some(v) => Map::<Seq<char>, Seq<char>>::empty().insert("version"@, v@),
                    None => Map::<Seq<char>, Seq<char>>::empty(),
                })
            }),
    {
        let bundle_id = match &info.bundle_id {
            Some(id) => id.clone(),
            None => {
                return Err(BundleError::MissingBundleId);
            },
        };
        let bundle_name = match &info.display_name {
            Some(n) => n.clone(),
            None => match &info.bundle_name {
                Some(n) => n.clone(),
                None => {
                    return Err(BundleError::MissingBundleName);
                },
            },
        };
        let executable = match &info.executable {
            Some(e) => {
                let macos = join_path(bundle_path, "Contents/MacOS", PathStyle::Unix);
                Some(join_path(macos.as_str(), e.as_str(), PathStyle::Unix))
            },
            None => None,
        };
        let platform = GamePlatform::OsxBundle { bundle_id: bundle_id.clone() };
        let game = DetectedGame::new(bundle_id, bundle_name, executable, Some(String::from_str(bundle_path)), platform);
        match &info.short_version {
            Some(v) => Ok(game.with_platform_data(String::from_str("version"), v.clone())),
            None => Ok(game),
        }
    }
}

} // verus!
