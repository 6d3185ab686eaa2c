//! Epic Games Store: one `.item` JSON manifest per installed title.

use vstd::prelude::*;
use crate::models::{opt_view, DetectedGame, GamePlatform};
use crate::paths::{join_path, joined, normalize_for_style, normalized, PathStyle};
use crate::text::{chars_of, contains, contains_text, lower_of, lowercase};

verus! {

/// The fields of an Epic manifest that a game needs (`AppName`,
/// `DisplayName`, `InstallLocation`, `LaunchExecutable`, `CatalogItemId`,
/// `MainGameCatalogItemId`, `AppCategories`); absent optional fields are empty.
#[derive(Debug)]
pub struct EpicManifest {
    pub app_name: String,
    pub display_name: String,
    pub install_location: String,
    pub launch_executable: String,
    pub catalog_item_id: String,
    pub main_game_catalog_item_id: String,
    pub app_categories: Vec<String>,
}

/// Whether a category marks an add-on.
pub open spec fn addon_category(c: Seq<char>) -> bool {
    contains_text(lower_of(c), "addon"@) || contains_text(lower_of(c), "dlc"@)
}

/// A manifest is an add-on when it points at a main game other than itself,
/// or when one of its categories names an add-on.
pub open spec fn epic_is_dlc(m: EpicManifest) -> bool {
    (m.main_game_catalog_item_id@.len() > 0 && m.catalog_item_id@.len() > 0 && m.main_game_catalog_item_id@
        != m.catalog_item_id@) || exists|i: int| 0 <= i < m.app_categories@.len() && addon_category(
        #[trigger] m.app_categories@[i]@,
    )
}

/// Whether `g` is the game of manifest `m`.
pub open spec fn epic_game_of(g: DetectedGame, m: EpicManifest, style: PathStyle) -> bool {
    &&& g.wf()
    &&& g.id@ == m.app_name@
    &&& g.name@ == m.display_name@
    &&& opt_view(g.install_path) == Some(normalized(m.install_location@, style))
    &&& opt_view(g.executable_path) == (if m.launch_executable@.len() > 0 {
        Some(normalized(joined(m.install_location@, m.launch_executable@, style), style))
    } else {
        None
    })
    &&& g.platform matches GamePlatform::EpicGames { app_name } && app_name@ == m.app_name@
    &&& g@.platform_data.is_empty()
}

/// The manifests that describe base games, in order.
pub open spec fn base_games(ms: Seq<EpicManifest>) -> Seq<EpicManifest>
    decreases ms.len(),
{
    if ms.len() == 0 {
        ms
    } else if epic_is_dlc(ms.last()) {
        base_games(ms.drop_last())
    } else {
        base_games(ms.drop_last()).push(ms.last())
    }
}

/// Epic Games Store detector.
pub struct EpicDetector {
    /// The path convention of the machine scanned.
    pub style: PathStyle,
}

impl EpicDetector {
    /// A detector for the machine the library runs on.
    pub fn new() -> (r: Self) {
        EpicDetector { style: PathStyle::native() }
    }

    /// A detector for paths of the given convention.
    pub fn with_style(style: PathStyle) -> (r: Self)
        ensures
            r.style == style,
    {
        EpicDetector { style }
    }

    /// Whether a manifest describes an add-on rather than a base game.
    pub fn is_dlc(manifest: &EpicManifest) -> (r: bool)
        ensures
            r == epic_is_dlc(*manifest),
    {
        if manifest.main_game_catalog_item_id.unicode_len() > 0 && manifest.catalog_item_id.unicode_len() > 0
            && manifest.main_game_catalog_item_id != manifest.catalog_item_id {
            return true;
        }
        let addon = chars_of("addon");
        let dlc = chars_of("dlc");
        let mut i: usize = 0;
        while i < manifest.app_categories.len()
            invariant
                i <= manifest.app_categories.len(),
                addon@ == "addon"@,
                dlc@ == "dlc"@,
                forall|k: int| 0 <= k < i ==> !addon_category(#[trigger] manifest.app_categories@[k]@),
            decreases manifest.app_categories.len() - i,
        {
            let lower = chars_of(lowercase(manifest.app_categories[i].as_str()).as_str());
            if contains(&lower, &addon) || contains(&lower, &dlc) {
                assert(addon_category(manifest.app_categories@[i as int]@));
                return true;
            }
            i = i + 1;
        }
        false
    }

    /// The games of the manifests read from the manifests directory: one for
    /// each base game, in order; add-ons are skipped and the rest kept.
    pub fn parse_epic_manifests(&self, manifests: &Vec<EpicManifest>) -> (r: Vec<DetectedGame>)
        ensures
            r@.len() == base_games(manifests@).len(),
            forall|k: int| 0 <= k < r@.len() ==> epic_game_of(#[trigger] r@[k], base_games(manifests@)[k], self.style),
    {
        let mut games: Vec<DetectedGame> = Vec::new();
        let mut i: usize = 0;
        while i < manifests.len()
            invariant
                i <= manifests.len(),
                games@.len() == base_games(manifests@.subrange(0, i as int)).len(),
                forall|k: int| 0 <= k < games@.len() ==> epic_game_of(
                    #[trigger] games@[k],
                    base_games(manifests@.subrange(0, i as int))[k],
                    self.style,
                ),
            decreases manifests.len() - i,
        {
            assert(manifests@.subrange(0, i + 1).drop_last() =~= manifests@.subrange(0, i as int));
            match self.parse_epic_manifest(&manifests[i]) {
                Some(g) => {
                    games.push(g);
                },
                None => {},
            }
            i = i + 1;
        }
        assert(manifests@.subrange(0, manifests.len() as int) =~= manifests@);
        games
    }

    /// The game of a manifest; none for an add-on.
    pub fn parse_epic_manifest(&self, manifest: &EpicManifest) -> (r: Option<DetectedGame>)
        ensures
            epic_is_dlc(*manifest) ==> r is None,
            !epic_is_dlc(*manifest) ==> (r matches Some(g) && epic_game_of(g, *manifest, self.style)),
    {
        if Self::is_dlc(manifest) {
            return None;
        }
        let install_path = normalize_for_style(manifest.install_location.as_str(), self.style);
        let executable_path = if manifest.launch_executable.unicode_len() > 0 {
            let full = join_path(manifest.install_location.as_str(), manifest.launch_executable.as_str(), self.style);
            Some(normalize_for_style(full.as_str(), self.style))
        } else {
            None
        };
        let platform = GamePlatform::EpicGames { app_name: manifest.app_name.clone() };
        Some(DetectedGame::new(
            manifest.app_name.clone(),
            manifest.display_name.clone(),
            executable_path,
            Some(install_path),
            platform,
        ))
    }
}

} // verus!
