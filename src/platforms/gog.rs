//! GOG Galaxy: one registry subkey per installed product (Windows only).

use vstd::prelude::*;
use crate::models::{opt_view, DetectedGame, GamePlatform, HostOs};
use crate::paths::{join_path, joined, normalize_for_style, normalized, PathStyle};

verus! {

/// The string values of one GOG product subkey, each where present.
#[derive(Debug)]
pub struct GogRegistryEntry {
    pub game_name: Option<String>,
    pub path: Option<String>,
    pub exe: Option<String>,
    pub version: Option<String>,
}

/// GOG Galaxy detector.
pub struct GogDetector;

impl GogDetector {
    pub fn new() -> (r: Self) {
        GogDetector
    }

    /// GOG Galaxy keeps its records in the Windows registry alone.
    pub fn is_supported(host: HostOs) -> (r: bool)
        ensures
            r == (host == HostOs::Windows),
    {
        host == HostOs::Windows
    }

    /// The game of product `product_id`; none without a name or a path.
    pub fn parse_gog_registry_entry(&self, product_id: &str, entry: &GogRegistryEntry) -> (r: Option<DetectedGame>)
        ensures
            (entry.game_name is None || entry.path is None) ==> r is None,
            (entry.game_name is Some && entry.path is Some) ==> (r matches Some(g) && {
                let path = normalized(entry.path->Some_0@, PathStyle::Windows);
                &&& g.wf()
                &&& g.id@ == product_id@
                &&& g.name@ == entry.game_name->Some_0@
                &&& opt_view(g.install_path) == Some(path)
                &&& opt_view(g.executable_path) == (match entry.exe {
                    Some(e) => Some(normalized(joined(path, e@, PathStyle::Windows), PathStyle::Windows)),
                    None => None,
                })
                &&& g.platform matches GamePlatform::GogGalaxy { product_id: p } && p@ == product_id@
                &&& g@.platform_data == (match entry.version {
                    Some(v) => Map::<Seq<char>, Seq<char>>::empty().insert("version"@, v@),
                    None => Map::<Seq<char>, Seq<char>>::empty(),
                })
            }),
    {
        let game_name = match &entry.game_name {
            Some(n) => n.clone(),
            None => {
                return None;
            },
        };
        let path = match &entry.path {
            Some(p) => normalize_for_style(p.as_str(), PathStyle::Windows),
            None => {
                return None;
            },
        };
        let executable_path = match &entry.exe {
            Some(e) => {
                let full = join_path(path.as_str(), e.as_str(), PathStyle::Windows);
                Some(normalize_for_style(full.as_str(), PathStyle::Windows))
            },
            None => None,
        };
        let platform = GamePlatform::GogGalaxy { product_id: String::from_str(product_id) };
        let game = DetectedGame::new(String::from_str(product_id), game_name, executable_path, Some(path), platform);
        match &entry.version {
            Some(v) => Some(game.with_platform_data(String::from_str("version"), v.clone())),
            None => Some(game),
        }
    }
}

} // verus!
