//! Ubisoft Connect: one registry subkey per installed title (Windows only).

use vstd::prelude::*;
use crate::models::{opt_view, DetectedGame, GamePlatform, HostOs};

verus! {

/// The string values of one Ubisoft Connect install subkey, each where present.
#[derive(Debug)]
pub struct UplayRegistryEntry {
    pub install_dir: Option<String>,
    pub display_name: Option<String>,
    pub game_name: Option<String>,
}

/// Ubisoft Connect detector.
pub struct UplayDetector;

impl UplayDetector {
    pub fn new() -> (r: Self) {
        UplayDetector
    }

    /// Ubisoft Connect keeps its records in the Windows registry alone.
    pub fn is_supported(host: HostOs) -> (r: bool)
        ensures
            r == (host == HostOs::Windows),
    {
        host == HostOs::Windows
    }

    /// The game of title `app_id`; none without an install directory. It is
    /// named by its display name, else its game name, else `Uplay Game <id>`.
    pub fn parse_uplay_registry_entry(&self, app_id: &str, entry: &UplayRegistryEntry) -> (r: Option<DetectedGame>)
        ensures
            entry.install_dir is None ==> r is None,
            entry.install_dir is Some ==> (r matches Some(g) && {
                &&& g.wf()
                &&& g.id@ == app_id@
                &&& g.name@ == (match entry.display_name {
                    Some(n) => n@,
                    None => match entry.game_name {
                        Some(n) => n@,
                        None => "Uplay Game "@ + app_id@,
                    },
                })
                &&& opt_view(g.install_path) == opt_view(entry.install_dir)
                &&& g.executable_path is None
                &&& g.platform matches GamePlatform::Uplay { app_id: a } && a@ == app_id@
                &&& g@.platform_data.is_empty()
            }),
    {
        let install_dir = match &entry.install_dir {
            Some(d) => d.clone(),
            None => {
                return None;
            },
        };
        let game_name = match &entry.display_name {
            Some(n) => n.clone(),
            None => match &entry.game_name {
                Some(n) => n.clone(),
                None => String::from_str("Uplay Game ").concat(app_id),
            },
        };
        let platform = GamePlatform::Uplay { app_id: String::from_str(app_id) };
        Some(DetectedGame::new(String::from_str(app_id), game_name, None, Some(install_dir), platform))
    }
}

} // verus!
