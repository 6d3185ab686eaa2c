//! The companion application's catalog records: how a catalog entry says
//! where a game can be detected, and which of a set of detections an entry
//! still lacks.

use vstd::prelude::*;

verus! {

/// A colour tag of a catalog entry.
#[derive(Debug)]
pub struct CategoryColor {
    pub hex: String,
    pub tag: String,
}

/// A key binding of a catalog entry.
#[derive(Debug)]
pub struct Command {
    pub category: String,
    pub keystroke: Vec<String>,
    pub name: String,
}

/// A Steam application id.
#[derive(Debug)]
pub struct SteamApp {
    pub app_id: String,
}

/// A program recorded in the Windows registry.
#[derive(Debug)]
pub struct WinRegistry {
    pub executable: String,
    pub registry_key: String,
    pub registry_path: String,
}

/// An Epic Games Store application name.
#[derive(Debug)]
pub struct EpicGames {
    pub app_name: String,
}

/// A macOS bundle.
#[derive(Debug)]
pub struct OsxBundle {
    pub bundle_id: String,
    pub bundle_path: String,
}

/// A Ubisoft Connect application id.
#[derive(Debug)]
pub struct Uplay {
    pub app_id: String,
}

/// A GOG Galaxy product id.
#[derive(Debug)]
pub struct GogGalaxy {
    pub product_id: String,
}

/// A Humble App game name.
#[derive(Debug)]
pub struct HumbleApp {
    pub game_name: String,
}

/// A Riot Client application name.
#[derive(Debug)]
pub struct RiotGames {
    pub app_name: String,
}

/// One way a catalog entry can be detected.
#[derive(Debug)]
pub enum Detection {
    Steam { steam: SteamApp },
    WinRegistry { win_registry: WinRegistry },
    EpicGames { epic_games: EpicGames },
    OsxBundle { osx_bundle: OsxBundle },
    Uplay { uplay: Uplay },
    GogGalaxy { gog_galaxy: GogGalaxy },
    HumbleApp { humble_app: HumbleApp },
    RiotGames { riot_games: RiotGames },
    Glob { glob: String },
    /// A detection of a kind the library does not know, as its JSON text.
    Unknown(String),
}

/// A catalog entry.
#[derive(Debug)]
pub struct GHUBApp {
    pub application_id: String,
    pub category_colors: Vec<CategoryColor>,
    pub commands: Vec<Command>,
    pub detection: Vec<Detection>,
    pub name: String,
    pub poster_title_position: String,
    pub poster_url: String,
    pub version: u32,
}

/// The kind of a detection; unknown detections have none.
pub open spec fn detection_kind(d: Detection) -> Option<int> {
    match d {
        Detection::Steam { .. } => Some(0),
        Detection::WinRegistry { .. } => Some(1),
        Detection::EpicGames { .. } => Some(2),
        Detection::OsxBundle { .. } => Some(3),
        Detection::Uplay { .. } => Some(4),
        Detection::GogGalaxy { .. } => Some(5),
        Detection::HumbleApp { .. } => Some(6),
        Detection::RiotGames { .. } => Some(7),
        Detection::Glob { .. } => Some(8),
        Detection::Unknown(_) => None,
    }
}

/// Two detections are of one type when both are of the same known kind.
pub open spec fn same_type(a: Detection, b: Detection) -> bool {
    detection_kind(a) is Some && detection_kind(a) == detection_kind(b)
}

/// Whether `existing` already has a detection of the type of `d`.
pub open spec fn has_type(existing: Seq<Detection>, d: Detection) -> bool {
    exists|i: int| 0 <= i < existing.len() && same_type(#[trigger] existing[i], d)
}

/// The detections of `available` whose type `existing` lacks, in order.
pub open spec fn missing(existing: Seq<Detection>, available: Seq<Detection>) -> Seq<Detection>
    decreases available.len(),
{
    if available.len() == 0 {
        available
    } else if has_type(existing, available.last()) {
        missing(existing, available.drop_last())
    } else {
        missing(existing, available.drop_last()).push(available.last())
    }
}

/// Whether two detections are of the same type.
pub fn detection_types_match(a: &Detection, b: &Detection) -> (r: bool)
    ensures
        r == same_type(*a, *b),
{
    match (a, b) {
        (Detection::Steam { .. }, Detection::Steam { .. }) => true,
        (Detection::WinRegistry { .. }, Detection::WinRegistry { .. }) => true,
        (Detection::EpicGames { .. }, Detection::EpicGames { .. }) => true,
        (Detection::OsxBundle { .. }, Detection::OsxBundle { .. }) => true,
        (Detection::Uplay { .. }, Detection::Uplay { .. }) => true,
        (Detection::GogGalaxy { .. }, Detection::GogGalaxy { .. }) => true,
        (Detection::HumbleApp { .. }, Detection::HumbleApp { .. }) => true,
        (Detection::RiotGames { .. }, Detection::RiotGames { .. }) => true,
        (Detection::Glob { .. }, Detection::Glob { .. }) => true,
        _ => false,
    }
}

impl Clone for Detection {
    fn clone(&self) -> (r: Self)
        ensures
            r == *self,
    {
        match self {
            Detection::Steam { steam } => Detection::Steam { steam: SteamApp { app_id: steam.app_id.clone() } },
            Detection::WinRegistry { win_registry } => Detection::WinRegistry {
                win_registry: WinRegistry {
                    executable: win_registry.executable.clone(),
                    registry_key: win_registry.registry_key.clone(),
                    registry_path: win_registry.registry_path.clone(),
                },
            },
            Detection::EpicGames { epic_games } => Detection::EpicGames {
                epic_games: EpicGames { app_name: epic_games.app_name.clone() },
            },
            Detection::OsxBundle { osx_bundle } => Detection::OsxBundle {
                osx_bundle: OsxBundle {
                    bundle_id: osx_bundle.bundle_id.clone(),
                    bundle_path: osx_bundle.bundle_path.clone(),
                },
            },
            Detection::Uplay { uplay } => Detection::Uplay { uplay: Uplay { app_id: uplay.app_id.clone() } },
            Detection::GogGalaxy { gog_galaxy } => Detection::GogGalaxy {
                gog_galaxy: GogGalaxy { product_id: gog_galaxy.product_id.clone() },
            },
            Detection::HumbleApp { humble_app } => Detection::HumbleApp {
                humble_app: HumbleApp { game_name: humble_app.game_name.clone() },
            },
            Detection::RiotGames { riot_games } => Detection::RiotGames {
                riot_games: RiotGames { app_name: riot_games.app_name.clone() },
            },
            Detection::Glob { glob } => Detection::Glob { glob: glob.clone() },
            Detection::Unknown(raw) => Detection::Unknown(raw.clone()),
        }
    }
}

/// Whether `existing` has a detection of the type of `d`.
fn has_detection_type(existing: &Vec<Detection>, d: &Detection) -> (r: bool)
    ensures
        r == has_type(existing@, *d),
{
    let mut i: usize = 0;
    while i < existing.len()
        invariant
            i <= existing.len(),
            forall|j: int| 0 <= j < i ==> !same_type(#[trigger] existing@[j], *d),
        decreases existing.len() - i,
    {
        if detection_types_match(&existing[i], d) {
            return true;
        }
        i = i + 1;
    }
    false
}

/// The detections of `available_patches` whose type the entry lacks, in order.
pub fn get_missing_detections(app: &GHUBApp, available_patches: &Vec<Detection>) -> (r: Vec<Detection>)
    ensures
        r@ == missing(app.detection@, available_patches@),
{
    let mut r: Vec<Detection> = Vec::new();
    let mut i: usize = 0;
    while i < available_patches.len()
        invariant
            i <= available_patches.len(),
            r@ == missing(app.detection@, available_patches@.subrange(0, i as int)),
        decreases available_patches.len() - i,
    {
        assert(available_patches@.subrange(0, i + 1).drop_last() =~= available_patches@.subrange(0, i as int));
        if !has_detection_type(&app.detection, &available_patches[i]) {
            r.push(available_patches[i].clone());
        }
        i = i + 1;
    }
    assert(available_patches@.subrange(0, available_patches.len() as int) =~= available_patches@);
    r
}

} // verus!
