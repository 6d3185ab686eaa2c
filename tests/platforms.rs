use game_scanner::catalog::{get_missing_detections, Detection, EpicGames, GHUBApp, SteamApp};
use game_scanner::executables::{
    conventional_subdirs, find_ea_game_executable, find_game_executable, path_has_extension, FileEntry,
};
use game_scanner::platforms::ea_app::{EaAppDetector, EaInstallInfo, LegacyManifestError};
use game_scanner::platforms::epic::{EpicDetector, EpicManifest};
use game_scanner::platforms::gog::{GogDetector, GogRegistryEntry};
use game_scanner::platforms::osx::{BundleError, BundleInfo, OsxDetector};
use game_scanner::platforms::riot::RiotDetector;
use game_scanner::platforms::steam::{SteamDetector, SteamManifestError};
use game_scanner::platforms::uplay::{UplayDetector, UplayRegistryEntry};
use game_scanner::platforms::win_registry::{RegistryDetector, RegistryEntry};
use game_scanner::{GamePlatform, HostOs, PathStyle};

const ACF: &str = "\"AppState\"\n{\n\t\"appid\"\t\t\"400\"\n\t\"name\"\t\t\"Half-Life Test\"\n\t\"installdir\"\t\t\"halflifetest\"\n}\n";

#[test]
fn steam_manifest_yields_one_game() {
    let steam = SteamDetector::with_style(PathStyle::Unix);
    let m = steam.parse_app_manifest(ACF).unwrap();
    assert_eq!(m.app_id, "400");
    assert_eq!(m.name, "Half-Life Test");
    assert_eq!(m.install_dir, "halflifetest");
    let dir = steam.install_dir_path("/lib/steamapps", &m.install_dir);
    assert_eq!(dir, "/lib/steamapps/common/halflifetest");
    // the directory exists and holds no executable
    let exe = find_game_executable(&Vec::new(), &Vec::new(), HostOs::Linux);
    let g = steam.manifest_game(m, Some(dir.clone()), exe);
    assert_eq!(g.id, "400");
    assert_eq!(g.name, "Half-Life Test");
    assert_eq!(g.install_path, Some(dir));
    assert_eq!(g.executable_path, None);
    assert_eq!(g.platform, GamePlatform::Steam { app_id: "400".to_string() });
}

#[test]
fn steam_manifest_scanned_in_its_library() {
    let steam = SteamDetector::with_style(PathStyle::Unix);
    let g = steam.scan_manifest("/lib/steamapps", ACF, Some((Vec::new(), Vec::new())), HostOs::Linux).unwrap();
    assert_eq!(g.id, "400");
    assert_eq!(g.name, "Half-Life Test");
    assert_eq!(g.install_path, Some("/lib/steamapps/common/halflifetest".to_string()));
    assert_eq!(g.executable_path, None);
    let g = steam.scan_manifest("/lib/steamapps", ACF, None, HostOs::Linux).unwrap();
    assert_eq!(g.install_path, None);
    let exe = FileEntry { path: "C:\\lib\\common\\hl\\hl.exe".to_string(), executable_bit: false };
    let g = steam.scan_manifest("/lib/steamapps", ACF, Some((vec![exe], Vec::new())), HostOs::Windows).unwrap();
    assert_eq!(g.executable_path, Some("C:\\lib\\common\\hl\\hl.exe".to_string()));
    assert_eq!(steam.scan_manifest("/lib", "", None, HostOs::Linux).unwrap_err(), SteamManifestError::MissingAppId);
}

#[test]
fn steam_manifest_with_crlf_lines() {
    let steam = SteamDetector::with_style(PathStyle::Windows);
    let m = steam.parse_app_manifest("\"appid\" \"7\"\r\n\"name\" \"X\"\r\n\"installdir\" \"x\"\r\n").unwrap();
    assert_eq!(m.app_id, "7");
    assert_eq!(m.install_dir, "x");
}

#[test]
fn steam_manifest_errors() {
    let steam = SteamDetector::with_style(PathStyle::Unix);
    assert_eq!(steam.parse_app_manifest("\"name\" \"X\"").unwrap_err(), SteamManifestError::MissingAppId);
    assert_eq!(steam.parse_app_manifest("\"appid\" \"1\"").unwrap_err(), SteamManifestError::MissingName);
    assert_eq!(
        steam.parse_app_manifest("\"appid\" \"1\"\n\"name\" \"X\"").unwrap_err(),
        SteamManifestError::MissingInstallDir
    );
}

#[test]
fn vdf_value_is_the_fourth_quoted_piece() {
    let steam = SteamDetector::with_style(PathStyle::Unix);
    assert_eq!(steam.extract_vdf_value("\t\"path\"\t\t\"/mnt/games\""), Some("/mnt/games".to_string()));
    assert_eq!(steam.extract_vdf_value("\"path\""), None);
}

#[test]
fn library_folders_are_deduplicated() {
    let steam = SteamDetector::with_style(PathStyle::Unix);
    let vdf = "\"libraryfolders\"\n{\n\"0\"\n{\n\"path\" \"/home/u/.steam/steam\"\n}\n\"1\"\n{\n\"path\" \"/mnt/lib\"\n}\n}\n";
    let listed = steam.library_folder_paths(vdf);
    assert_eq!(listed, vec!["/home/u/.steam/steam".to_string(), "/mnt/lib".to_string()]);
    let libs = steam.parse_library_folders("/home/u/.steam/steam".to_string(), &listed);
    assert_eq!(libs, vec!["/home/u/.steam/steam".to_string(), "/mnt/lib".to_string()]);
}

fn epic(main: &str, catalog: &str, categories: &[&str], launch: &str) -> EpicManifest {
    EpicManifest {
        app_name: "Fortnite".to_string(),
        display_name: "Fortnite".to_string(),
        install_location: "C:/Program Files/Epic Games/Fortnite".to_string(),
        launch_executable: launch.to_string(),
        catalog_item_id: catalog.to_string(),
        main_game_catalog_item_id: main.to_string(),
        app_categories: categories.iter().map(|c| c.to_string()).collect(),
    }
}

#[test]
fn epic_dlc_is_excluded() {
    let d = EpicDetector::with_style(PathStyle::Windows);
    assert!(d.parse_epic_manifest(&epic("main", "other", &[], "")).is_none());
    assert!(d.parse_epic_manifest(&epic("", "", &["games", "ADDONS"], "")).is_none());
    assert!(EpicDetector::is_dlc(&epic("", "", &["DLC"], "")));
    assert!(!EpicDetector::is_dlc(&epic("same", "same", &["games", "applications"], "")));
}

#[test]
fn epic_manifests_skip_addons_and_keep_the_rest() {
    let d = EpicDetector::with_style(PathStyle::Windows);
    let ms = vec![epic("a", "a", &[], ""), epic("main", "other", &[], ""), epic("", "", &["games"], "")];
    let games = d.parse_epic_manifests(&ms);
    assert_eq!(games.len(), 2);
}

#[test]
fn epic_base_game_is_kept() {
    let d = EpicDetector::with_style(PathStyle::Windows);
    let g = d.parse_epic_manifest(&epic("same", "same", &["games"], "FortniteGame/Binaries/Win64/Launcher.exe")).unwrap();
    assert_eq!(g.id, "Fortnite");
    assert_eq!(g.install_path, Some("C:\\Program Files\\Epic Games\\Fortnite".to_string()));
    assert_eq!(
        g.executable_path,
        Some("C:\\Program Files\\Epic Games\\Fortnite\\FortniteGame\\Binaries\\Win64\\Launcher.exe".to_string())
    );
    assert_eq!(g.platform, GamePlatform::EpicGames { app_name: "Fortnite".to_string() });
}

#[test]
fn legacy_origin_manifest_decodes() {
    let content = "?id=OFB-EAST%3a12345&dipInstallPath=C%3a%5cGames%5cFoo";
    let unix = EaAppDetector::with_style(PathStyle::Unix);
    let g = unix.parse_legacy_manifest(content, Some("dir".to_string())).unwrap();
    assert_eq!(g.id, "OFB-EAST:12345");
    assert!(g.install_path.as_ref().unwrap().ends_with("Games/Foo"));
    assert_eq!(g.platform, GamePlatform::EaApp { game_id: "OFB-EAST:12345".to_string() });
    let win = EaAppDetector::with_style(PathStyle::Windows);
    let g = win.parse_legacy_manifest(content, None).unwrap();
    assert_eq!(g.install_path, Some("C:\\Games\\Foo".to_string()));
    assert_eq!(g.name, "Foo");
    assert_eq!(g.executable_path, None);
}

#[test]
fn legacy_origin_keys_ignore_case_and_space() {
    let d = EaAppDetector::with_style(PathStyle::Windows);
    let g = d.parse_legacy_manifest(" ?ID = abc &other=1\n", Some("Game Dir".to_string())).unwrap();
    assert_eq!(g.id, "abc");
    assert_eq!(g.name, "Game Dir");
    assert_eq!(g.install_path, None);
    let g = d.parse_legacy_manifest("?id=abc", None).unwrap();
    assert_eq!(g.name, "abc");
}

#[test]
fn legacy_origin_errors() {
    let d = EaAppDetector::with_style(PathStyle::Windows);
    assert_eq!(d.parse_legacy_manifest("?dipinstallpath=C%3a", None).unwrap_err(), LegacyManifestError::MissingGameId);
    assert_eq!(d.parse_legacy_manifest("?id=%ff", None).unwrap_err(), LegacyManifestError::UndecodableGameId);
    assert_eq!(
        d.parse_legacy_manifest("?id=a&dipinstallpath=%c3%28", None).unwrap_err(),
        LegacyManifestError::UndecodableInstallPath
    );
}

fn ea_info(status: u32, check: &str, launchers: &[&str], dlc_sub_path: &str) -> EaInstallInfo {
    EaInstallInfo {
        base_install_path: "C:/Games/Battlefield 4".to_string(),
        base_slug: "battlefield-4".to_string(),
        software_id: "OFB-EAST:1".to_string(),
        installed_version: "1.0".to_string(),
        executable_check: check.to_string(),
        content_manifest_launchers: String::new(),
        dlc_sub_path: dlc_sub_path.to_string(),
        install_status: status,
        launchers: launchers.iter().map(|l| l.to_string()).collect(),
    }
}

#[test]
fn ea_desktop_keeps_installed_base_games() {
    let d = EaAppDetector::with_style(PathStyle::Windows);
    let infos = vec![
        ea_info(5, "[HKEY_LOCAL_MACHINE\\SOFTWARE\\EA\\Install Dir]bf4.exe", &[], ""),
        ea_info(3, "[x]bf4.exe", &[], ""),
        ea_info(5, "[]", &[], "\\"),
        ea_info(5, "", &["bf4.exe"], ""),
    ];
    let existing = vec!["C:\\Games\\Battlefield 4\\bf4.exe".to_string()];
    let games = d.parse_ea_desktop_db(&infos, &existing);
    assert_eq!(games.len(), 2);
    assert_eq!(games[0].name, "Battlefield 4");
    assert_eq!(games[0].install_path, Some("C:\\Games\\Battlefield 4".to_string()));
    assert_eq!(games[0].executable_path, Some("C:\\Games\\Battlefield 4\\bf4.exe".to_string()));
    assert_eq!(games[1].executable_path, None);
    assert!(d.is_dlc(&ea_info(5, "[]", &[], "")));
    assert!(d.is_dlc(&ea_info(5, "[x]a.exe", &[], "\\")));
    assert!(!d.is_dlc(&ea_info(5, "[x]a.exe", &[], "")));
}

#[test]
fn slugs_become_display_names() {
    let d = EaAppDetector::with_style(PathStyle::Unix);
    assert_eq!(d.slug_to_display_name("battlefield-4"), "Battlefield 4");
    assert_eq!(d.slug_to_display_name("the-sims-4"), "The Sims 4");
    assert_eq!(d.slug_to_display_name("a--b"), "A  B");
    assert_eq!(d.slug_to_display_name(""), "");
}

#[test]
fn riot_titles_come_from_the_install_path() {
    let d = RiotDetector::with_style(PathStyle::Windows);
    assert_eq!(d.extract_game_name_from_path("C:/Riot Games/VALORANT/live/"), "VALORANT");
    assert_eq!(d.extract_game_name_from_path("C:/Riot Games/League of Legends/"), "League of Legends");
    assert_eq!(d.extract_game_name_from_path("C:/Games/Other/"), "");
    assert_eq!(d.game_id("League of Legends"), "riot_league_of_legends");
    let installs = vec![
        ("C:/Riot Games/VALORANT/live/".to_string(), Some("C:/Riot Games/VALORANT/live/VALORANT.exe".to_string())),
        ("C:/Elsewhere/".to_string(), None),
    ];
    let games = d.parse_riot_client_installs(&installs);
    assert_eq!(games.len(), 1);
    assert_eq!(games[0].id, "riot_valorant");
    assert_eq!(games[0].name, "VALORANT");
    assert_eq!(games[0].install_path, Some("C:\\Riot Games\\VALORANT\\live".to_string()));
    assert_eq!(games[0].executable_path, Some("C:\\Riot Games\\VALORANT\\live\\VALORANT.exe".to_string()));
    assert_eq!(games[0].platform_data, vec![("app_id".to_string(), "riot_valorant".to_string())]);
}

#[test]
fn riot_executable_candidates() {
    let d = RiotDetector::with_style(PathStyle::Unix);
    assert_eq!(
        d.find_riot_game_executable("/riot/VALORANT", "VALORANT"),
        vec!["/riot/VALORANT/VALORANT.exe".to_string(), "/riot/VALORANT/live/VALORANT.exe".to_string()]
    );
    assert_eq!(d.find_riot_game_executable("/riot/LoL", "League of Legends").len(), 4);
    assert!(d.find_riot_game_executable("/riot/x", "Unknown").is_empty());
}

#[test]
fn registry_filters_system_software() {
    let d = RegistryDetector::new();
    assert!(d.is_likely_system_software("Microsoft Visual C++ 2015 Redistributable"));
    assert!(d.is_likely_system_software("Update for Microsoft Office"));
    assert!(d.is_likely_system_software("Security Update for Windows (KB123)"));
    assert!(!d.is_likely_system_software("Half-Life"));
    assert_eq!(
        d.extract_executable_from_path("\"C:\\Games\\Game.EXE\""),
        Some("C:\\Games\\Game.EXE".to_string())
    );
    assert_eq!(d.extract_executable_from_path("C:\\Games\\game.exe,0"), None);
    assert_eq!(d.extract_executable_from_path("C:\\a.exe\\b.exe"), Some("C:\\a.exe".to_string()));
}

#[test]
fn registry_entry_becomes_a_game() {
    let d = RegistryDetector::new();
    let entry = RegistryEntry {
        display_name: Some("Half-Life".to_string()),
        install_location: Some("C:\\Games\\HL".to_string()),
        display_icon: None,
        uninstall_string: Some("\"C:\\Games\\HL\\uninst.exe\"".to_string()),
        publisher: Some("Valve".to_string()),
        display_version: Some("1.1".to_string()),
    };
    let g = d.parse_registry_entry("HL_1", &entry).unwrap();
    assert_eq!(g.id, "HL_1");
    assert_eq!(g.executable_path, Some("C:\\Games\\HL\\uninst.exe".to_string()));
    assert_eq!(g.platform_data.len(), 2);
    let system = RegistryEntry { display_name: Some("Microsoft .NET Runtime".to_string()), ..entry };
    assert!(d.parse_registry_entry("x", &system).is_none());
}

#[test]
fn gog_and_uplay_entries() {
    let gog = GogDetector::new();
    let entry = GogRegistryEntry {
        game_name: Some("Witcher".to_string()),
        path: Some("C:/GOG Games/Witcher/".to_string()),
        exe: Some("bin/witcher.exe".to_string()),
        version: Some("2".to_string()),
    };
    let g = gog.parse_gog_registry_entry("1207", &entry).unwrap();
    assert_eq!(g.install_path, Some("C:\\GOG Games\\Witcher".to_string()));
    assert_eq!(g.executable_path, Some("C:\\GOG Games\\Witcher\\bin\\witcher.exe".to_string()));
    assert_eq!(g.platform_data, vec![("version".to_string(), "2".to_string())]);
    let missing = GogRegistryEntry { path: None, ..entry };
    assert!(gog.parse_gog_registry_entry("1207", &missing).is_none());
    assert!(GogDetector::is_supported(HostOs::Windows));
    assert!(!GogDetector::is_supported(HostOs::Linux));

    let uplay = UplayDetector::new();
    let e = UplayRegistryEntry { install_dir: Some("D:\\Ubi\\AC".to_string()), display_name: None, game_name: None };
    let g = uplay.parse_uplay_registry_entry("635", &e).unwrap();
    assert_eq!(g.name, "Uplay Game 635");
    assert_eq!(g.executable_path, None);
    let e = UplayRegistryEntry { install_dir: None, display_name: Some("AC".to_string()), game_name: None };
    assert!(uplay.parse_uplay_registry_entry("635", &e).is_none());
}

#[test]
fn bundles_and_the_game_heuristic() {
    let d = OsxDetector::new();
    let info = BundleInfo {
        bundle_id: Some("com.valvesoftware.steam".to_string()),
        display_name: None,
        bundle_name: Some("Steam".to_string()),
        executable: Some("steam_osx".to_string()),
        short_version: Some("1.0".to_string()),
    };
    let g = d.parse_app_bundle("/Applications/Steam.app", &info).unwrap();
    assert_eq!(g.name, "Steam");
    assert_eq!(g.executable_path, Some("/Applications/Steam.app/Contents/MacOS/steam_osx".to_string()));
    assert!(d.is_likely_game(&g));
    let no_id = BundleInfo { bundle_id: None, ..info };
    assert_eq!(d.parse_app_bundle("/x.app", &no_id).unwrap_err(), BundleError::MissingBundleId);
    let calc = game_scanner::models::DetectedGame::new(
        "com.apple.calculator".to_string(),
        "Calculator".to_string(),
        None,
        None,
        GamePlatform::OsxBundle { bundle_id: "com.apple.calculator".to_string() },
    );
    assert!(!d.is_likely_game(&calc));
    let other = game_scanner::models::DetectedGame::new(
        "org.example.tool".to_string(),
        "Tool".to_string(),
        None,
        None,
        GamePlatform::OsxBundle { bundle_id: "org.example.tool".to_string() },
    );
    assert!(d.is_likely_game(&other));
}

#[test]
fn executable_heuristic() {
    let e = |p: &str, x: bool| FileEntry { path: p.to_string(), executable_bit: x };
    let top = vec![e("C:\\G\\readme.txt", false), e("C:\\G\\game.exe", false)];
    assert_eq!(find_game_executable(&top, &Vec::new(), HostOs::Windows), Some("C:\\G\\game.exe".to_string()));
    let sub = vec![e("C:\\G\\bin\\run.exe", false)];
    assert_eq!(find_game_executable(&Vec::new(), &sub, HostOs::Windows), Some("C:\\G\\bin\\run.exe".to_string()));
    assert_eq!(find_game_executable(&Vec::new(), &sub, HostOs::MacOs), None);
    let mac = vec![e("/G/Game.app", false)];
    assert_eq!(find_game_executable(&mac, &Vec::new(), HostOs::MacOs), Some("/G/Game.app".to_string()));
    let linux = vec![e("/G/data", false), e("/G/run", true)];
    assert_eq!(find_game_executable(&linux, &Vec::new(), HostOs::Linux), Some("/G/run".to_string()));
    assert!(path_has_extension("/a/b.exe", "exe", PathStyle::Unix));
    assert!(!path_has_extension("/a/.exe", "exe", PathStyle::Unix));
    assert_eq!(conventional_subdirs(), vec!["bin", "Bin", "Binaries", "Game", "game"]);
}

#[test]
fn missing_detections_are_those_of_new_types() {
    let app = GHUBApp {
        application_id: "app".to_string(),
        category_colors: Vec::new(),
        commands: Vec::new(),
        detection: vec![Detection::Steam { steam: SteamApp { app_id: "1".to_string() } }],
        name: "Game".to_string(),
        poster_title_position: String::new(),
        poster_url: String::new(),
        version: 1,
    };
    let available = vec![
        Detection::Steam { steam: SteamApp { app_id: "2".to_string() } },
        Detection::EpicGames { epic_games: EpicGames { app_name: "x".to_string() } },
        Detection::Unknown("{}".to_string()),
    ];
    let missing = get_missing_detections(&app, &available);
    assert_eq!(missing.len(), 2);
    assert!(matches!(missing[0], Detection::EpicGames { .. }));
    assert!(matches!(missing[1], Detection::Unknown(_)));
}

#[test]
fn ea_executable_search_only_on_windows_and_macos() {
    let e = |p: &str, x: bool| FileEntry { path: p.to_string(), executable_bit: x };
    let linux = vec![e("/G/run", true)];
    assert_eq!(find_ea_game_executable(&linux, &Vec::new(), HostOs::Linux), None);
    assert_eq!(find_ea_game_executable(&linux, &Vec::new(), HostOs::Other), None);
    let win = vec![e("C:\\G\\bf4.exe", false)];
    assert_eq!(find_ea_game_executable(&win, &Vec::new(), HostOs::Windows), Some("C:\\G\\bf4.exe".to_string()));
    let mac = vec![e("/G/Game.app", false)];
    assert_eq!(find_ea_game_executable(&mac, &Vec::new(), HostOs::MacOs), Some("/G/Game.app".to_string()));
}

#[test]
fn legacy_games_are_named_by_path_then_directory_then_id() {
    let d = EaAppDetector::with_style(PathStyle::Windows);
    let g = d.legacy_game("OFB-EAST:1".to_string(), Some("C:/Games//Foo/".to_string()), Some("dir".to_string()));
    assert_eq!(g.name, "Foo");
    assert_eq!(g.install_path, Some("C:\\Games\\Foo".to_string()));
    assert_eq!(g.executable_path, None);
    assert_eq!(g.platform, GamePlatform::EaApp { game_id: "OFB-EAST:1".to_string() });
    let g = d.legacy_game("OFB-EAST:1".to_string(), None, Some("dir".to_string()));
    assert_eq!(g.name, "dir");
    assert_eq!(g.install_path, None);
    let g = d.legacy_game("OFB-EAST:1".to_string(), None, None);
    assert_eq!(g.name, "OFB-EAST:1");
    let unix = EaAppDetector::with_style(PathStyle::Unix);
    let g = unix.legacy_game("x".to_string(), Some("C:\\Games\\Foo".to_string()), None);
    assert_eq!(g.name, "C:\\Games\\Foo");
    assert_eq!(g.install_path, Some("C:/Games/Foo".to_string()));
}
