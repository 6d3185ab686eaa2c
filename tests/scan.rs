use game_scanner::models::DetectedGame;
use game_scanner::scanner::StoreScan;
use game_scanner::{GamePlatform, GameScanResult, GameScanner, HostOs, PlatformKind, PlatformOutcome, ScanOptions};

fn steam_game(id: &str) -> DetectedGame {
    DetectedGame::new(
        id.to_string(),
        format!("Game {}", id),
        None,
        None,
        GamePlatform::Steam { app_id: id.to_string() },
    )
}

fn epic_game(id: &str) -> DetectedGame {
    DetectedGame::new(
        id.to_string(),
        id.to_string(),
        None,
        Some(format!("/epic/{}", id)),
        GamePlatform::EpicGames { app_name: id.to_string() },
    )
}

fn group_len(r: &GameScanResult, name: &str) -> Option<usize> {
    r.games_by_platform.iter().find(|(k, _)| k == name).map(|(_, v)| v.len())
}

#[test]
fn nothing_enabled_scans_nothing() {
    let scanner = GameScanner::new(ScanOptions::none());
    assert!(scanner.platforms().is_empty());
    let r = scanner.merge_outcomes(Vec::new(), 3);
    assert!(r.games.is_empty());
    assert!(r.scanned_platforms.is_empty());
    assert!(r.failed_platforms.is_empty());
    assert!(r.errors.is_empty());
    assert_eq!(r.total_count, 0);
    assert_eq!(r.scan_duration_ms, 3);
}

#[test]
fn platforms_follow_the_option_order() {
    let all = GameScanner::new(ScanOptions::all()).platforms();
    assert_eq!(
        all,
        vec![
            PlatformKind::Steam,
            PlatformKind::EpicGames,
            PlatformKind::Uplay,
            PlatformKind::GogGalaxy,
            PlatformKind::RiotGames,
            PlatformKind::WinRegistry,
            PlatformKind::OsxBundle,
            PlatformKind::EaApp,
        ]
    );
    let quick = GameScanner::new(ScanOptions::quick(HostOs::Linux)).platforms();
    assert_eq!(
        quick,
        vec![
            PlatformKind::Steam,
            PlatformKind::EpicGames,
            PlatformKind::GogGalaxy,
            PlatformKind::RiotGames,
            PlatformKind::EaApp,
        ]
    );
    assert!(ScanOptions::quick(HostOs::MacOs).scan_osx_bundle);
    assert!(!ScanOptions::quick(HostOs::Windows).scan_uplay);
    assert_eq!(ScanOptions::default(), ScanOptions::all());
}

#[test]
fn total_count_is_the_sum_of_the_groups() {
    let mut options = ScanOptions::none();
    options.scan_steam = true;
    options.scan_epic_games = true;
    let scanner = GameScanner::new(options);
    let outcomes = vec![
        PlatformOutcome { platform: PlatformKind::Steam, result: Ok(vec![steam_game("400"), steam_game("10")]) },
        PlatformOutcome { platform: PlatformKind::EpicGames, result: Ok(vec![epic_game("Fortnite")]) },
    ];
    let r = scanner.merge_outcomes(outcomes, 12);
    assert_eq!(r.total_count, 3);
    assert_eq!(r.games.len(), 3);
    let sum: usize = r.games_by_platform.iter().map(|(_, v)| v.len()).sum();
    assert_eq!(sum, r.total_count);
    assert_eq!(group_len(&r, "Steam"), Some(2));
    assert_eq!(group_len(&r, "Epic Games"), Some(1));
    assert_eq!(r.games[0].id, "400");
    assert_eq!(r.games[2].id, "Fortnite");
    assert_eq!(r.scanned_platforms, vec!["Steam".to_string(), "Epic Games".to_string()]);
}

#[test]
fn each_platform_is_scanned_or_failed_once() {
    let mut options = ScanOptions::none();
    options.scan_steam = true;
    options.scan_riot_games = true;
    options.scan_ea_app = true;
    let scanner = GameScanner::new(options);
    let kinds = scanner.platforms();
    assert_eq!(kinds, vec![PlatformKind::Steam, PlatformKind::RiotGames, PlatformKind::EaApp]);
    let outcomes = vec![
        PlatformOutcome { platform: kinds[0], result: Ok(vec![steam_game("1")]) },
        PlatformOutcome { platform: kinds[1], result: Err("permission denied".to_string()) },
        PlatformOutcome { platform: kinds[2], result: Ok(Vec::new()) },
    ];
    let r = scanner.merge_outcomes(outcomes, 0);
    assert_eq!(r.scanned_platforms, vec!["Steam".to_string(), "EA App".to_string()]);
    assert_eq!(r.failed_platforms, vec!["Riot Games".to_string()]);
    assert_eq!(r.errors, vec!["Riot Games scan error: permission denied".to_string()]);
    for name in ["Steam", "Riot Games", "EA App"] {
        let scanned = r.scanned_platforms.iter().any(|p| p == name);
        let failed = r.failed_platforms.iter().any(|p| p == name);
        assert!(scanned != failed);
    }
}

#[test]
fn an_absent_platform_is_scanned_with_no_games() {
    let mut options = ScanOptions::none();
    options.scan_gog_galaxy = true;
    let scanner = GameScanner::new(options);
    let outcomes = vec![PlatformOutcome::from_scan(PlatformKind::GogGalaxy, StoreScan::Absent)];
    let r = scanner.merge_outcomes(outcomes, 1);
    assert_eq!(r.scanned_platforms, vec!["GOG Galaxy".to_string()]);
    assert!(r.failed_platforms.is_empty());
    assert_eq!(group_len(&r, "GOG Galaxy"), Some(0));
    assert_eq!(r.total_count, 0);
}

#[test]
fn result_methods_record_in_order() {
    let mut r = GameScanResult::new();
    r.add_games("Steam".to_string(), vec![steam_game("1")]);
    r.mark_failed("Epic Games".to_string(), "broken".to_string());
    r.add_games("Steam".to_string(), vec![steam_game("2"), steam_game("3")]);
    assert_eq!(r.total_count, 3);
    assert_eq!(r.games.len(), 3);
    assert_eq!(r.games_by_platform.len(), 1);
    assert_eq!(group_len(&r, "Steam"), Some(2));
    let r = r.finalize(42);
    assert_eq!(r.scan_duration_ms, 42);
    assert_eq!(r.failed_platforms, vec!["Epic Games".to_string()]);
    assert_eq!(r.errors, vec!["broken".to_string()]);
    assert_eq!(GameScanResult::default().total_count, 0);
}

#[test]
fn platform_names_and_identifiers() {
    let p = GamePlatform::EaApp { game_id: "OFB-EAST:1".to_string() };
    assert_eq!(p.name(), "EA App");
    assert_eq!(p.identifier(), "OFB-EAST:1");
    assert_eq!(p.kind(), PlatformKind::EaApp);
    assert_eq!(GamePlatform::WinRegistry { registry_key: "k".to_string() }.name(), "Windows Registry");
    assert_eq!(GamePlatform::Uplay { app_id: "5".to_string() }.name(), "Ubisoft Connect");
    assert_eq!(GamePlatform::OsxBundle { bundle_id: "b".to_string() }.name(), "macOS App");
    assert_eq!(PlatformKind::GogGalaxy.display_name(), GamePlatform::GOG_GALAXY_NAME);
    assert_eq!(p.clone(), p);
}

#[test]
fn platform_data_keeps_one_value_per_key() {
    let g = steam_game("7")
        .with_platform_data("version".to_string(), "1.0".to_string())
        .with_platform_data("publisher".to_string(), "Valve".to_string())
        .with_platform_data("version".to_string(), "2.0".to_string());
    assert_eq!(g.platform_data.len(), 2);
    assert!(g.platform_data.contains(&("version".to_string(), "2.0".to_string())));
    assert!(g.platform_data.contains(&("publisher".to_string(), "Valve".to_string())));
    let c = g.clone();
    assert_eq!(c.platform_data, g.platform_data);
    assert_eq!(c.id, "7");
}

#[test]
fn host_names() {
    assert_eq!(HostOs::from_os_name("windows"), HostOs::Windows);
    assert_eq!(HostOs::from_os_name("macos"), HostOs::MacOs);
    assert_eq!(HostOs::from_os_name("linux"), HostOs::Linux);
    assert_eq!(HostOs::from_os_name("freebsd"), HostOs::Other);
}

#[test]
fn store_scans_become_outcomes() {
    let found = PlatformOutcome::from_scan(PlatformKind::Steam, StoreScan::Found(vec![steam_game("1")]));
    assert_eq!(found.result.unwrap().len(), 1);
    let failed = PlatformOutcome::from_scan(PlatformKind::Steam, StoreScan::Failed("no access".to_string()));
    assert_eq!(failed.result.unwrap_err(), "no access");
    let absent = PlatformOutcome::from_scan(PlatformKind::EaApp, StoreScan::Absent);
    assert_eq!(absent.platform, PlatformKind::EaApp);
    assert!(absent.result.unwrap().is_empty());
}
