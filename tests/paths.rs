use game_scanner::paths::{join_path, normalize_unix_path, normalize_windows_path, path_file_name};
use game_scanner::{normalize_path_separators, PathStyle};

/// Windows form: the host's own normalisation where the host is Windows.
fn windows_form(path: &str) -> String {
    if std::path::MAIN_SEPARATOR == '\\' {
        normalize_path_separators(path)
    } else {
        normalize_windows_path(path)
    }
}

/// Unix form: the host's own normalisation where the host is not Windows.
fn unix_form(path: &str) -> String {
    if std::path::MAIN_SEPARATOR == '/' {
        normalize_path_separators(path)
    } else {
        normalize_unix_path(path)
    }
}

#[test]
fn test_normalize_windows_paths() {
    // Test mixed slashes
    assert_eq!(
        windows_form("C:/Program Files/Game"),
        String::from("C:\\Program Files\\Game")
    );

    // Test double backslashes
    assert_eq!(
        windows_form("C:\\\\Program Files\\\\Game"),
        String::from("C:\\Program Files\\Game")
    );

    // Test already normalized
    assert_eq!(
        windows_form("C:\\Program Files\\Game"),
        String::from("C:\\Program Files\\Game")
    );

    // Test mixed double and single
    assert_eq!(
        windows_form("C:\\\\Program Files/Game\\Folder"),
        String::from("C:\\Program Files\\Game\\Folder")
    );
}

#[test]
fn test_normalize_unix_paths() {
    // Test backslashes to forward slashes
    assert_eq!(
        unix_form("/Users\\username\\Games"),
        String::from("/Users/username/Games")
    );

    // Test already normalized
    assert_eq!(
        unix_form("/Users/username/Games"),
        String::from("/Users/username/Games")
    );
}

#[test]
fn normalization_collapses_separators_and_keeps_a_leading_one() {
    assert_eq!(normalize_windows_path("\\Games\\Foo\\"), "\\Games\\Foo");
    assert_eq!(normalize_windows_path("\\\\server\\share"), "\\server\\share");
    assert_eq!(normalize_windows_path("/"), "\\");
    assert_eq!(normalize_windows_path(""), "");
    assert_eq!(normalize_unix_path("a//b"), "a/b");
    assert_eq!(normalize_unix_path("/usr//local\\\\games/"), "/usr/local/games");
    assert_eq!(normalize_unix_path("/"), "/");
    assert_eq!(normalize_unix_path("C:\\Games\\Foo"), "C:/Games/Foo");
}

#[test]
fn native_normalization_follows_the_host_separator() {
    let r = normalize_path_separators("a\\b/c");
    if std::path::MAIN_SEPARATOR == '\\' {
        assert_eq!(r, "a\\b\\c");
    } else {
        assert_eq!(r, "a/b/c");
    }
    if std::path::MAIN_SEPARATOR == '/' {
        assert_eq!(PathStyle::native(), PathStyle::Unix);
    }
}

#[test]
fn join_puts_one_separator_between() {
    assert_eq!(join_path("/games", "bin", PathStyle::Unix), "/games/bin");
    assert_eq!(join_path("/games/", "bin", PathStyle::Unix), "/games/bin");
    assert_eq!(join_path("/games", "/abs", PathStyle::Unix), "/abs");
    assert_eq!(join_path("C:\\Games", "x.exe", PathStyle::Windows), "C:\\Games\\x.exe");
    assert_eq!(join_path("", "x", PathStyle::Unix), "x");
}

#[test]
fn file_name_is_the_last_component() {
    assert_eq!(path_file_name("C:\\Games\\Foo", PathStyle::Windows), Some(String::from("Foo")));
    assert_eq!(path_file_name("/games/foo/", PathStyle::Unix), Some(String::from("foo")));
    assert_eq!(path_file_name("C:\\Games\\Foo", PathStyle::Unix), Some(String::from("C:\\Games\\Foo")));
    assert_eq!(path_file_name("///", PathStyle::Unix), None);
}
