//! The Windows uninstall registry: one subkey per installed program.

use vstd::prelude::*;
use crate::models::{opt_view, DetectedGame, GamePlatform, HostOs};
use crate::text::{
    chars_of, contains, contains_text, ends_with, find_first, first_match, has_prefix, has_suffix,
    lower_of, lowercase, slice_chars, starts_with, string_of, strip_leading, strip_leading_chars,
    strip_trailing, strip_trailing_chars,
};

verus! {

/// The string values of one uninstall subkey, each where present.
#[derive(Debug)]
pub struct RegistryEntry {
    pub display_name: Option<String>,
    pub install_location: Option<String>,
    pub display_icon: Option<String>,
    pub uninstall_string: Option<String>,
    pub publisher: Option<String>,
    pub display_version: Option<String>,
}

/// Whether a display name belongs to a runtime, an update or a driver rather
/// than a game.
pub open spec fn is_system_name(name: Seq<char>) -> bool {
    contains_text(name, "Microsoft Visual C++"@) || contains_text(name, "Microsoft .NET"@)
        || contains_text(name, "Windows Update"@) || contains_text(name, "Driver Update"@)
        || contains_text(name, "Redistributable"@) || contains_text(name, ".NET Framework"@)
        || contains_text(name, "DirectX Runtime"@) || contains_text(name, "DirectX for Windows"@)
        || (starts_with(name, "Update for"@) && contains_text(name, "Microsoft"@))
        || (contains_text(name, "KB"@) && contains_text(name, "Windows"@))
}

/// The executable a registry value names: the value without surrounding
/// quotes, cut after the first `.exe`, where it ends in `.exe` in any case.
pub open spec fn executable_in(value: Seq<char>) -> Option<Seq<char>> {
    let cleaned = strip_trailing(strip_leading(value, '"'), '"');
    let lower = lower_of(cleaned);
    if ends_with(lower, ".exe"@) {
        match first_match(lower, ".exe"@) {
            Some(i) => if i + 4 <= cleaned.len() {
                Some(cleaned.subrange(0, i + 4))
            } else {
                Some(cleaned)
            },
            None => Some(cleaned),
        }
    } else {
        None
    }
}

/// The executable of an entry: from its icon, else from its uninstall command.
pub open spec fn entry_executable(entry: RegistryEntry) -> Option<Seq<char>> {
    match entry.display_icon {
        Some(icon) => executable_in(icon@),
        None => match entry.uninstall_string {
            Some(u) => executable_in(u@),
            None => None,
        },
    }
}

/// The extras of an entry: its publisher and its version, where present.
pub open spec fn entry_extras(entry: RegistryEntry) -> Map<Seq<char>, Seq<char>> {
    let m0 = Map::<Seq<char>, Seq<char>>::empty();
    let m1 = match entry.publisher {
        Some(p) => m0.insert("publisher"@, p@),
        None => m0,
    };
    match entry.display_version {
        Some(v) => m1.insert("version"@, v@),
        None => m1,
    }
}

/// Detector over the Windows uninstall registry.
pub struct RegistryDetector;

impl RegistryDetector {
    pub fn new() -> (r: Self) {
        RegistryDetector
    }

    /// The uninstall registry exists on Windows alone.
    pub fn is_supported(host: HostOs) -> (r: bool)
        ensures
            r == (host == HostOs::Windows),
    {
        host == HostOs::Windows
    }

    /// Whether a display name belongs to system software.
    pub fn is_likely_system_software(&self, name: &str) -> (r: bool)
        ensures
            r == is_system_name(name@),
    {
        let n = chars_of(name);
        contains(&n, &chars_of("Microsoft Visual C++")) || contains(&n, &chars_of("Microsoft .NET"))
            || contains(&n, &chars_of("Windows Update")) || contains(&n, &chars_of("Driver Update"))
            || contains(&n, &chars_of("Redistributable")) || contains(&n, &chars_of(".NET Framework"))
            || contains(&n, &chars_of("DirectX Runtime")) || contains(&n, &chars_of("DirectX for Windows"))
            || (has_prefix(&n, &chars_of("Update for")) && contains(&n, &chars_of("Microsoft")))
            || (contains(&n, &chars_of("KB")) && contains(&n, &chars_of("Windows")))
    }

    /// The executable a registry value names.
    pub fn extract_executable_from_path(&self, path: &str) -> (r: Option<String>)
        ensures
            opt_view(r) == executable_in(path@),
    {
        let cleaned = strip_trailing_chars(&strip_leading_chars(&chars_of(path), '"'), '"');
        let ghost c = strip_trailing(strip_leading(path@, '"'), '"');
        assert(cleaned@ == c);
        let cleaned_text = string_of(&cleaned);
        let lower = chars_of(lowercase(cleaned_text.as_str()).as_str());
        assert(lower@ == lower_of(c));
        let exe = chars_of(".exe");
        if !has_suffix(&lower, &exe) {
            return None;
        }
        let found = find_first(&lower, &exe);
        let r = match found {
            Some(i) => {
                if i <= cleaned.len() && 4 <= cleaned.len() - i {
                    let cut = slice_chars(&cleaned, 0, i + 4);
                    assert(cut@ == c.subrange(0, i + 4));
                    Some(string_of(&cut))
                } else {
                    Some(cleaned_text)
                }
            },
            None => Some(cleaned_text),
        };
        r
    }

    /// The game of an uninstall subkey named `key_name`; none without a
    /// display name or for system software.
    pub fn parse_registry_entry(&self, key_name: &str, entry: &RegistryEntry) -> (r: Option<DetectedGame>)
        ensures
            match entry.display_name {
                None => r is None,
                Some(name) => if is_system_name(name@) {
                    r is None
                } else {
                    r matches Some(g) && {
                        &&& g.wf()
                        &&& g.id@ == key_name@
                        &&& g.name@ == name@
                        &&& opt_view(g.install_path) == opt_view(entry.install_location)
                        &&& opt_view(g.executable_path) == entry_executable(*entry)
                        &&& g.platform matches GamePlatform::WinRegistry { registry_key } && registry_key@ == key_name@
                        &&& g@.platform_data == entry_extras(*entry)
                    }
                },
            },
    {
        let display_name = match &entry.display_name {
            Some(n) => n.clone(),
            None => {
                return None;
            },
        };
        if self.is_likely_system_software(display_name.as_str()) {
            return None;
        }
        let install_location = match &entry.install_location {
            Some(p) => Some(p.clone()),
            None => None,
        };
        let executable = match &entry.display_icon {
            Some(icon) => self.extract_executable_from_path(icon.as_str()),
            None => match &entry.uninstall_string {
                Some(u) => self.extract_executable_from_path(u.as_str()),
                None => None,
            },
        };
        let platform = GamePlatform::WinRegistry { registry_key: String::from_str(key_name) };
        let mut game = DetectedGame::new(String::from_str(key_name), display_name, executable, install_location, platform);
        match &entry.publisher {
            Some(p) => {
                game = game.with_platform_data(String::from_str("publisher"), p.clone());
            },
            None => {},
        }
        match &entry.display_version {
            Some(v) => {
                game = game.with_platform_data(String::from_str("version"), v.clone());
            },
            None => {},
        }
        Some(game)
    }
}

} // verus!
