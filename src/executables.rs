//! The heuristic that picks a game's executable among the files of its
//! install directory.

use vstd::prelude::*;
use crate::models::{opt_view, HostOs};
use crate::paths::{file_name, path_file_name, PathStyle};
use crate::text::{chars_of, last_index, rfind_char, same_chars, slice_chars};

verus! {

/// A file found while looking for an executable.
#[derive(Debug)]
pub struct FileEntry {
    /// The full path of the file.
    pub path: String,
    /// Whether the file is a regular file with an execute permission bit set.
    pub executable_bit: bool,
}

/// The subdirectories searched, in order, when the install root holds no
/// executable.
pub fn conventional_subdirs() -> (r: Vec<&'static str>)
    ensures
        r@.len() == 5,
        r@[0]@ == "bin"@,
        r@[1]@ == "Bin"@,
        r@[2]@ == "Binaries"@,
        r@[3]@ == "Game"@,
        r@[4]@ == "game"@,
{
    vec!["bin", "Bin", "Binaries", "Game", "game"]
}

/// The extension of a file name: the text after its last `.`, where that `.`
/// is not the first character.
pub open spec fn extension(name: Seq<char>) -> Option<Seq<char>> {
    match last_index(name, '.') {
        Some(i) => if i > 0 {
            Some(name.subrange(i + 1, name.len() as int))
        } else {
            None
        },
        None => None,
    }
}

/// Whether the last component of `path` has extension `ext`.
pub open spec fn has_extension(path: Seq<char>, ext: Seq<char>, style: PathStyle) -> bool {
    match file_name(path, style) {
        Some(n) => extension(n) == Some(ext),
        None => false,
    }
}

/// Whether the last component of `path` has extension `ext`.
pub fn path_has_extension(path: &str, ext: &str, style: PathStyle) -> (r: bool)
    ensures
        r == has_extension(path@, ext@, style),
{
    let name = match path_file_name(path, style) {
        Some(n) => chars_of(n.as_str()),
        None => {
            return false;
        },
    };
    match rfind_char(&name, '.') {
        Some(i) => {
            if i == 0 {
                return false;
            }
            let tail = slice_chars(&name, i + 1, name.len());
            same_chars(&tail, &chars_of(ext))
        },
        None => false,
    }
}

/// Whether a file at the install root counts as the executable on `host`:
/// an `.exe` on Windows, an `.app` bundle on macOS, a file with an execute
/// bit on Linux.
pub open spec fn accepted(e: FileEntry, host: HostOs) -> bool {
    match host {
        HostOs::Windows => has_extension(e.path@, "exe"@, PathStyle::Windows),
        HostOs::MacOs => has_extension(e.path@, "app"@, PathStyle::Unix),
        HostOs::Linux => e.executable_bit,
        HostOs::Other => false,
    }
}

/// The path of the first accepted entry.
pub open spec fn first_accepted(s: Seq<FileEntry>, host: HostOs) -> Option<Seq<char>>
    decreases s.len(),
{
    if s.len() == 0 {
        None
    } else if accepted(s[0], host) {
        Some(s[0].path@)
    } else {
        first_accepted(s.drop_first(), host)
    }
}

/// The executable chosen among the files of the install root and, on Windows
/// only, those of the conventional subdirectories.
pub open spec fn chosen_executable(top: Seq<FileEntry>, sub: Seq<FileEntry>, host: HostOs) -> Option<Seq<char>> {
    match first_accepted(top, host) {
        Some(p) => Some(p),
        None => if host == HostOs::Windows {
            first_accepted(sub, host)
        } else {
            None
        },
    }
}

fn entry_accepted(e: &FileEntry, host: HostOs) -> (r: bool)
    ensures
        r == accepted(*e, host),
{
    match host {
        HostOs::Windows => path_has_extension(e.path.as_str(), "exe", PathStyle::Windows),
        HostOs::MacOs => path_has_extension(e.path.as_str(), "app", PathStyle::Unix),
        HostOs::Linux => e.executable_bit,
        HostOs::Other => false,
    }
}

fn first_accepted_path(s: &Vec<FileEntry>, host: HostOs) -> (r: Option<String>)
    ensures
        opt_view(r) == first_accepted(s@, host),
{
    let mut i: usize = 0;
    assert(s@.subrange(0, s@.len() as int) =~= s@);
    while i < s.len()
        invariant
            i <= s.len(),
            first_accepted(s@, host) == first_accepted(s@.subrange(i as int, s@.len() as int), host),
        decreases s.len() - i,
    {
        if entry_accepted(&s[i], host) {
            return Some(s[i].path.clone());
        }
        assert(s@.subrange(i as int, s@.len() as int).drop_first() =~= s@.subrange(i + 1, s@.len() as int));
        i = i + 1;
    }
    None
}

/// Picks the executable among the files of the install root (`top`) and of
/// its conventional subdirectories (`sub`, in search order).
pub fn find_game_executable(top: &Vec<FileEntry>, sub: &Vec<FileEntry>, host: HostOs) -> (r: Option<String>)
    ensures
        opt_view(r) == chosen_executable(top@, sub@, host),
{
    match first_accepted_path(top, host) {
        Some(p) => Some(p),
        None => if host == HostOs::Windows {
            first_accepted_path(sub, host)
        } else {
            None
        },
    }
}


/// Picks the executable of an EA App or Origin install: as
/// `find_game_executable` on Windows and macOS, and none on other hosts, where
/// the search has no rule.
pub fn find_ea_game_executable(top: &Vec<FileEntry>, sub: &Vec<FileEntry>, host: HostOs) -> (r: Option<String>)
    ensures
        (host != HostOs::Windows && host != HostOs::MacOs) ==> r is None,
        (host == HostOs::Windows || host == HostOs::MacOs) ==> opt_view(r) == chosen_executable(top@, sub@, host),
{
    if host == HostOs::Windows || host == HostOs::MacOs {
        find_game_executable(top, sub, host)
    } else {
        None
    }
}

} // verus!
