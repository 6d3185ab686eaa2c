//! Steam: library folders and per-application `.acf` manifests, both in
//! Valve's line-oriented `"key" "value"` format.

use vstd::prelude::*;
use crate::executables::{chosen_executable, find_game_executable, FileEntry};
use crate::models::{opt_view, strings_view, DetectedGame, GamePlatform, HostOs};
use crate::paths::{join_path, joined, PathStyle};
use crate::text::{chars_of, contains, contains_text, lines_of, split_chars, split_lines, split_on, string_of};

verus! {

/// The value of a `"key" "value"` line: the fourth piece between quotes.
pub open spec fn vdf_value(line: Seq<char>) -> Option<Seq<char>> {
    let parts = split_on(line, '"');
    if parts.len() >= 4 {
        Some(parts[3])
    } else {
        None
    }
}

/// Why an application manifest yields no game.
#[derive(Clone, Copy, PartialEq, Eq, Structural, Debug)]
pub enum SteamManifestError {
    MissingAppId,
    MissingName,
    MissingInstallDir,
}

/// The three fields of an application manifest that a game needs.
#[derive(Debug)]
pub struct AppManifest {
    pub app_id: String,
    pub name: String,
    pub install_dir: String,
}

/// The fields read so far: application id, name, install directory.
pub type ManifestFields = (Option<Seq<char>>, Option<Seq<char>>, Option<Seq<char>>);

/// The fields after one more line; a line that names a key sets that field to
/// its value, or clears it where the line has no value.
pub open spec fn manifest_step(acc: ManifestFields, line: Seq<char>) -> ManifestFields {
    if contains_text(line, "\"appid\""@) {
        (vdf_value(line), acc.1, acc.2)
    } else if contains_text(line, "\"name\""@) {
        (acc.0, vdf_value(line), acc.2)
    } else if contains_text(line, "\"installdir\""@) {
        (acc.0, acc.1, vdf_value(line))
    } else {
        acc
    }
}

/// The fields that a sequence of lines sets; a later line wins.
pub open spec fn manifest_fields(lines: Seq<Seq<char>>) -> ManifestFields
    decreases lines.len(),
{
    if lines.len() == 0 {
        (None, None, None)
    } else {
        manifest_step(manifest_fields(lines.drop_last()), lines.last())
    }
}

/// The library paths a `libraryfolders.vdf` lists, in order.
pub open spec fn listed_paths(lines: Seq<Seq<char>>) -> Seq<Seq<char>>
    decreases lines.len(),
{
    if lines.len() == 0 {
        Seq::empty()
    } else if contains_text(lines.last(), "\"path\""@) && vdf_value(lines.last()) is Some {
        listed_paths(lines.drop_last()).push(vdf_value(lines.last())->Some_0)
    } else {
        listed_paths(lines.drop_last())
    }
}

/// Steam detector.
pub struct SteamDetector {
    /// The path convention of the machine scanned.
    pub style: PathStyle,
}

impl SteamDetector {
    /// A detector for the machine the library runs on.
    pub fn new() -> (r: Self) {
        SteamDetector { style: PathStyle::native() }
    }

    /// A detector for paths of the given convention.
    pub fn with_style(style: PathStyle) -> (r: Self)
        ensures
            r.style == style,
    {
        SteamDetector { style }
    }

    /// The value of a `"key" "value"` line.
    pub fn extract_vdf_value(&self, line: &str) -> (r: Option<String>)
        ensures
            opt_view(r) == vdf_value(line@),
    {
        let v = vdf_value_of(&chars_of(line));
        match v {
            Some(c) => Some(string_of(&c)),
            None => None,
        }
    }

    /// Reads an application manifest.
    pub fn parse_app_manifest(&self, content: &str) -> (r: Result<AppManifest, SteamManifestError>)
        ensures
            match manifest_fields(lines_of(content@)) {
                (Some(id), Some(name), Some(dir)) => r matches Ok(m) && m.app_id@ == id && m.name@ == name
                    && m.install_dir@ == dir,
                (None, _, _) => r == Err::<AppManifest, SteamManifestError>(SteamManifestError::MissingAppId),
                (Some(_), None, _) => r == Err::<AppManifest, SteamManifestError>(SteamManifestError::MissingName),
                (Some(_), Some(_), None) => r == Err::<AppManifest, SteamManifestError>(
                    SteamManifestError::MissingInstallDir,
                ),
            },
    {
        let lines = split_lines(&chars_of(content));
        let ghost ls = lines_of(content@);
        let appid_key = chars_of("\"appid\"");
        let name_key = chars_of("\"name\"");
        let dir_key = chars_of("\"installdir\"");
        let mut app_id: Option<Vec<char>> = None;
        let mut name: Option<Vec<char>> = None;
        let mut install_dir: Option<Vec<char>> = None;
        let mut i: usize = 0;
        while i < lines.len()
            invariant
                i <= lines.len(),
                lines@.len() == ls.len(),
                forall|k: int| 0 <= k < lines@.len() ==> #[trigger] lines@[k]@ == ls[k],
                appid_key@ == "\"appid\""@,
                name_key@ == "\"name\""@,
                dir_key@ == "\"installdir\""@,
                manifest_fields(ls.subrange(0, i as int)) == (chars_opt(app_id), chars_opt(name), chars_opt(install_dir)),
            decreases lines.len() - i,
        {
            assert(ls.subrange(0, i + 1).drop_last() =~= ls.subrange(0, i as int));
            let line = &lines[i];
            if contains(line, &appid_key) {
                app_id = vdf_value_of(line);
            } else if contains(line, &name_key) {
                name = vdf_value_of(line);
            } else if contains(line, &dir_key) {
                install_dir = vdf_value_of(line);
            }
            i = i + 1;
        }
        assert(ls.subrange(0, lines.len() as int) =~= ls);
        let app_id = match app_id {
            Some(v) => string_of(&v),
            None => {
                return Err(SteamManifestError::MissingAppId);
            },
        };
        let name = match name {
            Some(v) => string_of(&v),
            None => {
                return Err(SteamManifestError::MissingName);
            },
        };
        let install_dir = match install_dir {
            Some(v) => string_of(&v),
            None => {
                return Err(SteamManifestError::MissingInstallDir);
            },
        };
        Ok(AppManifest { app_id, name, install_dir })
    }

    /// The library paths that a `libraryfolders.vdf` lists, in order.
    pub fn library_folder_paths(&self, content: &str) -> (r: Vec<String>)
        ensures
            strings_view(r@) == listed_paths(lines_of(content@)),
    {
        let lines = split_lines(&chars_of(content));
        let ghost ls = lines_of(content@);
        let path_key = chars_of("\"path\"");
        let mut r: Vec<String> = Vec::new();
        let mut i: usize = 0;
        while i < lines.len()
            invariant
                i <= lines.len(),
                lines@.len() == ls.len(),
                forall|k: int| 0 <= k < lines@.len() ==> #[trigger] lines@[k]@ == ls[k],
                path_key@ == "\"path\""@,
                strings_view(r@) == listed_paths(ls.subrange(0, i as int)),
            decreases lines.len() - i,
        {
            assert(ls.subrange(0, i + 1).drop_last() =~= ls.subrange(0, i as int));
            let line = &lines[i];
            if contains(line, &path_key) {
                match vdf_value_of(line) {
                    Some(v) => {
                        r.push(string_of(&v));
                        assert(strings_view(r@) =~= listed_paths(ls.subrange(0, i as int)).push(v@));
                    },
                    None => {},
                }
            }
            i = i + 1;
        }
        assert(ls.subrange(0, lines.len() as int) =~= ls);
        r
    }

    /// The libraries to scan: the Steam directory first, then each listed
    /// library that is new, each once.
    pub fn parse_library_folders(&self, steam_path: String, listed: &Vec<String>) -> (r: Vec<String>)
        ensures
            strings_view(r@).no_duplicates(),
            strings_view(r@).to_set() == strings_view(listed@).to_set().insert(steam_path@),
            r@.len() >= 1 && r@[0]@ == steam_path@,
    {
        let mut r: Vec<String> = Vec::new();
        let ghost first = steam_path@;
        r.push(steam_path);
        proof {
            assert(strings_view(r@) =~= Seq::<Seq<char>>::empty().push(first));
            assert(strings_view(listed@.subrange(0, 0)) =~= Seq::<Seq<char>>::empty());
            Seq::<Seq<char>>::empty().lemma_push_to_set_commute(first);
            assert(Seq::<Seq<char>>::empty().to_set() =~= Set::<Seq<char>>::empty());
        }
        let mut i: usize = 0;
        while i < listed.len()
            invariant
                i <= listed.len(),
                r@.len() >= 1 && r@[0]@ == first,
                strings_view(r@).no_duplicates(),
                strings_view(r@).to_set() == strings_view(listed@.subrange(0, i as int)).to_set().insert(first),
            decreases listed.len() - i,
        {
            let ghost before = strings_view(r@);
            assert(strings_view(listed@.subrange(0, i + 1)) =~= strings_view(listed@.subrange(0, i as int)).push(listed@[i as int]@));
            proof {
                strings_view(listed@.subrange(0, i as int)).lemma_push_to_set_commute(listed@[i as int]@);
            }
            if !crate::text::has_string(&r, &listed[i]) {
                r.push(listed[i].clone());
                assert(strings_view(r@) =~= before.push(listed@[i as int]@));
                proof {
                    before.lemma_push_to_set_commute(listed@[i as int]@);
                }
            } else {
                assert(before.to_set().contains(listed@[i as int]@));
            }
            assert(strings_view(r@).to_set() =~= strings_view(listed@.subrange(0, i + 1)).to_set().insert(first));
            i = i + 1;
        }
        assert(listed@.subrange(0, listed.len() as int) =~= listed@);
        r
    }

    /// The install directory of an application, under the library's `steamapps`.
    pub fn install_dir_path(&self, steamapps: &str, install_dir: &str) -> (r: String)
        ensures
            r@ == joined(joined(steamapps@, "common"@, self.style), install_dir@, self.style),
    {
        let common = join_path(steamapps, "common", self.style);
        join_path(common.as_str(), install_dir, self.style)
    }

    /// The game of the application manifest `content` found in the library
    /// directory `steamapps`. `install_listing` holds the files of the
    /// manifest's install directory and of its conventional subdirectories,
    /// where that directory exists; the game's executable is chosen among them.
    pub fn scan_manifest(
        &self,
        steamapps: &str,
        content: &str,
        install_listing: Option<(Vec<FileEntry>, Vec<FileEntry>)>,
        host: HostOs,
    ) -> (r: Result<DetectedGame, SteamManifestError>)
        ensures
            match manifest_fields(lines_of(content@)) {
                (Some(id), Some(name), Some(dir)) => r matches Ok(g) && {
                    &&& g.wf()
                    &&& g.id@ == id
                    &&& g.name@ == name
                    &&& opt_view(g.install_path) == (match install_listing {
                        Some(_) => Some(joined(joined(steamapps@, "common"@, self.style), dir, self.style)),
                        None => None,
                    })
                    &&& opt_view(g.executable_path) == (match install_listing {
                        Some((top, sub)) => chosen_executable(top@, sub@, host),
                        None => None,
                    })
                    &&& g.platform matches GamePlatform::Steam { app_id } && app_id@ == id
                    &&& g@.platform_data.is_empty()
                },
                (None, _, _) => r == Err::<DetectedGame, SteamManifestError>(SteamManifestError::MissingAppId),
                (Some(_), None, _) => r == Err::<DetectedGame, SteamManifestError>(SteamManifestError::MissingName),
                (Some(_), Some(_), None) => r == Err::<DetectedGame, SteamManifestError>(
                    SteamManifestError::MissingInstallDir,
                ),
            },
    {
        let manifest = match self.parse_app_manifest(content) {
            Ok(m) => m,
            Err(e) => {
                return Err(e);
            },
        };
        let (install_path, executable) = match &install_listing {
            Some((top, sub)) => (
                Some(self.install_dir_path(steamapps, manifest.install_dir.as_str())),
                find_game_executable(top, sub, host),
            ),
            None => (None, None),
        };
        Ok(self.manifest_game(manifest, install_path, executable))
    }

    /// The game of a manifest, with the install directory and executable that
    /// the caller found on disk.
    pub fn manifest_game(&self, manifest: AppManifest, install_path: Option<String>, executable_path: Option<String>) -> (r: DetectedGame)
        ensures
            r.wf(),
            r.id == manifest.app_id,
            r.name == manifest.name,
            r.install_path == install_path,
            r.executable_path == executable_path,
            r.platform == (GamePlatform::Steam { app_id: manifest.app_id }),
            r@.platform_data.is_empty(),
    {
        let platform = GamePlatform::Steam { app_id: manifest.app_id.clone() };
        DetectedGame::new(manifest.app_id, manifest.name, executable_path, install_path, platform)
    }
}

/// The view of an optional character vector.
pub open spec fn chars_opt(o: Option<Vec<char>>) -> Option<Seq<char>> {
    match o {
        Some(v) => Some(v@),
        None => None,
    }
}

fn vdf_value_of(line: &Vec<char>) -> (r: Option<Vec<char>>)
    ensures
        chars_opt(r) == vdf_value(line@),
{
    let parts = split_chars(line, '"');
    if parts.len() >= 4 {
        let v = crate::text::slice_chars(&parts[3], 0, parts[3].len());
        assert(v@ =~= parts@[3]@);
        Some(v)
    } else {
        None
    }
}

} // verus!
