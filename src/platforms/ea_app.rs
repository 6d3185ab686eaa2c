//! EA App, and the legacy Origin client it replaced.

use vstd::prelude::*;
use crate::models::{opt_view, DetectedGame, GamePlatform, PlatformKind};
use crate::paths::{
    file_name, join_chars, join_parts, join_path, joined, normalize_for_style, normalized,
    path_file_name, PathStyle,
};
use crate::text::{
    chars_of, find_char, index_of, lower_of, lowercase, remove_line_breaks, same_chars, slice_chars,
    split_chars, split_on, string_of, strip_leading, strip_leading_chars, trim, trim_chars,
    upper_of, uppercase_char, without_chars,
};

verus! {

/// What `urlencoding::decode` makes of a string: the decoded text, or none
/// where the decoded bytes are not UTF-8.
pub uninterp spec fn percent_decoded(s: Seq<char>) -> Option<Seq<char>>;

/// Relies on `urlencoding::decode`: `%xx` escapes are decoded as UTF-8 bytes;
/// a string without `%` comes back unchanged.
#[verifier::external_body]
fn url_decode(s: &str) -> (r: Option<String>)
    ensures
        opt_view(r) == percent_decoded(s@),
        !s@.contains('%') ==> opt_view(r) == Some(s@),
{
    match urlencoding::decode(s) {
        Ok(v) => Some(v.into_owned()),
        Err(_) => None,
    }
}

/// One entry of an EA Desktop installation database.
#[derive(Debug)]
pub struct EaInstallInfo {
    pub base_install_path: String,
    pub base_slug: String,
    pub software_id: String,
    pub installed_version: String,
    pub executable_check: String,
    pub content_manifest_launchers: String,
    pub dlc_sub_path: String,
    /// The numeric install state; `5` means installed.
    pub install_status: u32,
    /// The executables of the launchers the entry declares.
    pub launchers: Vec<String>,
}

/// Why a legacy Origin manifest yields no game.
#[derive(Clone, Copy, PartialEq, Eq, Structural, Debug)]
pub enum LegacyManifestError {
    /// No `id` parameter.
    MissingGameId,
    /// The `id` parameter does not decode.
    UndecodableGameId,
    /// The `dipInstallPath` parameter does not decode.
    UndecodableInstallPath,
}

/// Whether an executable check names no executable.
pub open spec fn no_executable_check(check: Seq<char>) -> bool {
    check.len() == 0 || check == "[]"@
}

/// An entry is an add-on when it has neither an executable nor a launcher, or
/// when it has a DLC sub-path and no launcher.
pub open spec fn ea_is_dlc(info: EaInstallInfo) -> bool {
    let no_launchers = info.launchers@.len() == 0 && info.content_manifest_launchers@.len() == 0;
    (no_executable_check(info.executable_check@) && no_launchers) || (info.dlc_sub_path@.len() > 0
        && no_launchers)
}

/// The entries that become games: installed, with an install path, and no add-on.
pub open spec fn ea_keeps(info: EaInstallInfo) -> bool {
    info.install_status == 5 && info.base_install_path@.len() > 0 && !ea_is_dlc(info)
}

/// A word with its first character in upper case.
pub open spec fn capitalized(w: Seq<char>) -> Seq<char> {
    if w.len() == 0 {
        w
    } else {
        upper_of(w[0]) + w.drop_first()
    }
}

/// The display name of a slug: its dash-separated words capitalised and
/// joined by spaces.
pub open spec fn slug_display_name(slug: Seq<char>) -> Seq<char> {
    join_parts(split_on(slug, '-').map_values(|w: Seq<char>| capitalized(w)), ' ')
}

/// The executable an executable check names, under the install path: the text
/// after its last `]`.
pub open spec fn executable_candidate(check: Seq<char>, install: Seq<char>, style: PathStyle) -> Option<Seq<char>> {
    if no_executable_check(check) {
        None
    } else {
        match crate::text::last_index(check, ']') {
            Some(i) => Some(joined(install, check.subrange(i + 1, check.len() as int), style)),
            None => None,
        }
    }
}

/// The parameters of a legacy manifest: line breaks removed, a leading `?`
/// dropped, split at `&`.
pub open spec fn manifest_params(content: Seq<char>) -> Seq<Seq<char>> {
    split_on(strip_leading(without_chars(trim(content), set!['\n', '\r']), '?'), '&')
}

/// The game id and install path read so far, or the first decoding failure.
pub type LegacyFields = Result<(Option<Seq<char>>, Option<Seq<char>>), LegacyManifestError>;

/// `acc` after reading one `key=value` parameter; keys compare trimmed and
/// in lower case, values are trimmed and percent-decoded.
pub open spec fn param_step(acc: LegacyFields, param: Seq<char>) -> LegacyFields {
    match acc {
        Err(e) => Err(e),
        Ok((id, path)) => match index_of(param, '=') {
            None => Ok((id, path)),
            Some(i) => {
                let key = lower_of(trim(param.subrange(0, i)));
                let value = trim(param.subrange(i + 1, param.len() as int));
                if key == "id"@ {
                    match percent_decoded(value) {
                        Some(v) => Ok((Some(v), path)),
                        None => Err(LegacyManifestError::UndecodableGameId),
                    }
                } else if key == "dipinstallpath"@ {
                    match percent_decoded(value) {
                        Some(v) => Ok((id, Some(v))),
                        None => Err(LegacyManifestError::UndecodableInstallPath),
                    }
                } else {
                    Ok((id, path))
                }
            },
        },
    }
}

/// The fields that a sequence of parameters sets; a later parameter wins.
pub open spec fn manifest_fields(params: Seq<Seq<char>>) -> LegacyFields
    decreases params.len(),
{
    if params.len() == 0 {
        Ok((None, None))
    } else {
        param_step(manifest_fields(params.drop_last()), params.last())
    }
}

/// The display name of a legacy game: the last component of its install path,
/// else the name of the manifest's directory, else its id.
pub open spec fn legacy_display_name(
    id: Seq<char>,
    path: Option<Seq<char>>,
    dir_name: Option<Seq<char>>,
    style: PathStyle,
) -> Seq<char> {
    match path {
        Some(p) if file_name(p, style) is Some => file_name(p, style)->Some_0,
        _ => match dir_name {
            Some(d) => d,
            None => id,
        },
    }
}

/// Reads one `key=value` parameter of a legacy manifest into the fields so far.
fn read_param(param: &Vec<char>, game_id: Option<String>, install_path: Option<String>) -> (r: Result<
    (Option<String>, Option<String>),
    LegacyManifestError,
>)
    ensures
        match r {
            Ok((id, path)) => param_step(Ok((opt_view(game_id), opt_view(install_path))), param@) == Ok::<
                (Option<Seq<char>>, Option<Seq<char>>),
                LegacyManifestError,
            >((opt_view(id), opt_view(path))),
            Err(e) => param_step(Ok((opt_view(game_id), opt_view(install_path))), param@) == Err::<
                (Option<Seq<char>>, Option<Seq<char>>),
                LegacyManifestError,
            >(e),
        },
{
    let eq = match find_char(param, '=') {
        Some(eq) => eq,
        None => {
            return Ok((game_id, install_path));
        },
    };
    assert(eq < param.len());
    let key = lowercase(string_of(&trim_chars(&slice_chars(param, 0, eq))).as_str());
    let value = string_of(&trim_chars(&slice_chars(param, eq + 1, param.len())));
    let key_chars = chars_of(key.as_str());
    if same_chars(&key_chars, &chars_of("id")) {
        match url_decode(value.as_str()) {
            Some(v) => Ok((Some(v), install_path)),
            None => Err(LegacyManifestError::UndecodableGameId),
        }
    } else if same_chars(&key_chars, &chars_of("dipinstallpath")) {
        match url_decode(value.as_str()) {
            Some(v) => Ok((game_id, Some(v))),
            None => Err(LegacyManifestError::UndecodableInstallPath),
        }
    } else {
        Ok((game_id, install_path))
    }
}

/// Reads the parameters of a legacy manifest in order.
fn read_params(params: &Vec<Vec<char>>) -> (r: Result<(Option<String>, Option<String>), LegacyManifestError>)
    ensures
        match r {
            Ok((id, path)) => manifest_fields(params@.map_values(|p: Vec<char>| p@)) == Ok::<
                (Option<Seq<char>>, Option<Seq<char>>),
                LegacyManifestError,
            >((opt_view(id), opt_view(path))),
            Err(e) => manifest_fields(params@.map_values(|p: Vec<char>| p@)) == Err::<
                (Option<Seq<char>>, Option<Seq<char>>),
                LegacyManifestError,
            >(e),
        },
{
    let ghost pieces = params@.map_values(|p: Vec<char>| p@);
    let mut game_id: Option<String> = None;
    let mut install_path: Option<String> = None;
    let mut i: usize = 0;
    while i < params.len()
        invariant
            i <= params.len(),
            pieces == params@.map_values(|p: Vec<char>| p@),
            manifest_fields(pieces.subrange(0, i as int)) == Ok::<(Option<Seq<char>>, Option<Seq<char>>), LegacyManifestError>(
                (opt_view(game_id), opt_view(install_path)),
            ),
        decreases params.len() - i,
    {
        assert(pieces.subrange(0, i + 1).drop_last() =~= pieces.subrange(0, i as int));
        assert(manifest_fields(pieces.subrange(0, i + 1)) == param_step(
            manifest_fields(pieces.subrange(0, i as int)), pieces[i as int]));
        match read_param(&params[i], game_id, install_path) {
            Ok((id, path)) => {
                game_id = id;
                install_path = path;
            },
            Err(e) => {
                proof {
                    lemma_fields_stay_failed(pieces, i as int + 1, e);
                    assert(pieces.subrange(0, pieces.len() as int) =~= pieces);
                }
                return Err(e);
            },
        }
        i = i + 1;
    }
    assert(pieces.subrange(0, params.len() as int) =~= pieces);
    Ok((game_id, install_path))
}

/// A failure stays in place whatever parameters follow.
proof fn lemma_fields_stay_failed(params: Seq<Seq<char>>, i: int, e: LegacyManifestError)
    requires
        0 <= i <= params.len(),
        manifest_fields(params.subrange(0, i)) == Err::<(Option<Seq<char>>, Option<Seq<char>>), LegacyManifestError>(e),
    ensures
        manifest_fields(params.subrange(0, params.len() as int)) == Err::<(Option<Seq<char>>, Option<Seq<char>>), LegacyManifestError>(e),
    decreases params.len() - i,
{
    if i < params.len() {
        assert(params.subrange(0, i + 1).drop_last() =~= params.subrange(0, i));
        lemma_fields_stay_failed(params, i + 1, e);
    }
}

/// The entries of a database that become games, in order.
pub open spec fn kept_infos(infos: Seq<EaInstallInfo>) -> Seq<EaInstallInfo>
    decreases infos.len(),
{
    if infos.len() == 0 {
        infos
    } else if ea_keeps(infos.last()) {
        kept_infos(infos.drop_last()).push(infos.last())
    } else {
        kept_infos(infos.drop_last())
    }
}

/// The executable of an entry: its candidate, where the caller found it on disk.
pub open spec fn ea_executable(info: EaInstallInfo, existing: Seq<Seq<char>>, style: PathStyle) -> Option<Seq<char>> {
    match executable_candidate(info.executable_check@, normalized(info.base_install_path@, style), style) {
        Some(c) => if existing.contains(c) {
            Some(c)
        } else {
            None
        },
        None => None,
    }
}

/// Whether `g` is the game that entry `info` describes.
pub open spec fn ea_game_of(g: DetectedGame, info: EaInstallInfo, existing: Seq<Seq<char>>, style: PathStyle) -> bool {
    &&& g.wf()
    &&& g.id@ == info.software_id@
    &&& g.name@ == slug_display_name(info.base_slug@)
    &&& opt_view(g.executable_path) == ea_executable(info, existing, style)
    &&& opt_view(g.install_path) == Some(normalized(info.base_install_path@, style))
    &&& g.platform == GamePlatform::EaApp { game_id: info.software_id }
    &&& g@.platform_data.is_empty()
}

/// EA App and legacy Origin detector.
pub struct EaAppDetector {
    /// The path convention of the machine scanned.
    pub style: PathStyle,
}

impl EaAppDetector {
    /// A detector for the machine the library runs on.
    pub fn new() -> (r: Self) {
        EaAppDetector { style: PathStyle::native() }
    }

    /// A detector for paths of the given convention.
    pub fn with_style(style: PathStyle) -> (r: Self)
        ensures
            r.style == style,
    {
        EaAppDetector { style }
    }

    /// Whether an entry is an add-on rather than a base game.
    pub fn is_dlc(&self, info: &EaInstallInfo) -> (r: bool)
        ensures
            r == ea_is_dlc(*info),
    {
        let check = chars_of(info.executable_check.as_str());
        let empty_list = chars_of("[]");
        let has_no_executable = check.len() == 0 || same_chars(&check, &empty_list);
        let has_no_launchers = info.launchers.len() == 0 && info.content_manifest_launchers.unicode_len() == 0;
        let has_dlc_subpath = info.dlc_sub_path.unicode_len() > 0;
        (has_no_executable && has_no_launchers) || (has_dlc_subpath && has_no_launchers)
    }

    /// The executable an entry's check names, under its normalised install
    /// path; whether it exists is for the caller to see.
    pub fn extract_executable_path(&self, exec_check: &str, install_path: &str) -> (r: Option<String>)
        ensures
            opt_view(r) == executable_candidate(exec_check@, install_path@, self.style),
    {
        let check = chars_of(exec_check);
        let empty_list = chars_of("[]");
        if check.len() == 0 || same_chars(&check, &empty_list) {
            return None;
        }
        match crate::text::rfind_char(&check, ']') {
            Some(i) => {
                let exe_name = string_of(&slice_chars(&check, i + 1, check.len()));
                Some(join_path(install_path, exe_name.as_str(), self.style))
            },
            None => None,
        }
    }

    /// Reads a legacy Origin manifest, a query string such as
    /// `?id=OFB-EAST%3a1&dipInstallPath=C%3a%5cGames%5cFoo`. `dir_name` is the
    /// name of the directory the manifest stands in. The game has no
    /// executable yet; finding one on disk is for the caller.
    pub fn parse_legacy_manifest(&self, content: &str, dir_name: Option<String>) -> (r: Result<
        DetectedGame,
        LegacyManifestError,
    >)
        ensures
            match manifest_fields(manifest_params(content@)) {
                Err(e) => r == Err::<DetectedGame, LegacyManifestError>(e),
                Ok((None, _)) => r == Err::<DetectedGame, LegacyManifestError>(
                    LegacyManifestError::MissingGameId,
                ),
                Ok((Some(id), path)) => r matches Ok(g) && {
                    &&& g.wf()
                    &&& g.id@ == id
                    &&& g.name@ == legacy_display_name(id, path, opt_view(dir_name), self.style)
                    &&& g.executable_path is None
                    &&& opt_view(g.install_path) == (match path {
                        Some(p) => Some(normalized(p, self.style)),
                        None => None,
                    })
                    &&& g.platform.platform_kind() == PlatformKind::EaApp
                    &&& g.platform.spec_identifier() == id
                    &&& g@.platform_data.is_empty()
                },
            },
    {
        let text = remove_line_breaks(&trim_chars(&chars_of(content)));
        let params = split_chars(&strip_leading_chars(&text, '?'), '&');
        let ghost pieces = manifest_params(content@);
        assert(params@.map_values(|p: Vec<char>| p@) =~= pieces);
        let (game_id, install_path) = match read_params(&params) {
            Ok(fields) => fields,
            Err(e) => {
                return Err(e);
            },
        };
        let id = match game_id {
            Some(id) => id,
            None => {
                return Err(LegacyManifestError::MissingGameId);
            },
        };
        Ok(self.legacy_game(id, install_path, dir_name))
    }

    /// The game of a legacy manifest with decoded id `id` and install path
    /// `install_path`, in the directory named `dir_name`. It is named by the
    /// last component of its install path, else by the directory, else by its
    /// id; its install path is normalised; its executable is left to the caller.
    pub fn legacy_game(&self, id: String, install_path: Option<String>, dir_name: Option<String>) -> (r: DetectedGame)
        ensures
            r.wf(),
            r.id == id,
            r.name@ == legacy_display_name(id@, opt_view(install_path), opt_view(dir_name), self.style),
            r.executable_path is None,
            opt_view(r.install_path) == (match install_path {
                Some(p) => Some(normalized(p@, self.style)),
                None => None,
            }),
            r.platform == (GamePlatform::EaApp { game_id: id }),
            r@.platform_data.is_empty(),
    {
        let from_path = match &install_path {
            Some(p) => path_file_name(p.as_str(), self.style),
            None => None,
        };
        let display_name = match from_path {
            Some(n) => n,
            None => match dir_name {
                Some(d) => d,
                None => id.clone(),
            },
        };
        let normalized_path = match &install_path {
            Some(p) => Some(normalize_for_style(p.as_str(), self.style)),
            None => None,
        };
        let platform = GamePlatform::EaApp { game_id: id.clone() };
        DetectedGame::new(id, display_name, None, normalized_path, platform)
    }

    /// The games of an installation database: one for each installed entry
    /// with an install path that is no add-on. `existing_executables` holds the
    /// executable candidates the caller found on disk.
    pub fn parse_ea_desktop_db(&self, infos: &Vec<EaInstallInfo>, existing_executables: &Vec<String>) -> (r: Vec<DetectedGame>)
        ensures
            r@.len() == kept_infos(infos@).len(),
            forall|k: int| 0 <= k < r@.len() ==> ea_game_of(
                #[trigger] r@[k],
                kept_infos(infos@)[k],
                crate::models::strings_view(existing_executables@),
                self.style,
            ),
    {
        let ghost existing = crate::models::strings_view(existing_executables@);
        let mut games: Vec<DetectedGame> = Vec::new();
        let mut i: usize = 0;
        while i < infos.len()
            invariant
                i <= infos.len(),
                existing == crate::models::strings_view(existing_executables@),
                games@.len() == kept_infos(infos@.subrange(0, i as int)).len(),
                forall|k: int| 0 <= k < games@.len() ==> ea_game_of(
                    #[trigger] games@[k],
                    kept_infos(infos@.subrange(0, i as int))[k],
                    existing,
                    self.style,
                ),
            decreases infos.len() - i,
        {
            assert(infos@.subrange(0, i + 1).drop_last() =~= infos@.subrange(0, i as int));
            let info = &infos[i];
            if info.install_status == 5 && info.base_install_path.unicode_len() > 0 && !self.is_dlc(info) {
                let install_path = normalize_for_style(info.base_install_path.as_str(), self.style);
                let executable_path = match self.extract_executable_path(info.executable_check.as_str(), install_path.as_str()) {
                    Some(c) => if crate::text::has_string(existing_executables, &c) {
                        Some(c)
                    } else {
                        None
                    },
                    None => None,
                };
                let name = self.slug_to_display_name(info.base_slug.as_str());
                let platform = GamePlatform::EaApp { game_id: info.software_id.clone() };
                let game = DetectedGame::new(info.software_id.clone(), name, executable_path, Some(install_path), platform);
                games.push(game);
            }
            i = i + 1;
        }
        assert(infos@.subrange(0, infos.len() as int) =~= infos@);
        games
    }

    /// A slug as a display name (`battlefield-4` becomes `Battlefield 4`).
    pub fn slug_to_display_name(&self, slug: &str) -> (r: String)
        ensures
            r@ == slug_display_name(slug@),
    {
        let words = split_chars(&chars_of(slug), '-');
        let ghost pieces = split_on(slug@, '-');
        let mut out: Vec<Vec<char>> = Vec::new();
        let mut i: usize = 0;
        while i < words.len()
            invariant
                i <= words.len(),
                words@.len() == pieces.len(),
                forall|k: int| 0 <= k < words@.len() ==> #[trigger] words@[k]@ == pieces[k],
                out@.len() == i,
                forall|k: int| 0 <= k < i ==> #[trigger] out@[k]@ == capitalized(pieces[k]),
            decreases words.len() - i,
        {
            let w = &words[i];
            if w.len() == 0 {
                out.push(Vec::new());
                assert(out@[i as int]@ =~= capitalized(pieces[i as int]));
            } else {
                let first = uppercase_char(w[0]);
                let mut word = chars_of(first.as_str());
                let ghost head = word@;
                let mut k: usize = 1;
                while k < w.len()
                    invariant
                        1 <= k <= w@.len(),
                        word@ == head + w@.subrange(1, k as int),
                    decreases w@.len() - k,
                {
                    word.push(w[k]);
                    k = k + 1;
                    assert(word@ =~= head + w@.subrange(1, k as int));
                }
                assert(word@ =~= capitalized(pieces[i as int]));
                out.push(word);
            }
            i = i + 1;
        }
        assert(out@.map_values(|p: Vec<char>| p@) =~= pieces.map_values(|w: Seq<char>| capitalized(w)));
        string_of(&join_chars(&out, ' '))
    }
}

} // verus!
