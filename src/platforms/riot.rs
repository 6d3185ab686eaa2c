//! Riot Client: installed titles listed in `RiotClientInstalls.json`, keyed
//! by install path.

use vstd::prelude::*;
use crate::models::{opt_view, DetectedGame, GamePlatform};
use crate::paths::{join_path, joined, normalize_for_style, normalized, PathStyle};
use crate::text::{
    index_of,
    chars_of, find_first, first_match, lower_of, lowercase, replace_char, replace_chars, slice_chars,
    string_of, trim, trim_chars,
};

verus! {

/// The title a Riot install path belongs to: the directory right after the
/// first `Riot Games/`, trimmed; empty where there is none.
#[verifier::opaque]
pub open spec fn riot_game_name(path: Seq<char>) -> Seq<char> {
    let marker = "Riot Games/"@;
    match first_match(path, marker) {
        Some(i) => {
            let after = path.subrange(i + marker.len(), path.len() as int);
            let rest = match first_match(after, marker) {
                Some(j) => after.subrange(0, j),
                None => after,
            };
            match index_of(rest, '/') {
                Some(k) => trim(rest.subrange(0, k)),
                None => trim(rest),
            }
        },
        None => Seq::empty(),
    }
}

/// The identifier of a Riot title: `riot_` and its name in lower case with
/// spaces as underscores.
pub open spec fn riot_game_id(name: Seq<char>) -> Seq<char> {
    "riot_"@ + replace_char(lower_of(name), ' ', '_')
}

/// Where the executable of a title may stand, in search order, for the
/// titles the library knows: each known subdirectory of the install path (the
/// path itself first), and in each every known executable name.
pub open spec fn riot_candidates(install: Seq<char>, name: Seq<char>, style: PathStyle) -> Seq<Seq<char>> {
    if name == "VALORANT"@ {
        seq![
            joined(install, "VALORANT.exe"@, style),
            joined(joined(install, "live"@, style), "VALORANT.exe"@, style),
        ]
    } else if name == "League of Legends"@ {
        seq![
            joined(install, "LeagueClient.exe"@, style),
            joined(install, "League of Legends.exe"@, style),
            joined(joined(install, "Game"@, style), "LeagueClient.exe"@, style),
            joined(joined(install, "Game"@, style), "League of Legends.exe"@, style),
        ]
    } else if name == "Legends of Runeterra"@ {
        seq![joined(install, "LoR.exe"@, style)]
    } else if name == "Teamfight Tactics"@ {
        seq![joined(install, "TeamfightTactics.exe"@, style)]
    } else {
        seq![]
    }
}

/// The install paths whose title can be named, each with its executable, in order.
pub open spec fn named_installs(s: Seq<(String, Option<String>)>) -> Seq<(String, Option<String>)>
    decreases s.len(),
{
    if s.len() == 0 {
        s
    } else if riot_game_name(s.last().0@).len() > 0 {
        named_installs(s.drop_last()).push(s.last())
    } else {
        named_installs(s.drop_last())
    }
}

/// Riot Client detector.
pub struct RiotDetector {
    /// The path convention of the machine scanned.
    pub style: PathStyle,
}

impl RiotDetector {
    /// A detector for the machine the library runs on.
    pub fn new() -> (r: Self) {
        RiotDetector { style: PathStyle::native() }
    }

    /// A detector for paths of the given convention.
    pub fn with_style(style: PathStyle) -> (r: Self)
        ensures
            r.style == style,
    {
        RiotDetector { style }
    }

    /// The title an install path belongs to
    /// (`C:/Riot Games/VALORANT/live/` gives `VALORANT`).
    pub fn extract_game_name_from_path(&self, path: &str) -> (r: String)
        ensures
            r@ == riot_game_name(path@),
    {
        proof {
            reveal(riot_game_name);
        }
        let p = chars_of(path);
        let marker = chars_of("Riot Games/");
        let i = match find_first(&p, &marker) {
            Some(i) => i,
            None => {
                return String::new();
            },
        };
        let plen = p.len();
        assert(crate::text::occurs_at(p@, marker@, i as int));
        let after = slice_chars(&p, i + marker.len(), plen);
        let rest = match find_first(&after, &marker) {
            Some(j) => slice_chars(&after, 0, j),
            None => after,
        };
        let ghost rest_v = rest@;
        let component = match crate::text::find_char(&rest, '/') {
            Some(k) => slice_chars(&rest, 0, k),
            None => rest,
        };
        assert(component@ == (match index_of(rest_v, '/') {
            Some(k) => rest_v.subrange(0, k),
            None => rest_v,
        }));
        string_of(&trim_chars(&component))
    }

    /// The identifier of a title.
    pub fn game_id(&self, name: &str) -> (r: String)
        ensures
            r@ == riot_game_id(name@),
    {
        let lower = chars_of(lowercase(name).as_str());
        let underscored = replace_chars(&lower, ' ', '_');
        String::from_str("riot_").concat(string_of(&underscored).as_str())
    }

    /// The places where a title's executable may stand, in search order;
    /// which of them exists is for the caller to see.
    pub fn find_riot_game_executable(&self, install_path: &str, game_name: &str) -> (r: Vec<String>)
        ensures
            crate::models::strings_view(r@) == riot_candidates(install_path@, game_name@, self.style),
    {
        let n = chars_of(game_name);
        let st = self.style;
        let r: Vec<String> = if crate::text::same_chars(&n, &chars_of("VALORANT")) {
            let live = join_path(install_path, "live", st);
            vec![join_path(install_path, "VALORANT.exe", st), join_path(live.as_str(), "VALORANT.exe", st)]
        } else if crate::text::same_chars(&n, &chars_of("League of Legends")) {
            let game = join_path(install_path, "Game", st);
            vec![
                join_path(install_path, "LeagueClient.exe", st),
                join_path(install_path, "League of Legends.exe", st),
                join_path(game.as_str(), "LeagueClient.exe", st),
                join_path(game.as_str(), "League of Legends.exe", st),
            ]
        } else if crate::text::same_chars(&n, &chars_of("Legends of Runeterra")) {
            vec![join_path(install_path, "LoR.exe", st)]
        } else if crate::text::same_chars(&n, &chars_of("Teamfight Tactics")) {
            vec![join_path(install_path, "TeamfightTactics.exe", st)]
        } else {
            Vec::new()
        };
        assert(crate::models::strings_view(r@) =~= riot_candidates(install_path@, game_name@, self.style));
        r
    }

    /// The game of one install path, with the executable the caller found for
    /// it; none where the path names no title.
    pub fn install_game(&self, install_path: &str, executable: &Option<String>) -> (r: Option<DetectedGame>)
        ensures
            riot_game_name(install_path@).len() == 0 ==> r is None,
            riot_game_name(install_path@).len() > 0 ==> (r matches Some(g) && riot_game_of(g, install_path@, *executable, self.style)),
    {
        let name = self.extract_game_name_from_path(install_path);
        if name.unicode_len() == 0 {
            return None;
        }
        proof {
            reveal(riot_game_of);
        }
        let game_id = self.game_id(name.as_str());
        let exe = match executable {
            Some(e) => Some(normalize_for_style(e.as_str(), self.style)),
            None => None,
        };
        let platform = GamePlatform::RiotGames { app_name: name.clone() };
        let game = DetectedGame::new(
            game_id.clone(),
            name,
            exe,
            Some(normalize_for_style(install_path, self.style)),
            platform,
        );
        Some(game.with_platform_data(String::from_str("app_id"), game_id))
    }

    /// The games of a Riot Client installs file: one for each install path
    /// whose title can be named, in order, each with the executable the caller
    /// found for it.
    pub fn parse_riot_client_installs(&self, installs: &Vec<(String, Option<String>)>) -> (r: Vec<DetectedGame>)
        ensures
            r@.len() == named_installs(installs@).len(),
            forall|k: int| 0 <= k < r@.len() ==> riot_game_of(
                #[trigger] r@[k],
                named_installs(installs@)[k].0@,
                named_installs(installs@)[k].1,
                self.style,
            ),
    {
        let mut games: Vec<DetectedGame> = Vec::new();
        let mut i: usize = 0;
        while i < installs.len()
            invariant
                i <= installs.len(),
                games@.len() == named_installs(installs@.subrange(0, i as int)).len(),
                forall|k: int| 0 <= k < games@.len() ==> riot_game_of(
                    #[trigger] games@[k],
                    named_installs(installs@.subrange(0, i as int))[k].0@,
                    named_installs(installs@.subrange(0, i as int))[k].1,
                    self.style,
                ),
            decreases installs.len() - i,
        {
            assert(installs@.subrange(0, i + 1).drop_last() =~= installs@.subrange(0, i as int));
            let (path, exe) = &installs[i];
            match self.install_game(path.as_str(), exe) {
                Some(g) => {
                    games.push(g);
                },
                None => {},
            }
            i = i + 1;
        }
        assert(installs@.subrange(0, installs.len() as int) =~= installs@);
        games
    }
}

/// Whether `g` is the game of Riot install path `path`, with executable `exe`.
#[verifier::opaque]
pub open spec fn riot_game_of(g: DetectedGame, path: Seq<char>, exe: Option<String>, style: PathStyle) -> bool {
    let name = riot_game_name(path);
    &&& name.len() > 0
    &&& g.wf()
    &&& g.id@ == riot_game_id(name)
    &&& g.name@ == name
    &&& opt_view(g.executable_path) == (match exe {
        Some(e) => Some(normalized(e@, style)),
        None => None,
    })
    &&& opt_view(g.install_path) == Some(normalized(path, style))
    &&& g.platform matches GamePlatform::RiotGames { app_name } && app_name@ == name
    &&& g@.platform_data == Map::<Seq<char>, Seq<char>>::empty().insert("app_id"@, riot_game_id(name))
}

} // verus!
