//! Merging the outcomes of the per-platform detectors into one result, and
//! what holds of every such merge.

use vstd::prelude::*;
use crate::models::{
    empty_result, enabled_platforms, games_view, is_enabled, platform_name, push_if, with_failure,
    with_games, DetectedGame, GameScanResult, PlatformKind, ScanOptions, ScanResultView,
};

verus! {

/// What one platform's detector produced: its games, or why it failed.
#[derive(Debug)]
pub struct PlatformOutcome {
    pub platform: PlatformKind,
    pub result: Result<Vec<DetectedGame>, String>,
}

/// The message recorded for a platform whose detector failed with `error`.
pub open spec fn failure_message(k: PlatformKind, error: Seq<char>) -> Seq<char> {
    platform_name(k) + " scan error: "@ + error
}

/// The result after recording `outcomes` in order.
pub open spec fn merged(outcomes: Seq<PlatformOutcome>) -> ScanResultView
    decreases outcomes.len(),
{
    if outcomes.len() == 0 {
        empty_result()
    } else {
        let prev = merged(outcomes.drop_last());
        let o = outcomes.last();
        match o.result {
            Ok(g) => with_games(prev, platform_name(o.platform), games_view(g@)),
            Err(e) => with_failure(prev, platform_name(o.platform), failure_message(o.platform, e@)),
        }
    }
}

/// How many games the successful outcomes hold together.
pub open spec fn games_found(outcomes: Seq<PlatformOutcome>) -> nat
    decreases outcomes.len(),
{
    if outcomes.len() == 0 {
        0
    } else {
        games_found(outcomes.drop_last()) + match outcomes.last().result {
            Ok(g) => g@.len(),
            Err(_) => 0,
        }
    }
}

/// The platforms the outcomes belong to, in order.
pub open spec fn outcome_platforms(outcomes: Seq<PlatformOutcome>) -> Seq<PlatformKind> {
    outcomes.map_values(|o: PlatformOutcome| o.platform)
}

/// The sum of the sizes of the groups named by `names`.
pub open spec fn group_total(names: Seq<Seq<char>>, groups: Map<Seq<char>, Seq<crate::models::GameView>>) -> nat
    decreases names.len(),
{
    if names.len() == 0 {
        0
    } else {
        group_total(names.drop_last(), groups) + groups[names.last()].len()
    }
}

proof fn lemma_found_prefix(s: Seq<PlatformOutcome>, i: int)
    requires
        0 <= i <= s.len(),
    ensures
        games_found(s.subrange(0, i)) <= games_found(s),
    decreases s.len(),
{
    if i < s.len() {
        assert(s.drop_last().subrange(0, i) =~= s.subrange(0, i));
        lemma_found_prefix(s.drop_last(), i);
    } else {
        assert(s.subrange(0, i) =~= s);
    }
}

proof fn lemma_total_is_found(s: Seq<PlatformOutcome>)
    ensures
        merged(s).total_count == games_found(s),
    decreases s.len(),
{
    if s.len() > 0 {
        lemma_total_is_found(s.drop_last());
    }
}

/// What a detector found in its platform's store.
#[derive(Debug)]
pub enum StoreScan {
    /// The store is not on this machine: the platform is not installed.
    Absent,
    /// The store was read; these are its games.
    Found(Vec<DetectedGame>),
    /// The store is there but could not be read.
    Failed(String),
}

impl PlatformOutcome {
    /// The outcome of a detector's scan: a store that is not there is an empty
    /// success, never a failure.
    pub fn from_scan(platform: PlatformKind, scan: StoreScan) -> (r: Self)
        ensures
            r.platform == platform,
            match scan {
                StoreScan::Absent => r.result matches Ok(g) && g@.len() == 0,
                StoreScan::Found(g) => r.result == Ok::<Vec<DetectedGame>, String>(g),
                StoreScan::Failed(e) => r.result == Err::<Vec<DetectedGame>, String>(e),
            },
    {
        let result = match scan {
            StoreScan::Absent => Ok(Vec::new()),
            StoreScan::Found(g) => Ok(g),
            StoreScan::Failed(e) => Err(e),
        };
        PlatformOutcome { platform, result }
    }
}

/// Runs the detectors that a set of options enables, in a fixed order, and
/// merges what they produce.
pub struct GameScanner {
    options: ScanOptions,
}

impl GameScanner {
    /// The options this scanner was made with.
    pub closed spec fn scan_options(&self) -> ScanOptions {
        self.options
    }

    pub fn new(options: ScanOptions) -> (r: Self)
        ensures
            r.scan_options() == options,
    {
        GameScanner { options }
    }

    /// The platforms to scan, in order.
    pub fn platforms(&self) -> (r: Vec<PlatformKind>)
        ensures
            r@ == enabled_platforms(self.scan_options()),
    {
        self.options.enabled_platforms()
    }

    /// Records each outcome in order: the games of a success, or the failure
    /// with a message naming the platform; then attaches the duration.
    ///
    /// The outcomes are those of the enabled platforms, in scan order. Then
    /// each enabled platform is either scanned or failed, once; the count is
    /// the number of games and the sum of the per-platform groups; and each
    /// success is recorded with its games.
    pub fn merge_outcomes(&self, outcomes: Vec<PlatformOutcome>, duration_ms: u64) -> (r: GameScanResult)
        requires
            outcome_platforms(outcomes@) == enabled_platforms(self.scan_options()),
            games_found(outcomes@) <= usize::MAX,
        ensures
            r.wf(),
            r@ == (ScanResultView { scan_duration_ms: duration_ms, ..merged(outcomes@) }),
            forall|k: PlatformKind| is_enabled(self.scan_options(), k) ==> (
                r@.scanned_platforms.contains(platform_name(k)) != r@.failed_platforms.contains(platform_name(k))),
            forall|k: PlatformKind| !is_enabled(self.scan_options(), k) ==> (
                !r@.scanned_platforms.contains(platform_name(k)) && !r@.failed_platforms.contains(platform_name(k))),
            r@.scanned_platforms.no_duplicates(),
            r@.failed_platforms.no_duplicates(),
            r@.total_count == r@.games.len(),
            r@.total_count == group_total(r@.scanned_platforms, r@.games_by_platform),
            r@.games_by_platform.dom() == r@.scanned_platforms.to_set(),
            forall|i: int| 0 <= i < outcomes@.len() && (#[trigger] outcomes@[i]).result is Ok ==> {
                &&& r@.scanned_platforms.contains(platform_name(outcomes@[i].platform))
                &&& r@.games_by_platform[platform_name(outcomes@[i].platform)].len()
                    == outcomes@[i].result->Ok_0@.len()
            },
    {
        proof {
            lemma_enabled_platforms(self.scan_options());
            lemma_each_platform_once(self.scan_options(), outcomes@);
            lemma_total_count(outcomes@);
        }
        let mut result = GameScanResult::new();
        let mut i: usize = 0;
        while i < outcomes.len()
            invariant
                i <= outcomes.len(),
                games_found(outcomes@) <= usize::MAX,
                result.wf(),
                result@ == merged(outcomes@.subrange(0, i as int)),
            decreases outcomes.len() - i,
        {
            let o = &outcomes[i];
            let name = o.platform.display_name();
            proof {
                assert(outcomes@.subrange(0, i + 1).drop_last() =~= outcomes@.subrange(0, i as int));
                lemma_total_is_found(outcomes@.subrange(0, i as int));
                lemma_found_prefix(outcomes@, i + 1);
            }
            match &o.result {
                Ok(games) => {
                    let copy = games.clone();
                    assert(games_view(copy@) =~= games_view(games@)) by {
                        assert forall|j: int| 0 <= j < games@.len() implies copy@[j]@ == games@[j]@ by {
                            assert(cloned::<DetectedGame>(games@[j], copy@[j]));
                        }
                    }
                    result.add_games(String::from_str(name), copy);
                },
                Err(e) => {
                    let message = String::from_str(name).concat(" scan error: ").concat(e.as_str());
                    result.mark_failed(String::from_str(name), message);
                },
            }
            i = i + 1;
        }
        assert(outcomes@.subrange(0, outcomes.len() as int) =~= outcomes@);
        result.finalize(duration_ms)
    }
}

impl Default for GameScanner {
    fn default() -> (r: Self)
        ensures
            forall|k: PlatformKind| is_enabled(r.scan_options(), k),
    {
        Self::new(ScanOptions::all())
    }
}


/// Distinct platforms have distinct display names.
pub proof fn lemma_platform_name_injective(a: PlatformKind, b: PlatformKind)
    ensures
        platform_name(a) == platform_name(b) ==> a == b,
{
    reveal_strlit("Steam");
    reveal_strlit("Epic Games");
    reveal_strlit("Windows Registry");
    reveal_strlit("Ubisoft Connect");
    reveal_strlit("GOG Galaxy");
    reveal_strlit("Riot Games");
    reveal_strlit("macOS App");
    reveal_strlit("EA App");
    if platform_name(a) == platform_name(b) {
        assert(platform_name(a).len() == platform_name(b).len());
        assert(platform_name(a)[0] == platform_name(b)[0]);
    }
}

/// Where a platform name stands in a merge of outcomes with distinct platforms.
proof fn lemma_merged_names(s: Seq<PlatformOutcome>)
    requires
        outcome_platforms(s).no_duplicates(),
    ensures
        forall|n: Seq<char>| #[trigger] merged(s).scanned_platforms.contains(n) ==> exists|i: int|
            0 <= i < s.len() && platform_name(s[i].platform) == n && s[i].result is Ok,
        forall|n: Seq<char>| #[trigger] merged(s).failed_platforms.contains(n) ==> exists|i: int|
            0 <= i < s.len() && platform_name(s[i].platform) == n && s[i].result is Err,
        forall|i: int| 0 <= i < s.len() && s[i].result is Ok ==> {
            &&& merged(s).scanned_platforms.contains(platform_name(#[trigger] s[i].platform))
            &&& merged(s).games_by_platform.contains_key(platform_name(s[i].platform))
            &&& merged(s).games_by_platform[platform_name(s[i].platform)] == games_view(s[i].result->Ok_0@)
        },
        forall|i: int| 0 <= i < s.len() && s[i].result is Err ==> merged(s).failed_platforms.contains(
            platform_name(#[trigger] s[i].platform),
        ),
        merged(s).scanned_platforms.no_duplicates(),
        merged(s).failed_platforms.no_duplicates(),
        merged(s).games_by_platform.dom() == merged(s).scanned_platforms.to_set(),
        merged(s).total_count == merged(s).games.len(),
        merged(s).total_count == group_total(merged(s).scanned_platforms, merged(s).games_by_platform),
        merged(s).scanned_platforms.len() + merged(s).failed_platforms.len() == s.len(),
    decreases s.len(),
{
    if s.len() > 0 {
        let t = s.drop_last();
        let o = s.last();
        let n = platform_name(o.platform);
        assert(outcome_platforms(t) =~= outcome_platforms(s).drop_last());
        assert forall|i: int, j: int| 0 <= i < j < outcome_platforms(t).len() implies outcome_platforms(t)[i] != outcome_platforms(t)[j] by {
            assert(outcome_platforms(s)[i] != outcome_platforms(s)[j]);
        }
        lemma_merged_names(t);
        let p = merged(t);
        let q = merged(s);
        // the new name is not among the earlier ones
        assert forall|i: int| 0 <= i < t.len() implies platform_name(#[trigger] t[i].platform) != n by {
            lemma_platform_name_injective(t[i].platform, o.platform);
            assert(outcome_platforms(s)[i] != outcome_platforms(s)[s.len() - 1]);
        }
        assert(!p.scanned_platforms.contains(n));
        assert(!p.failed_platforms.contains(n));
        match o.result {
            Ok(g) => {
                assert(q.scanned_platforms =~= p.scanned_platforms.push(n));
                assert(q.scanned_platforms[q.scanned_platforms.len() - 1] == n);
                assert(q.scanned_platforms.drop_last() =~= p.scanned_platforms);
                lemma_group_total_insert(p.scanned_platforms, p.games_by_platform, n, games_view(g@));
                assert(q.games_by_platform.dom() =~= q.scanned_platforms.to_set());
                assert forall|m: Seq<char>| #[trigger] q.scanned_platforms.contains(m) implies exists|i: int|
                    0 <= i < s.len() && platform_name(s[i].platform) == m && s[i].result is Ok by {
                    if m == n {
                        assert(platform_name(s[s.len() - 1].platform) == m);
                    } else {
                        assert(p.scanned_platforms.contains(m));
                        let i = choose|i: int| 0 <= i < t.len() && platform_name(t[i].platform) == m && t[i].result is Ok;
                        assert(s[i] == t[i]);
                    }
                }
                assert forall|m: Seq<char>| #[trigger] q.failed_platforms.contains(m) implies exists|i: int|
                    0 <= i < s.len() && platform_name(s[i].platform) == m && s[i].result is Err by {
                    let i = choose|i: int| 0 <= i < t.len() && platform_name(t[i].platform) == m && t[i].result is Err;
                    assert(s[i] == t[i]);
                }
                assert forall|i: int| 0 <= i < s.len() && s[i].result is Ok implies {
                    &&& q.scanned_platforms.contains(platform_name(#[trigger] s[i].platform))
                    &&& q.games_by_platform.contains_key(platform_name(s[i].platform))
                    &&& q.games_by_platform[platform_name(s[i].platform)] == games_view(s[i].result->Ok_0@)
                } by {
                    if i < s.len() - 1 {
                        assert(s[i] == t[i]);
                        assert(platform_name(t[i].platform) != n);
                    }
                }
                assert forall|i: int| 0 <= i < s.len() && s[i].result is Err implies q.failed_platforms.contains(
                    platform_name(#[trigger] s[i].platform)) by {
                    assert(s[i] == t[i]);
                }
            },
            Err(e) => {
                assert(q.failed_platforms =~= p.failed_platforms.push(n));
                assert(q.failed_platforms[q.failed_platforms.len() - 1] == n);
                assert forall|m: Seq<char>| #[trigger] q.failed_platforms.contains(m) implies exists|i: int|
                    0 <= i < s.len() && platform_name(s[i].platform) == m && s[i].result is Err by {
                    if m == n {
                        assert(platform_name(s[s.len() - 1].platform) == m);
                    } else {
                        assert(p.failed_platforms.contains(m));
                        let i = choose|i: int| 0 <= i < t.len() && platform_name(t[i].platform) == m && t[i].result is Err;
                        assert(s[i] == t[i]);
                    }
                }
                assert forall|m: Seq<char>| #[trigger] q.scanned_platforms.contains(m) implies exists|i: int|
                    0 <= i < s.len() && platform_name(s[i].platform) == m && s[i].result is Ok by {
                    let i = choose|i: int| 0 <= i < t.len() && platform_name(t[i].platform) == m && t[i].result is Ok;
                    assert(s[i] == t[i]);
                }
                assert forall|i: int| 0 <= i < s.len() && s[i].result is Ok implies {
                    &&& q.scanned_platforms.contains(platform_name(#[trigger] s[i].platform))
                    &&& q.games_by_platform.contains_key(platform_name(s[i].platform))
                    &&& q.games_by_platform[platform_name(s[i].platform)] == games_view(s[i].result->Ok_0@)
                } by {
                    assert(s[i] == t[i]);
                }
                assert forall|i: int| 0 <= i < s.len() && s[i].result is Err implies q.failed_platforms.contains(
                    platform_name(#[trigger] s[i].platform)) by {
                    if i < s.len() - 1 {
                        assert(s[i] == t[i]);
                        let m = platform_name(t[i].platform);
                        assert(p.failed_platforms.contains(m));
                        let j = choose|j: int| 0 <= j < p.failed_platforms.len() && p.failed_platforms[j] == m;
                        assert(q.failed_platforms[j] == m);
                    } else {
                        assert(q.failed_platforms[q.failed_platforms.len() - 1] == platform_name(s[i].platform));
                    }
                }
            },
        }
    } else {
        assert(merged(s).games_by_platform.dom() =~= merged(s).scanned_platforms.to_set());
    }
}

/// Adding a group under a new name leaves the total over the old names as it was.
proof fn lemma_group_total_insert(
    names: Seq<Seq<char>>,
    groups: Map<Seq<char>, Seq<crate::models::GameView>>,
    n: Seq<char>,
    g: Seq<crate::models::GameView>,
)
    requires
        !names.contains(n),
    ensures
        group_total(names, groups.insert(n, g)) == group_total(names, groups),
        group_total(names.push(n), groups.insert(n, g)) == group_total(names, groups) + g.len(),
    decreases names.len(),
{
    assert(names.push(n).drop_last() =~= names);
    if names.len() > 0 {
        assert(!names.drop_last().contains(n)) by {
            if names.drop_last().contains(n) {
                let i = choose|i: int| 0 <= i < names.drop_last().len() && names.drop_last()[i] == n;
                assert(names[i] == n);
            }
        }
        assert(names[names.len() - 1] != n);
        lemma_group_total_insert(names.drop_last(), groups, n, g);
    }
}

/// With every platform switched off nothing is scanned: no games, no scanned
/// or failed platforms, and a count of zero.
pub proof fn lemma_nothing_enabled(options: ScanOptions, outcomes: Seq<PlatformOutcome>)
    requires
        forall|k: PlatformKind| !is_enabled(options, k),
        outcome_platforms(outcomes) == enabled_platforms(options),
    ensures
        merged(outcomes).games.len() == 0,
        merged(outcomes).scanned_platforms.len() == 0,
        merged(outcomes).failed_platforms.len() == 0,
        merged(outcomes).total_count == 0,
{
    assert(!is_enabled(options, PlatformKind::Steam));
    assert(!is_enabled(options, PlatformKind::EpicGames));
    assert(!is_enabled(options, PlatformKind::Uplay));
    assert(!is_enabled(options, PlatformKind::GogGalaxy));
    assert(!is_enabled(options, PlatformKind::RiotGames));
    assert(!is_enabled(options, PlatformKind::WinRegistry));
    assert(!is_enabled(options, PlatformKind::OsxBundle));
    assert(!is_enabled(options, PlatformKind::EaApp));
    assert(enabled_platforms(options).len() == 0);
    assert(outcomes.len() == 0);
}

/// The count of a merge equals the number of games, and equals the sum of the
/// sizes of the per-platform groups, when each platform reports once.
pub proof fn lemma_total_count(outcomes: Seq<PlatformOutcome>)
    requires
        outcome_platforms(outcomes).no_duplicates(),
    ensures
        merged(outcomes).total_count == games_found(outcomes),
        merged(outcomes).total_count == merged(outcomes).games.len(),
        merged(outcomes).total_count == group_total(
            merged(outcomes).scanned_platforms,
            merged(outcomes).games_by_platform,
        ),
        merged(outcomes).games_by_platform.dom() == merged(outcomes).scanned_platforms.to_set(),
        merged(outcomes).scanned_platforms.no_duplicates(),
{
    lemma_merged_names(outcomes);
    lemma_total_is_found(outcomes);
}

/// A platform whose store is absent, and so whose outcome is an empty
/// success, is scanned, not failed, and contributes an empty group.
pub proof fn lemma_absent_store_scanned(options: ScanOptions, outcomes: Seq<PlatformOutcome>, i: int)
    requires
        outcome_platforms(outcomes) == enabled_platforms(options),
        0 <= i < outcomes.len(),
        outcomes[i].result matches Ok(g) && g@.len() == 0,
    ensures
        merged(outcomes).scanned_platforms.contains(platform_name(outcomes[i].platform)),
        !merged(outcomes).failed_platforms.contains(platform_name(outcomes[i].platform)),
        merged(outcomes).games_by_platform[platform_name(outcomes[i].platform)].len() == 0,
{
    lemma_each_platform_once(options, outcomes);
    lemma_enabled_platforms(options);
    let k = outcomes[i].platform;
    assert(outcome_platforms(outcomes)[i] == k);
    assert(enabled_platforms(options).contains(k));
    assert(is_enabled(options, k));
    assert(merged(outcomes).scanned_platforms.contains(platform_name(k)));
}

/// Whether the games of each successful outcome carry that outcome's platform.
pub open spec fn games_carry_platform(outcomes: Seq<PlatformOutcome>) -> bool {
    forall|i: int, j: int|
        0 <= i < outcomes.len() && outcomes[i].result is Ok && 0 <= j < outcomes[i].result->Ok_0@.len()
            ==> (#[trigger] outcomes[i].result->Ok_0@[j]).platform.platform_kind() == outcomes[i].platform
}

proof fn lemma_no_games_of(s: Seq<PlatformOutcome>, k: PlatformKind)
    requires
        games_carry_platform(s),
        forall|i: int| 0 <= i < s.len() && (#[trigger] s[i]).platform == k ==> (s[i].result is Err
            || s[i].result->Ok_0@.len() == 0),
    ensures
        forall|m: int| 0 <= m < merged(s).games.len() ==> (#[trigger] merged(s).games[m]).platform.platform_kind() != k,
    decreases s.len(),
{
    if s.len() > 0 {
        let t = s.drop_last();
        assert forall|i: int, j: int|
            0 <= i < t.len() && t[i].result is Ok && 0 <= j < t[i].result->Ok_0@.len()
                implies (#[trigger] t[i].result->Ok_0@[j]).platform.platform_kind() == t[i].platform by {
            assert(t[i] == s[i]);
            assert(s[i].result->Ok_0@[j].platform.platform_kind() == s[i].platform);
        }
        assert forall|i: int| 0 <= i < t.len() && (#[trigger] t[i]).platform == k implies (t[i].result is Err
            || t[i].result->Ok_0@.len() == 0) by {
            assert(t[i] == s[i]);
        }
        lemma_no_games_of(t, k);
        let o = s.last();
        match o.result {
            Ok(g) => {
                let p = merged(t);
                let q = merged(s);
                assert(q.games == p.games + games_view(g@));
                assert forall|m: int| 0 <= m < q.games.len() implies (#[trigger] q.games[m]).platform.platform_kind() != k by {
                    if m < p.games.len() {
                        assert(q.games[m] == p.games[m]);
                    } else {
                        let j = m - p.games.len();
                        assert(q.games[m] == g@[j]@);
                        assert(s[s.len() - 1].result->Ok_0@[j].platform.platform_kind() == s[s.len() - 1].platform);
                    }
                }
            },
            Err(_) => {},
        }
    }
}

/// Where detectors give their games their own platform, a platform whose
/// store is absent has no game anywhere in the result.
pub proof fn lemma_absent_platform_has_no_games(options: ScanOptions, outcomes: Seq<PlatformOutcome>, i: int)
    requires
        outcome_platforms(outcomes) == enabled_platforms(options),
        games_carry_platform(outcomes),
        0 <= i < outcomes.len(),
        outcomes[i].result matches Ok(g) && g@.len() == 0,
    ensures
        forall|m: int| 0 <= m < merged(outcomes).games.len() ==> (#[trigger] merged(outcomes).games[m]).platform.platform_kind()
            != outcomes[i].platform,
{
    lemma_enabled_platforms(options);
    let k = outcomes[i].platform;
    assert forall|j: int| 0 <= j < outcomes.len() && (#[trigger] outcomes[j]).platform == k implies (outcomes[j].result is Err
        || outcomes[j].result->Ok_0@.len() == 0) by {
        assert(outcome_platforms(outcomes)[j] == outcome_platforms(outcomes)[i]);
    }
    lemma_no_games_of(outcomes, k);
}

/// Whether the count of `r` equals its number of games and the sum of its
/// per-platform groups, each scanned platform keying one group.
pub open spec fn counts_agree(r: ScanResultView) -> bool {
    &&& r.total_count == r.games.len()
    &&& r.total_count == group_total(r.scanned_platforms, r.games_by_platform)
    &&& r.games_by_platform.dom() == r.scanned_platforms.to_set()
    &&& r.scanned_platforms.no_duplicates()
}

/// Adding the games of a platform not yet recorded keeps the count equal to
/// the number of games and to the sum of the per-platform groups.
pub proof fn lemma_add_games_keeps_count(r: ScanResultView, name: Seq<char>, games: Seq<crate::models::GameView>)
    requires
        r.total_count == r.games.len(),
        r.total_count == group_total(r.scanned_platforms, r.games_by_platform),
        r.games_by_platform.dom() == r.scanned_platforms.to_set(),
        r.scanned_platforms.no_duplicates(),
        !r.games_by_platform.contains_key(name),
    ensures
        with_games(r, name, games).total_count == with_games(r, name, games).games.len(),
        with_games(r, name, games).total_count == group_total(
            with_games(r, name, games).scanned_platforms,
            with_games(r, name, games).games_by_platform,
        ),
        with_games(r, name, games).games_by_platform.dom() == with_games(r, name, games).scanned_platforms.to_set(),
        with_games(r, name, games).scanned_platforms.no_duplicates(),
{
    assert(!r.scanned_platforms.to_set().contains(name));
    assert(!r.scanned_platforms.contains(name));
    lemma_group_total_insert(r.scanned_platforms, r.games_by_platform, name, games);
    r.scanned_platforms.lemma_push_to_set_commute(name);
    let q = with_games(r, name, games);
    assert(q.games_by_platform.dom() =~= q.scanned_platforms.to_set());
    assert(q.scanned_platforms[q.scanned_platforms.len() - 1] == name);
}

/// Ranks of platforms in scan order.
spec fn rank(k: PlatformKind) -> int {
    match k {
        PlatformKind::Steam => 0,
        PlatformKind::EpicGames => 1,
        PlatformKind::Uplay => 2,
        PlatformKind::GogGalaxy => 3,
        PlatformKind::RiotGames => 4,
        PlatformKind::WinRegistry => 5,
        PlatformKind::OsxBundle => 6,
        PlatformKind::EaApp => 7,
    }
}

spec fn ranked_below(s: Seq<PlatformKind>, r: int) -> bool {
    &&& forall|i: int, j: int| 0 <= i < j < s.len() ==> rank(s[i]) < rank(s[j])
    &&& forall|i: int| 0 <= i < s.len() ==> rank(#[trigger] s[i]) < r
}

proof fn lemma_push_if_ranked(s: Seq<PlatformKind>, on: bool, k: PlatformKind)
    requires
        ranked_below(s, rank(k)),
    ensures
        ranked_below(push_if(s, on, k), rank(k) + 1),
        forall|m: PlatformKind| #[trigger] push_if(s, on, k).contains(m) == (s.contains(m) || (on && m == k)),
{
    if on {
        let t = s.push(k);
        assert forall|m: PlatformKind| #[trigger] t.contains(m) == (s.contains(m) || m == k) by {
            if t.contains(m) {
                let i = choose|i: int| 0 <= i < t.len() && t[i] == m;
                if i < s.len() {
                    assert(s[i] == m);
                }
            }
            if s.contains(m) {
                let i = choose|i: int| 0 <= i < s.len() && s[i] == m;
                assert(t[i] == m);
            }
            if m == k {
                assert(t[s.len() as int] == m);
            }
        }
    }
}

proof fn lemma_enabled_platforms(o: ScanOptions)
    ensures
        enabled_platforms(o).no_duplicates(),
        forall|k: PlatformKind| enabled_platforms(o).contains(k) <==> is_enabled(o, k),
{
    let s0 = push_if(Seq::empty(), o.scan_steam, PlatformKind::Steam);
    let s1 = push_if(s0, o.scan_epic_games, PlatformKind::EpicGames);
    let s2 = push_if(s1, o.scan_uplay, PlatformKind::Uplay);
    let s3 = push_if(s2, o.scan_gog_galaxy, PlatformKind::GogGalaxy);
    let s4 = push_if(s3, o.scan_riot_games, PlatformKind::RiotGames);
    let s5 = push_if(s4, o.scan_win_registry, PlatformKind::WinRegistry);
    let s6 = push_if(s5, o.scan_osx_bundle, PlatformKind::OsxBundle);
    lemma_push_if_ranked(Seq::empty(), o.scan_steam, PlatformKind::Steam);
    lemma_push_if_ranked(s0, o.scan_epic_games, PlatformKind::EpicGames);
    lemma_push_if_ranked(s1, o.scan_uplay, PlatformKind::Uplay);
    lemma_push_if_ranked(s2, o.scan_gog_galaxy, PlatformKind::GogGalaxy);
    lemma_push_if_ranked(s3, o.scan_riot_games, PlatformKind::RiotGames);
    lemma_push_if_ranked(s4, o.scan_win_registry, PlatformKind::WinRegistry);
    lemma_push_if_ranked(s5, o.scan_osx_bundle, PlatformKind::OsxBundle);
    lemma_push_if_ranked(s6, o.scan_ea_app, PlatformKind::EaApp);
    let e = enabled_platforms(o);
    assert forall|k: PlatformKind| #[trigger] e.contains(k) == is_enabled(o, k) by {
        assert(!Seq::<PlatformKind>::empty().contains(k));
        assert(s0.contains(k) == (o.scan_steam && k == PlatformKind::Steam));
        assert(s1.contains(k) == (s0.contains(k) || (o.scan_epic_games && k == PlatformKind::EpicGames)));
        assert(s2.contains(k) == (s1.contains(k) || (o.scan_uplay && k == PlatformKind::Uplay)));
        assert(s3.contains(k) == (s2.contains(k) || (o.scan_gog_galaxy && k == PlatformKind::GogGalaxy)));
        assert(s4.contains(k) == (s3.contains(k) || (o.scan_riot_games && k == PlatformKind::RiotGames)));
        assert(s5.contains(k) == (s4.contains(k) || (o.scan_win_registry && k == PlatformKind::WinRegistry)));
        assert(s6.contains(k) == (s5.contains(k) || (o.scan_osx_bundle && k == PlatformKind::OsxBundle)));
        assert(e.contains(k) == (s6.contains(k) || (o.scan_ea_app && k == PlatformKind::EaApp)));
    }
    assert forall|i: int, j: int| 0 <= i < e.len() && 0 <= j < e.len() && i != j implies e[i] != e[j] by {
        if i < j {
            assert(rank(e[i]) < rank(e[j]));
        } else {
            assert(rank(e[j]) < rank(e[i]));
        }
    }
}

/// Each enabled platform ends up in exactly one of the scanned and the failed
/// platforms, and nothing else does; a platform whose detector found nothing
/// is scanned and contributes an empty group.
pub proof fn lemma_each_platform_once(options: ScanOptions, outcomes: Seq<PlatformOutcome>)
    requires
        outcome_platforms(outcomes) == enabled_platforms(options),
    ensures
        forall|k: PlatformKind| is_enabled(options, k) ==> (
            merged(outcomes).scanned_platforms.contains(platform_name(k))
            != merged(outcomes).failed_platforms.contains(platform_name(k))),
        forall|k: PlatformKind| !is_enabled(options, k) ==> (
            !merged(outcomes).scanned_platforms.contains(platform_name(k))
            && !merged(outcomes).failed_platforms.contains(platform_name(k))),
        merged(outcomes).scanned_platforms.len() + merged(outcomes).failed_platforms.len()
            == enabled_platforms(options).len(),
        merged(outcomes).scanned_platforms.no_duplicates(),
        merged(outcomes).failed_platforms.no_duplicates(),
        forall|i: int| 0 <= i < outcomes.len() && (#[trigger] outcomes[i]).result is Ok ==> {
            &&& merged(outcomes).scanned_platforms.contains(platform_name(outcomes[i].platform))
            &&& merged(outcomes).games_by_platform[platform_name(outcomes[i].platform)].len()
                == outcomes[i].result->Ok_0@.len()
        },
{
    lemma_enabled_platforms(options);
    lemma_merged_names(outcomes);
    let r = merged(outcomes);
    assert forall|k: PlatformKind| is_enabled(options, k) implies (
        r.scanned_platforms.contains(platform_name(k)) != r.failed_platforms.contains(platform_name(k))) by {
        assert(enabled_platforms(options).contains(k));
        let i = choose|i: int| 0 <= i < outcome_platforms(outcomes).len() && outcome_platforms(outcomes)[i] == k;
        assert(outcomes[i].platform == k);
        if r.scanned_platforms.contains(platform_name(k)) && r.failed_platforms.contains(platform_name(k)) {
            let a = choose|a: int| 0 <= a < outcomes.len() && platform_name(outcomes[a].platform) == platform_name(k) && outcomes[a].result is Ok;
            let b = choose|b: int| 0 <= b < outcomes.len() && platform_name(outcomes[b].platform) == platform_name(k) && outcomes[b].result is Err;
            lemma_platform_name_injective(outcomes[a].platform, k);
            lemma_platform_name_injective(outcomes[b].platform, k);
            assert(outcome_platforms(outcomes)[a] == outcome_platforms(outcomes)[b]);
        }
    }
    assert forall|k: PlatformKind| !is_enabled(options, k) implies (
        !r.scanned_platforms.contains(platform_name(k)) && !r.failed_platforms.contains(platform_name(k))) by {
        if r.scanned_platforms.contains(platform_name(k)) {
            let a = choose|a: int| 0 <= a < outcomes.len() && platform_name(outcomes[a].platform) == platform_name(k) && outcomes[a].result is Ok;
            lemma_platform_name_injective(outcomes[a].platform, k);
            assert(outcome_platforms(outcomes)[a] == k);
        }
        if r.failed_platforms.contains(platform_name(k)) {
            let b = choose|b: int| 0 <= b < outcomes.len() && platform_name(outcomes[b].platform) == platform_name(k) && outcomes[b].result is Err;
            lemma_platform_name_injective(outcomes[b].platform, k);
            assert(outcome_platforms(outcomes)[b] == k);
        }
    }
}

} // verus!
