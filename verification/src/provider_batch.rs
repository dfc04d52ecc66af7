//! How per-game work is batched: games that share an API provider run one
//! after another (the provider's rate limit), providers run side by side;
//! and how the results are gathered and merged into the cached state.

use vstd::prelude::*;
use crate::game_id::{provider_of, ApiProvider, GameId};
use crate::game_map::GameMap;

verus! {

/// The games whose work runs: all of them, or those the filter names.
pub open spec fn active_games(games: Seq<GameId>, filter: Option<Seq<GameId>>) -> Seq<GameId> {
    match filter {
        None => games,
        Some(f) => games.filter(|g: GameId| f.contains(g)),
    }
}

/// The games an optional filter names.
pub open spec fn filter_view(filter: Option<&Vec<GameId>>) -> Option<Seq<GameId>> {
    match filter {
        Some(f) => Some(f@),
        None => None,
    }
}

/// The games of one provider, in order.
pub open spec fn provider_games(games: Seq<GameId>, p: ApiProvider) -> Seq<GameId> {
    games.filter(|g: GameId| provider_of(g) == p)
}

/// The batches: one per provider that has active games (HoYoLab first),
/// each with its games in the given order.
pub open spec fn batches_of(active: Seq<GameId>) -> Seq<(ApiProvider, Seq<GameId>)> {
    let h = provider_games(active, ApiProvider::HoYoLab);
    let k = provider_games(active, ApiProvider::Kuro);
    (if h.len() > 0 { seq![(ApiProvider::HoYoLab, h)] } else { Seq::empty() }) + (if k.len() > 0 {
        seq![(ApiProvider::Kuro, k)]
    } else {
        Seq::empty()
    })
}

fn contains_game(s: &Vec<GameId>, g: GameId) -> (r: bool)
    ensures
        r == s@.contains(g),
{
    let mut i: usize = 0;
    while i < s.len()
        invariant
            0 <= i <= s@.len(),
            forall|j: int| 0 <= j < i ==> s@[j] != g,
        decreases s@.len() - i,
    {
        if s[i] == g {
            assert(s@[i as int] == g);
            return true;
        }
        i += 1;
    }
    false
}

/// Groups the games (those the filter names, when there is one) by API
/// provider, HoYoLab first, keeping their order within a provider.
pub fn provider_batches(games: &Vec<GameId>, filter: Option<&Vec<GameId>>) -> (r: Vec<(ApiProvider, Vec<GameId>)>)
    ensures
        r@.len() == batches_of(active_games(games@, filter_view(filter))).len(),
        forall|i: int| 0 <= i < r@.len() ==> (#[trigger] r@[i]).0 == batches_of(
            active_games(games@, filter_view(filter)),
        )[i].0 && r@[i].1@ == batches_of(active_games(games@, filter_view(filter)))[i].1,
{
    let ghost active = active_games(games@, filter_view(filter));
    let mut hoyolab: Vec<GameId> = Vec::new();
    let mut kuro: Vec<GameId> = Vec::new();
    let ghost ph = |g: GameId| provider_of(g) == ApiProvider::HoYoLab;
    let ghost pk = |g: GameId| provider_of(g) == ApiProvider::Kuro;
    let mut i: usize = 0;
    proof {
        reveal(Seq::filter);
        assert(games@.take(0) =~= Seq::<GameId>::empty());
    }
    while i < games.len()
        invariant
            0 <= i <= games@.len(),
            active == active_games(games@, filter_view(filter)),
            hoyolab@ == provider_games(active_games(games@.take(i as int), filter_view(filter)), ApiProvider::HoYoLab),
            kuro@ == provider_games(active_games(games@.take(i as int), filter_view(filter)), ApiProvider::Kuro),
        decreases games@.len() - i,
    {
        let g = games[i];
        let included = match filter {
            None => true,
            Some(f) => contains_game(f, g),
        };
        if included {
            match g.api_provider() {
                ApiProvider::HoYoLab => hoyolab.push(g),
                ApiProvider::Kuro => kuro.push(g),
            }
        }
        proof {
            reveal(Seq::filter);
            let t = games@.take(i + 1);
            assert(t.drop_last() =~= games@.take(i as int));
            assert(t.last() == g);
            let fv = filter_view(filter);
            let a_prev = active_games(games@.take(i as int), fv);
            let a_next = active_games(t, fv);
            match fv {
                None => {
                    assert(a_next == t);
                    assert(a_next.drop_last() == a_prev);
                },
                Some(fs) => {
                    let pf = |x: GameId| fs.contains(x);
                    assert(a_next == (if pf(g) { a_prev.push(g) } else { a_prev }));
                },
            }
            assert(a_next == (if included { a_prev.push(g) } else { a_prev }));
            if included {
                assert(a_next.drop_last() =~= a_prev);
                assert(a_next.last() == g);
            }
            assert(hoyolab@ =~= provider_games(a_next, ApiProvider::HoYoLab));
            assert(kuro@ =~= provider_games(a_next, ApiProvider::Kuro));
        }
        i += 1;
    }
    proof {
        assert(games@.take(games@.len() as int) =~= games@);
    }
    let mut r: Vec<(ApiProvider, Vec<GameId>)> = Vec::new();
    if hoyolab.len() > 0 {
        r.push((ApiProvider::HoYoLab, hoyolab));
    }
    if kuro.len() > 0 {
        r.push((ApiProvider::Kuro, kuro));
    }
    r
}

/// The values of the successful results, a later result for the same game
/// replacing an earlier one.
pub open spec fn successes<V, E>(results: Seq<(GameId, Result<V, E>)>) -> Map<GameId, V>
    decreases results.len(),
{
    if results.len() == 0 {
        Map::empty()
    } else {
        let rest = successes(results.drop_last());
        match results.last().1 {
            Ok(v) => rest.insert(results.last().0, v),
            Err(_) => rest,
        }
    }
}

/// Gathers the successful results by game; failures are left out.
pub fn collect_results<V, E>(results: Vec<(GameId, Result<V, E>)>) -> (m: GameMap<V>)
    ensures
        m.view() == successes(results@),
{
    let ghost all = results@;
    let mut m: GameMap<V> = GameMap::new();
    let mut rest = results;
    let total = rest.len();
    let mut n: usize = 0;
    assert(all.subrange(0, all.len() as int) =~= all);
    assert(all.take(0) =~= Seq::<(GameId, Result<V, E>)>::empty());
    while rest.len() > 0
        invariant
            0 <= n <= all.len(),
            all.len() == total,
            rest@ == all.subrange(n as int, all.len() as int),
            m.view() == successes(all.take(n as int)),
        decreases rest@.len(),
    {
        let (g, result) = rest.remove(0);
        proof {
            assert(all.take(n + 1).drop_last() =~= all.take(n as int));
            assert(all.take(n + 1).last() == all[n as int]);
            assert(rest@ =~= all.subrange(n + 1, all.len() as int));
        }
        match result {
            Ok(v) => m.insert(g, v),
            Err(_) => {},
        }
        n += 1;
    }
    assert(all.take(all.len() as int) =~= all);
    m
}

/// The cached values after a fetch: those of games still configured, with
/// every fetched value replacing the cached one (a game whose fetch failed
/// keeps its cached value).
pub open spec fn merged<V>(previous: Map<GameId, V>, fetched: Map<GameId, V>, configured: Seq<GameId>) -> Map<GameId, V> {
    previous.restrict(configured.to_set()).union_prefer_right(fetched)
}

/// Merges freshly fetched values into the cache.
pub fn merge_game_resources<V>(previous: GameMap<V>, fetched: GameMap<V>, configured: &Vec<GameId>) -> (m: GameMap<V>)
    ensures
        m.view() == merged(previous.view(), fetched.view(), configured@),
{
    let ghost pv = previous.view();
    let ghost fv = fetched.view();
    let mut previous = previous;
    let mut fetched = fetched;
    let mut m: GameMap<V> = GameMap::new();
    let games = GameId::all();
    let mut i: usize = 0;
    while i < 4
        invariant
            games@ == crate::game_id::all_games(),
            0 <= i <= 4,
            forall|g: GameId| !games@.take(i as int).contains(g) ==> (#[trigger] previous.view().dom().contains(g)
                == pv.dom().contains(g) && (pv.dom().contains(g) ==> previous.view()[g] == pv[g])),
            forall|g: GameId| !games@.take(i as int).contains(g) ==> (#[trigger] fetched.view().dom().contains(g)
                == fv.dom().contains(g) && (fv.dom().contains(g) ==> fetched.view()[g] == fv[g])),
            forall|g: GameId| #[trigger] m.view().dom().contains(g) ==> games@.take(i as int).contains(g),
            forall|g: GameId| games@.take(i as int).contains(g) ==> (#[trigger] m.view().dom().contains(g)
                == merged(pv, fv, configured@).dom().contains(g) && (m.view().dom().contains(g) ==> m.view()[g]
                == merged(pv, fv, configured@)[g])),
        decreases 4 - i,
    {
        let g = games[i];
        let ghost before = m.view();
        proof {
            crate::game_id::lemma_all_games_complete(g);
            assert(games@.take(i + 1) =~= games@.take(i as int).push(g));
            assert(!games@.take(i as int).contains(g)) by {
                if games@.take(i as int).contains(g) {
                    let j = choose|j: int| 0 <= j < i && #[trigger] games@.take(i as int)[j] == g;
                    assert(games@[j] == games@[i as int]);
                }
            }
        }
        let ghost prev_before = previous.view();
        let ghost fetch_before = fetched.view();
        let from_fetch = fetched.remove(g);
        let from_cache = previous.remove(g);
        let keep = contains_game(configured, g);
        match from_fetch {
            Some(v) => m.insert(g, v),
            None => {
                if keep {
                    match from_cache {
                        Some(v) => m.insert(g, v),
                        None => {},
                    }
                }
            },
        }
        proof {
            assert forall|h: GameId| !games@.take(i + 1).contains(h) implies !games@.take(i as int).contains(h) && h != g by {
                if games@.take(i as int).contains(h) {
                    let j = choose|j: int| 0 <= j < i && #[trigger] games@.take(i as int)[j] == h;
                    assert(games@.take(i + 1)[j] == h);
                }
                if h == g {
                    assert(games@.take(i + 1)[i as int] == g);
                }
            }
            assert forall|h: GameId| !games@.take(i + 1).contains(h) implies (#[trigger] previous.view().dom().contains(h)
                == pv.dom().contains(h) && (pv.dom().contains(h) ==> previous.view()[h] == pv[h])) by {
                assert(!games@.take(i as int).contains(h) && h != g);
                assert(prev_before.dom().contains(h) == pv.dom().contains(h));
            }
            assert forall|h: GameId| !games@.take(i + 1).contains(h) implies (#[trigger] fetched.view().dom().contains(h)
                == fv.dom().contains(h) && (fv.dom().contains(h) ==> fetched.view()[h] == fv[h])) by {
                assert(!games@.take(i as int).contains(h) && h != g);
                assert(fetch_before.dom().contains(h) == fv.dom().contains(h));
            }
            assert forall|h: GameId| games@.take(i + 1).contains(h) implies (#[trigger] m.view().dom().contains(h)
                == merged(pv, fv, configured@).dom().contains(h) && (m.view().dom().contains(h) ==> m.view()[h]
                == merged(pv, fv, configured@)[h])) by {
                if h != g {
                    let j = choose|j: int| 0 <= j < i + 1 && #[trigger] games@.take(i + 1)[j] == h;
                    assert(j != i);
                    assert(games@.take(i as int)[j] == h);
                }
            }
            assert forall|h: GameId| #[trigger] m.view().dom().contains(h) implies games@.take(i + 1).contains(h) by {
                if h == g {
                    assert(games@.take(i + 1)[i as int] == g);
                } else {
                    assert(before.dom().contains(h));
                    let j = choose|j: int| 0 <= j < i && #[trigger] games@.take(i as int)[j] == h;
                    assert(games@.take(i + 1)[j] == h);
                }
            }
        }
        i += 1;
    }
    proof {
        assert forall|g: GameId| games@.take(4).contains(g) by {
            crate::game_id::lemma_all_games_complete(g);
            assert(games@.take(4) =~= games@);
        }
        assert(m.view() =~= merged(pv, fv, configured@));
    }
    m
}

/// The registered games that have no cached value, in registration order.
pub open spec fn games_missing<V>(registered: Seq<GameId>, cached: Map<GameId, V>) -> Seq<GameId>
    decreases registered.len(),
{
    if registered.len() == 0 {
        Seq::empty()
    } else if cached.dom().contains(registered.last()) {
        games_missing(registered.drop_last(), cached)
    } else {
        games_missing(registered.drop_last(), cached).push(registered.last())
    }
}

/// The games among `registered` whose value is missing from the cache.
pub fn missing_games<V>(registered: &Vec<GameId>, cached: &GameMap<V>) -> (v: Vec<GameId>)
    ensures
        v@ == games_missing(registered@, cached.view()),
{
    let mut v: Vec<GameId> = Vec::new();
    let mut i: usize = 0;
    while i < registered.len()
        invariant
            0 <= i <= registered@.len(),
            v@ == games_missing(registered@.take(i as int), cached.view()),
        decreases registered@.len() - i,
    {
        let g = registered[i];
        proof {
            assert(registered@.take(i + 1).drop_last() =~= registered@.take(i as int));
            assert(registered@.take(i + 1).last() == g);
        }
        if !cached.contains(g) {
            v.push(g);
        }
        i += 1;
    }
    assert(registered@.take(registered@.len() as int) =~= registered@);
    v
}

/// The cache after filling its holes from a fetch: every cached value kept,
/// a fetched value added only for a game the cache lacks.
pub open spec fn fill_holes<V>(cached: Map<GameId, V>, fetched: Map<GameId, V>) -> Map<GameId, V> {
    fetched.union_prefer_right(cached)
}

/// Whether a fetch brings a value for a game the cache lacks.
pub open spec fn fills_a_hole<V>(cached: Map<GameId, V>, fetched: Map<GameId, V>) -> bool {
    exists|g: GameId| fetched.dom().contains(g) && !cached.dom().contains(g)
}

fn fill_one<V>(cached: &mut GameMap<V>, fetched: &mut GameMap<V>, g: GameId) -> (filled: bool)
    ensures
        filled == (!old(cached).view().dom().contains(g) && old(fetched).view().dom().contains(g)),
        final(cached).view() == (if filled {
            old(cached).view().insert(g, old(fetched).view()[g])
        } else {
            old(cached).view()
        }),
        final(fetched).view() == old(fetched).view().remove(g),
{
    let value = fetched.remove(g);
    if cached.contains(g) {
        return false;
    }
    match value {
        Some(v) => {
            cached.insert(g, v);
            true
        },
        None => false,
    }
}

/// Fills the cache's holes from a fetch, leaving every cached value as it
/// is (a value cached while the fetch was in flight is fresher); returns
/// whether a hole was filled.
pub fn fill_vacant<V>(cached: &mut GameMap<V>, fetched: GameMap<V>) -> (filled: bool)
    ensures
        final(cached).view() == fill_holes(old(cached).view(), fetched.view()),
        filled == fills_a_hole(old(cached).view(), fetched.view()),
{
    let ghost c0 = cached.view();
    let ghost f0 = fetched.view();
    let mut fetched = fetched;
    let a = fill_one(cached, &mut fetched, GameId::GenshinImpact);
    let b = fill_one(cached, &mut fetched, GameId::HonkaiStarRail);
    let c = fill_one(cached, &mut fetched, GameId::ZenlessZoneZero);
    let d = fill_one(cached, &mut fetched, GameId::WutheringWaves);
    proof {
        assert forall|g: GameId| #[trigger] cached.view().dom().contains(g) == fill_holes(c0, f0).dom().contains(g)
            && (cached.view().dom().contains(g) ==> cached.view()[g] == fill_holes(c0, f0)[g]) by {
            match g {
                GameId::GenshinImpact => {},
                GameId::HonkaiStarRail => {},
                GameId::ZenlessZoneZero => {},
                GameId::WutheringWaves => {},
            }
        }
        assert(cached.view() =~= fill_holes(c0, f0));
        if fills_a_hole(c0, f0) {
            let g = choose|g: GameId| f0.dom().contains(g) && !c0.dom().contains(g);
            match g {
                GameId::GenshinImpact => {},
                GameId::HonkaiStarRail => {},
                GameId::ZenlessZoneZero => {},
                GameId::WutheringWaves => {},
            }
        }
    }
    a || b || c || d
}


/// After a fetch the cache holds, for each game: the fetched value when the
/// fetch brought one; otherwise the cached value when the game is still
/// configured (a failed fetch keeps the last known values); otherwise
/// nothing.
pub proof fn lemma_merge_keeps_what_failed<V>(
    previous: Map<GameId, V>,
    fetched: Map<GameId, V>,
    configured: Seq<GameId>,
    g: GameId,
)
    ensures
        fetched.dom().contains(g) ==> merged(previous, fetched, configured).dom().contains(g) && merged(
            previous,
            fetched,
            configured,
        )[g] == fetched[g],
        !fetched.dom().contains(g) && configured.contains(g) && previous.dom().contains(g) ==> merged(
            previous,
            fetched,
            configured,
        ).dom().contains(g) && merged(previous, fetched, configured)[g] == previous[g],
        !fetched.dom().contains(g) && !configured.contains(g) ==> !merged(previous, fetched, configured).dom().contains(g),
{
}

/// Filling the cache's holes never changes a cached value, fills a hole
/// with the fetched value, and leaves a game neither holds absent.
pub proof fn lemma_fill_never_overwrites<V>(cached: Map<GameId, V>, fetched: Map<GameId, V>, g: GameId)
    ensures
        cached.dom().contains(g) ==> fill_holes(cached, fetched).dom().contains(g) && fill_holes(cached, fetched)[g]
            == cached[g],
        !cached.dom().contains(g) && fetched.dom().contains(g) ==> fill_holes(cached, fetched).dom().contains(g)
            && fill_holes(cached, fetched)[g] == fetched[g],
        !cached.dom().contains(g) && !fetched.dom().contains(g) ==> !fill_holes(cached, fetched).dom().contains(g),
{
}


/// Every game of a batch is served by the batch's provider, and every active
/// game lands in the batch of its provider: games that share a provider are
/// fetched one after another.
pub proof fn lemma_batches_group_by_provider(active: Seq<GameId>, i: int, j: int, k: int)
    ensures
        0 <= i < batches_of(active).len() && 0 <= j < batches_of(active)[i].1.len() ==> provider_of(
            batches_of(active)[i].1[j],
        ) == batches_of(active)[i].0,
        0 <= k < active.len() ==> exists|b: int|
            0 <= b < batches_of(active).len() && #[trigger] batches_of(active)[b].0 == provider_of(active[k])
                && batches_of(active)[b].1.contains(active[k]),
{
    let ph = |g: GameId| provider_of(g) == ApiProvider::HoYoLab;
    let pk = |g: GameId| provider_of(g) == ApiProvider::Kuro;
    let h = provider_games(active, ApiProvider::HoYoLab);
    let kk = provider_games(active, ApiProvider::Kuro);
    assert(h == active.filter(ph));
    assert(kk == active.filter(pk));
    if 0 <= i < batches_of(active).len() && 0 <= j < batches_of(active)[i].1.len() {
        if batches_of(active)[i].0 == ApiProvider::HoYoLab {
            assert(batches_of(active)[i].1 == h);
            active.lemma_filter_pred(ph, j);
        } else {
            assert(batches_of(active)[i].1 == kk);
            active.lemma_filter_pred(pk, j);
        }
    }
    if 0 <= k < active.len() {
        if provider_of(active[k]) == ApiProvider::HoYoLab {
            active.lemma_filter_contains(ph, k);
            assert(h.len() > 0);
            assert(batches_of(active)[0].0 == ApiProvider::HoYoLab);
            assert(batches_of(active)[0].1.contains(active[k]));
        } else {
            active.lemma_filter_contains(pk, k);
            assert(kk.len() > 0);
            let b: int = if h.len() > 0 { 1 } else { 0 };
            assert(batches_of(active)[b].0 == ApiProvider::Kuro);
            assert(batches_of(active)[b].1.contains(active[k]));
        }
    }
}

} // verus!
