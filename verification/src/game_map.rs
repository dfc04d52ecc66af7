//! A map from game to value, with one slot per game: the registries of game
//! clients and the per-game caches of fetched data.

use vstd::prelude::*;
use crate::game_id::{all_games, GameId};

verus! {

/// The slot of a game.
pub open spec fn slot(g: GameId) -> int {
    match g {
        GameId::GenshinImpact => 0,
        GameId::HonkaiStarRail => 1,
        GameId::ZenlessZoneZero => 2,
        GameId::WutheringWaves => 3,
    }
}

fn slot_index(g: GameId) -> (i: usize)
    ensures
        i == slot(g),
{
    match g {
        GameId::GenshinImpact => 0,
        GameId::HonkaiStarRail => 1,
        GameId::ZenlessZoneZero => 2,
        GameId::WutheringWaves => 3,
    }
}

/// The map held by four slots.
pub open spec fn map_of<T>(slots: Seq<Option<T>>) -> Map<GameId, T> {
    Map::new(|g: GameId| slots[slot(g)] is Some, |g: GameId| slots[slot(g)]->0)
}

/// The number of games a map holds.
pub open spec fn count_of<T>(m: Map<GameId, T>) -> nat {
    (if m.dom().contains(GameId::GenshinImpact) { 1nat } else { 0nat }) + (if m.dom().contains(
        GameId::HonkaiStarRail,
    ) {
        1nat
    } else {
        0nat
    }) + (if m.dom().contains(GameId::ZenlessZoneZero) { 1nat } else { 0nat }) + (if m.dom().contains(
        GameId::WutheringWaves,
    ) {
        1nat
    } else {
        0nat
    })
}

/// The games a map holds, in the fixed game order.
pub open spec fn games_of<T>(m: Map<GameId, T>) -> Seq<GameId> {
    all_games().filter(|g: GameId| m.dom().contains(g))
}

/// A value per game, for some of the games.
#[derive(Debug, PartialEq)]
pub struct GameMap<T> {
    slots: Vec<Option<T>>,
}

impl<T> GameMap<T> {
    /// The map held.
    pub closed spec fn view(&self) -> Map<GameId, T> {
        map_of(self.slots@)
    }

    #[verifier::type_invariant]
    closed spec fn four_slots(self) -> bool {
        self.slots@.len() == 4
    }

    /// An empty map.
    pub fn new() -> (m: Self)
        ensures
            m.view() == Map::<GameId, T>::empty(),
    {
        let m = GameMap { slots: vec![None, None, None, None] };
        assert(m.view() =~= Map::<GameId, T>::empty());
        m
    }

    /// Sets the value of a game, replacing any value it had.
    pub fn insert(&mut self, game_id: GameId, value: T)
        ensures
            final(self).view() == old(self).view().insert(game_id, value),
    {
        proof {
            use_type_invariant(&*self);
        }
        let i = slot_index(game_id);
        let ghost before = self.view();
        let mut slots = vec![None, None, None, None];
        std::mem::swap(&mut slots, &mut self.slots);
        slots.set(i, Some(value));
        *self = GameMap { slots };
        assert(self.view() =~= before.insert(game_id, value));
    }

    /// Removes a game's value, returning it.
    pub fn remove(&mut self, game_id: GameId) -> (r: Option<T>)
        ensures
            final(self).view() == old(self).view().remove(game_id),
            r == (if old(self).view().dom().contains(game_id) {
                Some(old(self).view()[game_id])
            } else {
                None
            }),
    {
        proof {
            use_type_invariant(&*self);
        }
        let i = slot_index(game_id);
        let ghost before = self.view();
        let mut slots = vec![None, None, None, None];
        std::mem::swap(&mut slots, &mut self.slots);
        let old_value = slots.remove(i);
        slots.insert(i, None);
        *self = GameMap { slots };
        assert(self.view() =~= before.remove(game_id));
        old_value
    }

    /// The value of a game, if any.
    pub fn get(&self, game_id: GameId) -> (r: Option<&T>)
        ensures
            r == (if self.view().dom().contains(game_id) {
                Some(&self.view()[game_id])
            } else {
                None
            }),
    {
        proof {
            use_type_invariant(self);
        }
        match &self.slots[slot_index(game_id)] {
            Some(v) => Some(v),
            None => None,
        }
    }

    /// Whether a game has a value.
    pub fn contains(&self, game_id: GameId) -> (b: bool)
        ensures
            b == self.view().dom().contains(game_id),
    {
        proof {
            use_type_invariant(self);
        }
        self.slots[slot_index(game_id)].is_some()
    }

    /// The number of games with a value.
    pub fn len(&self) -> (n: usize)
        ensures
            n == count_of(self.view()),
    {
        proof {
            use_type_invariant(self);
        }
        let mut n: usize = 0;
        if self.slots[0].is_some() {
            n += 1;
        }
        if self.slots[1].is_some() {
            n += 1;
        }
        if self.slots[2].is_some() {
            n += 1;
        }
        if self.slots[3].is_some() {
            n += 1;
        }
        assert(self.view().dom().contains(GameId::GenshinImpact) == (self.slots@[0] is Some));
        assert(self.view().dom().contains(GameId::HonkaiStarRail) == (self.slots@[1] is Some));
        assert(self.view().dom().contains(GameId::ZenlessZoneZero) == (self.slots@[2] is Some));
        assert(self.view().dom().contains(GameId::WutheringWaves) == (self.slots@[3] is Some));
        n
    }

    /// Whether no game has a value.
    pub fn is_empty(&self) -> (b: bool)
        ensures
            b == (count_of(self.view()) == 0),
    {
        self.len() == 0
    }

    /// The games with a value, in the fixed game order.
    pub fn games(&self) -> (v: Vec<GameId>)
        ensures
            v@ == games_of(self.view()),
    {
        proof {
            use_type_invariant(self);
        }
        let mut v: Vec<GameId> = Vec::new();
        if self.slots[0].is_some() {
            v.push(GameId::GenshinImpact);
        }
        if self.slots[1].is_some() {
            v.push(GameId::HonkaiStarRail);
        }
        if self.slots[2].is_some() {
            v.push(GameId::ZenlessZoneZero);
        }
        if self.slots[3].is_some() {
            v.push(GameId::WutheringWaves);
        }
        proof {
            let m = self.view();
            assert(m.dom().contains(GameId::GenshinImpact) == (self.slots@[0] is Some));
            assert(m.dom().contains(GameId::HonkaiStarRail) == (self.slots@[1] is Some));
            assert(m.dom().contains(GameId::ZenlessZoneZero) == (self.slots@[2] is Some));
            assert(m.dom().contains(GameId::WutheringWaves) == (self.slots@[3] is Some));
            reveal_with_fuel(Seq::filter, 5);
            let s = all_games();
            assert(s.drop_last() =~= seq![GameId::GenshinImpact, GameId::HonkaiStarRail, GameId::ZenlessZoneZero]);
            assert(s.drop_last().drop_last() =~= seq![GameId::GenshinImpact, GameId::HonkaiStarRail]);
            assert(s.drop_last().drop_last().drop_last() =~= seq![GameId::GenshinImpact]);
            assert(s.drop_last().drop_last().drop_last().drop_last() =~= Seq::<GameId>::empty());
            assert(v@ =~= games_of(m));
        }
        v
    }
}

impl<T> Default for GameMap<T> {
    fn default() -> (m: Self)
        ensures
            m.view() == Map::<GameId, T>::empty(),
    {
        GameMap::new()
    }
}


/// Registering a value for a game makes a read of that game give it back,
/// and adds one game to the count unless the game was already present
/// (whose value it replaces).
pub proof fn lemma_insert_replaces<T>(m: Map<GameId, T>, g: GameId, v: T)
    ensures
        m.insert(g, v).dom().contains(g),
        m.insert(g, v)[g] == v,
        count_of(m.insert(g, v)) == count_of(m) + (if m.dom().contains(g) { 0int } else { 1int }),
{
    let n = m.insert(g, v);
    assert(n.dom().contains(GameId::GenshinImpact) == (m.dom().contains(GameId::GenshinImpact) || g == GameId::GenshinImpact));
    assert(n.dom().contains(GameId::HonkaiStarRail) == (m.dom().contains(GameId::HonkaiStarRail) || g == GameId::HonkaiStarRail));
    assert(n.dom().contains(GameId::ZenlessZoneZero) == (m.dom().contains(GameId::ZenlessZoneZero) || g == GameId::ZenlessZoneZero));
    assert(n.dom().contains(GameId::WutheringWaves) == (m.dom().contains(GameId::WutheringWaves) || g == GameId::WutheringWaves));
}

} // verus!
