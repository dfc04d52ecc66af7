//! Game identifiers and the API provider each game is served by.

use vstd::prelude::*;

verus! {

/// API provider for a game. Games behind one provider are fetched one after
/// another so the provider's rate limit is respected.
#[derive(Debug, Clone, Copy, PartialEq, Eq, Structural, Hash)]
pub enum ApiProvider {
    /// HoYoLab API (miHoYo/HoYoverse games).
    HoYoLab,
    /// Kuro Games API.
    Kuro,
}

/// Unique identifier for each supported game.
#[derive(Debug, Clone, Copy, PartialEq, Eq, Structural, Hash)]
pub enum GameId {
    /// Genshin Impact.
    GenshinImpact,
    /// Honkai: Star Rail.
    HonkaiStarRail,
    /// Zenless Zone Zero.
    ZenlessZoneZero,
    /// Wuthering Waves.
    WutheringWaves,
}

/// The provider that serves a game.
pub open spec fn provider_of(g: GameId) -> ApiProvider {
    match g {
        GameId::WutheringWaves => ApiProvider::Kuro,
        _ => ApiProvider::HoYoLab,
    }
}

/// The serialized identifier of a game.
pub open spec fn game_str(g: GameId) -> Seq<char> {
    match g {
        GameId::GenshinImpact => "GENSHIN_IMPACT"@,
        GameId::HonkaiStarRail => "HONKAI_STAR_RAIL"@,
        GameId::ZenlessZoneZero => "ZENLESS_ZONE_ZERO"@,
        GameId::WutheringWaves => "WUTHERING_WAVES"@,
    }
}

/// The human-readable name of a game.
pub open spec fn game_display(g: GameId) -> Seq<char> {
    match g {
        GameId::GenshinImpact => "Genshin Impact"@,
        GameId::HonkaiStarRail => "Honkai: Star Rail"@,
        GameId::ZenlessZoneZero => "Zenless Zone Zero"@,
        GameId::WutheringWaves => "Wuthering Waves"@,
    }
}

/// The short identifier of a game, used in message keys.
pub open spec fn game_short_id(g: GameId) -> Seq<char> {
    match g {
        GameId::GenshinImpact => "genshin"@,
        GameId::HonkaiStarRail => "hsr"@,
        GameId::ZenlessZoneZero => "zzz"@,
        GameId::WutheringWaves => "wuwa"@,
    }
}

/// Every game, in the fixed order used throughout the application.
pub open spec fn all_games() -> Seq<GameId> {
    seq![
        GameId::GenshinImpact,
        GameId::HonkaiStarRail,
        GameId::ZenlessZoneZero,
        GameId::WutheringWaves,
    ]
}

impl GameId {
    /// Returns the API provider for this game.
    pub fn api_provider(&self) -> (p: ApiProvider)
        ensures
            p == provider_of(*self),
    {
        match self {
            GameId::GenshinImpact | GameId::HonkaiStarRail | GameId::ZenlessZoneZero => {
                ApiProvider::HoYoLab
            },
            GameId::WutheringWaves => ApiProvider::Kuro,
        }
    }

    /// Returns the string identifier for this game (its serialized form).
    pub fn as_str(&self) -> (s: &'static str)
        ensures
            s@ == game_str(*self),
    {
        match self {
            GameId::GenshinImpact => "GENSHIN_IMPACT",
            GameId::HonkaiStarRail => "HONKAI_STAR_RAIL",
            GameId::ZenlessZoneZero => "ZENLESS_ZONE_ZERO",
            GameId::WutheringWaves => "WUTHERING_WAVES",
        }
    }

    /// Returns the human-readable display name for this game.
    pub fn display_name(&self) -> (s: &'static str)
        ensures
            s@ == game_display(*self),
    {
        match self {
            GameId::GenshinImpact => "Genshin Impact",
            GameId::HonkaiStarRail => "Honkai: Star Rail",
            GameId::ZenlessZoneZero => "Zenless Zone Zero",
            GameId::WutheringWaves => "Wuthering Waves",
        }
    }

    /// Returns the short identifier of this game, as message keys use it.
    pub fn short_id(&self) -> (s: &'static str)
        ensures
            s@ == game_short_id(*self),
    {
        match self {
            GameId::GenshinImpact => "genshin",
            GameId::HonkaiStarRail => "hsr",
            GameId::ZenlessZoneZero => "zzz",
            GameId::WutheringWaves => "wuwa",
        }
    }

    /// Returns all game IDs in a fixed order.
    pub fn all() -> (v: Vec<GameId>)
        ensures
            v@ == all_games(),
    {
        vec![
            GameId::GenshinImpact,
            GameId::HonkaiStarRail,
            GameId::ZenlessZoneZero,
            GameId::WutheringWaves,
        ]
    }
}

/// Every game appears in `all_games` exactly once.
pub proof fn lemma_all_games_complete(g: GameId)
    ensures
        all_games().contains(g),
        all_games().len() == 4,
        forall|i: int, j: int| 0 <= i < j < 4 ==> all_games()[i] != all_games()[j],
{
    match g {
        GameId::GenshinImpact => assert(all_games()[0] == g),
        GameId::HonkaiStarRail => assert(all_games()[1] == g),
        GameId::ZenlessZoneZero => assert(all_games()[2] == g),
        GameId::WutheringWaves => assert(all_games()[3] == g),
    }
}

} // verus!
