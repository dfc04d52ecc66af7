//! Which game clients the configuration asks for: for each enabled game
//! with credentials and a known region, the account, region and
//! credentials its client is built from.

use vstd::prelude::*;
use vstd::utf8::encode_utf8;
use crate::i18n::opt_chars;
use crate::config::{AppConfig, SecretsConfig};
use crate::game_id::GameId;
use crate::region::{genshin_region_of, hsr_region_of, wuwa_region_of, zzz_region_of, Region};

verus! {

/// The credentials a client is built with.
#[derive(Debug, Clone)]
pub enum ClientCredentials {
    /// HoYoLab cookies.
    Hoyolab {
        /// The `ltuid_v2` cookie.
        ltuid: String,
        /// The `ltoken_v2` cookie.
        ltoken: String,
    },
    /// A Kuro OAuth code.
    Kuro {
        /// The OAuth code.
        oauth_code: String,
    },
}

/// What a game client is built from.
#[derive(Debug, Clone)]
pub struct ClientPlan {
    /// The game.
    pub game_id: GameId,
    /// The player's UID (or Wuthering Waves player ID).
    pub account_id: String,
    /// The server region.
    pub region: Region,
    /// The credentials.
    pub credentials: ClientCredentials,
}

/// A plan as plain values: game, account, region and the two credential
/// texts (the OAuth code and nothing for Kuro).
pub type PlanView = (GameId, Seq<char>, Region, Seq<char>, Seq<char>);

/// The plan as plain values.
pub open spec fn plan_view(p: ClientPlan) -> PlanView {
    match p.credentials {
        ClientCredentials::Hoyolab { ltuid, ltoken } => (p.game_id, p.account_id@, p.region, ltuid@, ltoken@),
        ClientCredentials::Kuro { oauth_code } => (p.game_id, p.account_id@, p.region, oauth_code@, Seq::empty()),
    }
}

/// The configured region, or the one the UID names.
pub open spec fn region_choice(configured: Option<Region>, detected: Option<Region>) -> Option<Region> {
    match configured {
        Some(r) => Some(r),
        None => detected,
    }
}

/// Whether both HoYoLab cookies are set.
pub open spec fn hoyolab_ready(secrets: SecretsConfig) -> bool {
    secrets.hoyolab.ltuid_v2@.len() > 0 && secrets.hoyolab.ltoken_v2@.len() > 0
}

/// The Kuro OAuth code used: the override when set, otherwise the one the
/// launcher cache holds.
pub open spec fn oauth_choice(secrets: SecretsConfig, cached: Option<Seq<char>>) -> Option<Seq<char>> {
    if secrets.kuro.oauth_code@.len() > 0 {
        Some(secrets.kuro.oauth_code@)
    } else {
        cached
    }
}

/// The plan for a HoYoLab game, when one is made.
pub open spec fn hoyolab_plan(
    secrets: SecretsConfig,
    game_id: GameId,
    present: bool,
    enabled: bool,
    uid: Seq<char>,
    region: Option<Region>,
) -> Option<PlanView> {
    if hoyolab_ready(secrets) && present && enabled && region is Some {
        Some((game_id, uid, region->0, secrets.hoyolab.ltuid_v2@, secrets.hoyolab.ltoken_v2@))
    } else {
        None
    }
}

/// The plans the configuration asks for, in the fixed game order.
pub open spec fn planned(config: AppConfig, secrets: SecretsConfig, cached: Option<Seq<char>>) -> Seq<PlanView> {
    let g = config.games;
    let genshin = match g.genshin_impact {
        Some(c) => hoyolab_plan(
            secrets,
            GameId::GenshinImpact,
            true,
            c.enabled,
            c.uid@,
            region_choice(c.region, genshin_region_of(encode_utf8(c.uid@))),
        ),
        None => None,
    };
    let hsr = match g.honkai_star_rail {
        Some(c) => hoyolab_plan(
            secrets,
            GameId::HonkaiStarRail,
            true,
            c.enabled,
            c.uid@,
            region_choice(c.region, hsr_region_of(encode_utf8(c.uid@))),
        ),
        None => None,
    };
    let zzz = match g.zenless_zone_zero {
        Some(c) => hoyolab_plan(
            secrets,
            GameId::ZenlessZoneZero,
            true,
            c.enabled,
            c.uid@,
            region_choice(c.region, zzz_region_of(encode_utf8(c.uid@))),
        ),
        None => None,
    };
    let wuwa = match g.wuthering_waves {
        Some(c) => {
            let region = region_choice(c.region, wuwa_region_of(encode_utf8(c.player_id@)));
            match oauth_choice(secrets, cached) {
                Some(code) => if c.enabled && region is Some {
                    Some((GameId::WutheringWaves, c.player_id@, region->0, code, Seq::empty()))
                } else {
                    None
                },
                None => None,
            }
        },
        None => None,
    };
    opt_seq(genshin) + opt_seq(hsr) + opt_seq(zzz) + opt_seq(wuwa)
}

/// An optional plan as a sequence of zero or one plans.
pub open spec fn opt_seq(p: Option<PlanView>) -> Seq<PlanView> {
    match p {
        Some(v) => seq![v],
        None => Seq::empty(),
    }
}

/// Whether the launcher cache must be read for an OAuth code: Wuthering
/// Waves is enabled and no override is set.
pub fn needs_cached_oauth(config: &AppConfig, secrets: &SecretsConfig) -> (b: bool)
    ensures
        b == (config.games.wuthering_waves matches Some(c) && c.enabled && secrets.kuro.oauth_code@.len()
            == 0),
{
    match &config.games.wuthering_waves {
        Some(c) => c.enabled && !secrets.kuro.has_override(),
        None => false,
    }
}

fn push_hoyolab_plan(
    plans: &mut Vec<ClientPlan>,
    secrets: &SecretsConfig,
    game_id: GameId,
    uid: &String,
    region: Option<Region>,
)
    requires
        hoyolab_ready(*secrets),
    ensures
        final(plans)@.len() == old(plans)@.len() + (if region is Some { 1int } else { 0int }),
        forall|i: int| 0 <= i < old(plans)@.len() ==> #[trigger] final(plans)@[i] == old(plans)@[i],
        region is Some ==> plan_view(final(plans)@[old(plans)@.len() as int]) == (game_id, uid@, region->0, secrets.hoyolab.ltuid_v2@, secrets.hoyolab.ltoken_v2@),
{
    if let Some(r) = region {
        plans.push(
            ClientPlan {
                game_id,
                account_id: uid.clone(),
                region: r,
                credentials: ClientCredentials::Hoyolab {
                    ltuid: secrets.hoyolab.ltuid().to_owned(),
                    ltoken: secrets.hoyolab.ltoken().to_owned(),
                },
            },
        );
    }
}

/// The clients to build from the configuration and secrets; `cached_oauth`
/// is the OAuth code found in the Kuro launcher cache, if it was read.
pub fn plan_game_clients(config: &AppConfig, secrets: &SecretsConfig, cached_oauth: Option<&str>) -> (plans: Vec<ClientPlan>)
    ensures
        plans@.len() == planned(*config, *secrets, opt_chars(cached_oauth)).len(),
        forall|i: int| 0 <= i < plans@.len() ==> plan_view(#[trigger] plans@[i]) == planned(
            *config,
            *secrets,
            opt_chars(cached_oauth),
        )[i],
{
    let mut plans: Vec<ClientPlan> = Vec::new();
    let ghost cached = opt_chars(cached_oauth);
    let ghost g = config.games;
    let ghost genshin_p = match g.genshin_impact {
        Some(c) => hoyolab_plan(*secrets, GameId::GenshinImpact, true, c.enabled, c.uid@,
            region_choice(c.region, genshin_region_of(encode_utf8(c.uid@)))),
        None => None,
    };
    let ghost hsr_p = match g.honkai_star_rail {
        Some(c) => hoyolab_plan(*secrets, GameId::HonkaiStarRail, true, c.enabled, c.uid@,
            region_choice(c.region, hsr_region_of(encode_utf8(c.uid@)))),
        None => None,
    };
    let ghost zzz_p = match g.zenless_zone_zero {
        Some(c) => hoyolab_plan(*secrets, GameId::ZenlessZoneZero, true, c.enabled, c.uid@,
            region_choice(c.region, zzz_region_of(encode_utf8(c.uid@)))),
        None => None,
    };
    let ready = secrets.hoyolab.is_configured();
    if ready {
        if let Some(c) = &config.games.genshin_impact {
            if c.enabled {
                let region = match c.region {
                    Some(r) => Some(r),
                    None => Region::from_genshin_uid(c.uid.as_str()).ok(),
                };
                push_hoyolab_plan(&mut plans, secrets, GameId::GenshinImpact, &c.uid, region);
            }
        }
    }
    assert(plans@.len() == opt_seq(genshin_p).len());
    assert(forall|i: int| 0 <= i < plans@.len() ==> plan_view(#[trigger] plans@[i]) == opt_seq(genshin_p)[i]);
    let ghost after1 = plans@;
    if ready {
        if let Some(c) = &config.games.honkai_star_rail {
            if c.enabled {
                let region = match c.region {
                    Some(r) => Some(r),
                    None => Region::from_hsr_uid(c.uid.as_str()).ok(),
                };
                push_hoyolab_plan(&mut plans, secrets, GameId::HonkaiStarRail, &c.uid, region);
            }
        }
    }
    let ghost s2 = opt_seq(genshin_p) + opt_seq(hsr_p);
    assert(plans@.len() == s2.len());
    assert(forall|i: int| 0 <= i < plans@.len() ==> plan_view(#[trigger] plans@[i]) == s2[i]) by {
        assert forall|i: int| 0 <= i < plans@.len() implies plan_view(#[trigger] plans@[i]) == s2[i] by {
            if i < after1.len() {
                assert(plans@[i] == after1[i]);
            }
        }
    }
    let ghost after2 = plans@;
    if ready {
        if let Some(c) = &config.games.zenless_zone_zero {
            if c.enabled {
                let region = match c.region {
                    Some(r) => Some(r),
                    None => Region::from_zzz_uid(c.uid.as_str()).ok(),
                };
                push_hoyolab_plan(&mut plans, secrets, GameId::ZenlessZoneZero, &c.uid, region);
            }
        }
    }
    let ghost s3 = s2 + opt_seq(zzz_p);
    assert(plans@.len() == s3.len());
    assert(forall|i: int| 0 <= i < plans@.len() ==> plan_view(#[trigger] plans@[i]) == s3[i]) by {
        assert forall|i: int| 0 <= i < plans@.len() implies plan_view(#[trigger] plans@[i]) == s3[i] by {
            if i < after2.len() {
                assert(plans@[i] == after2[i]);
            }
        }
    }
    let ghost after3 = plans@;
    if let Some(c) = &config.games.wuthering_waves {
        if c.enabled {
            let code: Option<&str> = match secrets.kuro.oauth_code_override() {
                Some(o) => Some(o),
                None => cached_oauth,
            };
            if let Some(code) = code {
                let region = match c.region {
                    Some(r) => Some(r),
                    None => Region::from_wuwa_uid(c.player_id.as_str()).ok(),
                };
                if let Some(r) = region {
                    plans.push(
                        ClientPlan {
                            game_id: GameId::WutheringWaves,
                            account_id: c.player_id.clone(),
                            region: r,
                            credentials: ClientCredentials::Kuro { oauth_code: code.to_owned() },
                        },
                    );
                }
            }
        }
    }
    assert(forall|i: int| 0 <= i < plans@.len() ==> plan_view(#[trigger] plans@[i]) == planned(*config, *secrets, cached)[i]) by {
        assert forall|i: int| 0 <= i < plans@.len() implies plan_view(#[trigger] plans@[i]) == planned(*config, *secrets, cached)[i] by {
            if i < after3.len() {
                assert(plans@[i] == after3[i]);
            }
        }
    }
    plans
}

/// The games whose daily rewards are claimed with the HoYoLab cookies: the
/// enabled HoYoLab games, when the cookies are set.
pub open spec fn daily_reward_games_of(config: AppConfig, secrets: SecretsConfig) -> Seq<GameId> {
    if !hoyolab_ready(secrets) {
        Seq::empty()
    } else {
        (if config.games.genshin_impact matches Some(c) && c.enabled {
            seq![GameId::GenshinImpact]
        } else {
            Seq::empty()
        }) + (if config.games.honkai_star_rail matches Some(c) && c.enabled {
            seq![GameId::HonkaiStarRail]
        } else {
            Seq::empty()
        }) + (if config.games.zenless_zone_zero matches Some(c) && c.enabled {
            seq![GameId::ZenlessZoneZero]
        } else {
            Seq::empty()
        })
    }
}

/// The games that get a daily reward client.
pub fn daily_reward_games(config: &AppConfig, secrets: &SecretsConfig) -> (v: Vec<GameId>)
    ensures
        v@ == daily_reward_games_of(*config, *secrets),
{
    let mut v: Vec<GameId> = Vec::new();
    if !secrets.hoyolab.is_configured() {
        return v;
    }
    if config.games.is_enabled(GameId::GenshinImpact) {
        v.push(GameId::GenshinImpact);
    }
    if config.games.is_enabled(GameId::HonkaiStarRail) {
        v.push(GameId::HonkaiStarRail);
    }
    if config.games.is_enabled(GameId::ZenlessZoneZero) {
        v.push(GameId::ZenlessZoneZero);
    }
    assert(v@ =~= daily_reward_games_of(*config, *secrets));
    v
}

/// An enabled Genshin Impact with a configured region gets exactly one client once
/// the HoYoLab cookies are set: for its UID, on the configured region
/// (whatever region the UID names), with the cookies.
pub proof fn lemma_genshin_configured_region_wins(config: AppConfig, secrets: SecretsConfig, cached: Option<Seq<char>>)
    ensures
        ({
            let o = config.games.genshin_impact;
            hoyolab_ready(secrets) && o is Some && o->0.enabled && o->0.region is Some
        }) ==> ({
            let c = config.games.genshin_impact->0;
            let want = (GameId::GenshinImpact, c.uid@, c.region->0, secrets.hoyolab.ltuid_v2@, secrets.hoyolab.ltoken_v2@);
            let ps = planned(config, secrets, cached);
            &&& ps.contains(want)
            &&& forall|i: int| 0 <= i < ps.len() && (#[trigger] ps[i]).0 == GameId::GenshinImpact ==> ps[i] == want
        }),
{
    let ps = planned(config, secrets, cached);
    let o = config.games.genshin_impact;
    if hoyolab_ready(secrets) && o is Some && o->0.enabled && o->0.region is Some {
        let g = config.games;
        let s1 = Seq::<PlanView>::empty();
        let k = s1.len() as int;
        assert(ps[k].0 == GameId::GenshinImpact);
        assert forall|i: int| 0 <= i < ps.len() && (#[trigger] ps[i]).0 == GameId::GenshinImpact implies i == k by {}
    }
}

/// An enabled Honkai: Star Rail with a configured region gets exactly one client once
/// the HoYoLab cookies are set: for its UID, on the configured region
/// (whatever region the UID names), with the cookies.
pub proof fn lemma_hsr_configured_region_wins(config: AppConfig, secrets: SecretsConfig, cached: Option<Seq<char>>)
    ensures
        ({
            let o = config.games.honkai_star_rail;
            hoyolab_ready(secrets) && o is Some && o->0.enabled && o->0.region is Some
        }) ==> ({
            let c = config.games.honkai_star_rail->0;
            let want = (GameId::HonkaiStarRail, c.uid@, c.region->0, secrets.hoyolab.ltuid_v2@, secrets.hoyolab.ltoken_v2@);
            let ps = planned(config, secrets, cached);
            &&& ps.contains(want)
            &&& forall|i: int| 0 <= i < ps.len() && (#[trigger] ps[i]).0 == GameId::HonkaiStarRail ==> ps[i] == want
        }),
{
    let ps = planned(config, secrets, cached);
    let o = config.games.honkai_star_rail;
    if hoyolab_ready(secrets) && o is Some && o->0.enabled && o->0.region is Some {
        let g = config.games;
        let s1 = opt_seq(match g.genshin_impact {
            Some(c) => hoyolab_plan(secrets, GameId::GenshinImpact, true, c.enabled, c.uid@,
                region_choice(c.region, genshin_region_of(encode_utf8(c.uid@)))),
            None => None,
        });
        let k = s1.len() as int;
        assert(ps[k].0 == GameId::HonkaiStarRail);
        assert forall|i: int| 0 <= i < ps.len() && (#[trigger] ps[i]).0 == GameId::HonkaiStarRail implies i == k by {}
    }
}

/// An enabled Zenless Zone Zero with a configured region gets exactly one client once
/// the HoYoLab cookies are set: for its UID, on the configured region
/// (whatever region the UID names), with the cookies.
pub proof fn lemma_zzz_configured_region_wins(config: AppConfig, secrets: SecretsConfig, cached: Option<Seq<char>>)
    ensures
        ({
            let o = config.games.zenless_zone_zero;
            hoyolab_ready(secrets) && o is Some && o->0.enabled && o->0.region is Some
        }) ==> ({
            let c = config.games.zenless_zone_zero->0;
            let want = (GameId::ZenlessZoneZero, c.uid@, c.region->0, secrets.hoyolab.ltuid_v2@, secrets.hoyolab.ltoken_v2@);
            let ps = planned(config, secrets, cached);
            &&& ps.contains(want)
            &&& forall|i: int| 0 <= i < ps.len() && (#[trigger] ps[i]).0 == GameId::ZenlessZoneZero ==> ps[i] == want
        }),
{
    let ps = planned(config, secrets, cached);
    let o = config.games.zenless_zone_zero;
    if hoyolab_ready(secrets) && o is Some && o->0.enabled && o->0.region is Some {
        let g = config.games;
        let s1 = opt_seq(match g.genshin_impact {
            Some(c) => hoyolab_plan(secrets, GameId::GenshinImpact, true, c.enabled, c.uid@,
                region_choice(c.region, genshin_region_of(encode_utf8(c.uid@)))),
            None => None,
        }) + opt_seq(match g.honkai_star_rail {
            Some(c) => hoyolab_plan(secrets, GameId::HonkaiStarRail, true, c.enabled, c.uid@,
                region_choice(c.region, hsr_region_of(encode_utf8(c.uid@)))),
            None => None,
        });
        let k = s1.len() as int;
        assert(ps[k].0 == GameId::ZenlessZoneZero);
        assert forall|i: int| 0 <= i < ps.len() && (#[trigger] ps[i]).0 == GameId::ZenlessZoneZero implies i == k by {}
    }
}

/// With the HoYoLab cookies set, each HoYoLab game gets a daily reward
/// client exactly when it is configured and enabled; without them, none
/// does; Wuthering Waves never does.
pub proof fn lemma_daily_reward_games_are_the_enabled_hoyolab_games(config: AppConfig, secrets: SecretsConfig)
    ensures
        (hoyolab_ready(secrets) && config.games.genshin_impact is Some && config.games.genshin_impact->0.enabled)
            <==> daily_reward_games_of(config, secrets).contains(GameId::GenshinImpact),
        (hoyolab_ready(secrets) && config.games.honkai_star_rail is Some
            && config.games.honkai_star_rail->0.enabled)
            <==> daily_reward_games_of(config, secrets).contains(GameId::HonkaiStarRail),
        (hoyolab_ready(secrets) && config.games.zenless_zone_zero is Some
            && config.games.zenless_zone_zero->0.enabled)
            <==> daily_reward_games_of(config, secrets).contains(GameId::ZenlessZoneZero),
        !daily_reward_games_of(config, secrets).contains(GameId::WutheringWaves),
        daily_reward_games_of(config, secrets).no_duplicates(),
{
    let d = daily_reward_games_of(config, secrets);
    let gs: Seq<GameId> = if config.games.genshin_impact matches Some(c) && c.enabled {
        seq![GameId::GenshinImpact]
    } else {
        Seq::empty()
    };
    let hs: Seq<GameId> = if config.games.honkai_star_rail matches Some(c) && c.enabled {
        seq![GameId::HonkaiStarRail]
    } else {
        Seq::empty()
    };
    let zs: Seq<GameId> = if config.games.zenless_zone_zero matches Some(c) && c.enabled {
        seq![GameId::ZenlessZoneZero]
    } else {
        Seq::empty()
    };
    if hoyolab_ready(secrets) {
        assert(d == gs + hs + zs);
        assert forall|x: GameId| d.contains(x) <==> (gs.contains(x) || hs.contains(x) || zs.contains(x)) by {
            if d.contains(x) {
                let i = choose|i: int| 0 <= i < d.len() && d[i] == x;
                if i < gs.len() {
                    assert(gs[i] == x);
                } else if i < gs.len() + hs.len() {
                    assert(hs[i - gs.len()] == x);
                } else {
                    assert(zs[i - gs.len() - hs.len()] == x);
                }
            }
            if gs.contains(x) {
                assert(d[0] == x);
            }
            if hs.contains(x) {
                assert(d[gs.len() as int] == x);
            }
            if zs.contains(x) {
                assert(d[(gs.len() + hs.len()) as int] == x);
            }
        }
        assert(gs.len() > 0 ==> gs[0] == GameId::GenshinImpact);
        assert(hs.len() > 0 ==> hs[0] == GameId::HonkaiStarRail);
        assert(zs.len() > 0 ==> zs[0] == GameId::ZenlessZoneZero);
        assert forall|x: GameId| gs.contains(x) ==> x == GameId::GenshinImpact by {
            if gs.contains(x) { let i = choose|i: int| 0 <= i < gs.len() && gs[i] == x; }
        }
        assert forall|x: GameId| hs.contains(x) ==> x == GameId::HonkaiStarRail by {
            if hs.contains(x) { let i = choose|i: int| 0 <= i < hs.len() && hs[i] == x; }
        }
        assert forall|x: GameId| zs.contains(x) ==> x == GameId::ZenlessZoneZero by {
            if zs.contains(x) { let i = choose|i: int| 0 <= i < zs.len() && zs[i] == x; }
        }
    } else {
        assert(d =~= Seq::<GameId>::empty());
    }
}


/// An enabled Wuthering Waves with a configured region gets exactly one
/// client once an OAuth code is at hand (the override, else the cached
/// one): for its player ID, on the configured region (whatever region the
/// ID names), with that code.
pub proof fn lemma_wuwa_configured_region_wins(config: AppConfig, secrets: SecretsConfig, cached: Option<Seq<char>>)
    ensures
        ({
            let o = config.games.wuthering_waves;
            oauth_choice(secrets, cached) is Some && o is Some && o->0.enabled && o->0.region is Some
        }) ==> ({
            let c = config.games.wuthering_waves->0;
            let want = (GameId::WutheringWaves, c.player_id@, c.region->0, oauth_choice(secrets, cached)->0,
                Seq::<char>::empty());
            let ps = planned(config, secrets, cached);
            &&& ps.contains(want)
            &&& forall|i: int| 0 <= i < ps.len() && (#[trigger] ps[i]).0 == GameId::WutheringWaves ==> ps[i] == want
        }),
{
    let ps = planned(config, secrets, cached);
    let o = config.games.wuthering_waves;
    if oauth_choice(secrets, cached) is Some && o is Some && o->0.enabled && o->0.region is Some {
        let k = ps.len() - 1;
        assert(ps[k].0 == GameId::WutheringWaves);
        assert forall|i: int| 0 <= i < ps.len() && (#[trigger] ps[i]).0 == GameId::WutheringWaves implies i == k by {}
    }
}

} // verus!
