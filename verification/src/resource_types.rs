//! Per-game resource type identifiers, used as configuration keys for
//! tracked resources and notification settings.

use vstd::prelude::*;
use crate::text::str_eq;

verus! {

/// Genshin Impact resource type identifiers.
#[derive(Debug, Clone, Copy, PartialEq, Eq, Structural, Hash)]
pub enum GenshinResourceType {
    /// Original Resin.
    Resin,
    /// Parametric Transformer cooldown.
    ParametricTransformer,
    /// Serenitea Pot Realm Currency.
    RealmCurrency,
    /// Expedition tracking.
    Expeditions,
}

/// Honkai: Star Rail resource type identifiers.
#[derive(Debug, Clone, Copy, PartialEq, Eq, Structural, Hash)]
pub enum HsrResourceType {
    /// Trailblaze Power.
    TrailblazePower,
}

/// Zenless Zone Zero resource type identifiers.
#[derive(Debug, Clone, Copy, PartialEq, Eq, Structural, Hash)]
pub enum ZzzResourceType {
    /// Battery charge.
    Battery,
}

/// Wuthering Waves resource type identifiers.
#[derive(Debug, Clone, Copy, PartialEq, Eq, Structural, Hash)]
pub enum WuwaResourceType {
    /// Waveplates.
    Waveplates,
}

/// The snake_case key of a Genshin resource type.
pub open spec fn genshin_key(r: GenshinResourceType) -> Seq<char> {
    match r {
        GenshinResourceType::Resin => "resin"@,
        GenshinResourceType::ParametricTransformer => "parametric_transformer"@,
        GenshinResourceType::RealmCurrency => "realm_currency"@,
        GenshinResourceType::Expeditions => "expeditions"@,
    }
}

/// The snake_case key of a Star Rail resource type.
pub open spec fn hsr_key(r: HsrResourceType) -> Seq<char> {
    "trailblaze_power"@
}

/// The snake_case key of a Zenless Zone Zero resource type.
pub open spec fn zzz_key(r: ZzzResourceType) -> Seq<char> {
    "battery"@
}

/// The snake_case key of a Wuthering Waves resource type.
pub open spec fn wuwa_key(r: WuwaResourceType) -> Seq<char> {
    "waveplates"@
}

/// Every Genshin resource type in declaration order.
pub open spec fn all_genshin() -> Seq<GenshinResourceType> {
    seq![
        GenshinResourceType::Resin,
        GenshinResourceType::ParametricTransformer,
        GenshinResourceType::RealmCurrency,
        GenshinResourceType::Expeditions,
    ]
}

impl GenshinResourceType {
    /// The snake_case key of this resource type.
    pub fn as_ref(&self) -> (s: &'static str)
        ensures
            s@ == genshin_key(*self),
    {
        match self {
            GenshinResourceType::Resin => "resin",
            GenshinResourceType::ParametricTransformer => "parametric_transformer",
            GenshinResourceType::RealmCurrency => "realm_currency",
            GenshinResourceType::Expeditions => "expeditions",
        }
    }

    /// Returns all variants.
    pub fn all() -> (v: Vec<Self>)
        ensures
            v@ == all_genshin(),
    {
        vec![
            GenshinResourceType::Resin,
            GenshinResourceType::ParametricTransformer,
            GenshinResourceType::RealmCurrency,
            GenshinResourceType::Expeditions,
        ]
    }

    /// The resource type a configuration key names, if any.
    pub fn from_key(key: &str) -> (r: Option<Self>)
        ensures
            r matches Some(t) ==> genshin_key(t) == key@,
            r is None ==> forall|t: GenshinResourceType| genshin_key(t) != key@,
    {
        if str_eq(key, "resin") {
            Some(GenshinResourceType::Resin)
        } else if str_eq(key, "parametric_transformer") {
            Some(GenshinResourceType::ParametricTransformer)
        } else if str_eq(key, "realm_currency") {
            Some(GenshinResourceType::RealmCurrency)
        } else if str_eq(key, "expeditions") {
            Some(GenshinResourceType::Expeditions)
        } else {
            None
        }
    }
}

impl HsrResourceType {
    /// The snake_case key of this resource type.
    pub fn as_ref(&self) -> (s: &'static str)
        ensures
            s@ == hsr_key(*self),
    {
        "trailblaze_power"
    }

    /// Returns all variants.
    pub fn all() -> (v: Vec<Self>)
        ensures
            v@ == seq![HsrResourceType::TrailblazePower],
    {
        vec![HsrResourceType::TrailblazePower]
    }

    /// The resource type a configuration key names, if any.
    pub fn from_key(key: &str) -> (r: Option<Self>)
        ensures
            r matches Some(t) ==> hsr_key(t) == key@,
            r is None ==> forall|t: HsrResourceType| hsr_key(t) != key@,
    {
        if str_eq(key, "trailblaze_power") {
            Some(HsrResourceType::TrailblazePower)
        } else {
            None
        }
    }
}

impl ZzzResourceType {
    /// The snake_case key of this resource type.
    pub fn as_ref(&self) -> (s: &'static str)
        ensures
            s@ == zzz_key(*self),
    {
        "battery"
    }

    /// Returns all variants.
    pub fn all() -> (v: Vec<Self>)
        ensures
            v@ == seq![ZzzResourceType::Battery],
    {
        vec![ZzzResourceType::Battery]
    }

    /// The resource type a configuration key names, if any.
    pub fn from_key(key: &str) -> (r: Option<Self>)
        ensures
            r matches Some(t) ==> zzz_key(t) == key@,
            r is None ==> forall|t: ZzzResourceType| zzz_key(t) != key@,
    {
        if str_eq(key, "battery") {
            Some(ZzzResourceType::Battery)
        } else {
            None
        }
    }
}

impl WuwaResourceType {
    /// The snake_case key of this resource type.
    pub fn as_ref(&self) -> (s: &'static str)
        ensures
            s@ == wuwa_key(*self),
    {
        "waveplates"
    }

    /// Returns all variants.
    pub fn all() -> (v: Vec<Self>)
        ensures
            v@ == seq![WuwaResourceType::Waveplates],
    {
        vec![WuwaResourceType::Waveplates]
    }

    /// The resource type a configuration key names, if any.
    pub fn from_key(key: &str) -> (r: Option<Self>)
        ensures
            r matches Some(t) ==> wuwa_key(t) == key@,
            r is None ==> forall|t: WuwaResourceType| wuwa_key(t) != key@,
    {
        if str_eq(key, "waveplates") {
            Some(WuwaResourceType::Waveplates)
        } else {
            None
        }
    }
}

/// What the configuration needs of a resource type: its key, and the type a
/// key names.
pub trait ResourceKind: Sized + Copy {
    /// The configuration key of this resource type.
    spec fn kind_key(self) -> Seq<char>;

    /// The configuration key of this resource type.
    fn key(&self) -> (s: &'static str)
        ensures
            s@ == self.kind_key(),
    ;

    /// The resource type a configuration key names, if any.
    fn parse_key(key: &str) -> (r: Option<Self>)
        ensures
            r matches Some(t) ==> t.kind_key() == key@,
            r is None ==> forall|t: Self| #[trigger] t.kind_key() != key@,
    ;
}

impl ResourceKind for GenshinResourceType {
    open spec fn kind_key(self) -> Seq<char> {
        genshin_key(self)
    }

    fn key(&self) -> (s: &'static str) {
        self.as_ref()
    }

    fn parse_key(key: &str) -> (r: Option<Self>) {
        Self::from_key(key)
    }
}

impl ResourceKind for HsrResourceType {
    open spec fn kind_key(self) -> Seq<char> {
        hsr_key(self)
    }

    fn key(&self) -> (s: &'static str) {
        self.as_ref()
    }

    fn parse_key(key: &str) -> (r: Option<Self>) {
        Self::from_key(key)
    }
}

impl ResourceKind for ZzzResourceType {
    open spec fn kind_key(self) -> Seq<char> {
        zzz_key(self)
    }

    fn key(&self) -> (s: &'static str) {
        self.as_ref()
    }

    fn parse_key(key: &str) -> (r: Option<Self>) {
        Self::from_key(key)
    }
}

impl ResourceKind for WuwaResourceType {
    open spec fn kind_key(self) -> Seq<char> {
        wuwa_key(self)
    }

    fn key(&self) -> (s: &'static str) {
        self.as_ref()
    }

    fn parse_key(key: &str) -> (r: Option<Self>) {
        Self::from_key(key)
    }
}


/// No two Genshin resource types share a key, so reading a type's own key
/// gives the type back.
pub proof fn lemma_genshin_keys_distinct(a: GenshinResourceType, b: GenshinResourceType)
    ensures
        a != b ==> genshin_key(a) != genshin_key(b),
{
    reveal_strlit("resin");
    reveal_strlit("parametric_transformer");
    reveal_strlit("realm_currency");
    reveal_strlit("expeditions");
    assert(genshin_key(GenshinResourceType::Resin).len() == 5);
    assert(genshin_key(GenshinResourceType::ParametricTransformer).len() == 22);
    assert(genshin_key(GenshinResourceType::RealmCurrency).len() == 14);
    assert(genshin_key(GenshinResourceType::Expeditions).len() == 11);
}

} // verus!
