//! Server regions and the per-game API server strings they map to.
//!
//! A UID's leading digits decide its region; each game then names that region
//! with its own server string, or has no server there.

use vstd::prelude::*;
use crate::error::Error;
use vstd::string::StringSliceAdditionalSpecFns;
use crate::game_id::GameId;

verus! {

/// Unified region enum for all games.
#[derive(Debug, Clone, Copy, PartialEq, Eq, Structural)]
pub enum Region {
    /// Chinese mainland servers.
    China,
    /// North/South American servers.
    America,
    /// European servers.
    Europe,
    /// Asian servers, which cover Japan for every game that runs one.
    Asia,
    /// Hong Kong, Macau, and Taiwan servers.
    ChinaHmt,
    /// Southeast Asian servers.
    Sea,
}

/// The serialized name of a region.
pub open spec fn region_str(r: Region) -> Seq<char> {
    match r {
        Region::China => "china"@,
        Region::America => "america"@,
        Region::Europe => "europe"@,
        Region::Asia => "asia"@,
        Region::ChinaHmt => "china_hmt"@,
        Region::Sea => "sea"@,
    }
}

/// Every region in declaration order.
pub open spec fn all_regions() -> Seq<Region> {
    seq![Region::China, Region::America, Region::Europe, Region::Asia, Region::ChinaHmt, Region::Sea]
}

/// Genshin Impact's server string for a region, if the game runs one there.
pub open spec fn genshin_server(r: Region) -> Option<Seq<char>> {
    match r {
        Region::China => Some("cn_gf01"@),
        Region::America => Some("os_usa"@),
        Region::Europe => Some("os_euro"@),
        Region::Asia => Some("os_asia"@),
        Region::ChinaHmt => Some("os_cht"@),
        Region::Sea => None,
    }
}

/// Honkai: Star Rail's server string for a region, if the game runs one there.
pub open spec fn hsr_server(r: Region) -> Option<Seq<char>> {
    match r {
        Region::China => Some("prod_gf_cn"@),
        Region::America => Some("prod_official_usa"@),
        Region::Europe => Some("prod_official_eur"@),
        Region::Asia => Some("prod_official_asia"@),
        Region::ChinaHmt => Some("prod_official_cht"@),
        Region::Sea => None,
    }
}

/// Zenless Zone Zero's server string for a region, if the game runs one there.
pub open spec fn zzz_server(r: Region) -> Option<Seq<char>> {
    match r {
        Region::China => Some("prod_gf_cn"@),
        Region::America => Some("prod_gf_us"@),
        Region::Europe => Some("prod_gf_eu"@),
        Region::Asia => Some("prod_gf_jp"@),
        Region::ChinaHmt => Some("prod_gf_sg"@),
        Region::Sea => None,
    }
}

/// Wuthering Waves' server string for a region, if the game runs one there.
pub open spec fn wuwa_server(r: Region) -> Option<Seq<char>> {
    match r {
        Region::America => Some("America"@),
        Region::Europe => Some("Europe"@),
        Region::Asia => Some("Asia"@),
        Region::ChinaHmt => Some("HMT"@),
        Region::Sea => Some("SEA"@),
        Region::China => None,
    }
}

/// The ASCII bytes of a digit string.
pub open spec fn digits(s: Seq<char>) -> Seq<u8> {
    s.map_values(|c: char| c as u8)
}

/// The bytes of a UID that precede its last eight bytes (the region prefix
/// of Genshin and Star Rail UIDs).
pub open spec fn uid_prefix(uid: Seq<u8>) -> Seq<u8> {
    if uid.len() >= 8 { uid.subrange(0, uid.len() - 8) } else { Seq::empty() }
}

/// Whether every byte of a UID is an ASCII digit (a UID is a digit string;
/// anything else is badly formatted).
pub open spec fn is_digit_uid(uid: Seq<u8>) -> bool {
    forall|i: int| 0 <= i < uid.len() ==> 48u8 <= #[trigger] uid[i] <= 57u8
}

/// The region a Genshin Impact UID names: none unless it is a digit string,
/// else the one its prefix names.
pub open spec fn genshin_region_of(uid: Seq<u8>) -> Option<Region> {
    if is_digit_uid(uid) { genshin_prefix_region(uid_prefix(uid)) } else { None }
}

/// The region a Honkai: Star Rail UID names: none unless it is a digit
/// string, else the one its prefix names.
pub open spec fn hsr_region_of(uid: Seq<u8>) -> Option<Region> {
    if is_digit_uid(uid) { hsr_prefix_region(uid_prefix(uid)) } else { None }
}

/// The region a Genshin Impact UID prefix names.
pub open spec fn genshin_prefix_region(prefix: Seq<u8>) -> Option<Region> {
    if prefix == seq![49u8] || prefix == seq![50u8] || prefix == seq![51u8] || prefix == seq![53u8] {
        Some(Region::China)
    } else if prefix == seq![54u8] {
        Some(Region::America)
    } else if prefix == seq![55u8] {
        Some(Region::Europe)
    } else if prefix == seq![56u8] || prefix == seq![49u8, 56u8] {
        Some(Region::Asia)
    } else if prefix == seq![57u8] {
        Some(Region::ChinaHmt)
    } else {
        None
    }
}

/// The region a Honkai: Star Rail UID prefix names.
pub open spec fn hsr_prefix_region(prefix: Seq<u8>) -> Option<Region> {
    if prefix == seq![49u8] || prefix == seq![50u8] || prefix == seq![53u8] {
        Some(Region::China)
    } else if prefix == seq![54u8] {
        Some(Region::America)
    } else if prefix == seq![55u8] {
        Some(Region::Europe)
    } else if prefix == seq![56u8] {
        Some(Region::Asia)
    } else if prefix == seq![57u8] {
        Some(Region::ChinaHmt)
    } else {
        None
    }
}

/// The region a Zenless Zone Zero UID names: none unless it is a digit
/// string; eight digits are Chinese servers, ten digits are global servers
/// told apart by their first two.
pub open spec fn zzz_region_of(uid: Seq<u8>) -> Option<Region> {
    if !is_digit_uid(uid) {
        None
    } else if uid.len() == 8 {
        Some(Region::China)
    } else if uid.len() == 10 {
        let p = uid.subrange(0, 2);
        if p == seq![49u8, 48u8] {
            Some(Region::America)
        } else if p == seq![49u8, 51u8] {
            Some(Region::Asia)
        } else if p == seq![49u8, 53u8] {
            Some(Region::Europe)
        } else if p == seq![49u8, 55u8] {
            Some(Region::ChinaHmt)
        } else {
            None
        }
    } else {
        None
    }
}

/// The region a Wuthering Waves UID names: none unless it is a digit string,
/// else the one its first digit names.
pub open spec fn wuwa_region_of(uid: Seq<u8>) -> Option<Region> {
    if uid.len() == 0 || !is_digit_uid(uid) {
        None
    } else if uid[0] == 53u8 {
        Some(Region::America)
    } else if uid[0] == 54u8 {
        Some(Region::Europe)
    } else if uid[0] == 55u8 {
        Some(Region::Asia)
    } else if uid[0] == 56u8 {
        Some(Region::ChinaHmt)
    } else if uid[0] == 57u8 {
        Some(Region::Sea)
    } else {
        None
    }
}

/// The result of a region lookup for a game: the server string, or the error
/// that names the game and the region.
pub open spec fn lookup_result(
    r: Result<&'static str, Error>,
    server: Option<Seq<char>>,
    game: GameId,
    region: Region,
) -> bool {
    match server {
        Some(s) => r matches Ok(v) && v@ == s,
        None => r matches Err(e) && e == (Error::UnsupportedRegion { game, region }),
    }
}

/// The result of a UID parse: the region, or `UnknownUidRegion` carrying the UID.
pub open spec fn parse_result(r: Result<Region, Error>, region: Option<Region>, uid: Seq<char>) -> bool {
    match region {
        Some(g) => r == Ok::<Region, Error>(g),
        None => r matches Err(Error::UnknownUidRegion(u)) && u@ == uid,
    }
}

/// Whether every byte is an ASCII digit.
fn all_digits(b: &[u8]) -> (r: bool)
    ensures
        r == is_digit_uid(b@),
{
    let mut i: usize = 0;
    while i < b.len()
        invariant
            i <= b@.len(),
            forall|j: int| 0 <= j < i ==> 48u8 <= #[trigger] b@[j] <= 57u8,
        decreases b@.len() - i,
    {
        if b[i] < 48u8 || b[i] > 57u8 {
            assert(!(48u8 <= b@[i as int] <= 57u8));
            return false;
        }
        i = i + 1;
    }
    true
}

/// Whether the first `k` bytes are exactly the one byte `x`.
fn prefix_is1(b: &[u8], k: usize, x: u8) -> (r: bool)
    requires
        k <= b@.len(),
    ensures
        r == (b@.subrange(0, k as int) == seq![x]),
{
    if k == 1 && b[0] == x {
        assert(b@.subrange(0, 1) =~= seq![x]);
        true
    } else {
        assert(k == 1 ==> b@.subrange(0, 1)[0] != seq![x][0]);
        assert(k != 1 ==> b@.subrange(0, k as int).len() != seq![x].len());
        false
    }
}

/// Whether the first `k` bytes are exactly the two bytes `x`, `y`.
fn prefix_is2(b: &[u8], k: usize, x: u8, y: u8) -> (r: bool)
    requires
        k <= b@.len(),
    ensures
        r == (b@.subrange(0, k as int) == seq![x, y]),
{
    if k == 2 && b[0] == x && b[1] == y {
        assert(b@.subrange(0, 2) =~= seq![x, y]);
        true
    } else {
        assert(k == 2 && b[0] != x ==> b@.subrange(0, 2)[0] != seq![x, y][0]);
        assert(k == 2 && b[1] != y ==> b@.subrange(0, 2)[1] != seq![x, y][1]);
        assert(k != 2 ==> b@.subrange(0, k as int).len() != seq![x, y].len());
        false
    }
}

impl Region {
    /// Returns the serialized name of this region.
    pub fn as_str(self) -> (s: &'static str)
        ensures
            s@ == region_str(self),
    {
        match self {
            Region::China => "china",
            Region::America => "america",
            Region::Europe => "europe",
            Region::Asia => "asia",
            Region::ChinaHmt => "china_hmt",
            Region::Sea => "sea",
        }
    }

    /// Every region, in declaration order.
    pub fn variants() -> (v: Vec<Region>)
        ensures
            v@ == all_regions(),
    {
        vec![Region::China, Region::America, Region::Europe, Region::Asia, Region::ChinaHmt, Region::Sea]
    }

    /// Returns the Genshin Impact API region string, or
    /// [`Error::UnsupportedRegion`] where the game runs no server.
    pub fn genshin_region(self) -> (r: Result<&'static str, Error>)
        ensures
            lookup_result(r, genshin_server(self), GameId::GenshinImpact, self),
    {
        match self {
            Region::China => Ok("cn_gf01"),
            Region::America => Ok("os_usa"),
            Region::Europe => Ok("os_euro"),
            Region::Asia => Ok("os_asia"),
            Region::ChinaHmt => Ok("os_cht"),
            Region::Sea => Err(Error::UnsupportedRegion { game: GameId::GenshinImpact, region: self }),
        }
    }

    /// Returns the Honkai: Star Rail API region string, or
    /// [`Error::UnsupportedRegion`] where the game runs no server.
    pub fn hsr_region(self) -> (r: Result<&'static str, Error>)
        ensures
            lookup_result(r, hsr_server(self), GameId::HonkaiStarRail, self),
    {
        match self {
            Region::China => Ok("prod_gf_cn"),
            Region::America => Ok("prod_official_usa"),
            Region::Europe => Ok("prod_official_eur"),
            Region::Asia => Ok("prod_official_asia"),
            Region::ChinaHmt => Ok("prod_official_cht"),
            Region::Sea => Err(Error::UnsupportedRegion { game: GameId::HonkaiStarRail, region: self }),
        }
    }

    /// Returns the Zenless Zone Zero API region string, or
    /// [`Error::UnsupportedRegion`] where the game runs no server.
    pub fn zzz_region(self) -> (r: Result<&'static str, Error>)
        ensures
            lookup_result(r, zzz_server(self), GameId::ZenlessZoneZero, self),
    {
        match self {
            Region::China => Ok("prod_gf_cn"),
            Region::America => Ok("prod_gf_us"),
            Region::Europe => Ok("prod_gf_eu"),
            Region::Asia => Ok("prod_gf_jp"),
            Region::ChinaHmt => Ok("prod_gf_sg"),
            Region::Sea => Err(Error::UnsupportedRegion { game: GameId::ZenlessZoneZero, region: self }),
        }
    }

    /// Returns the Wuthering Waves API region string, or
    /// [`Error::UnsupportedRegion`] where the game runs no server.
    pub fn wuwa_region(self) -> (r: Result<&'static str, Error>)
        ensures
            lookup_result(r, wuwa_server(self), GameId::WutheringWaves, self),
    {
        match self {
            Region::America => Ok("America"),
            Region::Europe => Ok("Europe"),
            Region::Asia => Ok("Asia"),
            Region::ChinaHmt => Ok("HMT"),
            Region::Sea => Ok("SEA"),
            Region::China => Err(Error::UnsupportedRegion { game: GameId::WutheringWaves, region: self }),
        }
    }

    /// Parses the region from a Genshin Impact UID: a digit string whose
    /// digits before the last eight name the region.
    pub fn from_genshin_uid(uid: &str) -> (r: Result<Region, Error>)
        ensures
            parse_result(r, genshin_region_of(uid.spec_bytes()), uid@),
    {
        let b = uid.as_bytes();
        if !all_digits(b) {
            return Err(Error::UnknownUidRegion(uid.to_owned()));
        }
        let n = b.len();
        let k = if n >= 8 { n - 8 } else { 0 };
        let ghost p = uid_prefix(b@);
        assert(p =~= b@.subrange(0, k as int));
        if prefix_is1(b, k, 49u8) || prefix_is1(b, k, 50u8) || prefix_is1(b, k, 51u8)
            || prefix_is1(b, k, 53u8) {
            Ok(Region::China)
        } else if prefix_is1(b, k, 54u8) {
            Ok(Region::America)
        } else if prefix_is1(b, k, 55u8) {
            Ok(Region::Europe)
        } else if prefix_is1(b, k, 56u8) || prefix_is2(b, k, 49u8, 56u8) {
            Ok(Region::Asia)
        } else if prefix_is1(b, k, 57u8) {
            Ok(Region::ChinaHmt)
        } else {
            Err(Error::UnknownUidRegion(uid.to_owned()))
        }
    }

    /// Parses the region from a Honkai: Star Rail UID: a digit string whose
    /// digits before the last eight name the region.
    pub fn from_hsr_uid(uid: &str) -> (r: Result<Region, Error>)
        ensures
            parse_result(r, hsr_region_of(uid.spec_bytes()), uid@),
    {
        let b = uid.as_bytes();
        if !all_digits(b) {
            return Err(Error::UnknownUidRegion(uid.to_owned()));
        }
        let n = b.len();
        let k = if n >= 8 { n - 8 } else { 0 };
        let ghost p = uid_prefix(b@);
        assert(p =~= b@.subrange(0, k as int));
        if prefix_is1(b, k, 49u8) || prefix_is1(b, k, 50u8) || prefix_is1(b, k, 53u8) {
            Ok(Region::China)
        } else if prefix_is1(b, k, 54u8) {
            Ok(Region::America)
        } else if prefix_is1(b, k, 55u8) {
            Ok(Region::Europe)
        } else if prefix_is1(b, k, 56u8) {
            Ok(Region::Asia)
        } else if prefix_is1(b, k, 57u8) {
            Ok(Region::ChinaHmt)
        } else {
            Err(Error::UnknownUidRegion(uid.to_owned()))
        }
    }

    /// Parses the region from a Zenless Zone Zero UID: a digit string, where
    /// eight digits are Chinese servers and ten digits are global servers
    /// told apart by their first two.
    pub fn from_zzz_uid(uid: &str) -> (r: Result<Region, Error>)
        ensures
            parse_result(r, zzz_region_of(uid.spec_bytes()), uid@),
    {
        let b = uid.as_bytes();
        if !all_digits(b) {
            return Err(Error::UnknownUidRegion(uid.to_owned()));
        }
        let n = b.len();
        if n == 8 {
            Ok(Region::China)
        } else if n == 10 {
            if prefix_is2(b, 2, 49u8, 48u8) {
                Ok(Region::America)
            } else if prefix_is2(b, 2, 49u8, 51u8) {
                Ok(Region::Asia)
            } else if prefix_is2(b, 2, 49u8, 53u8) {
                Ok(Region::Europe)
            } else if prefix_is2(b, 2, 49u8, 55u8) {
                Ok(Region::ChinaHmt)
            } else {
                Err(Error::UnknownUidRegion(uid.to_owned()))
            }
        } else {
            Err(Error::UnknownUidRegion(uid.to_owned()))
        }
    }

    /// Parses the region from a Wuthering Waves UID: a digit string whose
    /// first digit names the region.
    pub fn from_wuwa_uid(uid: &str) -> (r: Result<Region, Error>)
        ensures
            parse_result(r, wuwa_region_of(uid.spec_bytes()), uid@),
    {
        let b = uid.as_bytes();
        if b.len() == 0 || !all_digits(b) {
            return Err(Error::UnknownUidRegion(uid.to_owned()));
        }
        let first = b[0];
        if first == 53u8 {
            Ok(Region::America)
        } else if first == 54u8 {
            Ok(Region::Europe)
        } else if first == 55u8 {
            Ok(Region::Asia)
        } else if first == 56u8 {
            Ok(Region::ChinaHmt)
        } else if first == 57u8 {
            Ok(Region::Sea)
        } else {
            Err(Error::UnknownUidRegion(uid.to_owned()))
        }
    }
}

/// A region detected from a game's UID is one the game runs a server in.
pub proof fn lemma_detected_regions_are_served(uid: Seq<u8>)
    ensures
        genshin_region_of(uid) matches Some(r) ==> genshin_server(r) is Some,
        hsr_region_of(uid) matches Some(r) ==> hsr_server(r) is Some,
        zzz_region_of(uid) matches Some(r) ==> zzz_server(r) is Some,
        wuwa_region_of(uid) matches Some(r) ==> wuwa_server(r) is Some,
{
}

/// Within one game, two regions never share a server string.
pub proof fn lemma_server_strings_distinct(a: Region, b: Region)
    requires
        a != b,
    ensures
        genshin_server(a) is Some && genshin_server(b) is Some ==> genshin_server(a) != genshin_server(b),
        hsr_server(a) is Some && hsr_server(b) is Some ==> hsr_server(a) != hsr_server(b),
        zzz_server(a) is Some && zzz_server(b) is Some ==> zzz_server(a) != zzz_server(b),
        wuwa_server(a) is Some && wuwa_server(b) is Some ==> wuwa_server(a) != wuwa_server(b),
{
    reveal_strlit("cn_gf01");
    reveal_strlit("os_usa");
    reveal_strlit("os_euro");
    reveal_strlit("os_asia");
    reveal_strlit("os_cht");
    reveal_strlit("prod_gf_cn");
    reveal_strlit("prod_official_usa");
    reveal_strlit("prod_official_eur");
    reveal_strlit("prod_official_asia");
    reveal_strlit("prod_official_cht");
    reveal_strlit("prod_gf_us");
    reveal_strlit("prod_gf_eu");
    reveal_strlit("prod_gf_jp");
    reveal_strlit("prod_gf_sg");
    reveal_strlit("America");
    reveal_strlit("Europe");
    reveal_strlit("Asia");
    reveal_strlit("HMT");
    reveal_strlit("SEA");
    if genshin_server(a) is Some && genshin_server(b) is Some {
        let x = genshin_server(a)->0;
        let y = genshin_server(b)->0;
        assert(x.len() != y.len() || x[3] != y[3] || x[4] != y[4] || x[5] != y[5]);
    }
    if hsr_server(a) is Some && hsr_server(b) is Some {
        let x = hsr_server(a)->0;
        let y = hsr_server(b)->0;
        assert(x.len() != y.len() || x[14] != y[14] || x[15] != y[15] || x[16] != y[16] || x[8] != y[8]);
    }
    if zzz_server(a) is Some && zzz_server(b) is Some {
        let x = zzz_server(a)->0;
        let y = zzz_server(b)->0;
        assert(x[8] != y[8] || x[9] != y[9]);
    }
    if wuwa_server(a) is Some && wuwa_server(b) is Some {
        let x = wuwa_server(a)->0;
        let y = wuwa_server(b)->0;
        assert(x.len() != y.len() || x[0] != y[0]);
    }
}

} // verus!
