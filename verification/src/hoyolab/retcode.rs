//! Known HoYoLab API retcodes and how a caller should treat each one.

use vstd::prelude::*;

verus! {

/// How a caller should treat a HoYoLab retcode.
#[derive(Debug, Clone, Copy, PartialEq, Eq, Structural)]
pub enum RetcodeKind {
    /// Temporary throttle; retry with backoff.
    Cooldown,
    /// Throttle bounded by a quota rather than by time; retrying cannot clear
    /// it.
    RateLimited,
    /// The cookie is missing, expired, or bound to no HoYoLab account.
    Cookie,
    /// The account or its bound game account cannot be used.
    Account,
    /// The daily reward is already signed for today.
    AlreadyClaimed,
    /// Geetest challenge flow, including required, rejected, and waived
    /// challenges.
    Geetest,
    /// A code-redemption endpoint refused the request.
    Redemption,
    /// The request was malformed, unsupported, or failed inside the server.
    Request,
}

/// A recognized retcode with its handling class and canonical meaning.
#[derive(Debug, Clone, Copy, PartialEq, Eq)]
pub struct Retcode {
    /// The value the API returns in the `retcode` field.
    pub code: i32,
    /// How a caller should treat the code.
    pub kind: RetcodeKind,
    /// English meaning, which the API's own message does not always carry.
    pub meaning: &'static str,
}

/// A catalogue entry.
pub open spec fn entry_spec(code: i32, kind: RetcodeKind, meaning: &'static str) -> Retcode {
    Retcode { code, kind, meaning }
}

/// Every retcode this client recognizes, grouped by the endpoint family that
/// returns it.
pub open spec fn catalogue() -> Seq<Retcode> {
    seq![
        entry_spec(-100i32, RetcodeKind::Cookie, "Cookies are not valid."),
        entry_spec(-108i32, RetcodeKind::Request, "Invalid language."),
        entry_spec(-110i32, RetcodeKind::Cooldown, "Visits too frequently."),
        entry_spec(1028i32, RetcodeKind::Cooldown, "Visits too frequently."),
        entry_spec(2010i32, RetcodeKind::Account, "Account is muted."),
        entry_spec(10001i32, RetcodeKind::Cookie, "Cookies are not valid."),
        entry_spec(-10001i32, RetcodeKind::Request, "Malformed request."),
        entry_spec(-10002i32, RetcodeKind::Account, "No game account associated with cookies."),
        entry_spec(10101i32, RetcodeKind::RateLimited, "Cannot get data for more than 30 accounts per cookie per day."),
        entry_spec(10102i32, RetcodeKind::Account, "User's data is not public."),
        entry_spec(10103i32, RetcodeKind::Cookie, "Cookies are valid but do not have a HoYoLab account bound to them."),
        entry_spec(10104i32, RetcodeKind::Account, "Cannot view real-time notes of other users."),
        entry_spec(-1i32, RetcodeKind::Request, "Internal database error."),
        entry_spec(10307i32, RetcodeKind::Request, "Internal database error."),
        entry_spec(1009i32, RetcodeKind::Account, "Could not find user; uid may be invalid."),
        entry_spec(1008i32, RetcodeKind::Account, "Could not find user; uid may be invalid."),
        entry_spec(-1104i32, RetcodeKind::Request, "This action must be done in the app."),
        entry_spec(-500001i32, RetcodeKind::Request, "Invalid fields in calculation."),
        entry_spec(-500004i32, RetcodeKind::Cooldown, "Visits too frequently."),
        entry_spec(-502001i32, RetcodeKind::Request, "User does not have this character."),
        entry_spec(-502002i32, RetcodeKind::Account, "Calculator sync is not enabled."),
        entry_spec(-1065i32, RetcodeKind::Redemption, "Invalid redemption code."),
        entry_spec(-1071i32, RetcodeKind::Cookie, "Cookies are not valid."),
        entry_spec(-1073i32, RetcodeKind::Account, "Account has no game account bound to it."),
        entry_spec(-2001i32, RetcodeKind::Redemption, "Redemption code has expired."),
        entry_spec(-2003i32, RetcodeKind::Redemption, "Redemption code is incorrectly formatted."),
        entry_spec(-2004i32, RetcodeKind::Redemption, "Invalid redemption code."),
        entry_spec(-2006i32, RetcodeKind::Redemption, "Redemption code has reached max usage limit."),
        entry_spec(-2008i32, RetcodeKind::Redemption, "Redemption code is not available in the account's region."),
        entry_spec(-2011i32, RetcodeKind::Redemption, "Redemption code cannot be claimed because the game level is too low."),
        entry_spec(-2014i32, RetcodeKind::Redemption, "Redemption code not activated."),
        entry_spec(-2016i32, RetcodeKind::Redemption, "Redemption is on cooldown."),
        entry_spec(-2017i32, RetcodeKind::Redemption, "Redemption code has been claimed already."),
        entry_spec(-2018i32, RetcodeKind::Redemption, "Redemption code has been claimed already."),
        entry_spec(-2021i32, RetcodeKind::Redemption, "Redemption code cannot be claimed because the game level is too low."),
        entry_spec(-5003i32, RetcodeKind::AlreadyClaimed, "Already claimed the daily reward today."),
        entry_spec(-3004i32, RetcodeKind::Account, "Account login failed."),
        entry_spec(-3208i32, RetcodeKind::Account, "Account login failed."),
        entry_spec(-3202i32, RetcodeKind::Account, "Account is locked after too many password attempts; retry in 20 minutes."),
        entry_spec(-3203i32, RetcodeKind::Account, "Account does not exist."),
        entry_spec(-3205i32, RetcodeKind::Account, "The provided OTP code is wrong."),
        entry_spec(-3206i32, RetcodeKind::RateLimited, "Too many verification code requests for the account."),
        entry_spec(-216i32, RetcodeKind::Account, "Game account is incorrect."),
        entry_spec(-202i32, RetcodeKind::Account, "Game password is incorrect."),
        entry_spec(-119i32, RetcodeKind::RateLimited, "Too many OTP messages sent for the number; the cap is 40 per day."),
        entry_spec(-3006i32, RetcodeKind::RateLimited, "Request too frequent (OTP endpoint)."),
        entry_spec(-1004i32, RetcodeKind::Cooldown, "Action is in cooldown."),
        entry_spec(-3101i32, RetcodeKind::Cooldown, "Action is in cooldown."),
        entry_spec(-3102i32, RetcodeKind::Geetest, "The provided aigis payload is invalid."),
        entry_spec(30001i32, RetcodeKind::Geetest, "No need to do geetest."),
    ]
}

/// Builds a catalogue entry.
pub fn entry(code: i32, kind: RetcodeKind, meaning: &'static str) -> (r: Retcode)
    ensures
        r == entry_spec(code, kind, meaning),
{
    Retcode { code, kind, meaning }
}

/// Every retcode this client recognizes, in catalogue order.
pub fn retcodes() -> (v: Vec<Retcode>)
    ensures
        v@ == catalogue(),
{
    let v = vec![
        entry(-100, RetcodeKind::Cookie, "Cookies are not valid."),
        entry(-108, RetcodeKind::Request, "Invalid language."),
        entry(-110, RetcodeKind::Cooldown, "Visits too frequently."),
        entry(1028, RetcodeKind::Cooldown, "Visits too frequently."),
        entry(2010, RetcodeKind::Account, "Account is muted."),
        entry(10001, RetcodeKind::Cookie, "Cookies are not valid."),
        entry(-10001, RetcodeKind::Request, "Malformed request."),
        entry(-10002, RetcodeKind::Account, "No game account associated with cookies."),
        entry(10101, RetcodeKind::RateLimited, "Cannot get data for more than 30 accounts per cookie per day."),
        entry(10102, RetcodeKind::Account, "User's data is not public."),
        entry(10103, RetcodeKind::Cookie, "Cookies are valid but do not have a HoYoLab account bound to them."),
        entry(10104, RetcodeKind::Account, "Cannot view real-time notes of other users."),
        entry(-1, RetcodeKind::Request, "Internal database error."),
        entry(10307, RetcodeKind::Request, "Internal database error."),
        entry(1009, RetcodeKind::Account, "Could not find user; uid may be invalid."),
        entry(1008, RetcodeKind::Account, "Could not find user; uid may be invalid."),
        entry(-1104, RetcodeKind::Request, "This action must be done in the app."),
        entry(-500001, RetcodeKind::Request, "Invalid fields in calculation."),
        entry(-500004, RetcodeKind::Cooldown, "Visits too frequently."),
        entry(-502001, RetcodeKind::Request, "User does not have this character."),
        entry(-502002, RetcodeKind::Account, "Calculator sync is not enabled."),
        entry(-1065, RetcodeKind::Redemption, "Invalid redemption code."),
        entry(-1071, RetcodeKind::Cookie, "Cookies are not valid."),
        entry(-1073, RetcodeKind::Account, "Account has no game account bound to it."),
        entry(-2001, RetcodeKind::Redemption, "Redemption code has expired."),
        entry(-2003, RetcodeKind::Redemption, "Redemption code is incorrectly formatted."),
        entry(-2004, RetcodeKind::Redemption, "Invalid redemption code."),
        entry(-2006, RetcodeKind::Redemption, "Redemption code has reached max usage limit."),
        entry(-2008, RetcodeKind::Redemption, "Redemption code is not available in the account's region."),
        entry(-2011, RetcodeKind::Redemption, "Redemption code cannot be claimed because the game level is too low."),
        entry(-2014, RetcodeKind::Redemption, "Redemption code not activated."),
        entry(-2016, RetcodeKind::Redemption, "Redemption is on cooldown."),
        entry(-2017, RetcodeKind::Redemption, "Redemption code has been claimed already."),
        entry(-2018, RetcodeKind::Redemption, "Redemption code has been claimed already."),
        entry(-2021, RetcodeKind::Redemption, "Redemption code cannot be claimed because the game level is too low."),
        entry(-5003, RetcodeKind::AlreadyClaimed, "Already claimed the daily reward today."),
        entry(-3004, RetcodeKind::Account, "Account login failed."),
        entry(-3208, RetcodeKind::Account, "Account login failed."),
        entry(-3202, RetcodeKind::Account, "Account is locked after too many password attempts; retry in 20 minutes."),
        entry(-3203, RetcodeKind::Account, "Account does not exist."),
        entry(-3205, RetcodeKind::Account, "The provided OTP code is wrong."),
        entry(-3206, RetcodeKind::RateLimited, "Too many verification code requests for the account."),
        entry(-216, RetcodeKind::Account, "Game account is incorrect."),
        entry(-202, RetcodeKind::Account, "Game password is incorrect."),
        entry(-119, RetcodeKind::RateLimited, "Too many OTP messages sent for the number; the cap is 40 per day."),
        entry(-3006, RetcodeKind::RateLimited, "Request too frequent (OTP endpoint)."),
        entry(-1004, RetcodeKind::Cooldown, "Action is in cooldown."),
        entry(-3101, RetcodeKind::Cooldown, "Action is in cooldown."),
        entry(-3102, RetcodeKind::Geetest, "The provided aigis payload is invalid."),
        entry(30001, RetcodeKind::Geetest, "No need to do geetest."),
    ];
    assert(v@ =~= catalogue());
    v
}

/// The position of a code in the catalogue (-1 when it is not listed).
spec fn catalogue_position(code: i32) -> int {
    if code == -100 {
        0
    } else if code == -108 {
        1
    } else if code == -110 {
        2
    } else if code == 1028 {
        3
    } else if code == 2010 {
        4
    } else if code == 10001 {
        5
    } else if code == -10001 {
        6
    } else if code == -10002 {
        7
    } else if code == 10101 {
        8
    } else if code == 10102 {
        9
    } else if code == 10103 {
        10
    } else if code == 10104 {
        11
    } else if code == -1 {
        12
    } else if code == 10307 {
        13
    } else if code == 1009 {
        14
    } else if code == 1008 {
        15
    } else if code == -1104 {
        16
    } else if code == -500001 {
        17
    } else if code == -500004 {
        18
    } else if code == -502001 {
        19
    } else if code == -502002 {
        20
    } else if code == -1065 {
        21
    } else if code == -1071 {
        22
    } else if code == -1073 {
        23
    } else if code == -2001 {
        24
    } else if code == -2003 {
        25
    } else if code == -2004 {
        26
    } else if code == -2006 {
        27
    } else if code == -2008 {
        28
    } else if code == -2011 {
        29
    } else if code == -2014 {
        30
    } else if code == -2016 {
        31
    } else if code == -2017 {
        32
    } else if code == -2018 {
        33
    } else if code == -2021 {
        34
    } else if code == -5003 {
        35
    } else if code == -3004 {
        36
    } else if code == -3208 {
        37
    } else if code == -3202 {
        38
    } else if code == -3203 {
        39
    } else if code == -3205 {
        40
    } else if code == -3206 {
        41
    } else if code == -216 {
        42
    } else if code == -202 {
        43
    } else if code == -119 {
        44
    } else if code == -3006 {
        45
    } else if code == -1004 {
        46
    } else if code == -3101 {
        47
    } else if code == -3102 {
        48
    } else if code == 30001 {
        49
    } else {
        -1
    }
}

/// The catalogue lists each code once.
pub proof fn lemma_codes_unique()
    ensures
        forall|i: int, j: int| 0 <= i < j < catalogue().len()
            ==> #[trigger] catalogue()[i].code != #[trigger] catalogue()[j].code,
{
    let c = catalogue();
    assert(c.len() == 50);
    assert(catalogue_position(c[0].code) == 0);
    assert(catalogue_position(c[1].code) == 1);
    assert(catalogue_position(c[2].code) == 2);
    assert(catalogue_position(c[3].code) == 3);
    assert(catalogue_position(c[4].code) == 4);
    assert(catalogue_position(c[5].code) == 5);
    assert(catalogue_position(c[6].code) == 6);
    assert(catalogue_position(c[7].code) == 7);
    assert(catalogue_position(c[8].code) == 8);
    assert(catalogue_position(c[9].code) == 9);
    assert(catalogue_position(c[10].code) == 10);
    assert(catalogue_position(c[11].code) == 11);
    assert(catalogue_position(c[12].code) == 12);
    assert(catalogue_position(c[13].code) == 13);
    assert(catalogue_position(c[14].code) == 14);
    assert(catalogue_position(c[15].code) == 15);
    assert(catalogue_position(c[16].code) == 16);
    assert(catalogue_position(c[17].code) == 17);
    assert(catalogue_position(c[18].code) == 18);
    assert(catalogue_position(c[19].code) == 19);
    assert(catalogue_position(c[20].code) == 20);
    assert(catalogue_position(c[21].code) == 21);
    assert(catalogue_position(c[22].code) == 22);
    assert(catalogue_position(c[23].code) == 23);
    assert(catalogue_position(c[24].code) == 24);
    assert(catalogue_position(c[25].code) == 25);
    assert(catalogue_position(c[26].code) == 26);
    assert(catalogue_position(c[27].code) == 27);
    assert(catalogue_position(c[28].code) == 28);
    assert(catalogue_position(c[29].code) == 29);
    assert(catalogue_position(c[30].code) == 30);
    assert(catalogue_position(c[31].code) == 31);
    assert(catalogue_position(c[32].code) == 32);
    assert(catalogue_position(c[33].code) == 33);
    assert(catalogue_position(c[34].code) == 34);
    assert(catalogue_position(c[35].code) == 35);
    assert(catalogue_position(c[36].code) == 36);
    assert(catalogue_position(c[37].code) == 37);
    assert(catalogue_position(c[38].code) == 38);
    assert(catalogue_position(c[39].code) == 39);
    assert(catalogue_position(c[40].code) == 40);
    assert(catalogue_position(c[41].code) == 41);
    assert(catalogue_position(c[42].code) == 42);
    assert(catalogue_position(c[43].code) == 43);
    assert(catalogue_position(c[44].code) == 44);
    assert(catalogue_position(c[45].code) == 45);
    assert(catalogue_position(c[46].code) == 46);
    assert(catalogue_position(c[47].code) == 47);
    assert(catalogue_position(c[48].code) == 48);
    assert(catalogue_position(c[49].code) == 49);
    assert forall|i: int| 0 <= i < c.len() implies #[trigger] catalogue_position(c[i].code) == i by {
    }
    assert forall|i: int, j: int| 0 <= i < j < catalogue().len()
        implies #[trigger] catalogue()[i].code != #[trigger] catalogue()[j].code by {
        assert(catalogue_position(c[i].code) == i);
        assert(catalogue_position(c[j].code) == j);
    }
}

/// The catalogue lists `code`.
pub open spec fn listed(code: i32) -> bool {
    exists|i: int| 0 <= i < catalogue().len() && #[trigger] catalogue()[i].code == code
}

/// The catalogue lists `code` with the given kind.
pub open spec fn listed_as(code: i32, kind: RetcodeKind) -> bool {
    exists|i: int| 0 <= i < catalogue().len() && #[trigger] catalogue()[i].code == code
        && catalogue()[i].kind == kind
}

/// Looks up a retcode, returning `None` when the catalogue does not list it.
pub fn lookup(code: i32) -> (r: Option<Retcode>)
    ensures
        r is None <==> !listed(code),
        r matches Some(e) ==> e.code == code && exists|i: int| 0 <= i < catalogue().len()
            && #[trigger] catalogue()[i] == e,
{
    let all = retcodes();
    let mut i: usize = 0;
    while i < all.len()
        invariant
            all@ == catalogue(),
            0 <= i <= all@.len(),
            forall|j: int| 0 <= j < i ==> #[trigger] catalogue()[j].code != code,
        decreases all@.len() - i,
    {
        if all[i].code == code {
            assert(catalogue()[i as int] == all[i as int]);
            return Some(all[i]);
        }
        i += 1;
    }
    None
}

/// Returns whether the catalogue classifies `code` as `kind`.
pub fn has_kind(code: i32, kind: RetcodeKind) -> (b: bool)
    ensures
        b == listed_as(code, kind),
{
    proof {
        lemma_codes_unique();
    }
    match lookup(code) {
        Some(e) => {
            proof {
                let i = choose|i: int| 0 <= i < catalogue().len() && #[trigger] catalogue()[i] == e;
                if e.kind != kind {
                    assert forall|j: int| 0 <= j < catalogue().len() && #[trigger] catalogue()[j].code == code
                        implies catalogue()[j].kind != kind by {
                        if j != i {
                            if j < i {
                                assert(catalogue()[j].code != catalogue()[i].code);
                            } else {
                                assert(catalogue()[i].code != catalogue()[j].code);
                            }
                        }
                    }
                }
            }
            e.kind == kind
        },
        None => false,
    }
}

/// Returns whether a retcode is classified as a temporary throttle.
pub fn is_transient_throttle(code: i32) -> (b: bool)
    ensures
        b == listed_as(code, RetcodeKind::Cooldown),
{
    has_kind(code, RetcodeKind::Cooldown)
}

} // verus!
