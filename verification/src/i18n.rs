//! Message lookup and ICU MessageFormat-style formatting.
//!
//! A template substitutes `{name}` with an argument and formats
//! `{name, plural, one {# item} other {# items}}` by the argument's plural
//! category in the current locale, `#` standing for the count. An
//! unbalanced `{` is kept as it is; a placeholder that cannot be formatted is
//! kept with its braces.

use vstd::prelude::*;
use icu_experimental::duration::options::{BaseStyle, DurationFormatterOptions, FieldDisplay};
use icu_experimental::duration::{Duration, DurationFormatter, ValidatedDurationFormatterOptions};
use crate::text::{
    lowercase_of, to_lowercase, u64_decimal, join2, join3,
    chars_of, decimal, i64_decimal, is_white_space, char_is_whitespace, skip_whitespace, slice_chars,
    string_of, str_eq, trim_range, trim_start_ws, trim_ws, lemma_trim_start_suffix,
};

verus! {

/// Supported locale codes.
pub open spec fn supported_locale_codes() -> Seq<Seq<char>> {
    seq!["en"@, "zh-CN"@, "ko"@, "ja"@]
}

/// The locale used when nothing else matches.
pub const DEFAULT_LOCALE: &'static str = "en";

/// The list of supported locale codes.
pub fn supported_locales() -> (v: Vec<&'static str>)
    ensures
        v@.len() == 4,
        forall|i: int| 0 <= i < 4 ==> #[trigger] v@[i]@ == supported_locale_codes()[i],
{
    vec!["en", "zh-CN", "ko", "ja"]
}

/// The change of nesting depth a character makes.
pub open spec fn brace_delta(c: char) -> int {
    if c == '{' {
        1
    } else if c == '}' {
        -1
    } else {
        0
    }
}

/// Scanning `s` from `i` at nesting depth `depth`: the position of the `}`
/// that brings the depth back to zero.
pub open spec fn scan_close(s: Seq<char>, i: int, depth: int) -> Option<int>
    decreases s.len() - i,
{
    if i < 0 || i >= s.len() {
        None
    } else {
        let d = depth + brace_delta(s[i]);
        if s[i] == '}' && d == 0 {
            Some(i)
        } else {
            scan_close(s, i + 1, d)
        }
    }
}

/// The closing brace found by a scan lies at or after where the scan began.
pub proof fn lemma_scan_close_bounds(s: Seq<char>, i: int, depth: int)
    ensures
        scan_close(s, i, depth) matches Some(k) ==> 0 <= i <= k < s.len() && s[k] == '}',
    decreases s.len() - i,
{
    if 0 <= i < s.len() {
        lemma_scan_close_bounds(s, i + 1, depth + brace_delta(s[i]));
    }
}

/// Finds the position of the brace closing the one at `start`, respecting
/// nesting: the first `}` after which as many braces have closed as opened
/// since `start`.
pub fn find_matching_brace(s: &Vec<char>, start: usize) -> (r: Option<usize>)
    requires
        start <= s@.len(),
    ensures
        r == match scan_close(s@, start as int, 0) {
            Some(k) => Some(k as usize),
            None => None::<usize>,
        },
        r matches Some(k) ==> start <= k < s.len(),
{
    let mut opens: usize = 0;
    let mut closes: usize = 0;
    let mut i = start;
    while i < s.len()
        invariant
            start <= i <= s@.len(),
            opens <= i - start,
            closes <= i - start,
            scan_close(s@, start as int, 0) == scan_close(s@, i as int, opens - closes),
        decreases s@.len() - i,
    {
        let c = s[i];
        if c == '{' {
            opens += 1;
        } else if c == '}' {
            closes += 1;
            if opens == closes {
                return Some(i);
            }
        }
        i += 1;
    }
    None
}

/// Where `s[from..]` first holds whitespace or an opening brace.
pub open spec fn keyword_end(s: Seq<char>, from: int) -> int
    decreases s.len() - from,
{
    if from < 0 || from >= s.len() {
        s.len() as int
    } else if is_white_space(s[from]) || s[from] == '{' {
        from
    } else {
        keyword_end(s, from + 1)
    }
}

/// `keyword_end` stays within the sequence.
pub proof fn lemma_keyword_end_bounds(s: Seq<char>, from: int)
    requires
        0 <= from <= s.len(),
    ensures
        from <= keyword_end(s, from) <= s.len(),
    decreases s.len() - from,
{
    if from < s.len() && !(is_white_space(s[from]) || s[from] == '{') {
        lemma_keyword_end_bounds(s, from + 1);
    }
}

/// The content of the branch named `category` in `keyword {content}`
/// pairs; none when no pair has that keyword before the pairs stop being
/// well formed.
pub open spec fn select_branch(branches: Seq<char>, category: Seq<char>) -> Option<Seq<char>>
    decreases branches.len(),
{
    let r = trim_start_ws(branches);
    if r.len() == 0 {
        None
    } else {
        let kw = keyword_end(r, 0);
        let keyword = r.subrange(0, kw);
        let rest = trim_start_ws(r.subrange(kw, r.len() as int));
        if rest.len() == 0 || rest[0] != '{' {
            None
        } else {
            match scan_close(rest, 0, 0) {
                None => None,
                Some(close) => if keyword == category {
                    Some(rest.subrange(1, close))
                } else {
                    proof {
                        lemma_trim_start_suffix(branches);
                        lemma_keyword_end_bounds(r, 0);
                        lemma_trim_start_suffix(r.subrange(kw, r.len() as int));
                        lemma_scan_close_bounds(rest, 0, 0);
                    }
                    select_branch(rest.subrange(close + 1, rest.len() as int), category)
                },
            }
        }
    }
}

fn keyword_end_at(s: &Vec<char>, from: usize) -> (k: usize)
    requires
        from <= s@.len(),
    ensures
        k == keyword_end(s@, from as int),
        from <= k <= s@.len(),
{
    let mut i = from;
    while i < s.len() && !(char_is_whitespace(s[i]) || s[i] == '{')
        invariant
            from <= i <= s@.len(),
            keyword_end(s@, from as int) == keyword_end(s@, i as int),
        decreases s@.len() - i,
    {
        i += 1;
    }
    i
}

fn same_chars(a: &Vec<char>, b: &Vec<char>) -> (r: bool)
    ensures
        r == (a@ == b@),
{
    if a.len() != b.len() {
        return false;
    }
    let mut i: usize = 0;
    while i < a.len()
        invariant
            a@.len() == b@.len(),
            0 <= i <= a@.len(),
            forall|j: int| 0 <= j < i ==> a@[j] == b@[j],
        decreases a@.len() - i,
    {
        if a[i] != b[i] {
            return false;
        }
        i += 1;
    }
    assert(a@ =~= b@);
    true
}

/// Selects the content of the plural branch named `category`, as in
/// `one {# minute}`, from a list of branches.
pub fn select_plural_branch(branches: &Vec<char>, category: &Vec<char>) -> (r: Option<Vec<char>>)
    ensures
        match select_branch(branches@, category@) {
            Some(c) => r matches Some(v) && v@ == c,
            None => r is None,
        },
    decreases branches@.len(),
{
    let start = skip_whitespace(branches, 0, branches.len());
    assert(branches@.subrange(0, branches@.len() as int) =~= branches@);
    let r = slice_chars(branches, start, branches.len());
    if r.len() == 0 {
        return None;
    }
    let kw = keyword_end_at(&r, 0);
    let keyword = slice_chars(&r, 0, kw);
    let after = skip_whitespace(&r, kw, r.len());
    let rest = slice_chars(&r, after, r.len());
    if rest.len() == 0 || rest[0] != '{' {
        return None;
    }
    match find_matching_brace(&rest, 0) {
        None => None,
        Some(close) => {
            proof {
                lemma_scan_close_bounds(rest@, 0, 0);
            }
            if same_chars(&keyword, category) {
                Some(slice_chars(&rest, 1, close))
            } else {
                let tail = slice_chars(&rest, close + 1, rest.len());
                proof {
                    lemma_trim_start_suffix(branches@);
                    lemma_keyword_end_bounds(r@, 0);
                    lemma_trim_start_suffix(r@.subrange(kw as int, r@.len() as int));
                }
                select_plural_branch(&tail, category)
            }
        },
    }
}

/// A message argument.
#[derive(Debug, Clone)]
pub enum Value {
    /// A string value, substituted directly.
    String(String),
    /// A number, used for plural dispatch and `#` replacement.
    Number(i64),
}

/// A CLDR plural category.
#[derive(Debug, Clone, Copy, PartialEq, Eq, Structural)]
pub enum PluralKind {
    /// "zero".
    Zero,
    /// "one".
    One,
    /// "two".
    Two,
    /// "few".
    Few,
    /// "many".
    Many,
    /// "other".
    Other,
}

/// The keyword of a plural category.
pub open spec fn plural_keyword(k: PluralKind) -> Seq<char> {
    match k {
        PluralKind::Zero => "zero"@,
        PluralKind::One => "one"@,
        PluralKind::Two => "two"@,
        PluralKind::Few => "few"@,
        PluralKind::Many => "many"@,
        PluralKind::Other => "other"@,
    }
}

/// The cardinal plural category ICU4X assigns to `count` in `locale`; none
/// when the locale cannot be parsed or has no plural rules.
pub uninterp spec fn cardinal_category(locale: Seq<char>, count: i64) -> Option<PluralKind>;

/// The cardinal plural category of `count` in `locale`, from
/// `icu_locale::Locale` parsing, `icu_plurals::PluralRules::try_new_cardinal`
/// and `PluralRules::category_for`; `None` when either step fails.
#[verifier::external_body]
fn plural_category_of(locale: &str, count: i64) -> (r: Option<PluralKind>)
    ensures
        r == cardinal_category(locale@, count),
{
    let Ok(loc) = locale.parse::<icu_locale::Locale>() else { return None };
    let Ok(rules) = icu_plurals::PluralRules::try_new_cardinal(loc.into()) else { return None };
    Some(match rules.category_for(count) {
        icu_plurals::PluralCategory::Zero => PluralKind::Zero,
        icu_plurals::PluralCategory::One => PluralKind::One,
        icu_plurals::PluralCategory::Two => PluralKind::Two,
        icu_plurals::PluralCategory::Few => PluralKind::Few,
        icu_plurals::PluralCategory::Many => PluralKind::Many,
        icu_plurals::PluralCategory::Other => PluralKind::Other,
    })
}

fn plural_keyword_chars(k: PluralKind) -> (v: Vec<char>)
    ensures
        v@ == plural_keyword(k),
{
    let s = match k {
        PluralKind::Zero => "zero",
        PluralKind::One => "one",
        PluralKind::Two => "two",
        PluralKind::Few => "few",
        PluralKind::Many => "many",
        PluralKind::Other => "other",
    };
    chars_of(s)
}

/// The argument named `name`; a later argument of the same name wins.
pub open spec fn arg_lookup<'a>(args: Seq<(&'a str, Value)>, name: Seq<char>) -> Option<Value>
    decreases args.len(),
{
    if args.len() == 0 {
        None
    } else if args.last().0@ == name {
        Some(args.last().1)
    } else {
        arg_lookup(args.drop_last(), name)
    }
}

/// The first comma at or after `from`.
pub open spec fn comma_from(s: Seq<char>, from: int) -> Option<int>
    decreases s.len() - from,
{
    if from < 0 || from >= s.len() {
        None
    } else if s[from] == ',' {
        Some(from)
    } else {
        comma_from(s, from + 1)
    }
}

/// A found comma lies within the sequence, at or after where the search
/// began.
pub proof fn lemma_comma_bounds(s: Seq<char>, from: int)
    ensures
        comma_from(s, from) matches Some(k) ==> 0 <= from <= k < s.len() && s[k] == ',',
    decreases s.len() - from,
{
    if 0 <= from < s.len() && s[from] != ',' {
        lemma_comma_bounds(s, from + 1);
    }
}

/// A text with every `#` replaced by `count`.
pub open spec fn replace_hash(s: Seq<char>, count: Seq<char>) -> Seq<char>
    decreases s.len(),
{
    if s.len() == 0 {
        Seq::empty()
    } else if s.last() == '#' {
        replace_hash(s.drop_last(), count) + count
    } else {
        replace_hash(s.drop_last(), count).push(s.last())
    }
}

/// A placeholder kept as it was written.
pub open spec fn kept(inner: Seq<char>) -> Seq<char> {
    seq!['{'] + inner + seq!['}']
}

/// The plural category keyword used for a count: the locale's category,
/// "other" without a locale or rules.
pub open spec fn category_used(locale: Option<Seq<char>>, count: i64) -> Seq<char> {
    match locale {
        Some(l) => match cardinal_category(l, count) {
            Some(k) => plural_keyword(k),
            None => "other"@,
        },
        None => "other"@,
    }
}

/// A plural placeholder: the branch for the count's category (or "other",
/// or nothing), with `#` replaced by the count; kept as written when the
/// argument is not a number.
pub open spec fn plural_text<'a>(
    inner: Seq<char>,
    name: Seq<char>,
    branches: Seq<char>,
    args: Seq<(&'a str, Value)>,
    locale: Option<Seq<char>>,
) -> Seq<char> {
    match arg_lookup(args, name) {
        Some(Value::Number(n)) => {
            let branch = match select_branch(branches, category_used(locale, n)) {
                Some(b) => b,
                None => match select_branch(branches, "other"@) {
                    Some(b) => b,
                    None => Seq::empty(),
                },
            };
            replace_hash(branch, decimal(n as int))
        },
        _ => kept(inner),
    }
}

/// The text of a placeholder: `{name}` is the argument (kept as written
/// when there is none); `{name, plural, branches}` is a plural; anything
/// else is kept as written.
pub open spec fn placeholder<'a>(inner: Seq<char>, args: Seq<(&'a str, Value)>, locale: Option<Seq<char>>) -> Seq<
    char,
> {
    match comma_from(inner, 0) {
        None => {
            let name = trim_ws(inner);
            match arg_lookup(args, name) {
                Some(Value::String(v)) => v@,
                Some(Value::Number(n)) => decimal(n as int),
                None => kept(name),
            }
        },
        Some(c1) => match comma_from(inner, c1 + 1) {
            None => kept(inner),
            Some(c2) => if trim_ws(inner.subrange(c1 + 1, c2)) == "plural"@ {
                plural_text(
                    inner,
                    trim_ws(inner.subrange(0, c1)),
                    trim_ws(inner.subrange(c2 + 1, inner.len() as int)),
                    args,
                    locale,
                )
            } else {
                kept(inner)
            },
        },
    }
}

/// The formatted template from position `pos` on.
pub open spec fn render_from<'a>(t: Seq<char>, pos: int, args: Seq<(&'a str, Value)>, locale: Option<Seq<char>>) -> Seq<
    char,
>
    decreases t.len() - pos,
{
    if pos < 0 || pos >= t.len() {
        Seq::empty()
    } else if t[pos] != '{' {
        seq![t[pos]] + render_from(t, pos + 1, args, locale)
    } else {
        match scan_close(t, pos, 0) {
            Some(close) => {
                proof {
                    lemma_scan_close_bounds(t, pos, 0);
                }
                placeholder(t.subrange(pos + 1, close), args, locale) + render_from(
                    t,
                    close + 1,
                    args,
                    locale,
                )
            },
            None => seq!['{'] + render_from(t, pos + 1, args, locale),
        }
    }
}

/// An optional string slice as optional characters.
pub open spec fn opt_chars(o: Option<&str>) -> Option<Seq<char>> {
    match o {
        Some(s) => Some(s@),
        None => None,
    }
}

fn find_comma(s: &Vec<char>, from: usize) -> (r: Option<usize>)
    requires
        from <= s@.len(),
    ensures
        r == match comma_from(s@, from as int) {
            Some(k) => Some(k as usize),
            None => None::<usize>,
        },
        r matches Some(k) ==> from <= k < s.len(),
{
    let mut i = from;
    while i < s.len()
        invariant
            from <= i <= s@.len(),
            comma_from(s@, from as int) == comma_from(s@, i as int),
        decreases s@.len() - i,
    {
        if s[i] == ',' {
            return Some(i);
        }
        i += 1;
    }
    None
}

fn lookup_arg<'a, 'b>(args: &'b [(&'a str, Value)], name: &Vec<char>) -> (r: Option<&'b Value>)
    ensures
        match arg_lookup(args@, name@) {
            Some(v) => r matches Some(x) && *x == v,
            None => r is None,
        },
{
    let mut i: usize = args.len();
    assert(args@.take(args@.len() as int) =~= args@);
    while i > 0
        invariant
            0 <= i <= args@.len(),
            arg_lookup(args@, name@) == arg_lookup(args@.take(i as int), name@),
        decreases i,
    {
        proof {
            assert(args@.take(i as int).drop_last() =~= args@.take(i - 1));
            assert(args@.take(i as int).last() == args@[i - 1]);
        }
        let key = chars_of(args[i - 1].0);
        if same_chars(&key, name) {
            return Some(&args[i - 1].1);
        }
        i -= 1;
    }
    proof {
        assert(args@.take(0) =~= Seq::<(&'a str, Value)>::empty());
    }
    None
}

fn push_all(out: &mut Vec<char>, extra: &Vec<char>)
    ensures
        final(out)@ == old(out)@ + extra@,
{
    let mut i: usize = 0;
    while i < extra.len()
        invariant
            0 <= i <= extra@.len(),
            out@ == old(out)@ + extra@.take(i as int),
        decreases extra@.len() - i,
    {
        out.push(extra[i]);
        assert(extra@.take(i + 1) =~= extra@.take(i as int).push(extra@[i as int]));
        i += 1;
    }
    assert(extra@.take(extra@.len() as int) =~= extra@);
}

fn kept_chars(inner: &Vec<char>) -> (v: Vec<char>)
    ensures
        v@ == kept(inner@),
{
    let mut v: Vec<char> = Vec::new();
    v.push('{');
    push_all(&mut v, inner);
    v.push('}');
    assert(v@ =~= kept(inner@));
    v
}

fn replace_hash_chars(s: &Vec<char>, count: &Vec<char>) -> (r: Vec<char>)
    ensures
        r@ == replace_hash(s@, count@),
{
    let mut r: Vec<char> = Vec::new();
    let mut i: usize = 0;
    while i < s.len()
        invariant
            0 <= i <= s@.len(),
            r@ == replace_hash(s@.take(i as int), count@),
        decreases s@.len() - i,
    {
        proof {
            assert(s@.take(i + 1).drop_last() =~= s@.take(i as int));
            assert(s@.take(i + 1).last() == s@[i as int]);
        }
        if s[i] == '#' {
            push_all(&mut r, count);
        } else {
            r.push(s[i]);
        }
        i += 1;
    }
    assert(s@.take(s@.len() as int) =~= s@);
    r
}

fn plural_chars(
    inner: &Vec<char>,
    name: &Vec<char>,
    branches: &Vec<char>,
    args: &[(&str, Value)],
    locale: Option<&str>,
) -> (r: Vec<char>)
    ensures
        r@ == plural_text(inner@, name@, branches@, args@, opt_chars(locale)),
{
    let count = match lookup_arg(args, name) {
        Some(Value::Number(n)) => *n,
        _ => {
            return kept_chars(inner);
        },
    };
    let category = match locale {
        Some(l) => match plural_category_of(l, count) {
            Some(k) => plural_keyword_chars(k),
            None => chars_of("other"),
        },
        None => chars_of("other"),
    };
    let other = chars_of("other");
    let branch = match select_plural_branch(branches, &category) {
        Some(b) => b,
        None => match select_plural_branch(branches, &other) {
            Some(b) => b,
            None => Vec::new(),
        },
    };
    let digits = chars_of(i64_decimal(count).as_str());
    replace_hash_chars(&branch, &digits)
}

/// Formats the text between a placeholder's outermost braces.
pub fn format_placeholder(inner: &Vec<char>, args: &[(&str, Value)], locale: Option<&str>) -> (r: Vec<
    char,
>)
    ensures
        r@ == placeholder(inner@, args@, opt_chars(locale)),
{
    assert(inner@.subrange(0, inner@.len() as int) =~= inner@);
    match find_comma(inner, 0) {
        None => {
            let name = trim_range(inner, 0, inner.len());
            match lookup_arg(args, &name) {
                Some(Value::String(v)) => chars_of(v.as_str()),
                Some(Value::Number(n)) => chars_of(i64_decimal(*n).as_str()),
                None => kept_chars(&name),
            }
        },
        Some(c1) => {
            proof {
                lemma_comma_bounds(inner@, 0);
            }
            match find_comma(inner, c1 + 1) {
                None => kept_chars(inner),
                Some(c2) => {
                    proof {
                        lemma_comma_bounds(inner@, c1 + 1);
                    }
                    let kind = trim_range(inner, c1 + 1, c2);
                    let plural = chars_of("plural");
                    if same_chars(&kind, &plural) {
                        let name = trim_range(inner, 0, c1);
                        let branches = trim_range(inner, c2 + 1, inner.len());
                        plural_chars(inner, &name, &branches, args, locale)
                    } else {
                        kept_chars(inner)
                    }
                },
            }
        },
    }
}

/// Formats a message template with arguments: `{name}` substitutes an
/// argument, `{name, plural, one {..} other {..}}` picks the branch for the
/// count's plural category in `locale` (or "other") with `#` replaced by the
/// count; everything else is copied.
pub fn format_message(template: &str, args: &[(&str, Value)], locale: Option<&str>) -> (s: String)
    ensures
        s@ == render_from(template@, 0, args@, opt_chars(locale)),
{
    let t = chars_of(template);
    let mut out: Vec<char> = Vec::new();
    let mut pos: usize = 0;
    while pos < t.len()
        invariant
            t@ == template@,
            0 <= pos <= t@.len(),
            out@ + render_from(t@, pos as int, args@, opt_chars(locale)) == render_from(
                t@,
                0,
                args@,
                opt_chars(locale),
            ),
        decreases t@.len() - pos,
    {
        let ghost before = out@;
        if t[pos] != '{' {
            out.push(t[pos]);
            assert(out@ + render_from(t@, pos + 1, args@, opt_chars(locale)) =~= before + render_from(
                t@,
                pos as int,
                args@,
                opt_chars(locale),
            ));
            pos += 1;
        } else {
            match find_matching_brace(&t, pos) {
                Some(close) => {
                    proof {
                        lemma_scan_close_bounds(t@, pos as int, 0);
                    }
                    let inner = slice_chars(&t, pos + 1, close);
                    let f = format_placeholder(&inner, args, locale);
                    push_all(&mut out, &f);
                    assert(out@ + render_from(t@, close + 1, args@, opt_chars(locale)) =~= before
                        + render_from(t@, pos as int, args@, opt_chars(locale)));
                    pos = close + 1;
                },
                None => {
                    out.push('{');
                    assert(out@ + render_from(t@, pos + 1, args@, opt_chars(locale)) =~= before
                        + render_from(t@, pos as int, args@, opt_chars(locale)));
                    pos += 1;
                },
            }
        }
    }
    assert(out@ =~= render_from(t@, 0, args@, opt_chars(locale)));
    string_of(out.as_slice())
}

/// The message for a key; a later entry for the same key wins.
pub open spec fn message_for(strings: Seq<(String, String)>, key: Seq<char>) -> Option<Seq<char>>
    decreases strings.len(),
{
    if strings.len() == 0 {
        None
    } else if strings.last().0@ == key {
        Some(strings.last().1@)
    } else {
        message_for(strings.drop_last(), key)
    }
}

/// A locale's messages: its locale tag and its message templates by key.
#[derive(Debug, Clone)]
pub struct Messages {
    /// The locale tag (such as "en").
    pub locale: String,
    /// Message templates by key.
    pub strings: Vec<(String, String)>,
}

fn message_lookup<'a>(strings: &'a Vec<(String, String)>, key: &str) -> (r: Option<&'a String>)
    ensures
        match message_for(strings@, key@) {
            Some(m) => r matches Some(s) && s@ == m,
            None => r is None,
        },
{
    let mut i: usize = strings.len();
    assert(strings@.take(strings@.len() as int) =~= strings@);
    while i > 0
        invariant
            0 <= i <= strings@.len(),
            message_for(strings@, key@) == message_for(strings@.take(i as int), key@),
        decreases i,
    {
        proof {
            assert(strings@.take(i as int).drop_last() =~= strings@.take(i - 1));
            assert(strings@.take(i as int).last() == strings@[i - 1]);
        }
        if str_eq(strings[i - 1].0.as_str(), key) {
            return Some(&strings[i - 1].1);
        }
        i -= 1;
    }
    proof {
        assert(strings@.take(0) =~= Seq::<(String, String)>::empty());
    }
    None
}

/// The text `t` gives for a key: the message, or the key itself when there
/// is none (so that a missing translation shows).
pub open spec fn lookup_text(strings: Seq<(String, String)>, key: Seq<char>) -> Seq<char> {
    match message_for(strings, key) {
        Some(m) => m,
        None => key,
    }
}

/// The text `t_args` gives for a key: the formatted message, or the key.
pub open spec fn formatted_text<'a>(
    m: Messages,
    key: Seq<char>,
    args: Seq<(&'a str, Value)>,
) -> Seq<char> {
    match message_for(m.strings@, key) {
        Some(template) => render_from(template, 0, args, Some(m.locale@)),
        None => key,
    }
}

impl Messages {
    /// A locale's messages.
    pub fn new(locale: &str, strings: Vec<(String, String)>) -> (m: Self)
        ensures
            m.locale@ == locale@,
            m.strings@ == strings@,
    {
        Messages { locale: locale.to_owned(), strings }
    }

    /// Looks up a message by key; the key itself when it has none.
    pub fn t(&self, key: &str) -> (s: String)
        ensures
            s@ == lookup_text(self.strings@, key@),
    {
        match message_lookup(&self.strings, key) {
            Some(m) => m.clone(),
            None => key.to_owned(),
        }
    }

    /// Looks up a message by key and formats it with the arguments under the
    /// messages' locale; the key itself when it has none.
    pub fn t_args(&self, key: &str, args: &[(&str, Value)]) -> (s: String)
        ensures
            s@ == formatted_text(*self, key@, args@),
    {
        match message_lookup(&self.strings, key) {
            Some(template) => format_message(template.as_str(), args, Some(self.locale.as_str())),
            None => key.to_owned(),
        }
    }
}

/// The error that refuses a locale without embedded messages.
pub open spec fn unsupported_locale_error(locale: Seq<char>) -> Seq<char> {
    "unsupported locale: "@ + locale
}

/// A locale's messages, loaded from the embedded English strings: only
/// `"en"` has embedded messages, every other locale is refused.
pub fn load_messages(locale: &str, embedded: Vec<(String, String)>) -> (r: Result<Messages, String>)
    ensures
        r is Ok <==> locale@ == "en"@,
        r matches Ok(m) ==> m.locale@ == locale@ && m.strings@ == embedded@,
        r matches Err(e) ==> e@ == unsupported_locale_error(locale@),
{
    if str_eq(locale, "en") {
        Ok(Messages::new(locale, embedded))
    } else {
        Err(join2("unsupported locale: ", locale))
    }
}

/// The messages in use: none until initialized, then those of the active
/// locale.
#[derive(Debug)]
pub struct MessageStore {
    current: Option<Messages>,
}

impl MessageStore {
    /// The messages in use, if initialized.
    pub closed spec fn active(&self) -> Option<Messages> {
        self.current
    }

    /// A store that is not initialized yet.
    pub fn new() -> (s: Self)
        ensures
            s.active() is None,
    {
        MessageStore { current: None }
    }

    /// Initializes the store with the given locale, whose messages are the
    /// embedded English strings. Only `"en"` ships with the application:
    /// any other locale is refused with `unsupported locale: <locale>` and
    /// the store is left as it is. A store already initialized keeps its
    /// messages.
    pub fn init(&mut self, locale: &str, embedded: Vec<(String, String)>) -> (r: Result<(), String>)
        ensures
            r is Ok <==> locale@ == "en"@,
            r matches Err(e) ==> e@ == unsupported_locale_error(locale@),
            r is Err ==> final(self).active() == old(self).active(),
            r is Ok && old(self).active() is None ==> (final(self).active() matches Some(m)
                && m.locale@ == locale@ && m.strings@ == embedded@),
            old(self).active() is Some ==> final(self).active() == old(self).active(),
    {
        let messages = match load_messages(locale, embedded) {
            Ok(m) => m,
            Err(e) => return Err(e),
        };
        if self.current.is_none() {
            self.current = Some(messages);
        }
        Ok(())
    }

    /// Switches the active locale, whose messages are the embedded English
    /// strings. Refused with `unsupported locale: <locale>` for any locale
    /// but `"en"`, and otherwise when the store was never initialized; a
    /// refusal leaves the store as it is.
    pub fn set_locale(&mut self, locale: &str, embedded: Vec<(String, String)>) -> (r: Result<(), String>)
        ensures
            locale@ != "en"@ ==> (r matches Err(e) && e@ == unsupported_locale_error(locale@)),
            locale@ == "en"@ && old(self).active() is None ==> (r matches Err(e)
                && e@ == "i18n not initialized; call init() first"@),
            r is Ok <==> (locale@ == "en"@ && old(self).active() is Some),
            r is Err ==> final(self).active() == old(self).active(),
            r is Ok ==> (final(self).active() matches Some(m) && m.locale@ == locale@
                && m.strings@ == embedded@),
    {
        let messages = match load_messages(locale, embedded) {
            Ok(m) => m,
            Err(e) => return Err(e),
        };
        if self.current.is_none() {
            return Err("i18n not initialized; call init() first".to_owned());
        }
        self.current = Some(messages);
        Ok(())
    }

    /// The active locale tag; the default locale when not initialized.
    pub fn get_current_locale(&self) -> (s: String)
        ensures
            s@ == match self.active() {
                Some(m) => m.locale@,
                None => DEFAULT_LOCALE@,
            },
    {
        match &self.current {
            Some(m) => m.locale.clone(),
            None => DEFAULT_LOCALE.to_owned(),
        }
    }

    /// Looks up a message by key; the key itself when it has none or the
    /// store is not initialized.
    pub fn t(&self, key: &str) -> (s: String)
        ensures
            s@ == match self.active() {
                Some(m) => lookup_text(m.strings@, key@),
                None => key@,
            },
    {
        match &self.current {
            Some(m) => m.t(key),
            None => key.to_owned(),
        }
    }

    /// Looks up and formats a message; the key itself when it has none or
    /// the store is not initialized.
    pub fn t_args(&self, key: &str, args: &[(&str, Value)]) -> (s: String)
        ensures
            s@ == match self.active() {
                Some(m) => formatted_text(m, key@, args@),
                None => key@,
            },
    {
        match &self.current {
            Some(m) => m.t_args(key, args),
            None => key.to_owned(),
        }
    }
}

/// The characters of `s` before its first `-` or `_`.
pub open spec fn first_segment(s: Seq<char>) -> Seq<char>
    decreases s.len(),
{
    if s.len() == 0 {
        s
    } else if first_segment(s.drop_last()).len() < s.drop_last().len() {
        first_segment(s.drop_last())
    } else if s.last() == '-' || s.last() == '_' {
        s.drop_last()
    } else {
        s
    }
}

/// The index of the first supported locale whose lowercase form is `target`.
pub open spec fn code_index(target: Seq<char>) -> Option<int> {
    let c = supported_locale_codes();
    if lowercase_of(c[0]) == target {
        Some(0)
    } else if lowercase_of(c[1]) == target {
        Some(1)
    } else if lowercase_of(c[2]) == target {
        Some(2)
    } else if lowercase_of(c[3]) == target {
        Some(3)
    } else {
        None
    }
}

/// The supported locale a locale string matches: the same code ignoring
/// case, or else the same base language (the part before `-` or `_`).
pub open spec fn supported_match(locale: Seq<char>) -> Option<int> {
    let lower = lowercase_of(locale);
    match code_index(lower) {
        Some(i) => Some(i),
        None => code_index(first_segment(lower)),
    }
}

fn first_segment_of(s: &Vec<char>) -> (r: Vec<char>)
    ensures
        r@ == first_segment(s@),
{
    let mut i: usize = 0;
    while i < s.len() && s[i] != '-' && s[i] != '_'
        invariant
            0 <= i <= s@.len(),
            forall|j: int| 0 <= j < i ==> s@[j] != '-' && s@[j] != '_',
            first_segment(s@.take(i as int)) == s@.take(i as int),
        decreases s@.len() - i,
    {
        proof {
            assert(s@.take(i + 1).drop_last() =~= s@.take(i as int));
        }
        i += 1;
    }
    proof {
        lemma_first_segment_stops(s@, i as int);
    }
    slice_chars(s, 0, i)
}

/// The first segment stops at the first separator and never grows past it.
proof fn lemma_first_segment_stops(s: Seq<char>, i: int)
    requires
        0 <= i <= s.len(),
        forall|j: int| 0 <= j < i ==> s[j] != '-' && s[j] != '_',
        first_segment(s.take(i)) == s.take(i),
        i < s.len() ==> (s[i] == '-' || s[i] == '_'),
    ensures
        first_segment(s) == s.subrange(0, i),
    decreases s.len() - i,
{
    if i == s.len() {
        assert(s.take(i) =~= s);
        assert(s.subrange(0, i) =~= s);
    } else {
        lemma_first_segment_prefix(s, i, s.len() as int);
    }
}

/// Past the first separator at `i`, the first segment stays `s[..i]`.
proof fn lemma_first_segment_prefix(s: Seq<char>, i: int, n: int)
    requires
        0 <= i < n <= s.len(),
        forall|j: int| 0 <= j < i ==> s[j] != '-' && s[j] != '_',
        first_segment(s.take(i)) == s.take(i),
        s[i] == '-' || s[i] == '_',
    ensures
        first_segment(s.take(n)) == s.subrange(0, i),
        n == s.len() ==> first_segment(s) == s.subrange(0, i),
    decreases n - i,
{
    if n == i + 1 {
        assert(s.take(n).drop_last() =~= s.take(i));
        assert(s.take(n).last() == s[i]);
        assert(s.take(i) =~= s.subrange(0, i));
    } else {
        lemma_first_segment_prefix(s, i, n - 1);
        assert(s.take(n).drop_last() =~= s.take(n - 1));
    }
    if n == s.len() {
        assert(s.take(n) =~= s);
    }
}

fn code_index_of(lower_codes: &Vec<Vec<char>>, target: &Vec<char>) -> (r: Option<usize>)
    requires
        lower_codes@.len() == 4,
        forall|i: int| 0 <= i < 4 ==> #[trigger] lower_codes@[i]@ == lowercase_of(supported_locale_codes()[i]),
    ensures
        r == match code_index(target@) {
            Some(i) => Some(i as usize),
            None => None::<usize>,
        },
{
    if same_chars(&lower_codes[0], target) {
        Some(0)
    } else if same_chars(&lower_codes[1], target) {
        Some(1)
    } else if same_chars(&lower_codes[2], target) {
        Some(2)
    } else if same_chars(&lower_codes[3], target) {
        Some(3)
    } else {
        None
    }
}

/// Matches a locale string against the supported locales: the same code
/// ignoring case first, then the same base language (so "en-US" gives
/// "en").
pub fn match_supported_locale(locale: &str) -> (r: Option<&'static str>)
    ensures
        match supported_match(locale@) {
            Some(i) => r matches Some(code) && code@ == supported_locale_codes()[i],
            None => r is None,
        },
{
    let codes = supported_locales();
    let mut lower_codes: Vec<Vec<char>> = Vec::new();
    let mut i: usize = 0;
    while i < 4
        invariant
            codes@.len() == 4,
            forall|k: int| 0 <= k < 4 ==> #[trigger] codes@[k]@ == supported_locale_codes()[k],
            0 <= i <= 4,
            lower_codes@.len() == i,
            forall|k: int| 0 <= k < i ==> #[trigger] lower_codes@[k]@ == lowercase_of(supported_locale_codes()[k]),
        decreases 4 - i,
    {
        let l = to_lowercase(codes[i]);
        lower_codes.push(chars_of(l.as_str()));
        i += 1;
    }
    let lower = chars_of(to_lowercase(locale).as_str());
    let found = match code_index_of(&lower_codes, &lower) {
        Some(k) => Some(k),
        None => {
            let prefix = first_segment_of(&lower);
            code_index_of(&lower_codes, &prefix)
        },
    };
    match found {
        Some(k) => Some(codes[k]),
        None => None,
    }
}

/// The locale in effect: the configured language when it matches a
/// supported locale, otherwise the system locale when it does, otherwise
/// the default.
pub open spec fn resolved_locale(config: Option<Seq<char>>, system: Option<Seq<char>>) -> Seq<char> {
    let from_config = match config {
        Some(l) => supported_match(l),
        None => None,
    };
    let from_system = match system {
        Some(l) => supported_match(l),
        None => None,
    };
    match from_config {
        Some(i) => supported_locale_codes()[i],
        None => match from_system {
            Some(i) => supported_locale_codes()[i],
            None => DEFAULT_LOCALE@,
        },
    }
}

/// Resolves the locale in effect from the configured language and the
/// system locale.
pub fn resolve_locale_with(config_language: Option<&str>, system_locale: Option<&str>) -> (r: &'static str)
    ensures
        r@ == resolved_locale(opt_chars(config_language), opt_chars(system_locale)),
{
    if let Some(lang) = config_language {
        if let Some(matched) = match_supported_locale(lang) {
            return matched;
        }
    }
    if let Some(sys) = system_locale {
        if let Some(matched) = match_supported_locale(sys) {
            return matched;
        }
    }
    DEFAULT_LOCALE
}

/// The system's locale, from `sys_locale::get_locale`.
///
/// Nothing is claimed of the value: it depends on the machine.
#[verifier::external_body]
fn system_locale() -> (r: Option<String>) {
    sys_locale::get_locale()
}

/// Resolves the locale in effect from the configured language, falling back
/// to the system locale and then to the default.
pub fn resolve_locale(config_language: Option<&str>) -> (r: &'static str)
    ensures
        exists|system: Option<Seq<char>>| r@ == resolved_locale(opt_chars(config_language), system),
{
    let sys = system_locale();
    let r = match &sys {
        Some(s) => resolve_locale_with(config_language, Some(s.as_str())),
        None => resolve_locale_with(config_language, None),
    };
    proof {
        let system = match sys {
            Some(s) => Some(s@),
            None => None,
        };
        assert(r@ == resolved_locale(opt_chars(config_language), system));
    }
    r
}

/// A duration in minutes as days, hours and minutes (negative counts as 0).
pub open spec fn duration_parts(total_minutes: i64) -> (u64, u64, u64) {
    let c: int = if total_minutes < 0 { 0 } else { total_minutes as int };
    ((c / 1440) as u64, ((c % 1440) / 60) as u64, (c % 60) as u64)
}

/// The plain text of a duration: "{d}d {h}h {m}m", "{h}h {m}m" or "{m}m",
/// from the largest unit present.
pub open spec fn plain_duration(days: u64, hours: u64, minutes: u64) -> Seq<char> {
    if days > 0 {
        decimal(days as int) + "d "@ + decimal(hours as int) + "h "@ + decimal(minutes as int) + "m"@
    } else if hours > 0 {
        decimal(hours as int) + "h "@ + decimal(minutes as int) + "m"@
    } else {
        decimal(minutes as int) + "m"@
    }
}

/// Splits a duration in minutes into days, hours and minutes.
pub fn split_duration(total_minutes: i64) -> (r: (u64, u64, u64))
    ensures
        r == duration_parts(total_minutes),
{
    let c: u64 = if total_minutes < 0 { 0 } else { total_minutes as u64 };
    (c / 1440, (c % 1440) / 60, c % 60)
}

/// The plain text of a duration, used when the locale's formatter cannot be
/// had.
pub fn plain_duration_text(days: u64, hours: u64, minutes: u64) -> (s: String)
    ensures
        s@ == plain_duration(days, hours, minutes),
{
    let m = u64_decimal(minutes);
    let tail = join2(m.as_str(), "m");
    if days > 0 {
        let d = u64_decimal(days);
        let h = u64_decimal(hours);
        let a = join3(d.as_str(), "d ", h.as_str());
        let b = join3(a.as_str(), "h ", tail.as_str());
        assert(b@ =~= plain_duration(days, hours, minutes));
        b
    } else if hours > 0 {
        let h = u64_decimal(hours);
        let b = join3(h.as_str(), "h ", tail.as_str());
        assert(b@ =~= plain_duration(days, hours, minutes));
        b
    } else {
        tail
    }
}

/// What ICU4X's duration formatter writes for a duration of days, hours and
/// minutes in `locale` (narrow or short style, the minute always shown);
/// none when the locale, the options or the formatter cannot be had.
pub uninterp spec fn icu_duration_text(locale: Seq<char>, narrow: bool, days: u64, hours: u64, minutes: u64) -> Option<Seq<char>>;

/// Formats a duration with `icu_experimental`'s `DurationFormatter` (narrow
/// or short base style, minutes always displayed), the locale parsed with
/// `icu_locale`; `None` when a step fails.
#[verifier::external_body]
fn icu_format_duration(locale: &str, narrow: bool, days: u64, hours: u64, minutes: u64) -> (r: Option<String>)
    ensures
        r matches Some(s) ==> icu_duration_text(locale@, narrow, days, hours, minutes) == Some(s@),
        r is None ==> icu_duration_text(locale@, narrow, days, hours, minutes) is None,
{
    let loc: icu_locale::Locale = locale.parse().ok()?;
    let mut opts = DurationFormatterOptions::default();
    opts.base = if narrow { BaseStyle::Narrow } else { BaseStyle::Short };
    opts.minute_visibility = Some(FieldDisplay::Always);
    let valid = ValidatedDurationFormatterOptions::validate(opts).ok()?;
    let f = DurationFormatter::try_new(loc.into(), valid).ok()?;
    let d = Duration { days, hours, minutes, ..Default::default() };
    Some(f.format(&d).to_string())
}

/// Whether a locale tag's language is English (the narrow duration style is
/// only right for English).
pub open spec fn english_tag(locale: Seq<char>) -> bool {
    first_segment(locale) == "en"@
}

/// The text of a duration in minutes under the store's locale: ICU4X's
/// narrow (English) or short style, or the plain text when the store is not
/// initialized or the formatter cannot be had.
pub open spec fn duration_text(active: Option<Messages>, total_minutes: i64) -> Seq<char> {
    let (d, h, m) = duration_parts(total_minutes);
    match active {
        None => plain_duration(d, h, m),
        Some(msgs) => match icu_duration_text(msgs.locale@, english_tag(msgs.locale@), d, h, m) {
            Some(t) => t,
            None => plain_duration(d, h, m),
        },
    }
}

/// Formats a duration in minutes under the store's locale (negative counts
/// as 0).
pub fn format_duration(store: &MessageStore, total_minutes: i64) -> (s: String)
    ensures
        s@ == duration_text(store.active(), total_minutes),
{
    let (d, h, m) = split_duration(total_minutes);
    match &store.current {
        None => plain_duration_text(d, h, m),
        Some(msgs) => {
            let tag = chars_of(msgs.locale.as_str());
            let lang = first_segment_of(&tag);
            let en = chars_of("en");
            let narrow = same_chars(&lang, &en);
            match icu_format_duration(msgs.locale.as_str(), narrow, d, h, m) {
                Some(t) => t,
                None => plain_duration_text(d, h, m),
            }
        },
    }
}

/// A wall-clock date and time in the user's time zone, with the field
/// types jiff's `Zoned` reports them in.
#[derive(Debug, Clone, Copy, PartialEq, Eq, Structural)]
pub struct LocalDateTime {
    /// The year.
    pub year: i16,
    /// The month, 1 to 12.
    pub month: i8,
    /// The day of the month, from 1.
    pub day: i8,
    /// The hour, 0 to 23.
    pub hour: i8,
    /// The minute, 0 to 59.
    pub minute: i8,
}

/// What ICU4X's date-time formatter writes for a time of day (hour and
/// minute) in `locale`; none when the locale, the time or the formatter
/// cannot be had.
pub uninterp spec fn icu_time_text(locale: Seq<char>, hour: u8, minute: u8) -> Option<Seq<char>>;

/// What ICU4X's date-time formatter writes for a weekday and time of day in
/// `locale`; none when the locale, the date, the time or the formatter
/// cannot be had.
pub uninterp spec fn icu_weekday_time_text(locale: Seq<char>, year: i32, month: u8, day: u8, hour: u8, minute: u8) -> Option<
    Seq<char>,
>;

/// Whether a year of the proleptic Gregorian calendar is a leap year.
pub open spec fn is_leap_year(year: int) -> bool {
    year % 4 == 0 && (year % 100 != 0 || year % 400 == 0)
}

/// The number of days in a month of a year.
pub open spec fn days_in_month(year: int, month: int) -> int {
    if month == 2 {
        if is_leap_year(year) { 29 } else { 28 }
    } else if month == 4 || month == 6 || month == 9 || month == 11 {
        30
    } else {
        31
    }
}

/// Whether jiff accepts a date: a year in -9999..=9999, a month in 1..=12
/// and a day that the month has.
pub open spec fn is_jiff_date(year: int, month: int, day: int) -> bool {
    -9999 <= year <= 9999 && 1 <= month <= 12 && 1 <= day <= days_in_month(year, month)
}

/// Days from 1970-01-01 to a date of the proleptic Gregorian calendar
/// (counting in 400-year eras of 146097 days, each year starting in March).
pub open spec fn days_from_civil(year: int, month: int, day: int) -> int {
    let y = if month <= 2 { year - 1 } else { year };
    let era = y / 400;
    let yoe = y - era * 400;
    let mp = (month + 9) % 12;
    let doy = (153 * mp + 2) / 5 + day - 1;
    let doe = yoe * 365 + yoe / 4 - yoe / 100 + doy;
    era * 146097 + doe - 719468
}

/// The English abbreviation of a weekday counted from Sunday (0) to
/// Saturday (6).
pub open spec fn weekday_name(index: int) -> Seq<char> {
    if index == 0 { "Sun"@ }
    else if index == 1 { "Mon"@ }
    else if index == 2 { "Tue"@ }
    else if index == 3 { "Wed"@ }
    else if index == 4 { "Thu"@ }
    else if index == 5 { "Fri"@ }
    else { "Sat"@ }
}

/// The abbreviated weekday name jiff writes for a date (`%a`): 1970-01-01
/// was a Thursday; empty when the date does not exist.
pub open spec fn weekday_abbreviation(year: i16, month: i8, day: i8) -> Seq<char> {
    if is_jiff_date(year as int, month as int, day as int) {
        weekday_name((days_from_civil(year as int, month as int, day as int) + 4) % 7)
    } else {
        Seq::empty()
    }
}

/// Formats a time of day with `icu_datetime`'s `DateTimeFormatter` (hour and
/// minute field set), the locale parsed with `icu_locale` and the time built
/// with `icu_time::Time::try_new`; `None` when a step fails.
#[verifier::external_body]
fn icu_format_time_of_day(locale: &str, hour: u8, minute: u8) -> (r: Option<String>)
    ensures
        r matches Some(s) ==> icu_time_text(locale@, hour, minute) == Some(s@),
        r is None ==> icu_time_text(locale@, hour, minute) is None,
{
    let loc: icu_locale::Locale = locale.parse().ok()?;
    let time = icu_time::Time::try_new(hour, minute, 0, 0).ok()?;
    let f = icu_datetime::DateTimeFormatter::try_new(loc.into(), icu_datetime::fieldsets::T::hm()).ok()?;
    Some(f.format(&time).to_string())
}

/// Formats a weekday and time of day with `icu_datetime`'s
/// `DateTimeFormatter` (short weekday-and-time field set), the date built
/// with `icu_calendar::Date::try_new_iso`; `None` when a step fails.
#[verifier::external_body]
fn icu_format_weekday_time(locale: &str, year: i32, month: u8, day: u8, hour: u8, minute: u8) -> (r: Option<String>)
    ensures
        r matches Some(s) ==> icu_weekday_time_text(locale@, year, month, day, hour, minute) == Some(s@),
        r is None ==> icu_weekday_time_text(locale@, year, month, day, hour, minute) is None,
{
    let loc: icu_locale::Locale = locale.parse().ok()?;
    let date = icu_calendar::Date::try_new_iso(year, month, day).ok()?;
    let time = icu_time::Time::try_new(hour, minute, 0, 0).ok()?;
    let input = icu_datetime::input::DateTime { date, time };
    let f = icu_datetime::DateTimeFormatter::try_new(loc.into(), icu_datetime::fieldsets::ET::short()).ok()?;
    Some(f.format(&input).to_string())
}

/// The abbreviated weekday of a date, from `jiff::civil::Date::new` and
/// `strftime("%a")`; empty when the date does not exist.
///
/// Claimed, as jiff's source shows: `Date::new` accepts exactly the years
/// -9999..=9999, the months 1..=12 and the days the month has (leap years
/// by the Gregorian rule), and `%a` writes the English three-letter name of
/// the date's weekday.
#[verifier::external_body]
fn jiff_weekday_abbreviation(year: i16, month: i8, day: i8) -> (s: String)
    ensures
        s@ == weekday_abbreviation(year, month, day),
{
    match jiff::civil::Date::new(year, month, day) {
        Ok(d) => d.strftime("%a").to_string(),
        Err(_) => String::new(),
    }
}

/// A clock field as a byte, `fallback` for a negative one.
pub open spec fn field_byte(v: i8, fallback: u8) -> u8 {
    if v >= 0 { v as u8 } else { fallback }
}

fn field_byte_of(v: i8, fallback: u8) -> (b: u8)
    ensures
        b == field_byte(v, fallback),
{
    if v >= 0 { v as u8 } else { fallback }
}

/// A number written with at least two digits.
pub open spec fn pad2(n: u8) -> Seq<char> {
    if n < 10 { "0"@ + decimal(n as int) } else { decimal(n as int) }
}

/// "H:MM" of an hour and minute.
pub open spec fn clock_text(hour: u8, minute: u8) -> Seq<char> {
    decimal(hour as int) + ":"@ + pad2(minute)
}

fn clock_string(hour: u8, minute: u8) -> (s: String)
    ensures
        s@ == clock_text(hour, minute),
{
    let h = u64_decimal(hour as u64);
    let m = u64_decimal(minute as u64);
    if minute < 10 {
        let r = join3(h.as_str(), ":0", m.as_str());
        proof {
            reveal_strlit(":0");
            reveal_strlit("0");
            reveal_strlit(":");
            assert(r@ =~= clock_text(hour, minute));
        }
        r
    } else {
        join3(h.as_str(), ":", m.as_str())
    }
}

/// The time of day of a local date-time in the store's locale, or "H:MM"
/// when the store is not initialized or the formatter cannot be had.
pub open spec fn time_only_text(active: Option<Messages>, t: LocalDateTime) -> Seq<char> {
    let h = field_byte(t.hour, 0);
    let m = field_byte(t.minute, 0);
    match active {
        None => clock_text(h, m),
        Some(msgs) => match icu_time_text(msgs.locale@, h, m) {
            Some(x) => x,
            None => clock_text(h, m),
        },
    }
}

/// The weekday and time of day of a local date-time in the store's locale,
/// or "{weekday} H:MM" when the store is not initialized or the formatter
/// cannot be had.
pub open spec fn weekday_time_text(active: Option<Messages>, t: LocalDateTime) -> Seq<char> {
    let h = field_byte(t.hour, 0);
    let m = field_byte(t.minute, 0);
    let fallback = weekday_abbreviation(t.year, t.month, t.day) + " "@ + clock_text(h, m);
    match active {
        None => fallback,
        Some(msgs) => match icu_weekday_time_text(
            msgs.locale@,
            t.year as i32,
            field_byte(t.month, 1),
            field_byte(t.day, 1),
            h,
            m,
        ) {
            Some(x) => x,
            None => fallback,
        },
    }
}

/// How a completion instant is shown: its time of day when it falls on the
/// same date as `now`, its weekday and time otherwise.
pub open spec fn completion_time_text(active: Option<Messages>, completion: LocalDateTime, now: LocalDateTime) -> Seq<char> {
    if completion.year == now.year && completion.month == now.month && completion.day == now.day {
        time_only_text(active, completion)
    } else {
        weekday_time_text(active, completion)
    }
}

/// Formats a completion time in the store's locale: the time only when it
/// is on the same date as `now`, with the weekday otherwise.
pub fn format_time(store: &MessageStore, completion: LocalDateTime, now: LocalDateTime) -> (s: String)
    ensures
        s@ == completion_time_text(store.active(), completion, now),
{
    let h = field_byte_of(completion.hour, 0);
    let m = field_byte_of(completion.minute, 0);
    let same_day = completion.year == now.year && completion.month == now.month && completion.day == now.day;
    if same_day {
        match &store.current {
            None => clock_string(h, m),
            Some(msgs) => match icu_format_time_of_day(msgs.locale.as_str(), h, m) {
                Some(x) => x,
                None => clock_string(h, m),
            },
        }
    } else {
        let fallback = {
            let w = jiff_weekday_abbreviation(completion.year, completion.month, completion.day);
            let c = clock_string(h, m);
            join3(w.as_str(), " ", c.as_str())
        };
        match &store.current {
            None => fallback,
            Some(msgs) => match icu_format_weekday_time(
                msgs.locale.as_str(),
                completion.year as i32,
                field_byte_of(completion.month, 1),
                field_byte_of(completion.day, 1),
                h,
                m,
            ) {
                Some(x) => x,
                None => fallback,
            },
        }
    }
}


/// A template with no `{` from `pos` on formats to itself: everything but
/// a placeholder is copied.
pub proof fn lemma_plain_template_unchanged<'a>(
    t: Seq<char>,
    pos: int,
    args: Seq<(&'a str, Value)>,
    locale: Option<Seq<char>>,
)
    requires
        0 <= pos <= t.len(),
        forall|i: int| pos <= i < t.len() ==> #[trigger] t[i] != '{',
    ensures
        render_from(t, pos, args, locale) == t.subrange(pos, t.len() as int),
    decreases t.len() - pos,
{
    if pos < t.len() {
        lemma_plain_template_unchanged(t, pos + 1, args, locale);
        assert(seq![t[pos]] + t.subrange(pos + 1, t.len() as int) =~= t.subrange(pos, t.len() as int));
    } else {
        assert(t.subrange(pos, t.len() as int) =~= Seq::<char>::empty());
    }
}

} // verus!
