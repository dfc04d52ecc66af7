//! Reading the tail of the log: which log file is the newest, which bytes to
//! read, and which entries of the read window to return.
//!
//! The log is written one JSON object per line to daily files named
//! `storekeeper.<date>.log`.

use vstd::prelude::*;
use crate::text::{chars_of, slice_chars, string_of};

verus! {

/// File name prefix of the daily log files.
pub const LOG_FILE_PREFIX: &'static str = "storekeeper";

/// File name suffix of the daily log files.
pub const LOG_FILE_SUFFIX: &'static str = "log";

/// Upper bound on how much of a log file's tail is read for one request.
pub const TAIL_READ_BYTES: u64 = 1048576;

/// A line without the carriage return that ended it.
pub open spec fn strip_cr(line: Seq<char>) -> Seq<char> {
    if line.len() > 0 && line.last() == '\r' {
        line.drop_last()
    } else {
        line
    }
}

/// The first newline at or after `from`.
pub open spec fn newline_from(s: Seq<char>, from: int) -> Option<int>
    decreases s.len() - from,
{
    if from < 0 || from >= s.len() {
        None
    } else if s[from] == '\n' {
        Some(from)
    } else {
        newline_from(s, from + 1)
    }
}

/// A found newline lies at or after where the search began.
pub proof fn lemma_newline_bounds(s: Seq<char>, from: int)
    ensures
        newline_from(s, from) matches Some(k) ==> 0 <= from <= k < s.len() && s[k] == '\n',
    decreases s.len() - from,
{
    if 0 <= from < s.len() && s[from] != '\n' {
        lemma_newline_bounds(s, from + 1);
    }
}

/// The lines of `s[from..]` as `str::lines` gives them: split after each
/// newline, a final line ending being optional, each line without its
/// `\n` or `\r\n`.
pub open spec fn lines_from(s: Seq<char>, from: int) -> Seq<Seq<char>>
    decreases s.len() - from,
{
    if from < 0 || from >= s.len() {
        Seq::empty()
    } else {
        match newline_from(s, from) {
            None => seq![s.subrange(from, s.len() as int)],
            Some(k) => {
                proof {
                    lemma_newline_bounds(s, from);
                }
                seq![strip_cr(s.subrange(from, k))] + lines_from(s, k + 1)
            },
        }
    }
}

fn find_newline(s: &Vec<char>, from: usize) -> (r: Option<usize>)
    requires
        from <= s@.len(),
    ensures
        r == match newline_from(s@, from as int) {
            Some(k) => Some(k as usize),
            None => None::<usize>,
        },
        r matches Some(k) ==> from <= k < s.len(),
{
    let mut i = from;
    while i < s.len()
        invariant
            from <= i <= s@.len(),
            newline_from(s@, from as int) == newline_from(s@, i as int),
        decreases s@.len() - i,
    {
        if s[i] == '\n' {
            return Some(i);
        }
        i += 1;
    }
    None
}

/// The lines of a text, as `str::lines` gives them.
pub fn text_lines(text: &str) -> (v: Vec<String>)
    ensures
        v@.len() == lines_from(text@, 0).len(),
        forall|i: int| 0 <= i < v@.len() ==> #[trigger] v@[i]@ == lines_from(text@, 0)[i],
{
    let s = chars_of(text);
    let mut v: Vec<String> = Vec::new();
    let mut pos: usize = 0;
    while pos < s.len()
        invariant
            s@ == text@,
            0 <= pos <= s@.len(),
            v@.len() + lines_from(s@, pos as int).len() == lines_from(s@, 0).len(),
            forall|i: int| 0 <= i < v@.len() ==> #[trigger] v@[i]@ == lines_from(s@, 0)[i],
            forall|i: int| 0 <= i < lines_from(s@, pos as int).len() ==> #[trigger] lines_from(
                s@,
                pos as int,
            )[i] == lines_from(s@, 0)[v@.len() + i],
        decreases s@.len() - pos,
    {
        match find_newline(&s, pos) {
            None => {
                let line = slice_chars(&s, pos, s.len());
                let ghost rest = lines_from(s@, pos as int);
                assert(rest =~= seq![s@.subrange(pos as int, s@.len() as int)]);
                assert(rest[0] == lines_from(s@, 0)[v@.len() as int]);
                v.push(string_of(line.as_slice()));
                pos = s.len();
                assert(lines_from(s@, pos as int) =~= Seq::<Seq<char>>::empty());
            },
            Some(k) => {
                proof {
                    lemma_newline_bounds(s@, pos as int);
                }
                let ghost rest = lines_from(s@, pos as int);
                let ghost tail = lines_from(s@, k + 1);
                assert(rest =~= seq![strip_cr(s@.subrange(pos as int, k as int))] + tail);
                let mut end = k;
                if end > pos && s[end - 1] == '\r' {
                    end = end - 1;
                }
                let line = slice_chars(&s, pos, end);
                assert(line@ =~= strip_cr(s@.subrange(pos as int, k as int)));
                assert(rest[0] == lines_from(s@, 0)[v@.len() as int]);
                let ghost n = v@.len();
                v.push(string_of(line.as_slice()));
                proof {
                    assert forall|i: int| 0 <= i < tail.len() implies #[trigger] tail[i] == lines_from(
                        s@,
                        0,
                    )[v@.len() + i] by {
                        assert(tail[i] == rest[i + 1]);
                    }
                }
                pos = k + 1;
            },
        }
    }
    v
}

/// The entries returned from a read window: its lines, without the first
/// when the window opened inside it, and of those the last `count`, in
/// order.
pub open spec fn tail_entries(window: Seq<char>, partial_first: bool, count: usize) -> Seq<Seq<char>> {
    let all = lines_from(window, 0);
    let kept = if partial_first && all.len() > 0 { all.subrange(1, all.len() as int) } else { all };
    let skip = if kept.len() > count { kept.len() - count } else { 0 };
    kept.subrange(skip, kept.len() as int)
}

/// Drops a partial first entry, then returns the last `count` entries in
/// order.
pub fn tail_lines(window: &str, partial_first: bool, count: usize) -> (v: Vec<String>)
    ensures
        v@.len() == tail_entries(window@, partial_first, count).len(),
        forall|i: int| 0 <= i < v@.len() ==> #[trigger] v@[i]@ == tail_entries(
            window@,
            partial_first,
            count,
        )[i],
{
    let all = text_lines(window);
    let first: usize = if partial_first && all.len() > 0 { 1 } else { 0 };
    let available = all.len() - first;
    let skip = if available > count { available - count } else { 0 };
    let mut v: Vec<String> = Vec::new();
    let mut i = first + skip;
    while i < all.len()
        invariant
            first + skip <= i <= all@.len(),
            v@.len() == i - first - skip,
            all@.len() == lines_from(window@, 0).len(),
            forall|j: int| 0 <= j < all@.len() ==> #[trigger] all@[j]@ == lines_from(window@, 0)[j],
            forall|j: int| 0 <= j < v@.len() ==> #[trigger] v@[j]@ == all@[first + skip + j]@,
        decreases all@.len() - i,
    {
        v.push(all[i].clone());
        i += 1;
    }
    proof {
        let t = tail_entries(window@, partial_first, count);
        assert(t.len() == v@.len());
        assert forall|j: int| 0 <= j < v@.len() implies #[trigger] v@[j]@ == t[j] by {
            assert(v@[j]@ == all@[first + skip + j]@);
        }
    }
    v
}

/// Where a tail read starts: at most `window_bytes` before the end of the
/// file, one byte earlier when the window does not start the file (to tell
/// a line boundary from a cut line); and whether it does so.
pub open spec fn read_start(length: u64, window_bytes: u64) -> (u64, bool) {
    let start: int = if length > window_bytes { length - window_bytes } else { 0 };
    if start > 0 { ((start - 1) as u64, true) } else { (0u64, false) }
}

/// Where to seek before reading the tail of a file of `length` bytes, and
/// whether one probe byte precedes the window.
pub fn tail_read_start(length: u64, window_bytes: u64) -> (r: (u64, bool))
    ensures
        r == read_start(length, window_bytes),
{
    let start = length.saturating_sub(window_bytes);
    if start > 0 { (start - 1, true) } else { (0, false) }
}

/// The entries of a read window, which begins with the probe byte when
/// `probed`: a probe that is a newline means the window opens on a line
/// boundary; any other probe means its first line is cut.
pub open spec fn window_entries(window: Seq<char>, probed: bool, count: usize) -> Seq<Seq<char>> {
    if probed && window.len() > 0 && window[0] == '\n' {
        tail_entries(window.subrange(1, window.len() as int), false, count)
    } else {
        tail_entries(window, probed, count)
    }
}

/// The last `count` whole entries of a read window.
pub fn tail_of_window(window: &str, probed: bool, count: usize) -> (v: Vec<String>)
    ensures
        v@.len() == window_entries(window@, probed, count).len(),
        forall|i: int| 0 <= i < v@.len() ==> #[trigger] v@[i]@ == window_entries(
            window@,
            probed,
            count,
        )[i],
{
    let cs = chars_of(window);
    if probed && cs.len() > 0 && cs[0] == '\n' {
        let rest = slice_chars(&cs, 1, cs.len());
        let whole = string_of(rest.as_slice());
        tail_lines(whole.as_str(), false, count)
    } else {
        tail_lines(window, probed, count)
    }
}

/// `a` sorts strictly before `b`, character by character.
pub open spec fn text_lt(a: Seq<char>, b: Seq<char>) -> bool
    decreases a.len(),
{
    if b.len() == 0 {
        false
    } else if a.len() == 0 {
        true
    } else if a[0] != b[0] {
        a[0] < b[0]
    } else {
        text_lt(a.subrange(1, a.len() as int), b.subrange(1, b.len() as int))
    }
}

fn chars_lt(a: &Vec<char>, b: &Vec<char>) -> (r: bool)
    ensures
        r == text_lt(a@, b@),
{
    let mut i: usize = 0;
    assert(a@.subrange(0, a@.len() as int) =~= a@);
    assert(b@.subrange(0, b@.len() as int) =~= b@);
    while i < a.len() && i < b.len() && a[i] == b[i]
        invariant
            0 <= i <= a@.len(),
            i <= b@.len(),
            text_lt(a@, b@) == text_lt(a@.subrange(i as int, a@.len() as int), b@.subrange(
                i as int,
                b@.len() as int,
            )),
        decreases a@.len() - i,
    {
        proof {
            let sa = a@.subrange(i as int, a@.len() as int);
            let sb = b@.subrange(i as int, b@.len() as int);
            assert(sa.subrange(1, sa.len() as int) =~= a@.subrange(i + 1, a@.len() as int));
            assert(sb.subrange(1, sb.len() as int) =~= b@.subrange(i + 1, b@.len() as int));
        }
        i += 1;
    }
    if i == b.len() {
        false
    } else if i == a.len() {
        true
    } else {
        a[i] < b[i]
    }
}

/// A file name is a daily log file's: it starts with the prefix and ends
/// with the suffix.
pub open spec fn is_log_name(name: Seq<char>) -> bool {
    name.len() >= LOG_FILE_PREFIX@.len() && name.subrange(0, LOG_FILE_PREFIX@.len() as int)
        == LOG_FILE_PREFIX@ && name.len() >= LOG_FILE_SUFFIX@.len() && name.subrange(
        name.len() - LOG_FILE_SUFFIX@.len(),
        name.len() as int,
    ) == LOG_FILE_SUFFIX@
}

fn has_affixes(name: &Vec<char>, prefix: &Vec<char>, suffix: &Vec<char>) -> (r: bool)
    ensures
        r == (name@.len() >= prefix@.len() && name@.subrange(0, prefix@.len() as int) == prefix@
            && name@.len() >= suffix@.len() && name@.subrange(
            name@.len() - suffix@.len(),
            name@.len() as int,
        ) == suffix@),
{
    if name.len() < prefix.len() || name.len() < suffix.len() {
        return false;
    }
    let head = slice_chars(name, 0, prefix.len());
    let tail = slice_chars(name, name.len() - suffix.len(), name.len());
    let mut ok = head.len() == prefix.len();
    let mut i: usize = 0;
    while i < prefix.len()
        invariant
            head@ == name@.subrange(0, prefix@.len() as int),
            prefix@.len() <= name@.len(),
            head@.len() == prefix@.len(),
            0 <= i <= prefix@.len(),
            ok == forall|j: int| 0 <= j < i ==> head@[j] == prefix@[j],
        decreases prefix@.len() - i,
    {
        ok = ok && head[i] == prefix[i];
        i += 1;
    }
    let mut ok2 = true;
    let mut k: usize = 0;
    while k < suffix.len()
        invariant
            tail@ == name@.subrange(name@.len() - suffix@.len(), name@.len() as int),
            suffix@.len() <= name@.len(),
            tail@.len() == suffix@.len(),
            0 <= k <= suffix@.len(),
            ok2 == forall|j: int| 0 <= j < k ==> tail@[j] == suffix@[j],
        decreases suffix@.len() - k,
    {
        ok2 = ok2 && tail[k] == suffix[k];
        k += 1;
    }
    proof {
        if ok {
            assert(head@ =~= prefix@);
        }
        if ok2 {
            assert(tail@ =~= suffix@);
        }
    }
    ok && ok2
}

/// Picks the newest daily log file among a directory's file names: the
/// greatest log file name (the date stamp sorts by date); `None` when there
/// is none.
pub fn newest_log_name(names: &Vec<String>) -> (r: Option<String>)
    ensures
        r is None <==> forall|i: int| 0 <= i < names@.len() ==> !is_log_name(#[trigger] names@[i]@),
        r matches Some(n) ==> is_log_name(n@) && (exists|i: int| 0 <= i < names@.len()
            && #[trigger] names@[i]@ == n@) && forall|i: int| 0 <= i < names@.len() && is_log_name(
            #[trigger] names@[i]@,
        ) ==> !text_lt(n@, names@[i]@),
{
    let prefix = chars_of(LOG_FILE_PREFIX);
    let suffix = chars_of(LOG_FILE_SUFFIX);
    let mut best: Option<Vec<char>> = None;
    let mut best_index: usize = 0;
    let mut i: usize = 0;
    while i < names.len()
        invariant
            prefix@ == LOG_FILE_PREFIX@,
            suffix@ == LOG_FILE_SUFFIX@,
            0 <= i <= names@.len(),
            best is None <==> forall|j: int| 0 <= j < i ==> !is_log_name(#[trigger] names@[j]@),
            best matches Some(b) ==> best_index < i && b@ == names@[best_index as int]@ && is_log_name(
                b@,
            ) && forall|j: int| 0 <= j < i && is_log_name(#[trigger] names@[j]@) ==> !text_lt(
                b@,
                names@[j]@,
            ),
        decreases names@.len() - i,
    {
        let name = chars_of(names[i].as_str());
        if has_affixes(&name, &prefix, &suffix) {
            let replace = match &best {
                None => true,
                Some(b) => chars_lt(b, &name),
            };
            if replace {
                proof {
                    if best is Some {
                        let b = best->0@;
                        assert forall|j: int| 0 <= j < i + 1 && is_log_name(#[trigger] names@[j]@)
                            implies !text_lt(name@, names@[j]@) by {
                            if j < i {
                                lemma_text_lt_trans_not(name@, b, names@[j]@);
                            } else {
                                lemma_text_lt_irreflexive(name@);
                            }
                        }
                    } else {
                        assert forall|j: int| 0 <= j < i + 1 && is_log_name(#[trigger] names@[j]@)
                            implies !text_lt(name@, names@[j]@) by {
                            lemma_text_lt_irreflexive(name@);
                        }
                    }
                }
                best = Some(name);
                best_index = i;
            } else {
                proof {
                    let b = best->0@;
                    lemma_text_lt_total(b, name@);
                }
            }
        }
        i += 1;
    }
    match best {
        Some(b) => Some(string_of(b.as_slice())),
        None => None,
    }
}

/// No text sorts before itself.
pub proof fn lemma_text_lt_irreflexive(a: Seq<char>)
    ensures
        !text_lt(a, a),
    decreases a.len(),
{
    if a.len() > 0 {
        lemma_text_lt_irreflexive(a.subrange(1, a.len() as int));
    }
}

/// Between two texts, when neither sorts first they are equal.
pub proof fn lemma_text_lt_total(a: Seq<char>, b: Seq<char>)
    ensures
        !text_lt(a, b) && !text_lt(b, a) ==> a == b,
    decreases a.len(),
{
    if a.len() > 0 && b.len() > 0 && a[0] == b[0] {
        lemma_text_lt_total(a.subrange(1, a.len() as int), b.subrange(1, b.len() as int));
        if a.subrange(1, a.len() as int) == b.subrange(1, b.len() as int) {
            assert(a =~= seq![a[0]] + a.subrange(1, a.len() as int));
            assert(b =~= seq![b[0]] + b.subrange(1, b.len() as int));
        }
    } else if a.len() == 0 && b.len() == 0 {
        assert(a =~= b);
    }
}

/// When `b` sorts before `a` and nothing sorts after `b`, nothing sorts
/// after `a`.
pub proof fn lemma_text_lt_trans_not(a: Seq<char>, b: Seq<char>, c: Seq<char>)
    requires
        text_lt(b, a),
        !text_lt(b, c),
    ensures
        !text_lt(a, c),
    decreases a.len(),
{
    if a.len() > 0 && b.len() > 0 && c.len() > 0 && a[0] == b[0] && b[0] == c[0] {
        lemma_text_lt_trans_not(
            a.subrange(1, a.len() as int),
            b.subrange(1, b.len() as int),
            c.subrange(1, c.len() as int),
        );
    }
}

} // verus!
