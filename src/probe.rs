//! Counting connected displays from what each platform exposes.
//!
//! Reading the kernel's display interface or running the system query is the
//! caller's; these functions turn what was read into a count. A probe that
//! cannot tell reports one display.
use vstd::prelude::*;

use crate::text::{chars_of, trim, trimmed};

verus! {

/// One entry of the kernel's display-connector directory: its name and, if it
/// could be read, the content of its `status` file.
pub struct Connector {
    pub name: String,
    pub status: Option<String>,
}

/// Connector entries are named like `card0-HDMI-A-1`.
pub open spec fn connector_name(name: Seq<char>) -> bool {
    &&& name.len() >= 4
    &&& name.subrange(0, 4) == "card"@
    &&& name.contains('-')
}

pub open spec fn connected(c: Connector) -> bool {
    &&& connector_name(c.name@)
    &&& match c.status {
        Some(s) => trimmed(s@) == "connected"@,
        None => false,
    }
}

/// How many of `entries` are connected connectors.
pub open spec fn connected_count(entries: Seq<Connector>) -> nat
    decreases entries.len(),
{
    if entries.len() == 0 {
        0
    } else {
        connected_count(entries.drop_last()) + if connected(entries.last()) {
            1nat
        } else {
            0nat
        }
    }
}

/// A count of displays, where none found means the probe could not tell.
pub open spec fn or_one(n: int) -> int {
    if n > 0 {
        n
    } else {
        1
    }
}

/// Whether `name` is that of a connector entry, whose status is worth reading.
pub fn is_connector_name(name: &str) -> (r: bool)
    ensures
        r == connector_name(name@),
{
    let cs = chars_of(name);
    if cs.len() < 4 {
        return false;
    }
    let prefix = String::from_str(name.substring_char(0, 4));
    if prefix != String::from_str("card") {
        return false;
    }
    assert(name@.subrange(0, 4) == "card"@);
    let mut i: usize = 0;
    while i < cs.len()
        invariant
            cs@ == name@,
            name@.len() >= 4,
            name@.subrange(0, 4) == "card"@,
            i <= cs@.len(),
            forall|j: int| 0 <= j < i ==> cs@[j] != '-',
        decreases cs@.len() - i,
    {
        if cs[i] == '-' {
            assert(name@[i as int] == '-');
            return true;
        }
        i = i + 1;
    }
    false
}

fn is_connected_entry(c: &Connector) -> (r: bool)
    ensures
        r == connected(*c),
{
    if !is_connector_name(c.name.as_str()) {
        return false;
    }
    match &c.status {
        Some(s) => trim(s.as_str()) == String::from_str("connected"),
        None => false,
    }
}

/// The display count from the kernel's connector entries: those that are
/// connected, or one if there are none (also when the directory was unreadable
/// and `entries` is empty).
pub fn count_connected(entries: &Vec<Connector>) -> (r: i32)
    requires
        entries@.len() <= i32::MAX,
    ensures
        r == or_one(connected_count(entries@) as int),
        r >= 1,
{
    let mut n: i32 = 0;
    let mut i: usize = 0;
    while i < entries.len()
        invariant
            i <= entries@.len(),
            entries@.len() <= i32::MAX,
            n == connected_count(entries@.subrange(0, i as int)),
            n <= i,
        decreases entries@.len() - i,
    {
        assert(entries@.subrange(0, i + 1).drop_last() =~= entries@.subrange(0, i as int));
        if is_connected_entry(&entries[i]) {
            n = n + 1;
        }
        i = i + 1;
    }
    assert(entries@.subrange(0, entries@.len() as int) =~= entries@);
    if n > 0 {
        n
    } else {
        1
    }
}

/// The number of non-overlapping occurrences of `p` in `s`, scanning from the
/// left, as `str::matches` finds them.
pub open spec fn match_count(s: Seq<char>, p: Seq<char>) -> nat
    decreases s.len(),
{
    if p.len() == 0 || s.len() < p.len() {
        0
    } else if s.subrange(0, p.len() as int) == p {
        1 + match_count(s.subrange(p.len() as int, s.len() as int), p)
    } else {
        match_count(s.drop_first(), p)
    }
}

fn matches_at(s: &Vec<char>, i: usize, p: &Vec<char>) -> (r: bool)
    requires
        i + p@.len() <= s@.len() <= usize::MAX,
    ensures
        r == (s@.subrange(i as int, i + p@.len()) == p@),
{
    let mut k: usize = 0;
    while k < p.len()
        invariant
            i + p@.len() <= s@.len() <= usize::MAX,
            k <= p@.len(),
            forall|j: int| 0 <= j < k ==> s@[i + j] == p@[j],
        decreases p@.len() - k,
    {
        if s[i + k] != p[k] {
            assert(s@.subrange(i as int, i + p@.len())[k as int] != p@[k as int]);
            return false;
        }
        k = k + 1;
    }
    assert(s@.subrange(i as int, i + p@.len()) =~= p@);
    true
}

/// The number of non-overlapping occurrences of `pattern` in `text`.
pub fn count_matches(text: &str, pattern: &str) -> (r: usize)
    ensures
        r == match_count(text@, pattern@),
{
    let s = chars_of(text);
    let p = chars_of(pattern);
    let n = s.len();
    let m = p.len();
    if m == 0 {
        return 0;
    }
    let mut count: usize = 0;
    let mut i: usize = 0;
    assert(s@.subrange(0, n as int) =~= s@);
    while m <= n - i
        invariant
            s@ == text@,
            p@ == pattern@,
            n == s@.len(),
            m == p@.len(),
            m > 0,
            i <= n,
            count <= i,
            match_count(text@, pattern@) == count + match_count(
                s@.subrange(i as int, n as int),
                p@,
            ),
        decreases n - i,
    {
        let ghost t = s@.subrange(i as int, n as int);
        if matches_at(&s, i, &p) {
            assert(t.subrange(0, m as int) =~= s@.subrange(i as int, i + m));
            assert(t.subrange(m as int, t.len() as int) =~= s@.subrange(i + m, n as int));
            count = count + 1;
            i = i + m;
        } else {
            assert(t.subrange(0, m as int) =~= s@.subrange(i as int, i + m));
            assert(t.drop_first() =~= s@.subrange(i + 1, n as int));
            i = i + 1;
        }
    }
    count
}

/// The display count from the system profiler's report: one per reported
/// resolution, or one if it reports none (the probe could not tell).
pub open spec fn profiler_count(report: Seq<char>) -> int {
    or_one(match_count(report, "Resolution:"@) as int)
}

pub fn count_from_profiler(report: &str) -> (r: i32)
    requires
        report@.len() <= i32::MAX,
    ensures
        r == profiler_count(report@),
        r >= 1,
{
    let n = count_matches(report, "Resolution:");
    proof {
        lemma_match_count_le(report@, "Resolution:"@);
    }
    if n > 0 {
        n as i32
    } else {
        1
    }
}

proof fn lemma_match_count_le(s: Seq<char>, p: Seq<char>)
    ensures
        match_count(s, p) <= s.len(),
    decreases s.len(),
{
    if p.len() == 0 || s.len() < p.len() {
    } else if s.subrange(0, p.len() as int) == p {
        lemma_match_count_le(s.subrange(p.len() as int, s.len() as int), p);
    } else {
        lemma_match_count_le(s.drop_first(), p);
    }
}

pub open spec fn is_digit(c: char) -> bool {
    '0' <= c <= '9'
}

pub open spec fn digit_value(c: char) -> int {
    (c as u32) - ('0' as u32)
}

/// The value of a string of decimal digits.
pub open spec fn digits_value(s: Seq<char>) -> int
    decreases s.len(),
{
    if s.len() == 0 {
        0
    } else {
        digits_value(s.drop_last()) * 10 + digit_value(s.last())
    }
}

pub open spec fn all_digits(s: Seq<char>) -> bool {
    forall|i: int| 0 <= i < s.len() ==> is_digit(#[trigger] s[i])
}

/// `s` starts with a sign.
pub open spec fn signed(s: Seq<char>) -> bool {
    s.len() > 0 && (s[0] == '-' || s[0] == '+')
}

/// `s` without its sign, if any.
pub open spec fn unsigned_part(s: Seq<char>) -> Seq<char> {
    if signed(s) {
        s.drop_first()
    } else {
        s
    }
}

/// The value that `s` denotes, sign included.
pub open spec fn signed_value(s: Seq<char>) -> int {
    if s.len() > 0 && s[0] == '-' {
        -digits_value(unsigned_part(s))
    } else {
        digits_value(unsigned_part(s))
    }
}

/// What `str::parse::<i32>` gives for `s`: an optional sign, then one or
/// more decimal digits, whose value must fit in `i32`.
pub open spec fn parsed_i32(s: Seq<char>) -> Option<i32> {
    if unsigned_part(s).len() == 0 || !all_digits(unsigned_part(s)) {
        None
    } else if i32::MIN <= signed_value(s) <= i32::MAX {
        Some(signed_value(s) as i32)
    } else {
        None
    }
}

proof fn lemma_digits_value_grows(s: Seq<char>, k: int)
    requires
        0 <= k <= s.len(),
        forall|i: int| 0 <= i < s.len() ==> is_digit(#[trigger] s[i]),
    ensures
        0 <= digits_value(s.subrange(0, k)) <= digits_value(s),
    decreases s.len() - k,
{
    if k < s.len() {
        lemma_digits_value_grows(s, k + 1);
        assert(s.subrange(0, k + 1).drop_last() =~= s.subrange(0, k));
    } else {
        assert(s.subrange(0, k) =~= s);
        lemma_digits_value_nonneg(s);
    }
}

proof fn lemma_digits_value_nonneg(s: Seq<char>)
    requires
        forall|i: int| 0 <= i < s.len() ==> is_digit(#[trigger] s[i]),
    ensures
        digits_value(s) >= 0,
    decreases s.len(),
{
    if s.len() > 0 {
        lemma_digits_value_nonneg(s.drop_last());
    }
}

/// Parses `s` as `str::parse::<i32>` does.
pub fn parse_i32(s: &str) -> (r: Option<i32>)
    ensures
        r == parsed_i32(s@),
{
    let cs = chars_of(s);
    let n = cs.len();
    let negative = n > 0 && cs[0] == '-';
    let start: usize = if n > 0 && (cs[0] == '-' || cs[0] == '+') {
        1
    } else {
        0
    };
    let ghost body = unsigned_part(s@);
    assert(body =~= s@.subrange(start as int, n as int));
    if start == n {
        return None;
    }
    let mut acc: i64 = 0;
    let mut i: usize = start;
    while i < n
        invariant
            cs@ == s@,
            n == s@.len(),
            start <= i <= n,
            start == 1 <==> (s@.len() > 0 && (s@[0] == '-' || s@[0] == '+')),
            start == 0 || start == 1,
            negative == (s@.len() > 0 && s@[0] == '-'),
            body == unsigned_part(s@),
            body == s@.subrange(start as int, n as int),
            forall|j: int| 0 <= j < i - start ==> is_digit(#[trigger] body[j]),
            acc == digits_value(body.subrange(0, i - start)),
            0 <= acc <= 0x8000_0000,
        decreases n - i,
    {
        let c = cs[i];
        if !('0' <= c && c <= '9') {
            assert(!is_digit(body[i - start]));
            return None;
        }
        let d = (c as u32 - '0' as u32) as i64;
        assert(body.subrange(0, i + 1 - start).drop_last() =~= body.subrange(0, i - start));
        acc = acc * 10 + d;
        i = i + 1;
        if acc > 0x8000_0000 {
            proof {
                if all_digits(body) {
                    lemma_digits_value_grows(body, i - start);
                }
            }
            return None;
        }
    }
    assert(body.subrange(0, n - start) =~= body);
    if negative {
        Some((0 - acc) as i32)
    } else if acc <= 0x7fff_ffff {
        Some(acc as i32)
    } else {
        None
    }
}

/// The display count from the system query's output: the number it prints,
/// or one if it prints no number or one below one (the probe could not tell).
pub open spec fn query_count(output: Seq<char>) -> i32 {
    match parsed_i32(trimmed(output)) {
        Some(v) => if v >= 1 {
            v
        } else {
            1
        },
        None => 1,
    }
}

pub fn count_from_query(output: &str) -> (r: i32)
    ensures
        r == query_count(output@),
        r >= 1,
{
    let t = trim(output);
    match parse_i32(t.as_str()) {
        Some(v) => if v >= 1 {
            v
        } else {
            1
        },
        None => 1,
    }
}

} // verus!
