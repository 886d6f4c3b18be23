use vstd::prelude::*;
use vstd::string::StrSliceExecFns;

verus! {

/// One observed request, as read from an access-log line.
#[derive(Debug, Clone)]
pub struct ParsedEvent {
    pub ip: String,
    pub status: u16,
    pub path: String,
    pub user_agent: Option<String>,
    /// Time of observation, in seconds.
    pub timestamp: u64,
}

/// The characters that separate whitespace-delimited words (Unicode White_Space).
pub open spec fn is_ws(c: char) -> bool {
    c == ' ' || ('\t' <= c && c <= '\r') || c == '\u{85}' || c == '\u{a0}' || c == '\u{1680}' || (
    '\u{2000}' <= c && c <= '\u{200a}') || c == '\u{2028}' || c == '\u{2029}' || c == '\u{202f}'
        || c == '\u{205f}' || c == '\u{3000}'
}

/// The first position at or after `i` that holds a quote, or the length.
pub open spec fn next_quote(s: Seq<char>, i: int) -> int
    decreases s.len() - i,
{
    if i < 0 || i >= s.len() {
        s.len() as int
    } else if s[i] == '"' {
        i
    } else {
        next_quote(s, i + 1)
    }
}

/// The position of the quote that ends the `k`-th quote-separated part, or the
/// length when that part is the last.
pub open spec fn part_end(s: Seq<char>, k: nat) -> int
    decreases k,
{
    if k == 0 {
        next_quote(s, 0)
    } else if part_end(s, (k - 1) as nat) >= s.len() {
        s.len() as int
    } else {
        next_quote(s, part_end(s, (k - 1) as nat) + 1)
    }
}

/// Where the `k`-th quote-separated part starts.
pub open spec fn part_start(s: Seq<char>, k: nat) -> int {
    if k == 0 { 0 } else { part_end(s, (k - 1) as nat) + 1 }
}

/// The line has a `k`-th quote-separated part.
pub open spec fn has_part(s: Seq<char>, k: nat) -> bool {
    k == 0 || part_end(s, (k - 1) as nat) < s.len()
}

/// The first position in `[i, hi)` that holds no whitespace, or `hi`.
pub open spec fn skip_ws(s: Seq<char>, i: int, hi: int) -> int
    decreases hi - i,
{
    if i >= hi || i < 0 || i >= s.len() {
        hi
    } else if !is_ws(s[i]) {
        i
    } else {
        skip_ws(s, i + 1, hi)
    }
}

/// The first position in `[i, hi)` that holds whitespace, or `hi`.
pub open spec fn skip_word(s: Seq<char>, i: int, hi: int) -> int
    decreases hi - i,
{
    if i >= hi || i < 0 || i >= s.len() {
        hi
    } else if is_ws(s[i]) {
        i
    } else {
        skip_word(s, i + 1, hi)
    }
}

/// The value of a string of decimal digits.
pub open spec fn digits_value(t: Seq<char>) -> int
    decreases t.len(),
{
    if t.len() == 0 {
        0
    } else {
        digits_value(t.drop_last()) * 10 + (t.last() as int - '0' as int)
    }
}

pub open spec fn is_digit(c: char) -> bool {
    '0' <= c && c <= '9'
}

/// A nonempty run of decimal digits whose value fits in `u16`.
pub open spec fn digits_u16(t: Seq<char>) -> Option<u16> {
    if t.len() > 0 && (forall|i: int| 0 <= i < t.len() ==> is_digit(#[trigger] t[i])) && digits_value(t)
        <= u16::MAX {
        Some(digits_value(t) as u16)
    } else {
        None
    }
}

/// A `u16` written in decimal with an optional leading plus sign.
pub open spec fn parse_u16(t: Seq<char>) -> Option<u16> {
    if t.len() > 0 && t[0] == '+' {
        digits_u16(t.drop_first())
    } else {
        digits_u16(t)
    }
}

/// The fields of a combined-format access-log line: address, status, path and
/// client string. The line is split at double quotes. The address is the first
/// word of the first part, the path the second word of the second part, the
/// status the first word of the third part, and the client string the whole
/// sixth part, when there is one.
pub open spec fn line_fields(s: Seq<char>) -> Option<(Seq<char>, u16, Seq<char>, Option<Seq<char>>)> {
    let ip_lo = skip_ws(s, 0, part_end(s, 0));
    let ip_hi = skip_word(s, ip_lo, part_end(s, 0));
    let w0 = skip_word(s, skip_ws(s, part_start(s, 1), part_end(s, 1)), part_end(s, 1));
    let path_lo = skip_ws(s, w0, part_end(s, 1));
    let path_hi = skip_word(s, path_lo, part_end(s, 1));
    let st_lo = skip_ws(s, part_start(s, 2), part_end(s, 2));
    let st_hi = skip_word(s, st_lo, part_end(s, 2));
    if !has_part(s, 1) || ip_lo >= part_end(s, 0) || path_lo >= part_end(s, 1) || !has_part(s, 2)
        || st_lo >= part_end(s, 2) || parse_u16(s.subrange(st_lo, st_hi)) is None {
        None
    } else {
        Some(
            (
                s.subrange(ip_lo, ip_hi),
                parse_u16(s.subrange(st_lo, st_hi))->Some_0,
                s.subrange(path_lo, path_hi),
                if has_part(s, 5) {
                    Some(s.subrange(part_start(s, 5), part_end(s, 5)))
                } else {
                    None
                },
            ),
        )
    }
}

/// The view of an optional string.
pub open spec fn opt_view(o: Option<String>) -> Option<Seq<char>> {
    match o {
        Some(t) => Some(t@),
        None => None,
    }
}

/// The characters of `line`, one per element.
fn chars_of(line: &str) -> (r: Vec<char>)
    ensures
        r@ == line@,
{
    let n = line.unicode_len();
    let mut r: Vec<char> = Vec::new();
    let mut i: usize = 0;
    while i < n
        invariant
            n == line@.len(),
            i <= n,
            r@ == line@.take(i as int),
        decreases n - i,
    {
        r.push(line.get_char(i));
        i = i + 1;
        assert(r@ =~= line@.take(i as int));
    }
    assert(r@ =~= line@);
    r
}

fn find_quote(s: &Vec<char>, i: usize) -> (r: usize)
    requires
        i <= s@.len(),
    ensures
        r == next_quote(s@, i as int),
        i <= r <= s@.len(),
{
    let mut j = i;
    while j < s.len() && s[j] != '"'
        invariant
            i <= j <= s@.len(),
            next_quote(s@, j as int) == next_quote(s@, i as int),
        decreases s@.len() - j,
    {
        j = j + 1;
    }
    j
}

fn find_non_ws(s: &Vec<char>, i: usize, hi: usize) -> (r: usize)
    requires
        i <= hi <= s@.len(),
    ensures
        r == skip_ws(s@, i as int, hi as int),
        i <= r <= hi,
{
    let mut j = i;
    while j < hi && is_whitespace(s[j])
        invariant
            i <= j <= hi,
            hi <= s@.len(),
            skip_ws(s@, j as int, hi as int) == skip_ws(s@, i as int, hi as int),
        decreases hi - j,
    {
        j = j + 1;
    }
    j
}

fn find_ws(s: &Vec<char>, i: usize, hi: usize) -> (r: usize)
    requires
        i <= hi <= s@.len(),
    ensures
        r == skip_word(s@, i as int, hi as int),
        i <= r <= hi,
{
    let mut j = i;
    while j < hi && !is_whitespace(s[j])
        invariant
            i <= j <= hi,
            hi <= s@.len(),
            skip_word(s@, j as int, hi as int) == skip_word(s@, i as int, hi as int),
        decreases hi - j,
    {
        j = j + 1;
    }
    j
}

fn is_whitespace(c: char) -> (r: bool)
    ensures
        r == is_ws(c),
{
    c == ' ' || ('\t' <= c && c <= '\r') || c == '\u{85}' || c == '\u{a0}' || c == '\u{1680}' || (
    '\u{2000}' <= c && c <= '\u{200a}') || c == '\u{2028}' || c == '\u{2029}' || c == '\u{202f}'
        || c == '\u{205f}' || c == '\u{3000}'
}

/// Parses `s[lo..hi]` as a decimal `u16` with an optional leading plus sign.
fn parse_status(s: &Vec<char>, lo: usize, hi: usize) -> (r: Option<u16>)
    requires
        lo <= hi <= s@.len(),
    ensures
        r == parse_u16(s@.subrange(lo as int, hi as int)),
{
    let ghost t = s@.subrange(lo as int, hi as int);
    let mut a = lo;
    if a < hi && s[a] == '+' {
        a = a + 1;
    }
    let ghost u = s@.subrange(a as int, hi as int);
    assert(parse_u16(t) == digits_u16(u)) by {
        if t.len() > 0 && t[0] == '+' {
            assert(t.drop_first() =~= u);
        } else {
            assert(t =~= u);
        }
    }
    if a == hi {
        return None;
    }
    let mut v: u64 = 0;
    let mut k = a;
    while k < hi
        invariant
            lo <= a <= k <= hi,
            hi <= s@.len(),
            u == s@.subrange(a as int, hi as int),
            parse_u16(s@.subrange(lo as int, hi as int)) == digits_u16(u),
            forall|m: int| a <= m < k ==> is_digit(#[trigger] s@[m]),
            v == if digits_value(s@.subrange(a as int, k as int)) <= 65536 {
                digits_value(s@.subrange(a as int, k as int))
            } else {
                65536
            },
            digits_value(s@.subrange(a as int, k as int)) >= 0,
        decreases hi - k,
    {
        let c = s[k];
        if !('0' <= c && c <= '9') {
            assert(u[k - a] == s@[k as int]);
            assert(!is_digit(u[k - a]));
            return None;
        }
        let d = (c as u32 - '0' as u32) as u64;
        assert(s@.subrange(a as int, k + 1).drop_last() =~= s@.subrange(a as int, k as int));
        let w = v * 10 + d;
        v = if w > 65536 { 65536 } else { w };
        k = k + 1;
    }
    assert(s@.subrange(a as int, k as int) =~= u);
    assert forall|i: int| 0 <= i < u.len() implies is_digit(#[trigger] u[i]) by {
        assert(u[i] == s@[a + i]);
    }
    if v <= 65535 {
        Some(v as u16)
    } else {
        None
    }
}

/// Parses one combined-format access-log line observed at `now`.
pub fn parse_line(line: &str, now: u64) -> (r: Option<ParsedEvent>)
    ensures
        match r {
            None => line_fields(line@) is None,
            Some(ev) => line_fields(line@) == Some((ev.ip@, ev.status, ev.path@, opt_view(ev.user_agent)))
                && ev.timestamp == now,
        },
{
    let s = chars_of(line);
    let n = s.len();
    let ghost l = line@;
    let e0 = find_quote(&s, 0);
    assert(part_end(l, 0) == e0);
    if e0 >= n {
        return None;
    }
    let ip_lo = find_non_ws(&s, 0, e0);
    if ip_lo >= e0 {
        return None;
    }
    let ip_hi = find_ws(&s, ip_lo, e0);
    let e1 = find_quote(&s, e0 + 1);
    assert(part_end(l, 1) == e1);
    let w = find_non_ws(&s, e0 + 1, e1);
    let w = find_ws(&s, w, e1);
    let path_lo = find_non_ws(&s, w, e1);
    if path_lo >= e1 {
        return None;
    }
    let path_hi = find_ws(&s, path_lo, e1);
    if e1 >= n {
        return None;
    }
    let e2 = find_quote(&s, e1 + 1);
    assert(part_end(l, 2) == e2);
    let st_lo = find_non_ws(&s, e1 + 1, e2);
    if st_lo >= e2 {
        return None;
    }
    let st_hi = find_ws(&s, st_lo, e2);
    let status = match parse_status(&s, st_lo, st_hi) {
        Some(v) => v,
        None => {
            return None;
        },
    };
    let mut user_agent: Option<String> = None;
    if e2 < n {
        let e3 = find_quote(&s, e2 + 1);
        assert(part_end(l, 3) == e3);
        if e3 < n {
            let e4 = find_quote(&s, e3 + 1);
            assert(part_end(l, 4) == e4);
            if e4 < n {
                let e5 = find_quote(&s, e4 + 1);
                assert(part_end(l, 5) == e5);
                user_agent = Some(line.substring_char(e4 + 1, e5).to_owned());
            }
        } else {
            assert(part_end(l, 4) == n);
        }
    } else {
        assert(part_end(l, 3) == n);
        assert(part_end(l, 4) == n);
    }
    assert(opt_view(user_agent) == if has_part(l, 5) {
        Some(l.subrange(part_start(l, 5), part_end(l, 5)))
    } else {
        None::<Seq<char>>
    });
    let ip = line.substring_char(ip_lo, ip_hi).to_owned();
    let path = line.substring_char(path_lo, path_hi).to_owned();
    let r = ParsedEvent { ip, status, path, user_agent, timestamp: now };
    assert(line_fields(l) == Some((r.ip@, r.status, r.path@, opt_view(r.user_agent))));
    Some(r)
}

} // verus!
