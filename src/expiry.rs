//! When a time-boxed weather alert has run out.
use vstd::prelude::*;
use crate::clean::{find_from, trim, trimmed};
use crate::text::{from_chars, to_chars};

verus! {

broadcast use vstd::string::group_string_axioms;

/// The pattern of the end-of-validity cell of an alert's table; its group is the timestamp.
pub const FIM_PATTERN: &'static str = "(?s)Fim<\\/th>.*?<td>(.*?)<\\/td>";

/// How long an alert counts as current after it was published, in milliseconds (72 hours).
pub const ALERT_LIFETIME_MS: i64 = 259200000;

pub open spec fn fim_head() -> Seq<char> {
    seq!['F', 'i', 'm', '<', '/', 't', 'h', '>']
}

pub open spec fn cell_open() -> Seq<char> {
    seq!['<', 't', 'd', '>']
}

pub open spec fn cell_close() -> Seq<char> {
    seq!['<', '/', 't', 'd', '>']
}

/// What the end-of-validity cell holds: after the first `Fim</th>`, the text between the
/// next `<td>` and the `</td>` that follows it.
pub open spec fn end_field(s: Seq<char>) -> Option<Seq<char>> {
    let a = find_from(s, fim_head(), 0);
    let p = find_from(s, cell_open(), a + 8);
    let q = find_from(s, cell_close(), p + 4);
    if a < 0 || p < 0 || q < 0 {
        None
    } else {
        Some(s.subrange(p + 4, q))
    }
}

/// `s` with every trailing `.0` removed.
pub open spec fn strip_point_zeros(s: Seq<char>) -> Seq<char>
    decreases s.len(),
{
    if s.len() >= 2 && s[s.len() - 2] == '.' && s[s.len() - 1] == '0' {
        strip_point_zeros(s.take(s.len() - 2))
    } else {
        s
    }
}

/// The RFC 3339 text made of a captured end timestamp: trimmed, spaces turned into
/// the date-time separator `T`, trailing `.0` removed, and `Z` appended.
pub open spec fn end_stamp_text(field: Seq<char>) -> Seq<char> {
    strip_point_zeros(trim(field).map_values(|c: char| if c == ' ' { 'T' } else { c })) + seq!['Z']
}

/// The instant, in milliseconds since the Unix epoch, that `chrono` reads in RFC 3339 text.
pub uninterp spec fn rfc3339_millis(s: Seq<char>) -> Option<i64>;

/// The instant, in milliseconds since the Unix epoch, that `chrono` reads in RFC 2822 text.
pub uninterp spec fn rfc2822_millis(s: Seq<char>) -> Option<i64>;

/// The end of validity that an alert's description states, when it states a readable one.
pub open spec fn stated_end(description: Seq<char>) -> Option<i64> {
    match end_field(description) {
        Some(f) => rfc3339_millis(end_stamp_text(f)),
        None => None,
    }
}

/// An alert has expired when its stated end lies strictly before now; without one, when
/// more than the lifetime has passed since it was published; without either, never.
pub open spec fn expired(end: Option<i64>, published: Option<i64>, now: i64) -> bool {
    match end {
        Some(e) => e < now,
        None => match published {
            Some(p) => now - p > ALERT_LIFETIME_MS,
            None => false,
        },
    }
}

/// Relies on regex::Regex::new and Regex::captures: for the end-of-validity pattern, the
/// first group of the leftmost match, which `end_field` describes.
#[verifier::external_body]
fn capture_end_field(pattern: &str, text: &str) -> (r: Result<Option<String>, regex::Error>)
    requires
        pattern@ == FIM_PATTERN@,
    ensures
        r is Ok,
        r matches Ok(o) ==> (o is Some <==> end_field(text@) is Some),
        r matches Ok(Some(f)) ==> end_field(text@) == Some(f@),
{
    match regex::Regex::new(pattern) {
        Ok(re) => Ok(re.captures(text).and_then(|c| c.get(1)).map(|m| m.as_str().to_string())),
        Err(e) => Err(e),
    }
}

/// Relies on chrono::DateTime::parse_from_rfc3339 and DateTime::timestamp_millis.
#[verifier::external_body]
fn parse_rfc3339_millis(s: &str) -> (r: Option<i64>)
    ensures
        r == rfc3339_millis(s@),
{
    chrono::DateTime::parse_from_rfc3339(s).ok().map(|d| d.timestamp_millis())
}

/// Relies on chrono::DateTime::parse_from_rfc2822 and DateTime::timestamp_millis.
#[verifier::external_body]
fn parse_rfc2822_millis(s: &str) -> (r: Option<i64>)
    ensures
        r == rfc2822_millis(s@),
{
    chrono::DateTime::parse_from_rfc2822(s).ok().map(|d| d.timestamp_millis())
}

/// Relies on chrono::Utc::now: the current instant, in milliseconds since the Unix epoch.
#[verifier::external_body]
pub(crate) fn now_millis() -> (r: i64) {
    chrono::Utc::now().timestamp_millis()
}

/// Whether an alert has expired, from its stated end and its publication instant.
pub fn expiry_verdict(end: Option<i64>, published: Option<i64>, now: i64) -> (r: bool)
    ensures
        r == expired(end, published, now),
{
    match end {
        Some(e) => e < now,
        None => match published {
            Some(p) => (now as i128) - (p as i128) > ALERT_LIFETIME_MS as i128,
            None => false,
        },
    }
}

/// The RFC 3339 text of a captured end timestamp.
pub fn end_stamp(field: &str) -> (r: String)
    ensures
        r@ == end_stamp_text(field@),
{
    let t = to_chars(trimmed(field).as_str());
    let mut v: Vec<char> = Vec::new();
    let mut i: usize = 0;
    while i < t.len()
        invariant
            i <= t.len(),
            v@ == t@.take(i as int).map_values(|c: char| if c == ' ' { 'T' } else { c }),
        decreases t.len() - i,
    {
        if t[i] == ' ' {
            v.push('T');
        } else {
            v.push(t[i]);
        }
        i += 1;
        assert(v@ =~= t@.take(i as int).map_values(|c: char| if c == ' ' { 'T' } else { c }));
    }
    assert(t@.take(t.len() as int) =~= t@);
    let ghost mapped = v@;
    let mut n: usize = v.len();
    assert(mapped.take(v.len() as int) =~= mapped);
    while n >= 2 && v[n - 2] == '.' && v[n - 1] == '0'
        invariant
            n <= v.len(),
            v@ == mapped,
            strip_point_zeros(mapped) == strip_point_zeros(mapped.take(n as int)),
        decreases n,
    {
        assert(mapped.take(n as int).take(n - 2) =~= mapped.take(n - 2));
        n -= 2;
    }
    let mut r: Vec<char> = Vec::new();
    let mut k: usize = 0;
    while k < n
        invariant
            k <= n <= v.len(),
            r@ == v@.take(k as int),
        decreases n - k,
    {
        r.push(v[k]);
        k += 1;
        assert(r@ =~= v@.take(k as int));
    }
    r.push('Z');
    from_chars(&r)
}

/// Whether an alert with this description and publication date has expired at `now`
/// (milliseconds since the Unix epoch).
pub fn is_inmet_alert_expired(description: &str, pub_date: &Option<String>, now: i64) -> (r: bool)
    ensures
        r == expired(
            stated_end(description@),
            match pub_date {
                Some(d) => rfc2822_millis(d@),
                None => None,
            },
            now,
        ),
{
    proof {
        reveal_strlit("(?s)Fim<\\/th>.*?<td>(.*?)<\\/td>");
    }
    let end = match capture_end_field(FIM_PATTERN, description) {
        Ok(Some(f)) => parse_rfc3339_millis(end_stamp(f.as_str()).as_str()),
        _ => None,
    };
    let published = match pub_date {
        Some(d) => parse_rfc2822_millis(d.as_str()),
        None => None,
    };
    expiry_verdict(end, published, now)
}

} // verus!
