//! Turning the markup of a feed entry into the short plain text handed to the classifier.
use vstd::prelude::*;
use crate::text::{from_chars, to_chars};

verus! {

broadcast use vstd::string::group_string_axioms;

/// The pattern whose matches are markup tags: a `<`, then anything but `>`, then `>`.
pub const TAG_PATTERN: &'static str = "<[^>]*>";

/// Whitespace as `char::is_whitespace` has it (the Unicode `White_Space` property).
pub open spec fn is_space_char(c: char) -> bool {
    ('\u{9}' <= c && c <= '\u{d}') || c == ' ' || c == '\u{85}' || c == '\u{a0}'
        || c == '\u{1680}' || ('\u{2000}' <= c && c <= '\u{200a}') || c == '\u{2028}'
        || c == '\u{2029}' || c == '\u{202f}' || c == '\u{205f}' || c == '\u{3000}'
}

pub open spec fn trim_start(s: Seq<char>) -> Seq<char>
    decreases s.len(),
{
    if s.len() > 0 && is_space_char(s[0]) {
        trim_start(s.drop_first())
    } else {
        s
    }
}

pub open spec fn trim_end(s: Seq<char>) -> Seq<char>
    decreases s.len(),
{
    if s.len() > 0 && is_space_char(s.last()) {
        trim_end(s.drop_last())
    } else {
        s
    }
}

/// `s` without leading and trailing whitespace.
pub open spec fn trim(s: Seq<char>) -> Seq<char> {
    trim_end(trim_start(s))
}

/// Whether `pat` stands in `s` at position `i`.
pub open spec fn occurs_at(s: Seq<char>, pat: Seq<char>, i: int) -> bool {
    0 <= i && i + pat.len() <= s.len() && s.subrange(i, i + pat.len()) == pat
}

/// The first position at or after `i` where `pat` stands in `s`, or -1.
pub open spec fn find_from(s: Seq<char>, pat: Seq<char>, i: int) -> int
    decreases s.len() + 1 - i,
{
    if i < 0 || i + pat.len() > s.len() {
        -1
    } else if occurs_at(s, pat, i) {
        i
    } else {
        find_from(s, pat, i + 1)
    }
}

/// The first position at or after `j` that holds `>`, or the length of `s`.
pub open spec fn next_close(s: Seq<char>, j: int) -> int
    decreases s.len() - j,
{
    if j < 0 || j >= s.len() {
        s.len() as int
    } else if s[j] == '>' {
        j
    } else {
        next_close(s, j + 1)
    }
}

/// From position `i` on, each tag (a `<` up to the next `>`) replaced by `with`,
/// scanning from the left; a `<` that no `>` follows stays.
pub open spec fn tags_from(s: Seq<char>, i: int, with: Seq<char>) -> Seq<char>
    decreases s.len() - i,
{
    if i < 0 || i >= s.len() {
        Seq::empty()
    } else if s[i] == '<' && i < next_close(s, i + 1) < s.len() {
        with + tags_from(s, next_close(s, i + 1) + 1, with)
    } else {
        seq![s[i]] + tags_from(s, i + 1, with)
    }
}

/// `s` with every tag replaced by one space.
pub open spec fn tags_to_spaces(s: Seq<char>) -> Seq<char> {
    tags_from(s, 0, seq![' '])
}

/// `s` with each line feed and carriage return turned into a space.
pub open spec fn breaks_to_spaces(s: Seq<char>) -> Seq<char> {
    s.map_values(|c: char| if c == '\n' || c == '\r' { ' ' } else { c })
}

/// `s` with every run of spaces shortened to one space.
pub open spec fn collapse_spaces(s: Seq<char>) -> Seq<char>
    decreases s.len(),
{
    if s.len() < 2 {
        s
    } else if s[0] == ' ' && s[1] == ' ' {
        collapse_spaces(s.drop_first())
    } else {
        seq![s[0]] + collapse_spaces(s.drop_first())
    }
}

/// `s` with every occurrence of `pat` removed, scanning from the left without overlap.
pub open spec fn remove_all(s: Seq<char>, pat: Seq<char>) -> Seq<char>
    decreases s.len(),
{
    if s.len() == 0 || pat.len() == 0 {
        s
    } else if occurs_at(s, pat, 0) {
        remove_all(s.skip(pat.len() as int), pat)
    } else {
        seq![s[0]] + remove_all(s.drop_first(), pat)
    }
}

pub open spec fn pin_glyph() -> Seq<char> {
    seq!['\u{1f4ce}']
}

pub open spec fn https_prefix() -> Seq<char> {
    seq!['h', 't', 't', 'p', 's', ':', '/', '/']
}

pub open spec fn http_prefix() -> Seq<char> {
    seq!['h', 't', 't', 'p', ':', '/', '/']
}

pub open spec fn ordered_list_open() -> Seq<char> {
    seq!['<', 'o', 'l', '>']
}

/// What is left of text once its tags are gone: line breaks and runs of spaces
/// become one space, the pin glyph and the web protocol prefixes go, and the ends
/// are trimmed.
pub open spec fn tidy(s: Seq<char>) -> Seq<char> {
    trim(
        remove_all(
            remove_all(
                remove_all(collapse_spaces(breaks_to_spaces(s)), pin_glyph()),
                https_prefix(),
            ),
            http_prefix(),
        ),
    )
}

/// The plain text of a piece of markup.
pub open spec fn cleaned(raw: Seq<char>) -> Seq<char> {
    tidy(tags_to_spaces(raw))
}

/// The description passed on for a raw feed description: nothing when the raw text
/// opens with an ordered list, its plain text otherwise.
pub open spec fn entry_description(raw: Seq<char>) -> Seq<char> {
    if occurs_at(trim(raw), ordered_list_open(), 0) {
        Seq::empty()
    } else {
        cleaned(raw)
    }
}

/// Relies on regex::Regex::new and Regex::replace_all: for the tag pattern, every
/// leftmost non-overlapping match is replaced by `with`, which holds no `$`.
#[verifier::external_body]
fn replace_tags(pattern: &str, text: &str, with: &str) -> (r: Result<String, regex::Error>)
    requires
        pattern@ == TAG_PATTERN@,
        !with@.contains('$'),
    ensures
        r is Ok,
        r matches Ok(out) ==> out@ == tags_from(text@, 0, with@),
{
    match regex::Regex::new(pattern) {
        Ok(re) => Ok(re.replace_all(text, with).into_owned()),
        Err(e) => Err(e),
    }
}

/// Whether `pat` stands in `v` at position `i`.
pub fn occurs_at_exec(v: &Vec<char>, pat: &Vec<char>, i: usize) -> (r: bool)
    ensures
        r == occurs_at(v@, pat@, i as int),
{
    if i > v.len() || pat.len() > v.len() - i {
        return false;
    }
    let mut k: usize = 0;
    while k < pat.len()
        invariant
            i + pat.len() <= v.len(),
            k <= pat.len(),
            forall|m: int| 0 <= m < k ==> v@[i + m] == pat@[m],
        decreases pat.len() - k,
    {
        if v[i + k] != pat[k] {
            assert(v@.subrange(i as int, i + pat.len())[k as int] != pat@[k as int]);
            return false;
        }
        k += 1;
    }
    assert(v@.subrange(i as int, i + pat.len()) =~= pat@);
    true
}

fn trim_chars(v: &Vec<char>) -> (r: Vec<char>)
    ensures
        r@ == trim(v@),
{
    let n = v.len();
    let mut a: usize = 0;
    assert(v@.skip(0) =~= v@);
    while a < n && is_space(v[a])
        invariant
            a <= n == v.len(),
            trim_start(v@) == trim_start(v@.skip(a as int)),
        decreases n - a,
    {
        assert(v@.skip(a as int).drop_first() =~= v@.skip(a + 1));
        a += 1;
    }
    let ghost t = v@.skip(a as int);
    assert(trim_start(t) == t);
    let mut b: usize = n;
    while b > a && is_space(v[b - 1])
        invariant
            a <= b <= n == v.len(),
            t == v@.skip(a as int),
            trim_end(t) == trim_end(v@.subrange(a as int, b as int)),
        decreases b - a,
    {
        assert(v@.subrange(a as int, b as int).drop_last() =~= v@.subrange(a as int, b - 1));
        b -= 1;
    }
    assert(v@.subrange(a as int, n as int) =~= t);
    let mut r: Vec<char> = Vec::new();
    let mut i: usize = a;
    while i < b
        invariant
            a <= i <= b <= n == v.len(),
            r@ == v@.subrange(a as int, i as int),
        decreases b - i,
    {
        r.push(v[i]);
        i += 1;
        assert(r@ =~= v@.subrange(a as int, i as int));
    }
    r
}

/// Whether `c` is whitespace.
pub fn is_space(c: char) -> (r: bool)
    ensures
        r == is_space_char(c),
{
    ('\u{9}' <= c && c <= '\u{d}') || c == ' ' || c == '\u{85}' || c == '\u{a0}'
        || c == '\u{1680}' || ('\u{2000}' <= c && c <= '\u{200a}') || c == '\u{2028}'
        || c == '\u{2029}' || c == '\u{202f}' || c == '\u{205f}' || c == '\u{3000}'
}

/// `s` without leading and trailing whitespace.
pub fn trimmed(s: &str) -> (r: String)
    ensures
        r@ == trim(s@),
{
    let v = to_chars(s);
    let t = trim_chars(&v);
    from_chars(&t)
}

fn breaks_to_spaces_exec(v: &Vec<char>) -> (r: Vec<char>)
    ensures
        r@ == breaks_to_spaces(v@),
{
    let mut r: Vec<char> = Vec::new();
    let mut i: usize = 0;
    while i < v.len()
        invariant
            i <= v.len(),
            r@ == breaks_to_spaces(v@.take(i as int)),
        decreases v.len() - i,
    {
        let c = v[i];
        if c == '\n' || c == '\r' {
            r.push(' ');
        } else {
            r.push(c);
        }
        i += 1;
        assert(r@ =~= breaks_to_spaces(v@.take(i as int)));
    }
    assert(v@.take(v.len() as int) =~= v@);
    r
}

fn collapse_spaces_exec(v: &Vec<char>) -> (r: Vec<char>)
    ensures
        r@ == collapse_spaces(v@),
{
    let mut r: Vec<char> = Vec::new();
    let mut i: usize = 0;
    assert(v@.skip(0) =~= v@);
    assert(r@ + collapse_spaces(v@) =~= collapse_spaces(v@));
    while i < v.len() && v.len() - i >= 2
        invariant
            i <= v.len(),
            collapse_spaces(v@) == r@ + collapse_spaces(v@.skip(i as int)),
        decreases v.len() - i,
    {
        let ghost rest = v@.skip(i as int);
        assert(rest.drop_first() =~= v@.skip(i + 1));
        let ghost before = r@;
        if !(v[i] == ' ' && v[i + 1] == ' ') {
            r.push(v[i]);
            assert(r@ + collapse_spaces(v@.skip(i + 1)) =~= before + (seq![v@[i as int]]
                + collapse_spaces(v@.skip(i + 1))));
        }
        i += 1;
    }
    while i < v.len()
        invariant
            i <= v.len(),
            collapse_spaces(v@) == r@ + v@.skip(i as int),
        decreases v.len() - i,
    {
        let ghost before = r@;
        r.push(v[i]);
        assert(r@ + v@.skip(i + 1) =~= before + v@.skip(i as int));
        i += 1;
    }
    assert(v@.skip(i as int) =~= Seq::<char>::empty());
    assert(r@ + v@.skip(i as int) =~= r@);
    r
}

fn remove_all_exec(v: &Vec<char>, pat: &Vec<char>) -> (r: Vec<char>)
    requires
        pat@.len() > 0,
    ensures
        r@ == remove_all(v@, pat@),
{
    let mut r: Vec<char> = Vec::new();
    let mut i: usize = 0;
    assert(v@.skip(0) =~= v@);
    assert(r@ + remove_all(v@, pat@) =~= remove_all(v@, pat@));
    while i < v.len()
        invariant
            i <= v.len(),
            pat@.len() > 0,
            remove_all(v@, pat@) == r@ + remove_all(v@.skip(i as int), pat@),
        decreases v.len() - i,
    {
        let ghost rest = v@.skip(i as int);
        let ghost before = r@;
        if occurs_at_exec(v, pat, i) {
            assert(rest.subrange(0, pat@.len() as int) =~= v@.subrange(i as int, i + pat@.len()));
            assert(rest.skip(pat@.len() as int) =~= v@.skip(i + pat.len()));
            i += pat.len();
        } else {
            assert(rest.len() >= pat@.len() ==> rest.subrange(0, pat@.len() as int)
                =~= v@.subrange(i as int, i + pat@.len()));
            assert(rest.drop_first() =~= v@.skip(i + 1));
            r.push(v[i]);
            assert(r@ + remove_all(v@.skip(i + 1), pat@) =~= before + (seq![v@[i as int]]
                + remove_all(v@.skip(i + 1), pat@)));
            i += 1;
        }
    }
    assert(v@.skip(i as int) =~= Seq::<char>::empty());
    assert(r@ + Seq::<char>::empty() =~= r@);
    r
}

/// The plain text left of text whose tags are already gone.
pub fn tidy_text(stripped: &str) -> (r: String)
    ensures
        r@ == tidy(stripped@),
{
    let pin = to_chars("\u{1f4ce}");
    let https = to_chars("https://");
    let http = to_chars("http://");
    proof {
        reveal_strlit("\u{1f4ce}");
        reveal_strlit("https://");
        reveal_strlit("http://");
        assert(pin@ =~= pin_glyph());
        assert(https@ =~= https_prefix());
        assert(http@ =~= http_prefix());
    }
    let v = to_chars(stripped);
    let v = breaks_to_spaces_exec(&v);
    let v = collapse_spaces_exec(&v);
    let v = remove_all_exec(&v, &pin);
    let v = remove_all_exec(&v, &https);
    let v = remove_all_exec(&v, &http);
    let v = trim_chars(&v);
    from_chars(&v)
}

/// The plain text of a piece of markup: tags become spaces, then the text is tidied.
pub fn clean_html_content(html: &str) -> (r: String)
    ensures
        r@ == cleaned(html@),
{
    proof {
        reveal_strlit(" ");
        reveal_strlit("<[^>]*>");
    }
    let stripped = replace_tags(TAG_PATTERN, html, " ");
    assert(seq![' '] =~= " "@);
    match stripped {
        Ok(s) => tidy_text(s.as_str()),
        Err(_) => {
            assert(false);
            String::new()
        },
    }
}

/// The description handed on for a raw feed description: empty when the raw text,
/// trimmed, opens with an ordered list, whatever follows; its plain text otherwise.
pub fn description_for(raw: &str) -> (r: String)
    ensures
        r@ == entry_description(raw@),
        occurs_at(trim(raw@), ordered_list_open(), 0) ==> r@.len() == 0,
{
    let t = trim_chars(&to_chars(raw));
    let ol = to_chars("<ol>");
    proof {
        reveal_strlit("<ol>");
        assert(ol@ =~= ordered_list_open());
    }
    if occurs_at_exec(&t, &ol, 0) {
        String::new()
    } else {
        clean_html_content(raw)
    }
}

} // verus!
