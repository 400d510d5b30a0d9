//! The two exchanges with the inference endpoint: the prompts sent and how replies are read.
use vstd::prelude::*;
use crate::clean::{find_from, occurs_at, occurs_at_exec, trim, trimmed};
use crate::text::to_chars;

verus! {

broadcast use vstd::string::group_string_axioms;

/// How a reply of the filter stage reads.
#[derive(Debug, Clone, Copy, PartialEq, Eq, Structural)]
pub enum FilterReply {
    /// The reply is exactly `1` once trimmed.
    Relevant,
    /// The reply is exactly `0` once trimmed.
    Irrelevant,
    /// Anything else: read as not relevant, and worth an alert.
    Unrecognized,
}

pub open spec fn reply_kind(text: Seq<char>) -> FilterReply {
    if trim(text) == seq!['1'] {
        FilterReply::Relevant
    } else if trim(text) == seq!['0'] {
        FilterReply::Irrelevant
    } else {
        FilterReply::Unrecognized
    }
}

/// How the text of a filter reply reads.
pub fn read_filter_reply(text: &str) -> (r: FilterReply)
    ensures
        r == reply_kind(text@),
{
    let t = to_chars(trimmed(text).as_str());
    if t.len() == 1 && t[0] == '1' {
        assert(t@ =~= seq!['1']);
        FilterReply::Relevant
    } else if t.len() == 1 && t[0] == '0' {
        assert(t@ =~= seq!['0']);
        FilterReply::Irrelevant
    } else {
        assert(t@ != seq!['1'] && t@ != seq!['0']) by {
            if t@ == seq!['1'] || t@ == seq!['0'] {
                assert(t@.len() == 1);
            }
        };
        FilterReply::Unrecognized
    }
}

/// The verdict of the filter stage, from the text of the first choice of its reply
/// (`None` when the reply has no choice). Only an exact `1` counts as relevant.
pub fn filter_verdict(first_choice: &Option<String>) -> (r: bool)
    ensures
        r <==> (first_choice matches Some(t) && trim(t@) == seq!['1']),
{
    match first_choice {
        Some(t) => read_filter_reply(t.as_str()) == FilterReply::Relevant,
        None => false,
    }
}

/// The text that stands for a summary when the reply has no choice.
pub const EMPTY_SUMMARY: &'static str = "[empty summary]";

/// The summary, from the text of the first choice of the summarize reply.
pub fn summary_text(first_choice: &Option<String>) -> (r: String)
    ensures
        first_choice matches Some(t) ==> r@ == trim(t@),
        first_choice is None ==> r@ == EMPTY_SUMMARY@,
{
    match first_choice {
        Some(t) => trimmed(t.as_str()),
        None => EMPTY_SUMMARY.to_string(),
    }
}

/// The terms of a list, separated by a comma and a space.
pub open spec fn joined(terms: Seq<Seq<char>>) -> Seq<char>
    decreases terms.len(),
{
    if terms.len() == 0 {
        Seq::empty()
    } else if terms.len() == 1 {
        terms[0]
    } else {
        joined(terms.drop_last()) + seq![',', ' '] + terms.last()
    }
}

pub open spec fn views(v: Seq<String>) -> Seq<Seq<char>> {
    v.map_values(|t: String| t@)
}

/// The terms of `terms`, separated by a comma and a space.
pub fn join_terms(terms: &Vec<String>) -> (r: String)
    ensures
        r@ == joined(views(terms@)),
{
    let mut r = String::new();
    let mut i: usize = 0;
    proof {
        reveal_strlit(", ");
    }
    while i < terms.len()
        invariant
            i <= terms.len(),
            r@ == joined(views(terms@.take(i as int))),
        decreases terms.len() - i,
    {
        let ghost before = terms@.take(i as int);
        if i > 0 {
            r.append(", ");
        }
        r.append(terms[i].as_str());
        i += 1;
        let ghost w = views(terms@.take(i as int));
        assert(w.drop_last() =~= views(before));
        assert(w.last() == terms@[i - 1]@);
        proof {
            reveal_strlit(", ");
        }
        assert(", "@ =~= seq![',', ' ']);
    }
    assert(terms@.take(terms.len() as int) =~= terms@);
    r
}

pub const FILTER_OPENING: &'static str = "Avalie a relevância da notícia. Título: '";
pub const FILTER_AFTER_TITLE: &'static str = "' | Descrição: '";
pub const FILTER_AFTER_DESCRIPTION: &'static str = "'.\n\nCondições:\n1. A notícia é **principalmente** sobre um ou mais destes tópicos de INCLUSÃO: (";
pub const FILTER_AFTER_INCLUDED: &'static str = ")\n2. A notícia **NÃO pode** estar relacionado a nenhum dos seguintes termos: (";
pub const FILTER_CLOSING: &'static str = ").\n\nSe AMBAS as condições forem satisfeitas, responda '1'. Caso contrário, responda '0'. Responda APENAS '1' ou '0'.";

/// The user message of the filter stage.
pub open spec fn filter_message(
    title: Seq<char>,
    description: Seq<char>,
    included: Seq<char>,
    excluded: Seq<char>,
) -> Seq<char> {
    FILTER_OPENING@ + title + FILTER_AFTER_TITLE@ + description + FILTER_AFTER_DESCRIPTION@
        + included + FILTER_AFTER_INCLUDED@ + excluded + FILTER_CLOSING@
}

/// The user message of the filter stage: it embeds the title, the description and both
/// term lists, and asks for `1` or `0`.
pub fn filter_prompt(
    title: &str,
    description: &str,
    included: &Vec<String>,
    excluded: &Vec<String>,
) -> (r: String)
    ensures
        r@ == filter_message(title@, description@, joined(views(included@)), joined(views(excluded@))),
{
    let inc = join_terms(included);
    let exc = join_terms(excluded);
    let mut r = FILTER_OPENING.to_string();
    r.append(title);
    r.append(FILTER_AFTER_TITLE);
    r.append(description);
    r.append(FILTER_AFTER_DESCRIPTION);
    r.append(inc.as_str());
    r.append(FILTER_AFTER_INCLUDED);
    r.append(exc.as_str());
    r.append(FILTER_CLOSING);
    r
}

pub open spec fn placeholder() -> Seq<char> {
    seq!['{', '}']
}

/// The user message of the summarize stage: the first `{}` of the template takes the
/// title and the next one the description; a value with no placeholder left for it
/// follows the template after a space.
pub open spec fn summary_message(template: Seq<char>, title: Seq<char>, description: Seq<char>) -> Seq<char> {
    let a = find_from(template, placeholder(), 0);
    if a < 0 {
        template + seq![' '] + title + seq![' '] + description
    } else {
        let rest = template.skip(a + 2);
        let b = find_from(rest, placeholder(), 0);
        if b < 0 {
            template.take(a) + title + rest + seq![' '] + description
        } else {
            template.take(a) + title + rest.take(b) + description + rest.skip(b + 2)
        }
    }
}

/// A position that `find_from` gives is one where the pattern stands.
pub proof fn lemma_find_from_occurs(s: Seq<char>, pat: Seq<char>, i: int)
    ensures
        find_from(s, pat, i) >= 0 ==> i <= find_from(s, pat, i) && occurs_at(s, pat, find_from(s, pat, i)),
    decreases s.len() + 1 - i,
{
    if !(i < 0 || i + pat.len() > s.len()) && !occurs_at(s, pat, i) {
        lemma_find_from_occurs(s, pat, i + 1);
    }
}

/// Searching a suffix is searching the whole from where the suffix starts.
pub proof fn lemma_find_from_suffix(s: Seq<char>, pat: Seq<char>, k: int, i: int)
    requires
        0 <= k <= s.len(),
        0 <= i,
    ensures
        find_from(s.skip(k), pat, i) == (if find_from(s, pat, k + i) < 0 {
            -1
        } else {
            find_from(s, pat, k + i) - k
        }),
    decreases s.len() + 1 - (k + i),
{
    let t = s.skip(k);
    if i + pat.len() <= t.len() {
        assert(t.subrange(i, i + pat.len()) =~= s.subrange(k + i, k + i + pat.len()));
        if !occurs_at(t, pat, i) {
            lemma_find_from_suffix(s, pat, k, i + 1);
        }
    }
}

/// The first position at or after `from` where `pat` stands in `v`.
pub fn find_exec(v: &Vec<char>, pat: &Vec<char>, from: usize) -> (r: Option<usize>)
    requires
        pat@.len() > 0,
    ensures
        r matches Some(k) ==> from <= k && occurs_at(v@, pat@, k as int),
        find_from(v@, pat@, from as int) < 0 ==> r is None,
        find_from(v@, pat@, from as int) >= 0 ==> r == Some(find_from(v@, pat@, from as int) as usize),
{
    let mut i: usize = from;
    proof {
        lemma_find_from_occurs(v@, pat@, from as int);
    }
    while i < v.len() && pat.len() <= v.len() - i
        invariant
            pat@.len() > 0,
            from <= i,
            find_from(v@, pat@, from as int) == find_from(v@, pat@, i as int),
        decreases v.len() + 1 - i,
    {
        if occurs_at_exec(v, pat, i) {
            return Some(i);
        }
        i += 1;
    }
    None
}

fn push_all(r: &mut Vec<char>, v: &Vec<char>, from: usize, to: usize)
    requires
        from <= to <= v.len(),
    ensures
        final(r)@ == old(r)@ + v@.subrange(from as int, to as int),
{
    let mut i: usize = from;
    while i < to
        invariant
            from <= i <= to <= v.len(),
            r@ == old(r)@ + v@.subrange(from as int, i as int),
        decreases to - i,
    {
        r.push(v[i]);
        i += 1;
        assert(r@ =~= old(r)@ + v@.subrange(from as int, i as int));
    }
}

/// The user message of the summarize stage, from its template.
pub fn summary_prompt(template: &str, title: &str, description: &str) -> (r: String)
    ensures
        r@ == summary_message(template@, title@, description@),
{
    let t = to_chars(template);
    let ti = to_chars(title);
    let d = to_chars(description);
    let ph = to_chars("{}");
    proof {
        reveal_strlit("{}");
        assert(ph@ =~= placeholder());
    }
    let mut r: Vec<char> = Vec::new();
    match find_exec(&t, &ph, 0) {
        None => {
            push_all(&mut r, &t, 0, t.len());
            r.push(' ');
            push_all(&mut r, &ti, 0, ti.len());
            r.push(' ');
            push_all(&mut r, &d, 0, d.len());
        },
        Some(a) => {
            push_all(&mut r, &t, 0, a);
            push_all(&mut r, &ti, 0, ti.len());
            proof {
                lemma_find_from_suffix(t@, ph@, a + 2, 0);
            }
            match find_exec(&t, &ph, a + 2) {
                None => {
                    push_all(&mut r, &t, a + 2, t.len());
                    r.push(' ');
                    push_all(&mut r, &d, 0, d.len());
                },
                Some(b) => {
                    push_all(&mut r, &t, a + 2, b);
                    push_all(&mut r, &d, 0, d.len());
                    push_all(&mut r, &t, b + 2, t.len());
                },
            }
        },
    }
    proof {
        let tv = t@;
        let a = find_from(tv, placeholder(), 0);
        lemma_find_from_occurs(tv, placeholder(), 0);
        if a >= 0 {
            let rest = tv.skip(a + 2);
            let b = find_from(rest, placeholder(), 0);
            lemma_find_from_occurs(rest, placeholder(), 0);
            assert(tv.subrange(0, a) =~= tv.take(a));
            assert(tv.subrange(a + 2, tv.len() as int) =~= rest);
            if b >= 0 {
                assert(tv.subrange(a + 2, a + 2 + b) =~= rest.take(b));
                assert(tv.subrange(a + 2 + b + 2, tv.len() as int) =~= rest.skip(b + 2));
            }
        }
        assert(tv.subrange(0, tv.len() as int) =~= tv);
        assert(ti@.subrange(0, ti@.len() as int) =~= ti@);
        assert(d@.subrange(0, d@.len() as int) =~= d@);
        assert(r@ =~= summary_message(template@, title@, description@));
    }
    crate::text::from_chars(&r)
}

/// How many `{` the summary template holds; a well-formed one has two placeholders.
pub fn placeholder_count(template: &str) -> (r: usize)
    ensures
        r == template@.filter(|c: char| c == '{').len(),
{
    let t = to_chars(template);
    let mut n: usize = 0;
    let mut i: usize = 0;
    while i < t.len()
        invariant
            i <= t.len(),
            n == t@.take(i as int).filter(|c: char| c == '{').len(),
            n <= i,
        decreases t.len() - i,
    {
        assert(t@.take(i + 1).drop_last() =~= t@.take(i as int));
        reveal(Seq::filter);
        if t[i] == '{' {
            n += 1;
        }
        i += 1;
    }
    assert(t@.take(t.len() as int) =~= t@);
    n
}

} // verus!
