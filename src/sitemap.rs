//! Resolving a sitemap tree: leaf sitemaps give candidate items, index sitemaps give
//! further sitemaps to fetch. The caller fetches; the walk decides.
use vstd::prelude::*;
use crate::flow::Outcome;
use crate::item::{item_views, opt_view, CandidateItem};
use crate::text::same_text;
use sitemap::reader::{SiteMapEntity, SiteMapReader};

verus! {

broadcast use vstd::string::group_string_axioms;

/// How deep below the root sitemap the walk goes.
pub const MAX_SITEMAP_DEPTH: usize = 16;

/// What a sitemap entity holds, as far as the walk reads it.
pub enum SitemapEntry {
    /// A page: its location and its last-modified time, when readable.
    Page { link: Option<String>, last_modified: Option<String> },
    /// A reference to another sitemap: its location, when readable.
    Index { link: Option<String> },
    /// Anything else, such as a read error.
    Other,
}

pub enum SitemapEntryModel {
    Page(Option<Seq<char>>, Option<Seq<char>>),
    Index(Option<Seq<char>>),
    Other,
}

impl View for SitemapEntry {
    type V = SitemapEntryModel;

    open spec fn view(&self) -> SitemapEntryModel {
        match self {
            SitemapEntry::Page { link, last_modified } => SitemapEntryModel::Page(
                opt_view(*link),
                opt_view(*last_modified),
            ),
            SitemapEntry::Index { link } => SitemapEntryModel::Index(opt_view(*link)),
            SitemapEntry::Other => SitemapEntryModel::Other,
        }
    }
}

/// The entities that the `sitemap` crate reads from a document, in order.
pub uninterp spec fn sitemap_entities(xml: Seq<u8>) -> Seq<SitemapEntryModel>;

/// Relies on sitemap::reader::SiteMapReader: the entities of the document, in order,
/// with each location and last-modified time turned into text.
#[verifier::external_body]
fn read_sitemap(xml: &[u8]) -> (r: Vec<SitemapEntry>)
    ensures
        r@.map_values(|e: SitemapEntry| e@) == sitemap_entities(xml@),
{
    SiteMapReader::new(xml).map(|e| match e {
        SiteMapEntity::Url(u) => SitemapEntry::Page {
            link: u.loc.get_url().map(|l| l.to_string()),
            last_modified: u.lastmod.get_time().map(|t| t.to_string()),
        },
        SiteMapEntity::SiteMap(s) => SitemapEntry::Index { link: s.loc.get_url().map(|l| l.to_string()) },
        SiteMapEntity::Err(_) => SitemapEntry::Other,
    }).collect()
}

pub const PAGE_TITLE_PREFIX: &'static str = "[Sitemap] ";
pub const LAST_MODIFIED_PREFIX: &'static str = "Last modified: ";
pub const NO_LAST_MODIFIED: &'static str = "[N/A]";

/// The candidate made of a page: its title names the link, its description the time
/// it was last modified.
pub open spec fn page_item(link: Seq<char>, last_modified: Option<Seq<char>>) -> (Seq<char>, Seq<char>, Seq<char>) {
    (
        link,
        PAGE_TITLE_PREFIX@ + link,
        LAST_MODIFIED_PREFIX@ + match last_modified {
            Some(t) => t,
            None => NO_LAST_MODIFIED@,
        },
    )
}

/// The candidates of a sitemap's entities: each page with a non-empty location, in order.
pub open spec fn level_items(es: Seq<SitemapEntryModel>) -> Seq<(Seq<char>, Seq<char>, Seq<char>)>
    decreases es.len(),
{
    if es.len() == 0 {
        Seq::empty()
    } else {
        let prev = level_items(es.drop_last());
        match es.last() {
            SitemapEntryModel::Page(Some(l), t) => if l.len() > 0 {
                prev.push(page_item(l, t))
            } else {
                prev
            },
            _ => prev,
        }
    }
}

/// The sitemaps that a sitemap's entities refer to: each non-empty location, in order.
pub open spec fn level_children(es: Seq<SitemapEntryModel>) -> Seq<Seq<char>>
    decreases es.len(),
{
    if es.len() == 0 {
        Seq::empty()
    } else {
        let prev = level_children(es.drop_last());
        match es.last() {
            SitemapEntryModel::Index(Some(l)) => if l.len() > 0 {
                prev.push(l)
            } else {
                prev
            },
            _ => prev,
        }
    }
}

/// The candidate made of a sitemap page.
pub fn page_candidate(link: &String, last_modified: &Option<String>) -> (r: CandidateItem)
    ensures
        r@ == page_item(link@, opt_view(*last_modified)),
{
    let mut title = PAGE_TITLE_PREFIX.to_string();
    title.append(link.as_str());
    let mut description = LAST_MODIFIED_PREFIX.to_string();
    match last_modified {
        Some(t) => description.append(t.as_str()),
        None => description.append(NO_LAST_MODIFIED),
    }
    CandidateItem { link: link.clone(), title, description }
}

/// Splits a sitemap's entities into candidates and further sitemaps.
pub fn plan_level(entries: &Vec<SitemapEntry>) -> (r: (Vec<CandidateItem>, Vec<String>))
    ensures
        item_views(r.0@) == level_items(entries@.map_values(|e: SitemapEntry| e@)),
        r.1@.map_values(|s: String| s@) == level_children(entries@.map_values(|e: SitemapEntry| e@)),
{
    let ghost es = entries@.map_values(|e: SitemapEntry| e@);
    let mut items: Vec<CandidateItem> = Vec::new();
    let mut children: Vec<String> = Vec::new();
    let mut i: usize = 0;
    while i < entries.len()
        invariant
            i <= entries.len(),
            es == entries@.map_values(|e: SitemapEntry| e@),
            item_views(items@) == level_items(es.take(i as int)),
            children@.map_values(|s: String| s@) == level_children(es.take(i as int)),
        decreases entries.len() - i,
    {
        assert(es.take(i + 1).drop_last() =~= es.take(i as int));
        assert(es.take(i + 1).last() == entries@[i as int]@);
        match &entries[i] {
            SitemapEntry::Page { link: Some(l), last_modified } => {
                if !l.as_str().is_empty() {
                    let c = page_candidate(l, last_modified);
                    items.push(c);
                    assert(item_views(items@) =~= level_items(es.take(i as int)).push(c@));
                } else {
                    assert(l@.len() == 0);
                }
            },
            SitemapEntry::Index { link: Some(l) } => {
                if !l.as_str().is_empty() {
                    children.push(l.clone());
                    assert(children@.map_values(|s: String| s@) =~= level_children(es.take(i as int)).push(l@));
                } else {
                    assert(l@.len() == 0);
                }
            },
            _ => {},
        }
        i += 1;
    }
    assert(es.take(entries.len() as int) =~= es);
    (items, children)
}

/// The entities of a sitemap document, split into candidates and further sitemaps.
pub fn plan_document(xml: &[u8]) -> (r: (Vec<CandidateItem>, Vec<String>))
    ensures
        item_views(r.0@) == level_items(sitemap_entities(xml@)),
        r.1@.map_values(|s: String| s@) == level_children(sitemap_entities(xml@)),
{
    let entries = read_sitemap(xml);
    plan_level(&entries)
}

/// Of `children`, in order, those that neither `known` nor an earlier child names.
pub open spec fn admitted(children: Seq<Seq<char>>, known: Seq<Seq<char>>) -> Seq<Seq<char>>
    decreases children.len(),
{
    if children.len() == 0 {
        Seq::empty()
    } else {
        let prev = admitted(children.drop_last(), known);
        if (known + prev).contains(children.last()) {
            prev
        } else {
            prev.push(children.last())
        }
    }
}

/// A walk over a sitemap tree. Every sitemap admitted so far stays in `pending`, with its
/// depth; those before `next` have been handed out for fetching. A sitemap is admitted
/// once, and only down to the depth bound, so the walk ends on any graph of sitemaps.
pub struct SitemapWalk {
    pub pending: Vec<(String, usize)>,
    pub next: usize,
    pub processed: u64,
}

pub open spec fn walk_urls(p: Seq<(String, usize)>) -> Seq<Seq<char>> {
    p.map_values(|e: (String, usize)| e.0@)
}

impl SitemapWalk {
    pub open spec fn wf(&self) -> bool {
        self.next <= self.pending@.len()
    }

    /// A walk that starts at the root sitemap.
    pub fn new(root: &str) -> (r: SitemapWalk)
        ensures
            r.wf(),
            walk_urls(r.pending@) == seq![root@],
            r.pending@[0].1 == 0,
            r.next == 0,
            r.processed == 0,
    {
        let mut pending: Vec<(String, usize)> = Vec::new();
        pending.push((root.to_string(), 0));
        assert(walk_urls(pending@) =~= seq![root@]);
        SitemapWalk { pending, next: 0, processed: 0 }
    }

    /// The next sitemap to fetch, with its depth; `None` when the walk is over.
    pub fn next_fetch(&mut self) -> (r: Option<(String, usize)>)
        requires
            old(self).wf(),
        ensures
            final(self).wf(),
            final(self).pending == old(self).pending,
            final(self).processed == old(self).processed,
            old(self).next < old(self).pending@.len() ==> final(self).next == old(self).next + 1
                && (r matches Some((u, d)) && u@ == old(self).pending@[old(self).next as int].0@
                && d == old(self).pending@[old(self).next as int].1),
            old(self).next >= old(self).pending@.len() ==> r is None && final(self).next
                == old(self).next,
    {
        if self.next < self.pending.len() {
            let (u, d) = (self.pending[self.next].0.clone(), self.pending[self.next].1);
            self.next = self.next + 1;
            Some((u, d))
        } else {
            None
        }
    }

    /// Whether the walk has admitted the sitemap at `url`.
    pub fn knows(&self, url: &str) -> (r: bool)
        ensures
            r == walk_urls(self.pending@).contains(url@),
    {
        let mut i: usize = 0;
        while i < self.pending.len()
            invariant
                i <= self.pending.len(),
                forall|k: int| 0 <= k < i ==> walk_urls(self.pending@)[k] != url@,
            decreases self.pending.len() - i,
        {
            if same_text(self.pending[i].0.as_str(), url) {
                assert(walk_urls(self.pending@)[i as int] == url@);
                return true;
            }
            i += 1;
        }
        false
    }

    /// Takes in the document fetched for a sitemap at `depth`: admits the sitemaps it refers
    /// to, unless they are known or too deep, and returns its candidates.
    pub fn on_fetched(&mut self, depth: usize, xml: &[u8]) -> (r: Vec<CandidateItem>)
        requires
            old(self).wf(),
        ensures
            final(self).wf(),
            final(self).next == old(self).next,
            final(self).processed == old(self).processed,
            item_views(r@) == level_items(sitemap_entities(xml@)),
            depth >= MAX_SITEMAP_DEPTH ==> final(self).pending == old(self).pending,
            depth < MAX_SITEMAP_DEPTH ==> walk_urls(final(self).pending@) == walk_urls(old(self).pending@)
                + admitted(level_children(sitemap_entities(xml@)), walk_urls(old(self).pending@)),
            final(self).pending@.len() >= old(self).pending@.len(),
            forall|k: int|
                0 <= k < old(self).pending@.len() ==> #[trigger] final(self).pending@[k]
                    == old(self).pending@[k],
            forall|k: int|
                old(self).pending@.len() <= k < final(self).pending@.len()
                    ==> #[trigger] final(self).pending@[k].1 == depth + 1,
    {
        let (items, children) = plan_document(xml);
        if depth >= MAX_SITEMAP_DEPTH {
            return items;
        }
        let ghost known = walk_urls(self.pending@);
        let ghost cs = children@.map_values(|s: String| s@);
        let ghost start = self.pending@;
        let mut j: usize = 0;
        assert(start.take(start.len() as int) =~= start);
        while j < children.len()
            invariant
                self.wf(),
                j <= children.len(),
                cs == children@.map_values(|s: String| s@),
                depth < MAX_SITEMAP_DEPTH,
                self.next == old(self).next,
                self.processed == old(self).processed,
                start == old(self).pending@,
                known == walk_urls(start),
                self.pending@.len() >= start.len(),
                walk_urls(self.pending@) == known + admitted(cs.take(j as int), known),
                forall|k: int| 0 <= k < start.len() ==> self.pending@[k] == start[k],
                forall|k: int| start.len() <= k < self.pending@.len() ==> self.pending@[k].1 == depth + 1,
            decreases children.len() - j,
        {
            assert(cs.take(j + 1).drop_last() =~= cs.take(j as int));
            assert(cs.take(j + 1).last() == children@[j as int]@);
            if !self.knows(children[j].as_str()) {
                let ghost before = walk_urls(self.pending@);
                self.pending.push((children[j].clone(), depth + 1));
                assert(walk_urls(self.pending@) =~= before.push(children@[j as int]@));
            }
            j += 1;
        }
        assert(cs.take(children.len() as int) =~= cs);
        items
    }

    /// Takes in how the handling of one of the walk's candidates ended.
    pub fn record(&mut self, outcome: Outcome)
        ensures
            final(self).pending == old(self).pending,
            final(self).next == old(self).next,
            final(self).processed == (if outcome == Outcome::Processed && old(self).processed
                < u64::MAX {
                (old(self).processed + 1) as u64
            } else {
                old(self).processed
            }),
    {
        if outcome == Outcome::Processed && self.processed < u64::MAX {
            self.processed = self.processed + 1;
        }
    }
}

} // verus!
