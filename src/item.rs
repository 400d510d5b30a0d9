//! The candidate item that adapters hand to the classification pipeline.
use vstd::prelude::*;

verus! {

/// A feed entry or sitemap URL, normalised; `link` is its identity.
pub struct CandidateItem {
    pub link: String,
    pub title: String,
    pub description: String,
}

impl View for CandidateItem {
    type V = (Seq<char>, Seq<char>, Seq<char>);

    open spec fn view(&self) -> (Seq<char>, Seq<char>, Seq<char>) {
        (self.link@, self.title@, self.description@)
    }
}

pub open spec fn opt_view(o: Option<String>) -> Option<Seq<char>> {
    match o {
        Some(s) => Some(s@),
        None => None,
    }
}

pub open spec fn item_views(v: Seq<CandidateItem>) -> Seq<(Seq<char>, Seq<char>, Seq<char>)> {
    v.map_values(|c: CandidateItem| c@)
}

} // verus!
