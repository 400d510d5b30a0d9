//! Turning an RSS channel into the steps of the pipeline: candidates to classify, and
//! expired alerts to record as irrelevant straight away.
use vstd::prelude::*;
use crate::clean::{description_for, entry_description, find_from};
use crate::expiry::{expired, is_inmet_alert_expired, now_millis, rfc2822_millis, stated_end};
use crate::item::{opt_view, CandidateItem};
use crate::oracle::find_exec;
use crate::text::to_chars;

verus! {

broadcast use vstd::string::group_string_axioms;

/// The marker, in a source's name, of a source of time-boxed weather alerts.
pub const ALERT_SOURCE_MARKER: &'static str = "INMET";

/// The fields of a channel item that the pipeline reads.
pub struct FeedEntry {
    pub link: Option<String>,
    pub title: Option<String>,
    pub description: Option<String>,
    pub content: Option<String>,
    pub pub_date: Option<String>,
}

pub struct FeedEntryModel {
    pub link: Option<Seq<char>>,
    pub title: Option<Seq<char>>,
    pub description: Option<Seq<char>>,
    pub content: Option<Seq<char>>,
    pub pub_date: Option<Seq<char>>,
}

impl View for FeedEntry {
    type V = FeedEntryModel;

    open spec fn view(&self) -> FeedEntryModel {
        FeedEntryModel {
            link: opt_view(self.link),
            title: opt_view(self.title),
            description: opt_view(self.description),
            content: opt_view(self.content),
            pub_date: opt_view(self.pub_date),
        }
    }
}

/// The items that the `rss` crate reads from a channel document, in order; `None` when
/// it refuses the document.
pub uninterp spec fn channel_entries(xml: Seq<u8>) -> Option<Seq<FeedEntryModel>>;

/// The error of `rss::Channel::read_from`, carried through unread.
#[verifier::external_type_specification]
#[verifier::external_body]
pub struct ExRssError(rss::Error);

/// Relies on rss::Channel::read_from and the getters of rss::Item.
#[verifier::external_body]
fn read_channel(xml: &[u8]) -> (r: Result<Vec<FeedEntry>, rss::Error>)
    ensures
        match r {
            Ok(v) => channel_entries(xml@) == Some(v@.map_values(|e: FeedEntry| e@)),
            Err(_) => channel_entries(xml@) is None,
        },
{
    let own = |s: Option<&str>| s.map(|t| t.to_string());
    rss::Channel::read_from(xml).map(|c| c.items().iter().map(|i| FeedEntry {
        link: own(i.link()),
        title: own(i.title()),
        description: own(i.description()),
        content: own(i.content()),
        pub_date: own(i.pub_date()),
    }).collect())
}

/// What the pipeline does with a channel item.
pub enum FeedStep {
    /// An expired alert: record its link as irrelevant, without classifying it.
    Expired(String),
    /// A candidate for classification.
    Candidate(CandidateItem),
}

pub enum FeedStepModel {
    Expired(Seq<char>),
    Candidate((Seq<char>, Seq<char>, Seq<char>)),
}

impl View for FeedStep {
    type V = FeedStepModel;

    open spec fn view(&self) -> FeedStepModel {
        match self {
            FeedStep::Expired(l) => FeedStepModel::Expired(l@),
            FeedStep::Candidate(c) => FeedStepModel::Candidate(c@),
        }
    }
}

pub open spec fn or_empty(o: Option<Seq<char>>) -> Seq<char> {
    match o {
        Some(s) => s,
        None => Seq::empty(),
    }
}

pub open spec fn pub_millis(o: Option<Seq<char>>) -> Option<i64> {
    match o {
        Some(d) => rfc2822_millis(d),
        None => None,
    }
}

/// Whether a source's name marks it as a source of time-boxed alerts.
pub open spec fn alert_source(name: Seq<char>) -> bool {
    find_from(name, ALERT_SOURCE_MARKER@, 0) >= 0
}

/// The step for one item: none without a link; an expired alert of an alert source is
/// recorded as irrelevant; otherwise a candidate whose title falls back to the link and
/// whose description comes from the content, else the description.
pub open spec fn entry_step(name: Seq<char>, e: FeedEntryModel, now: i64) -> Option<FeedStepModel> {
    let link = or_empty(e.link);
    if link.len() == 0 {
        None
    } else if alert_source(name) && expired(stated_end(or_empty(e.description)), pub_millis(e.pub_date), now) {
        Some(FeedStepModel::Expired(link))
    } else {
        let title = match e.title {
            Some(t) => t,
            None => link,
        };
        let raw = match e.content {
            Some(c) => c,
            None => or_empty(e.description),
        };
        Some(FeedStepModel::Candidate((link, title, entry_description(raw))))
    }
}

/// The steps for a channel's items, in order.
pub open spec fn channel_steps(name: Seq<char>, es: Seq<FeedEntryModel>, now: i64) -> Seq<FeedStepModel>
    decreases es.len(),
{
    if es.len() == 0 {
        Seq::empty()
    } else {
        let prev = channel_steps(name, es.drop_last(), now);
        match entry_step(name, es.last(), now) {
            Some(s) => prev.push(s),
            None => prev,
        }
    }
}

/// Why a channel gives no steps.
#[derive(Debug, Clone, Copy, PartialEq, Eq, Structural)]
pub enum FeedError {
    /// The document is not a channel that the reader accepts.
    Malformed,
}

fn clone_or_empty(o: &Option<String>) -> (r: String)
    ensures
        r@ == or_empty(opt_view(*o)),
{
    match o {
        Some(s) => s.clone(),
        None => String::new(),
    }
}

/// The step for one item of a source named `name`, at `now` (milliseconds since the
/// Unix epoch).
pub fn plan_entry(name: &str, alert_source_name: bool, entry: &FeedEntry, now: i64) -> (r: Option<FeedStep>)
    requires
        alert_source_name == alert_source(name@),
    ensures
        match r {
            Some(s) => entry_step(name@, entry@, now) == Some(s@),
            None => entry_step(name@, entry@, now) is None,
        },
{
    let link = clone_or_empty(&entry.link);
    if link.as_str().is_empty() {
        return None;
    }
    if alert_source_name {
        let description = clone_or_empty(&entry.description);
        if is_inmet_alert_expired(description.as_str(), &entry.pub_date, now) {
            return Some(FeedStep::Expired(link));
        }
    }
    let title = match &entry.title {
        Some(t) => t.clone(),
        None => link.clone(),
    };
    let raw = match &entry.content {
        Some(c) => c.clone(),
        None => clone_or_empty(&entry.description),
    };
    let description = description_for(raw.as_str());
    Some(FeedStep::Candidate(CandidateItem { link, title, description }))
}

/// Whether a source's name marks it as a source of time-boxed alerts.
pub fn is_alert_source(name: &str) -> (r: bool)
    ensures
        r == alert_source(name@),
{
    let n = to_chars(name);
    let m = to_chars(ALERT_SOURCE_MARKER);
    proof {
        reveal_strlit("INMET");
    }
    find_exec(&n, &m, 0).is_some()
}

/// The steps for a channel document of a source named `name`, at `now`.
pub fn plan_feed_at(name: &str, xml: &[u8], now: i64) -> (r: Result<Vec<FeedStep>, FeedError>)
    ensures
        match r {
            Ok(v) => channel_entries(xml@) is Some && v@.map_values(|s: FeedStep| s@) == channel_steps(
                name@,
                channel_entries(xml@)->0,
                now,
            ),
            Err(_) => channel_entries(xml@) is None,
        },
{
    let entries = match read_channel(xml) {
        Ok(v) => v,
        Err(_) => return Err(FeedError::Malformed),
    };
    let ghost es = entries@.map_values(|e: FeedEntry| e@);
    let alert = is_alert_source(name);
    let mut steps: Vec<FeedStep> = Vec::new();
    let mut i: usize = 0;
    while i < entries.len()
        invariant
            i <= entries.len(),
            es == entries@.map_values(|e: FeedEntry| e@),
            alert == alert_source(name@),
            steps@.map_values(|s: FeedStep| s@) == channel_steps(name@, es.take(i as int), now),
        decreases entries.len() - i,
    {
        assert(es.take(i + 1).drop_last() =~= es.take(i as int));
        assert(es.take(i + 1).last() == entries@[i as int]@);
        let ghost before = steps@.map_values(|s: FeedStep| s@);
        if let Some(s) = plan_entry(name, alert, &entries[i], now) {
            steps.push(s);
            assert(steps@.map_values(|s: FeedStep| s@) =~= before.push(s@));
        }
        i += 1;
    }
    assert(es.take(entries.len() as int) =~= es);
    Ok(steps)
}

/// The steps for a channel document of a source named `name`, at the current time.
pub fn plan_feed(name: &str, xml: &[u8]) -> (r: Result<Vec<FeedStep>, FeedError>)
    ensures
        match r {
            Ok(v) => channel_entries(xml@) is Some && exists|now: i64|
                v@.map_values(|s: FeedStep| s@) == channel_steps(name@, channel_entries(xml@)->0, now),
            Err(_) => channel_entries(xml@) is None,
        },
{
    let now = now_millis();
    plan_feed_at(name, xml, now)
}

} // verus!
