//! The life of one candidate item: dedup checks, the filter stage, the summary, and what
//! the store records. The caller performs each action and reports what came of it.
use vstd::prelude::*;

verus! {

/// How the handling of an item ended.
#[derive(Debug, Clone, Copy, PartialEq, Eq, Structural)]
pub enum Outcome {
    /// The link was already known; nothing was asked.
    Skipped,
    /// The classifier judged it irrelevant (or it expired) and it was recorded so.
    Irrelevant,
    /// It was judged relevant, summarised as far as possible, and recorded as processed.
    Processed,
    /// The store could not be read; the item is dropped for this cycle.
    StoreFailed,
    /// The filter call failed; nothing is recorded, so the item may come back.
    Deferred,
}

/// Where the handling of an item stands.
#[derive(Debug, Clone, Copy, PartialEq, Eq, Structural)]
pub enum Phase {
    CheckIrrelevant,
    CheckProcessed,
    Classify,
    Summarize,
    RecordProcessed,
    RecordIrrelevant,
    Done(Outcome),
}

/// What the caller is to do next.
#[derive(Debug, Clone, Copy, PartialEq, Eq, Structural)]
pub enum Action {
    /// Ask the store whether the link is recorded as irrelevant.
    LookupIrrelevant,
    /// Ask the store whether the link is recorded as processed.
    LookupProcessed,
    /// Send the filter request.
    RequestVerdict,
    /// Send the summarize request and show its result.
    RequestSummary,
    /// Record the link as processed; a failed write is only logged.
    MarkProcessed,
    /// Record the link as irrelevant; a failed write is only logged.
    MarkIrrelevant,
    /// Nothing is left to do.
    Finish(Outcome),
}

/// What came of the last action.
#[derive(Debug, Clone, Copy, PartialEq, Eq, Structural)]
pub enum Event {
    /// The store answered a lookup.
    Found(bool),
    /// The store could not be read.
    LookupFailed,
    /// The filter stage gave its verdict.
    Verdict(bool),
    /// The filter call failed (transport, status, or body).
    VerdictFailed,
    /// The summarize call is over, whether or not it succeeded.
    Summarized,
    /// A write was attempted, whether or not it succeeded.
    Written,
}

pub open spec fn action_of(p: Phase) -> Action {
    match p {
        Phase::CheckIrrelevant => Action::LookupIrrelevant,
        Phase::CheckProcessed => Action::LookupProcessed,
        Phase::Classify => Action::RequestVerdict,
        Phase::Summarize => Action::RequestSummary,
        Phase::RecordProcessed => Action::MarkProcessed,
        Phase::RecordIrrelevant => Action::MarkIrrelevant,
        Phase::Done(o) => Action::Finish(o),
    }
}

/// The next phase; an event that does not answer the current action changes nothing.
pub open spec fn step(p: Phase, e: Event) -> Phase {
    match (p, e) {
        (Phase::CheckIrrelevant, Event::Found(true)) => Phase::Done(Outcome::Skipped),
        (Phase::CheckIrrelevant, Event::Found(false)) => Phase::CheckProcessed,
        (Phase::CheckIrrelevant, Event::LookupFailed) => Phase::Done(Outcome::StoreFailed),
        (Phase::CheckProcessed, Event::Found(true)) => Phase::Done(Outcome::Skipped),
        (Phase::CheckProcessed, Event::Found(false)) => Phase::Classify,
        (Phase::CheckProcessed, Event::LookupFailed) => Phase::Done(Outcome::StoreFailed),
        (Phase::Classify, Event::Verdict(true)) => Phase::Summarize,
        (Phase::Classify, Event::Verdict(false)) => Phase::RecordIrrelevant,
        (Phase::Classify, Event::VerdictFailed) => Phase::Done(Outcome::Deferred),
        (Phase::Summarize, Event::Summarized) => Phase::RecordProcessed,
        (Phase::RecordProcessed, Event::Written) => Phase::Done(Outcome::Processed),
        (Phase::RecordIrrelevant, Event::Written) => Phase::Done(Outcome::Irrelevant),
        _ => p,
    }
}

/// The handling of one item.
pub struct ItemFlow {
    pub phase: Phase,
}

impl ItemFlow {
    /// A new item: the dedup checks come first.
    pub fn new() -> (r: ItemFlow)
        ensures
            r.phase == Phase::CheckIrrelevant,
    {
        ItemFlow { phase: Phase::CheckIrrelevant }
    }

    /// An alert already known to have expired: it is recorded as irrelevant, unclassified.
    pub fn expired() -> (r: ItemFlow)
        ensures
            r.phase == Phase::RecordIrrelevant,
    {
        ItemFlow { phase: Phase::RecordIrrelevant }
    }

    /// What the caller is to do next.
    pub fn action(&self) -> (r: Action)
        ensures
            r == action_of(self.phase),
    {
        match self.phase {
            Phase::CheckIrrelevant => Action::LookupIrrelevant,
            Phase::CheckProcessed => Action::LookupProcessed,
            Phase::Classify => Action::RequestVerdict,
            Phase::Summarize => Action::RequestSummary,
            Phase::RecordProcessed => Action::MarkProcessed,
            Phase::RecordIrrelevant => Action::MarkIrrelevant,
            Phase::Done(o) => Action::Finish(o),
        }
    }

    /// Takes in what came of the last action.
    pub fn advance(&mut self, event: Event)
        ensures
            final(self).phase == step(old(self).phase, event),
    {
        let next = match (self.phase, event) {
            (Phase::CheckIrrelevant, Event::Found(true)) => Phase::Done(Outcome::Skipped),
            (Phase::CheckIrrelevant, Event::Found(false)) => Phase::CheckProcessed,
            (Phase::CheckIrrelevant, Event::LookupFailed) => Phase::Done(Outcome::StoreFailed),
            (Phase::CheckProcessed, Event::Found(true)) => Phase::Done(Outcome::Skipped),
            (Phase::CheckProcessed, Event::Found(false)) => Phase::Classify,
            (Phase::CheckProcessed, Event::LookupFailed) => Phase::Done(Outcome::StoreFailed),
            (Phase::Classify, Event::Verdict(true)) => Phase::Summarize,
            (Phase::Classify, Event::Verdict(false)) => Phase::RecordIrrelevant,
            (Phase::Classify, Event::VerdictFailed) => Phase::Done(Outcome::Deferred),
            (Phase::Summarize, Event::Summarized) => Phase::RecordProcessed,
            (Phase::RecordProcessed, Event::Written) => Phase::Done(Outcome::Processed),
            (Phase::RecordIrrelevant, Event::Written) => Phase::Done(Outcome::Irrelevant),
            _ => self.phase,
        };
        self.phase = next;
    }

    /// Whether the handling is over.
    pub fn is_done(&self) -> (r: bool)
        ensures
            r == (self.phase is Done),
    {
        matches!(self.phase, Phase::Done(_))
    }
}

/// The two partitions of the dedup store, as sets of links.
pub struct Ledger {
    pub irrelevant: Set<Seq<char>>,
    pub processed: Set<Seq<char>>,
}

/// What a store that answers truthfully and writes successfully, and a classifier whose
/// filter call gives `verdict` (`None`: the call fails), report for the current action.
pub open spec fn world_answer(p: Phase, ledger: Ledger, link: Seq<char>, verdict: Option<bool>) -> Event {
    match p {
        Phase::CheckIrrelevant => Event::Found(ledger.irrelevant.contains(link)),
        Phase::CheckProcessed => Event::Found(ledger.processed.contains(link)),
        Phase::Classify => match verdict {
            Some(b) => Event::Verdict(b),
            None => Event::VerdictFailed,
        },
        Phase::Summarize => Event::Summarized,
        _ => Event::Written,
    }
}

/// The store after the current action.
pub open spec fn world_effect(p: Phase, ledger: Ledger, link: Seq<char>) -> Ledger {
    match p {
        Phase::RecordProcessed => Ledger { processed: ledger.processed.insert(link), ..ledger },
        Phase::RecordIrrelevant => Ledger { irrelevant: ledger.irrelevant.insert(link), ..ledger },
        _ => ledger,
    }
}

/// Whether an action goes to the classifier.
pub open spec fn asks_oracle(p: Phase) -> bool {
    p == Phase::Classify || p == Phase::Summarize
}

/// Runs the flow for at most `fuel` actions: the final phase, the store, and how many
/// requests went to the classifier.
pub open spec fn run(p: Phase, ledger: Ledger, link: Seq<char>, verdict: Option<bool>, fuel: nat) -> (Phase, Ledger, nat)
    decreases fuel,
{
    if fuel == 0 || p is Done {
        (p, ledger, 0)
    } else {
        let (q, l, n) = run(
            step(p, world_answer(p, ledger, link, verdict)),
            world_effect(p, ledger, link),
            link,
            verdict,
            (fuel - 1) as nat,
        );
        (q, l, n + if asks_oracle(p) { 1nat } else { 0nat })
    }
}

/// The most actions that the handling of one item takes.
pub open spec fn item_fuel() -> nat {
    6
}

/// A link that the store already holds, as irrelevant or as processed, is skipped: no
/// request goes to the classifier and the store stays as it is.
pub proof fn lemma_known_link_skipped(ledger: Ledger, link: Seq<char>, verdict: Option<bool>)
    requires
        ledger.irrelevant.contains(link) || ledger.processed.contains(link),
    ensures
        run(Phase::CheckIrrelevant, ledger, link, verdict, item_fuel())
            == (Phase::Done(Outcome::Skipped), ledger, 0nat),
{
    reveal_with_fuel(run, 3);
}

/// Handling an item a second time, after a first handling whose filter call answered,
/// asks the classifier nothing and leaves the store as the first handling left it.
pub proof fn lemma_reprocessing_idempotent(
    ledger: Ledger,
    link: Seq<char>,
    first: bool,
    second: Option<bool>,
)
    ensures
        ({
            let (p1, l1, _n1) = run(Phase::CheckIrrelevant, ledger, link, Some(first), item_fuel());
            p1 is Done && run(Phase::CheckIrrelevant, l1, link, second, item_fuel()) == (
                Phase::Done(Outcome::Skipped),
                l1,
                0nat,
            )
        }),
{
    reveal_with_fuel(run, 7);
    let (_p1, l1, _n1) = run(Phase::CheckIrrelevant, ledger, link, Some(first), item_fuel());
    if !ledger.irrelevant.contains(link) && !ledger.processed.contains(link) {
        if first {
            assert(l1.processed.contains(link));
        } else {
            assert(l1.irrelevant.contains(link));
        }
    }
    lemma_known_link_skipped(l1, link, second);
}

/// An expired alert is recorded as irrelevant and nothing goes to the classifier.
pub proof fn lemma_expired_recorded_unclassified(ledger: Ledger, link: Seq<char>, verdict: Option<bool>)
    ensures
        run(Phase::RecordIrrelevant, ledger, link, verdict, item_fuel()) == (
            Phase::Done(Outcome::Irrelevant),
            Ledger { irrelevant: ledger.irrelevant.insert(link), ..ledger },
            0nat,
        ),
{
    reveal_with_fuel(run, 2);
}

} // verus!
