//! The orchestrator's decisions: which detail pages a run visits, and what
//! it reports when every one of them has been dealt with.

use crate::extract::{extract, extracted};
use crate::outcome::DownloadOutcome;
use crate::resolve::{fetched_body, FetchError};
use crate::site::{LINK_ATTRIBUTE, SEED_SELECTOR};
use vstd::prelude::*;
use vstd::string::*;

verus! {

/// A reference to one detail page: its path, as the seed page gives it.
#[derive(Debug)]
pub struct CrawlTarget {
    path: String,
}

impl View for CrawlTarget {
    type V = Seq<char>;

    closed spec fn view(&self) -> Seq<char> {
        self.path@
    }
}

impl CrawlTarget {
    /// The target for the detail page at `path`.
    pub fn new(path: &str) -> (target: CrawlTarget)
        ensures
            target@ == path@,
    {
        CrawlTarget { path: String::from_str(path) }
    }

    /// The path of the detail page.
    pub fn path(&self) -> (path: &str)
        ensures
            path@ == self@,
    {
        self.path.as_str()
    }
}

/// Why a run could not begin.
#[derive(Clone, Copy, Debug, PartialEq, Eq, Structural)]
pub enum CrawlError {
    /// The seed page could not be fetched: there is nothing to crawl.
    SeedUnreachable,
}

/// The paths of a sequence of targets.
pub open spec fn paths(targets: Seq<CrawlTarget>) -> Seq<Seq<char>> {
    targets.map_values(|target: CrawlTarget| target@)
}

/// The first `max_items` of `links`; all of them where there are no more.
pub open spec fn retained(links: Seq<Seq<char>>, max_items: nat) -> Seq<Seq<char>> {
    if max_items < links.len() {
        links.take(max_items as int)
    } else {
        links
    }
}

/// Retains the first `max_items` of `links` as the targets of a run; all of
/// them where there are no more.
pub fn retain_targets(links: &Vec<String>, max_items: usize) -> (targets: Vec<CrawlTarget>)
    ensures
        paths(targets@) == retained(links.deep_view(), max_items as nat),
{
    let wanted = if max_items < links.len() {
        max_items
    } else {
        links.len()
    };
    let mut targets: Vec<CrawlTarget> = Vec::new();
    let mut i: usize = 0;
    while i < wanted
        invariant
            i <= wanted <= links.len(),
            targets.len() == i,
            forall|j: int| 0 <= j < i ==> (#[trigger] targets[j])@ == links[j]@,
        decreases wanted - i,
    {
        targets.push(CrawlTarget::new(links[i].as_str()));
        i = i + 1;
    }
    assert(paths(targets@) =~= retained(links.deep_view(), max_items as nat));
    targets
}

/// The targets of a run, from what the fetch of the seed page brought: the
/// first `max_items` links that the seed selector finds, in their order. A
/// seed page that could not be fetched ends the run before it has a target.
pub fn select_targets(seed: Result<String, FetchError>, max_items: usize) -> (selected: Result<
    Vec<CrawlTarget>,
    CrawlError,
>)
    ensures
        match fetched_body(seed) {
            None => selected matches Err(error) && error == CrawlError::SeedUnreachable,
            Some(body) => selected matches Ok(targets) && paths(targets@) == retained(
                extracted(body, SEED_SELECTOR@, LINK_ATTRIBUTE@),
                max_items as nat,
            ),
        },
{
    match seed {
        Err(_) => Err(CrawlError::SeedUnreachable),
        Ok(body) => {
            let links = extract(body.as_str(), SEED_SELECTOR, LINK_ATTRIBUTE);
            Ok(retain_targets(&links, max_items))
        },
    }
}

/// What a run reports: how many targets it dealt with, and how many of them
/// ended in each way.
#[derive(Clone, Copy, Debug, PartialEq, Eq, Structural)]
pub struct RunSummary {
    pub attempted: usize,
    pub succeeded: usize,
    pub retries_exhausted: usize,
    pub page_unreachable: usize,
    pub resource_not_found: usize,
    pub filesystem_error: usize,
}

/// How many of `outcomes` are `kind`.
pub open spec fn count(outcomes: Seq<DownloadOutcome>, kind: DownloadOutcome) -> nat
    decreases outcomes.len(),
{
    if outcomes.len() == 0 {
        0
    } else {
        count(outcomes.drop_last(), kind) + if outcomes.last() == kind {
            1nat
        } else {
            0nat
        }
    }
}

/// Whether `summary` reports `outcomes`: every outcome counted, each under
/// its own kind.
pub open spec fn summarizes(summary: RunSummary, outcomes: Seq<DownloadOutcome>) -> bool {
    &&& summary.attempted == outcomes.len()
    &&& summary.succeeded == count(outcomes, DownloadOutcome::Success)
    &&& summary.retries_exhausted == count(outcomes, DownloadOutcome::RetriesExhausted)
    &&& summary.page_unreachable == count(outcomes, DownloadOutcome::PageUnreachable)
    &&& summary.resource_not_found == count(outcomes, DownloadOutcome::ResourceNotFound)
    &&& summary.filesystem_error == count(outcomes, DownloadOutcome::FilesystemError)
}

/// Every outcome is of exactly one kind: the five counts add up to the
/// number of outcomes, so no outcome goes unreported.
pub proof fn lemma_counts_cover(outcomes: Seq<DownloadOutcome>)
    ensures
        count(outcomes, DownloadOutcome::Success) + count(
            outcomes,
            DownloadOutcome::RetriesExhausted,
        ) + count(outcomes, DownloadOutcome::PageUnreachable) + count(
            outcomes,
            DownloadOutcome::ResourceNotFound,
        ) + count(outcomes, DownloadOutcome::FilesystemError) == outcomes.len(),
    decreases outcomes.len(),
{
    if outcomes.len() > 0 {
        lemma_counts_cover(outcomes.drop_last());
    }
}

/// Aggregates the outcomes of a run, one per target, into its summary.
pub fn summarize(outcomes: &Vec<DownloadOutcome>) -> (summary: RunSummary)
    ensures
        summarizes(summary, outcomes@),
        summary.succeeded + summary.retries_exhausted + summary.page_unreachable
            + summary.resource_not_found + summary.filesystem_error == summary.attempted,
{
    let mut summary = RunSummary {
        attempted: 0,
        succeeded: 0,
        retries_exhausted: 0,
        page_unreachable: 0,
        resource_not_found: 0,
        filesystem_error: 0,
    };
    let mut i: usize = 0;
    while i < outcomes.len()
        invariant
            i <= outcomes.len(),
            summarizes(summary, outcomes@.take(i as int)),
        decreases outcomes.len() - i,
    {
        proof {
            let seen = outcomes@.take(i as int + 1);
            assert(seen.drop_last() == outcomes@.take(i as int));
            assert(seen.last() == outcomes[i as int]);
            lemma_counts_cover(outcomes@.take(i as int));
        }
        summary.attempted = summary.attempted + 1;
        match outcomes[i] {
            DownloadOutcome::Success => {
                summary.succeeded = summary.succeeded + 1;
            },
            DownloadOutcome::RetriesExhausted => {
                summary.retries_exhausted = summary.retries_exhausted + 1;
            },
            DownloadOutcome::PageUnreachable => {
                summary.page_unreachable = summary.page_unreachable + 1;
            },
            DownloadOutcome::ResourceNotFound => {
                summary.resource_not_found = summary.resource_not_found + 1;
            },
            DownloadOutcome::FilesystemError => {
                summary.filesystem_error = summary.filesystem_error + 1;
            },
        }
        i = i + 1;
    }
    proof {
        assert(outcomes@.take(i as int) == outcomes@);
        lemma_counts_cover(outcomes@);
    }
    summary
}

/// A run without targets reports nothing attempted, under every kind.
pub proof fn lemma_empty_run_reports_nothing(summary: RunSummary)
    requires
        summarizes(summary, Seq::empty()),
    ensures
        summary == (RunSummary {
            attempted: 0,
            succeeded: 0,
            retries_exhausted: 0,
            page_unreachable: 0,
            resource_not_found: 0,
            filesystem_error: 0,
        }),
{
}

/// The outcomes of a run as they come in: one slot per target, empty until
/// the target's task has ended. Tasks may end in any order; the summary is
/// there only when every one of them has.
#[derive(Debug)]
pub struct Run {
    slots: Vec<Option<DownloadOutcome>>,
}

impl View for Run {
    type V = Seq<Option<DownloadOutcome>>;

    closed spec fn view(&self) -> Seq<Option<DownloadOutcome>> {
        self.slots@
    }
}

/// Whether every slot holds an outcome.
pub open spec fn complete(slots: Seq<Option<DownloadOutcome>>) -> bool {
    forall|i: int| 0 <= i < slots.len() ==> (#[trigger] slots[i]) is Some
}

/// The outcomes that the slots hold, in the order of the targets.
pub open spec fn reported(slots: Seq<Option<DownloadOutcome>>) -> Seq<DownloadOutcome>
    recommends
        complete(slots),
{
    slots.map_values(|slot: Option<DownloadOutcome>| slot->Some_0)
}

impl Run {
    /// A run of `targets` targets, none of which has ended.
    pub fn begin(targets: usize) -> (run: Run)
        ensures
            run@ == Seq::new(targets as nat, |i: int| None::<DownloadOutcome>),
    {
        let mut slots: Vec<Option<DownloadOutcome>> = Vec::new();
        let mut i: usize = 0;
        while i < targets
            invariant
                i <= targets,
                slots@ == Seq::new(i as nat, |j: int| None::<DownloadOutcome>),
            decreases targets - i,
        {
            slots.push(None);
            i = i + 1;
        }
        Run { slots }
    }

    /// Records the outcome of the target at `index`. An outcome is final:
    /// a target that has one keeps it, and nothing is recorded, as nothing
    /// is for an index beyond the targets.
    pub fn record(&mut self, index: usize, outcome: DownloadOutcome) -> (recorded: bool)
        ensures
            recorded == (index < old(self)@.len() && old(self)@[index as int] is None),
            final(self)@ == if recorded {
                old(self)@.update(index as int, Some(outcome))
            } else {
                old(self)@
            },
    {
        if index < self.slots.len() && self.slots[index].is_none() {
            self.slots.set(index, Some(outcome));
            true
        } else {
            false
        }
    }

    /// The summary of the run, once every target has its outcome; nothing
    /// before that.
    pub fn summary(&self) -> (summary: Option<RunSummary>)
        ensures
            match summary {
                Some(summary) => complete(self@) && summarizes(summary, reported(self@)),
                None => !complete(self@),
            },
    {
        let mut outcomes: Vec<DownloadOutcome> = Vec::new();
        let mut i: usize = 0;
        while i < self.slots.len()
            invariant
                i <= self.slots@.len(),
                outcomes@.len() == i,
                forall|j: int| 0 <= j < i ==> (#[trigger] self.slots@[j]) == Some(outcomes@[j]),
            decreases self.slots@.len() - i,
        {
            match self.slots[i] {
                Some(outcome) => {
                    outcomes.push(outcome);
                },
                None => {
                    assert(self@[i as int] is None);
                    return None;
                },
            }
            i = i + 1;
        }
        assert(complete(self@));
        assert(outcomes@ =~= reported(self@));
        Some(summarize(&outcomes))
    }
}


} // verus!
