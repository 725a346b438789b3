//! The filtering pipeline: walks the catalog entry by entry, asks for each
//! entry's detail, keeps the games that have achievements, and reports
//! progress after every entry.
//!
//! The pipeline itself never touches the network or the clock. It is a state
//! machine: the driver performs a request, hands the response to
//! [`FilterPipeline::on_response`], and is told what to do next: report
//! progress, pause, and which identifier to ask for. Everything the pipeline
//! decides is a function of its state and the response, given by
//! [`PipelineView::after`] and [`PipelineView::directive`].

use crate::applist::{AppEntry, AppEntryView};
use crate::order::{
    is_subsequence, lemma_empty_is_subsequence, lemma_subsequence_of_longer_prefix,
    lemma_subsequence_push,
};
use crate::probe::{
    attempt_outcome, classify_attempt, AttemptOutcome, AttemptOutcomeView, ProbeResponse,
    ProbeResponseView, ProbeStatus,
};
use vstd::prelude::*;
use vstd::string::*;

verus! {

/// Pause between two entries, in milliseconds.
pub const ENTRY_PAUSE_MILLIS: u64 = 10;

/// Progress of the pipeline, as handed to the progress callback once per entry.
#[derive(Debug, PartialEq, Eq)]
pub struct ProgressSnapshot {
    /// Number of entries in the catalog.
    pub total: u64,
    /// Number of entries processed so far, this one included.
    pub completed: u64,
    /// Status of the attempt that settled this entry.
    pub last_status: String,
}

/// Mathematical value of a [`ProgressSnapshot`].
pub struct ProgressSnapshotView {
    pub total: nat,
    pub completed: nat,
    pub last_status: Seq<char>,
}

impl DeepView for ProgressSnapshot {
    type V = ProgressSnapshotView;

    open spec fn deep_view(&self) -> ProgressSnapshotView {
        ProgressSnapshotView {
            total: self.total as nat,
            completed: self.completed as nat,
            last_status: self.last_status@,
        }
    }
}

impl View for ProgressSnapshot {
    type V = ProgressSnapshotView;

    open spec fn view(&self) -> ProgressSnapshotView {
        self.deep_view()
    }
}

/// What the driver does after handing over a response, in this order: report
/// the progress if there is any, pause, then ask for the detail of `probe`, or
/// stop where there is none.
#[derive(Debug, PartialEq, Eq)]
pub struct Step {
    /// Progress to hand to the callback; present exactly when an entry was settled.
    pub report: Option<ProgressSnapshot>,
    /// How long to pause before the next request, in milliseconds.
    pub pause_millis: u64,
    /// Identifier to ask for next; `None` once the catalog is exhausted.
    pub probe: Option<usize>,
}

/// Mathematical value of a [`Step`].
pub struct StepView {
    pub report: Option<ProgressSnapshotView>,
    pub pause_millis: u64,
    pub probe: Option<usize>,
}

impl DeepView for Step {
    type V = StepView;

    open spec fn deep_view(&self) -> StepView {
        StepView {
            report: self.report.deep_view(),
            pause_millis: self.pause_millis,
            probe: self.probe,
        }
    }
}

impl View for Step {
    type V = StepView;

    open spec fn view(&self) -> StepView {
        self.deep_view()
    }
}

/// Mathematical state of the pipeline.
pub struct PipelineView {
    /// The catalog being filtered, in the order received.
    pub catalog: Seq<AppEntryView>,
    /// Number of entries settled so far; the entry at this position is the one
    /// whose detail is awaited.
    pub cursor: nat,
    /// The entries kept so far.
    pub filtered: Seq<AppEntryView>,
    /// Status recorded by the latest attempt for the awaited entry, if any.
    pub last_status: Option<ProbeStatus>,
}

impl PipelineView {
    /// The state in which nothing has been asked yet.
    pub open spec fn init(catalog: Seq<AppEntryView>) -> PipelineView {
        PipelineView { catalog, cursor: 0, filtered: Seq::empty(), last_status: None }
    }

    /// Every entry has been settled.
    pub open spec fn finished(self) -> bool {
        self.cursor >= self.catalog.len()
    }

    /// Identifier of the entry whose detail is awaited, if any.
    pub open spec fn pending_probe(self) -> Option<usize> {
        if self.finished() {
            None
        } else {
            Some(self.catalog[self.cursor as int].appid)
        }
    }

    /// What holds of every state the pipeline can be in: the cursor lies within
    /// the catalog, and the kept entries are a subsequence of the settled ones.
    pub open spec fn wf(self) -> bool {
        &&& self.cursor <= self.catalog.len()
        &&& is_subsequence(self.filtered, self.catalog.take(self.cursor as int))
    }

    /// The state that follows when `response` arrives.
    ///
    /// Once finished, nothing changes. A response that calls for a retry
    /// leaves cursor and kept entries alone and records its status, if it has
    /// one. A final response settles the awaited entry: the cursor moves on,
    /// the entry is kept exactly if its detail says it is a game with
    /// achievements, and no status is on record for the entry that is awaited next.
    pub open spec fn after(self, response: ProbeResponseView) -> PipelineView {
        if self.finished() {
            self
        } else {
            match attempt_outcome(response) {
                AttemptOutcomeView::Retry(reason) => PipelineView {
                    last_status: if reason.status() is Some {
                        reason.status()
                    } else {
                        self.last_status
                    },
                    ..self
                },
                AttemptOutcomeView::Terminal(_) => PipelineView {
                    cursor: self.cursor + 1,
                    filtered: if attempt_outcome(response).keeps_entry() {
                        self.filtered.push(self.catalog[self.cursor as int])
                    } else {
                        self.filtered
                    },
                    last_status: None,
                    ..self
                },
            }
        }
    }

    /// The progress reported when `response` settles the awaited entry.
    pub open spec fn report(self, response: ProbeResponseView) -> ProgressSnapshotView {
        ProgressSnapshotView {
            total: self.catalog.len(),
            completed: self.cursor + 1,
            last_status: attempt_outcome(response).status().unwrap().label(),
        }
    }

    /// What the driver is told to do when `response` arrives.
    ///
    /// Once finished: nothing. For a retry: no report, the pause that the
    /// reason calls for, and the same identifier again. For a final response:
    /// the report for the settled entry, the pause between entries, and the
    /// identifier of the next entry, if any.
    pub open spec fn directive(self, response: ProbeResponseView) -> StepView {
        if self.finished() {
            StepView { report: None, pause_millis: 0, probe: None }
        } else {
            match attempt_outcome(response) {
                AttemptOutcomeView::Retry(reason) => StepView {
                    report: None,
                    pause_millis: reason.backoff(),
                    probe: self.pending_probe(),
                },
                AttemptOutcomeView::Terminal(_) => StepView {
                    report: Some(self.report(response)),
                    pause_millis: ENTRY_PAUSE_MILLIS,
                    probe: self.after(response).pending_probe(),
                },
            }
        }
    }

    /// What the driver is told to do first: ask for the first entry, if any.
    pub open spec fn opening(self) -> StepView {
        StepView { report: None, pause_millis: 0, probe: self.pending_probe() }
    }
}

/// The initial state is well-formed.
pub proof fn lemma_init_wf(catalog: Seq<AppEntryView>)
    ensures
        PipelineView::init(catalog).wf(),
{
    lemma_empty_is_subsequence(catalog.take(0));
}

/// Every response takes a well-formed state to a well-formed state: whatever
/// the storefront answers, the kept entries stay a subsequence of the settled
/// ones.
pub proof fn lemma_after_preserves_wf(state: PipelineView, response: ProbeResponseView)
    requires
        state.wf(),
    ensures
        state.after(response).wf(),
{
    if !state.finished() {
        let n = state.cursor as int;
        if attempt_outcome(response) is Terminal {
            if attempt_outcome(response).keeps_entry() {
                lemma_subsequence_push(state.filtered, state.catalog, n);
            } else {
                lemma_subsequence_of_longer_prefix(state.filtered, state.catalog, n, n + 1);
            }
        }
    }
}

/// In a well-formed state the kept entries are a subsequence of the whole
/// catalog: no entry is made up, and none changes place.
pub proof fn lemma_filtered_is_subsequence(state: PipelineView)
    requires
        state.wf(),
    ensures
        is_subsequence(state.filtered, state.catalog),
{
    lemma_subsequence_of_longer_prefix(
        state.filtered,
        state.catalog,
        state.cursor as int,
        state.catalog.len() as int,
    );
    assert(state.catalog.take(state.catalog.len() as int) =~= state.catalog);
}

/// The filtering pipeline over one catalog.
pub struct FilterPipeline {
    catalog: Vec<AppEntry>,
    cursor: usize,
    filtered: Vec<AppEntry>,
    last_status: Option<ProbeStatus>,
}

impl View for FilterPipeline {
    type V = PipelineView;

    closed spec fn view(&self) -> PipelineView {
        PipelineView {
            catalog: self.catalog.deep_view(),
            cursor: self.cursor as nat,
            filtered: self.filtered.deep_view(),
            last_status: self.last_status,
        }
    }
}

impl FilterPipeline {
    #[verifier::type_invariant]
    spec fn inv(self) -> bool {
        self@.wf()
    }

    /// Starts a pipeline over `catalog`: nothing settled, nothing kept.
    pub fn new(catalog: Vec<AppEntry>) -> (pipeline: FilterPipeline)
        ensures
            pipeline@ == PipelineView::init(catalog.deep_view()),
            pipeline@.wf(),
    {
        let filtered: Vec<AppEntry> = Vec::new();
        proof {
            lemma_init_wf(catalog.deep_view());
            assert(filtered.deep_view() =~= Seq::<AppEntryView>::empty());
        }
        FilterPipeline { catalog, cursor: 0, filtered, last_status: None }
    }

    /// Whether every entry has been settled.
    pub fn is_finished(&self) -> (done: bool)
        ensures
            done == self@.finished(),
    {
        self.cursor >= self.catalog.len()
    }

    /// Number of entries in the catalog.
    pub fn total(&self) -> (n: usize)
        ensures
            n == self@.catalog.len(),
    {
        self.catalog.len()
    }

    /// Number of entries settled so far: never more than the catalog holds.
    pub fn completed(&self) -> (n: usize)
        ensures
            n == self@.cursor,
            n <= self@.catalog.len(),
            self@.wf(),
    {
        proof {
            use_type_invariant(self);
        }
        self.cursor
    }

    /// Status recorded by the latest attempt for the awaited entry, if any.
    pub fn last_status(&self) -> (status: Option<ProbeStatus>)
        ensures
            status == self@.last_status,
    {
        self.last_status
    }

    /// Identifier of the entry whose detail is awaited, if any.
    pub fn pending_probe(&self) -> (appid: Option<usize>)
        ensures
            appid == self@.pending_probe(),
    {
        if self.cursor < self.catalog.len() {
            Some(self.catalog[self.cursor].appid)
        } else {
            None
        }
    }

    /// What the driver does first.
    pub fn start(&self) -> (step: Step)
        ensures
            step@ == self@.opening(),
    {
        Step { report: None, pause_millis: 0, probe: self.pending_probe() }
    }

    /// The entries kept so far: always a subsequence of the catalog.
    pub fn filtered(&self) -> (kept: &Vec<AppEntry>)
        ensures
            kept.deep_view() == self@.filtered,
            is_subsequence(kept.deep_view(), self@.catalog),
    {
        proof {
            use_type_invariant(self);
            lemma_filtered_is_subsequence(self@);
        }
        &self.filtered
    }

    /// Ends the pipeline and hands out the entries kept: a subsequence of the
    /// catalog, in the catalog's order. A pipeline may be ended at any point;
    /// one that is cut short hands out what it has kept so far.
    pub fn into_filtered(self) -> (kept: Vec<AppEntry>)
        ensures
            kept.deep_view() == self@.filtered,
            is_subsequence(kept.deep_view(), self@.catalog),
    {
        proof {
            use_type_invariant(&self);
            lemma_filtered_is_subsequence(self@);
        }
        self.filtered
    }

    /// Takes in the response to the request for the awaited entry, and says
    /// what to do next.
    ///
    /// The state returned is [`PipelineView::after`] of this one, the step is
    /// [`PipelineView::directive`]. No response makes this fail.
    pub fn on_response(self, response: ProbeResponse) -> (next: (FilterPipeline, Step))
        ensures
            next.0@ == self@.after(response@),
            next.1@ == self@.directive(response@),
            next.0@.wf(),
    {
        proof {
            use_type_invariant(&self);
            lemma_after_preserves_wf(self@, response@);
        }
        if self.cursor >= self.catalog.len() {
            return (self, Step { report: None, pause_millis: 0, probe: None });
        }
        let FilterPipeline { catalog, cursor, filtered, last_status } = self;
        let mut filtered = filtered;
        let outcome = classify_attempt(response);
        match outcome {
            AttemptOutcome::Retry(reason) => {
                let recorded = reason.recorded_status();
                let step = Step {
                    report: None,
                    pause_millis: reason.backoff_millis(),
                    probe: Some(catalog[cursor].appid),
                };
                let pipeline = FilterPipeline {
                    catalog,
                    cursor,
                    filtered,
                    last_status: if recorded.is_some() {
                        recorded
                    } else {
                        last_status
                    },
                };
                (pipeline, step)
            },
            AttemptOutcome::Terminal(_) => {
                let label = match outcome.recorded_status() {
                    Some(status) => status.as_str(),
                    None => ProbeStatus::NoData.as_str(),
                };
                if outcome.keeps_entry() {
                    let entry = catalog[cursor].clone();
                    filtered.push(entry);
                }
                let report = ProgressSnapshot {
                    total: catalog.len() as u64,
                    completed: (cursor + 1) as u64,
                    last_status: String::from_str(label),
                };
                proof {
                    assert(filtered.deep_view() =~= self@.after(response@).filtered);
                }
                let pipeline = FilterPipeline {
                    catalog,
                    cursor: cursor + 1,
                    filtered,
                    last_status: None,
                };
                let probe = pipeline.pending_probe();
                (pipeline, Step { report: Some(report), pause_millis: ENTRY_PAUSE_MILLIS, probe })
            },
        }
    }
}

} // verus!
