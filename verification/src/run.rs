//! Whole runs of the pipeline: what holds after any sequence of responses,
//! whatever the storefront answers and however often it has to be asked.

use crate::applist::AppEntryView;
use crate::order::{is_subsequence, picked};
use crate::pipeline::{
    lemma_after_preserves_wf, lemma_filtered_is_subsequence, lemma_init_wf, PipelineView,
    ProgressSnapshotView, StepView, ENTRY_PAUSE_MILLIS,
};
use crate::probe::{
    attempt_outcome, EntryDetailView, ProbeResponseView, ProbeStatus, GAME_CLASSIFICATION,
    RATE_LIMIT_COOLDOWN_MILLIS, STATUS_BAD_GATEWAY, STATUS_TOO_MANY_REQUESTS,
};
use vstd::prelude::*;

verus! {

/// The state reached from `start` once `responses` have arrived, in order.
pub open spec fn run(start: PipelineView, responses: Seq<ProbeResponseView>) -> PipelineView
    decreases responses.len(),
{
    if responses.len() == 0 {
        start
    } else {
        run(start, responses.drop_last()).after(responses.last())
    }
}

/// The progress reports handed out along the run from `start` over
/// `responses`, in the order in which they were made.
pub open spec fn reports(start: PipelineView, responses: Seq<ProbeResponseView>) -> Seq<
    ProgressSnapshotView,
>
    decreases responses.len(),
{
    if responses.len() == 0 {
        Seq::empty()
    } else {
        let earlier = reports(start, responses.drop_last());
        let step = run(start, responses.drop_last()).directive(responses.last());
        match step.report {
            Some(report) => earlier.push(report),
            None => earlier,
        }
    }
}

/// For each response of `responses` that settles an entry, in order: whether
/// it says that the entry is a game with achievements.
pub open spec fn verdicts(responses: Seq<ProbeResponseView>) -> Seq<bool>
    decreases responses.len(),
{
    if responses.len() == 0 {
        Seq::empty()
    } else {
        let earlier = verdicts(responses.drop_last());
        let outcome = attempt_outcome(responses.last());
        if outcome is Terminal {
            earlier.push(outcome.keeps_entry())
        } else {
            earlier
        }
    }
}

/// Every run from a well-formed state ends in a well-formed state, and never
/// touches the catalog.
pub proof fn lemma_run_wf(start: PipelineView, responses: Seq<ProbeResponseView>)
    requires
        start.wf(),
    ensures
        run(start, responses).wf(),
        run(start, responses).catalog == start.catalog,
    decreases responses.len(),
{
    if responses.len() > 0 {
        lemma_run_wf(start, responses.drop_last());
        lemma_after_preserves_wf(run(start, responses.drop_last()), responses.last());
    }
}

/// Whatever responses arrive, the entries kept are a subsequence of the
/// catalog: each of them is an entry of the catalog, and they stand in the
/// catalog's order.
pub proof fn lemma_result_is_subsequence(
    catalog: Seq<AppEntryView>,
    responses: Seq<ProbeResponseView>,
)
    ensures
        is_subsequence(run(PipelineView::init(catalog), responses).filtered, catalog),
{
    lemma_init_wf(catalog);
    lemma_run_wf(PipelineView::init(catalog), responses);
    lemma_filtered_is_subsequence(run(PipelineView::init(catalog), responses));
}

/// Progress is reported once for every entry settled and never otherwise: the
/// reports of a run number as many as the entries it settled, the report at
/// position `i` says that `i + 1` of all the catalog's entries are done, and a
/// run that finishes has reported exactly once per entry of the catalog.
pub proof fn lemma_one_report_per_entry(
    catalog: Seq<AppEntryView>,
    responses: Seq<ProbeResponseView>,
)
    ensures
        reports(PipelineView::init(catalog), responses).len() == run(
            PipelineView::init(catalog),
            responses,
        ).cursor,
        forall|i: int|
            0 <= i < reports(PipelineView::init(catalog), responses).len() ==> {
                &&& (#[trigger] reports(PipelineView::init(catalog), responses)[i]).completed == i
                    + 1
                &&& reports(PipelineView::init(catalog), responses)[i].total == catalog.len()
            },
        run(PipelineView::init(catalog), responses).finished() ==> reports(
            PipelineView::init(catalog),
            responses,
        ).len() == catalog.len(),
    decreases responses.len(),
{
    let start = PipelineView::init(catalog);
    lemma_init_wf(catalog);
    lemma_run_wf(start, responses);
    if responses.len() > 0 {
        lemma_one_report_per_entry(catalog, responses.drop_last());
        lemma_run_wf(start, responses.drop_last());
    }
}

/// Where no response brings a detail classified as a game, nothing is kept.
pub proof fn lemma_no_game_no_result(
    catalog: Seq<AppEntryView>,
    responses: Seq<ProbeResponseView>,
)
    requires
        forall|i: int|
            0 <= i < responses.len() ==> (#[trigger] responses[i] matches ProbeResponseView::Reply {
                detail: Some(detail),
                ..
            } ==> detail.classification != GAME_CLASSIFICATION@),
    ensures
        run(PipelineView::init(catalog), responses).filtered == Seq::<AppEntryView>::empty(),
    decreases responses.len(),
{
    if responses.len() > 0 {
        let earlier = responses.drop_last();
        assert forall|i: int| 0 <= i < earlier.len() implies (#[trigger] earlier[i] matches ProbeResponseView::Reply {
            detail: Some(detail),
            ..
        } ==> detail.classification != GAME_CLASSIFICATION@) by {
            assert(earlier[i] == responses[i]);
        }
        lemma_no_game_no_result(catalog, earlier);
        assert(responses.last() == responses[responses.len() - 1]);
    }
}

/// A response that is neither throttled nor a gateway fault and whose body
/// holds no detail settles the awaited entry without keeping it: the entry is
/// passed over, progress is reported with the status `no_data`, and the next
/// entry, if there is one, is asked for after the usual pause.
pub proof fn lemma_empty_body_skips_entry(state: PipelineView, status: u16)
    requires
        !state.finished(),
        status != STATUS_TOO_MANY_REQUESTS,
        status != STATUS_BAD_GATEWAY,
    ensures
        ({
            let response = ProbeResponseView::Reply { status, detail: None };
            let next = state.after(response);
            let step = state.directive(response);
            &&& next.filtered == state.filtered
            &&& next.cursor == state.cursor + 1
            &&& next.catalog == state.catalog
            &&& step.report == Some(
                ProgressSnapshotView {
                    total: state.catalog.len(),
                    completed: state.cursor + 1,
                    last_status: ProbeStatus::NoData.label(),
                },
            )
            &&& step.pause_millis == ENTRY_PAUSE_MILLIS
            &&& step.probe == if state.cursor + 1 < state.catalog.len() {
                Some(state.catalog[state.cursor as int + 1].appid)
            } else {
                None
            }
        }),
{
}

/// A throttled attempt followed by an answer costs exactly one more request:
/// the throttled response settles nothing, reports nothing, and has the same
/// identifier asked for again after the cooldown; the answer then leaves the
/// pipeline in the very state, and with the very step, that the answer alone
/// would have given.
pub proof fn lemma_rate_limit_then_answer(
    state: PipelineView,
    throttled_body: Option<EntryDetailView>,
    status: u16,
    detail: Option<EntryDetailView>,
)
    requires
        !state.finished(),
        status != STATUS_TOO_MANY_REQUESTS,
        status != STATUS_BAD_GATEWAY,
    ensures
        ({
            let throttled = ProbeResponseView::Reply {
                status: STATUS_TOO_MANY_REQUESTS,
                detail: throttled_body,
            };
            let answer = ProbeResponseView::Reply { status, detail };
            let waiting = state.after(throttled);
            &&& state.directive(throttled) == StepView {
                report: None,
                pause_millis: RATE_LIMIT_COOLDOWN_MILLIS,
                probe: Some(state.catalog[state.cursor as int].appid),
            }
            &&& waiting.cursor == state.cursor
            &&& waiting.filtered == state.filtered
            &&& waiting.last_status == Some(ProbeStatus::RateLimited)
            &&& waiting.after(answer) == state.after(answer)
            &&& waiting.directive(answer) == state.directive(answer)
            &&& state.after(answer).cursor == state.cursor + 1
            &&& state.after(answer).filtered == if detail matches Some(d)
                && d.is_game_with_achievements() {
                state.filtered.push(state.catalog[state.cursor as int])
            } else {
                state.filtered
            }
        }),
{
}

/// What a run computes, in full: it settles one entry for each final response,
/// until the catalog is exhausted, and keeps exactly the entries whose final
/// response said game with achievements. Retries change nothing of this.
pub proof fn lemma_run_picks_by_verdict(
    catalog: Seq<AppEntryView>,
    responses: Seq<ProbeResponseView>,
)
    ensures
        run(PipelineView::init(catalog), responses).cursor == if verdicts(responses).len()
            <= catalog.len() {
            verdicts(responses).len()
        } else {
            catalog.len()
        },
        run(PipelineView::init(catalog), responses).filtered == picked(
            catalog,
            verdicts(responses),
        ),
    decreases responses.len(),
{
    let start = PipelineView::init(catalog);
    lemma_init_wf(catalog);
    lemma_run_wf(start, responses);
    if responses.len() > 0 {
        let earlier = responses.drop_last();
        lemma_run_picks_by_verdict(catalog, earlier);
        lemma_run_wf(start, earlier);
        let outcome = attempt_outcome(responses.last());
        if outcome is Terminal {
            let keep = verdicts(responses);
            assert(keep.drop_last() =~= verdicts(earlier));
            assert(keep.last() == outcome.keeps_entry());
        }
    }
}

} // verus!
