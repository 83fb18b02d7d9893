//! The orchestrator: drives every planned work item through the extraction
//! port to a terminal outcome — retrying transient failures under the retry
//! policy, pacing items, polling for cancellation — and reduces the terminal
//! records into the final aggregate report.
//!
//! Items are admitted one at a time, so the number of extraction calls in
//! flight never exceeds any concurrency limit of one or more. Results are
//! recorded by item index, and the report's ordering is by index, never by
//! completion order.

use vstd::prelude::*;
use vstd::string::*;

use crate::errors::ErrorKind;
use crate::planner::WorkItem;
use crate::planner::chunk_count;
use crate::planner::is_plan;
use crate::planner::is_planned_item;
use crate::planner::plan;
use crate::ports::CancelSignal;
use crate::ports::EventKind;
use crate::ports::ExtractionPort;
use crate::ports::ProgressSink;
use crate::ports::WaitPort;
use crate::report::AggregateReport;
use crate::report::Outcome;
use crate::report::WorkResult;
use crate::report::reduce;
use crate::report::report_matches;
use crate::report::results_indexed;
use crate::retry::RetryDecision;
use crate::retry::RetryPolicy;

verus! {

/// Items carry their own position: item `i` of the sequence has index `i`.
/// The planner always produces such sequences.
pub open spec fn items_indexed(items: Seq<WorkItem>) -> bool {
    forall|i: int| 0 <= i < items.len() ==> (#[trigger] items[i].index) as int == i
}

/// What holds of one item's terminal record, whatever the port answered:
/// a failure was recorded only once the policy decided to give up on it,
/// after at least one call and at most `max_attempts` calls (one call when
/// `max_attempts` is zero).
pub open spec fn item_result_valid(policy: RetryPolicy, r: WorkResult) -> bool {
    match r.outcome {
        Outcome::Success(_) => true,
        Outcome::Failure(e, attempts) => {
            &&& 1 <= attempts
            &&& policy.decision_spec(e, attempts as int) is GiveUp
            &&& (attempts <= policy.max_attempts || attempts == 1)
        },
    }
}

/// No recorded per-item failure carries the run-fatal kind: the run driver
/// turns such an outcome into a run-level error instead of recording it.
pub open spec fn no_aborted_failure(rs: Seq<WorkResult>) -> bool {
    forall|i: int|
        0 <= i < rs.len() ==> !((#[trigger] rs[i]).outcome matches Outcome::Failure(e, _)
            && e is RunAborted)
}

/// Everything `run` promises of a completed report: the records are a
/// prefix of the items, stored by index, complete unless cancelled, each
/// valid under the policy, none run-fatal, and the derived fields are the
/// reduction of the records.
pub open spec fn run_report_valid(
    items: Seq<WorkItem>,
    policy: RetryPolicy,
    report: AggregateReport,
) -> bool {
    &&& report.results@.len() <= items.len()
    &&& !report.cancelled ==> report.results@.len() == items.len()
    &&& results_indexed(report.results@)
    &&& forall|i: int|
        0 <= i < report.results@.len() ==> item_result_valid(policy, #[trigger] report.results@[i])
    &&& no_aborted_failure(report.results@)
    &&& report_matches(items, report.results@, report.cancelled, report)
}

/// Output ordering equals input index ordering: in any report a run
/// returns, the `i`-th kept text is the contribution of the result that
/// carries index `i`, whatever order items completed in.
pub proof fn lemma_output_order(
    items: Seq<WorkItem>,
    policy: RetryPolicy,
    report: AggregateReport,
)
    requires
        run_report_valid(items, policy, report),
    ensures
        forall|i: int|
            0 <= i < report.ordered_texts@.len() ==> (#[trigger] report.ordered_texts@[i])@
                == crate::report::slot_text(report.results@[i]) && report.results@[i].index as int
                == i,
{
    crate::report::lemma_last_content_spec(report.results@, report.results@.len() as int);
}

/// Retry bound: an item recorded as failed on a transient error — one the
/// policy retries while attempts remain — used exactly `max_attempts`
/// extraction calls (one call, when the policy allows none).
pub proof fn lemma_transient_failure_used_all_attempts(policy: RetryPolicy, r: WorkResult)
    requires
        item_result_valid(policy, r),
        r.outcome matches Outcome::Failure(e, _) && crate::errors::is_transient(e),
    ensures
        r.outcome matches Outcome::Failure(_, attempts) ==> attempts as int == if policy.max_attempts
            >= 1 {
            policy.max_attempts as int
        } else {
            1int
        },
{
}

/// Drives one work item to its terminal outcome: calls the port, and on
/// each failure asks the policy whether to wait and retry. Emits the item's
/// start, completion, backoff and failure events to the sink.
///
/// Whatever the port answers, the record belongs to this item, and a
/// failure is recorded only with the policy's give-up decision on it.
pub fn process_item<P: ExtractionPort, S: ProgressSink, W: WaitPort>(
    port: &mut P,
    item: &WorkItem,
    policy: &RetryPolicy,
    sink: &mut S,
    waiter: &mut W,
) -> (r: WorkResult)
    ensures
        r.index == item.index,
        item_result_valid(*policy, r),
{
    sink.on_event(item.index, EventKind::Started);
    let mut attempts: usize = 0;
    loop
        invariant
            attempts == 0 || attempts < policy.max_attempts,
        decreases policy.max_attempts - attempts,
    {
        let res = port.extract(item.start_unit, item.end_unit);
        attempts = attempts + 1;
        match res {
            Ok(text) => {
                let chars = text.as_str().unicode_len();
                sink.on_event(item.index, EventKind::Completed(chars));
                return WorkResult { index: item.index, outcome: Outcome::Success(text) };
            },
            Err(e) => {
                match policy.should_retry(&e, attempts) {
                    RetryDecision::Retry(wait) => {
                        sink.on_event(item.index, EventKind::RateLimited(wait));
                        waiter.wait(wait);
                    },
                    RetryDecision::GiveUp => {
                        sink.on_event(item.index, EventKind::Failed(e.describe().to_owned()));
                        return WorkResult {
                            index: item.index,
                            outcome: Outcome::Failure(e, attempts),
                        };
                    },
                }
            },
        }
    }
}

/// Runs every item through the port under the concurrency limit and reduces
/// the outcomes into the aggregate report.
///
/// A zero concurrency limit is rejected up front as `InvalidConfig`. A
/// port answer of `RunAborted` ends the run at once with that error —
/// the only error a started run can return. Otherwise the report covers
/// one record per item, by index; when the cancel signal fires, the report
/// instead covers the items already finished — strictly fewer than all of
/// them — and carries the cancellation flag. An empty plan always succeeds,
/// uncancelled: no port is consulted, so nothing can go wrong. Items after
/// the first wait out the policy's pacing delay before their call is issued.
pub fn run<P: ExtractionPort, S: ProgressSink, C: CancelSignal, W: WaitPort>(
    items: &Vec<WorkItem>,
    port: &mut P,
    concurrency_limit: usize,
    policy: &RetryPolicy,
    sink: &mut S,
    cancel: &C,
    waiter: &mut W,
) -> (r: Result<AggregateReport, ErrorKind>)
    requires
        items_indexed(items@),
    ensures
        concurrency_limit == 0 <==> r == Err::<AggregateReport, ErrorKind>(
            ErrorKind::InvalidConfig,
        ),
        r matches Err(e) ==> (e == ErrorKind::InvalidConfig || e == ErrorKind::RunAborted),
        r matches Ok(report) ==> run_report_valid(items@, *policy, report),
        items@.len() == 0 && concurrency_limit != 0 ==> (r matches Ok(report)
            && !report.cancelled),
        r matches Ok(report) ==> (report.cancelled ==> report.results@.len() < items@.len()),
{
    if concurrency_limit == 0 {
        return Err(ErrorKind::InvalidConfig);
    }
    let n = items.len();
    let mut results: Vec<WorkResult> = Vec::new();
    let mut cancelled: bool = false;
    let mut i: usize = 0;
    while i < n && !cancelled
        invariant
            concurrency_limit >= 1,
            i <= n,
            cancelled ==> i < n,
            n == items@.len(),
            items_indexed(items@),
            results@.len() == i as int,
            results_indexed(results@),
            forall|j: int|
                0 <= j < results@.len() ==> item_result_valid(*policy, #[trigger] results@[j]),
            no_aborted_failure(results@),
        decreases n - i + if cancelled {
            0int
        } else {
            1int
        },
    {
        if cancel.is_cancelled() {
            cancelled = true;
        } else {
            if i > 0 {
                waiter.wait(policy.pacing_delay);
            }
            let item = items[i];
            let r = process_item(port, &item, policy, sink, waiter);
            let aborted = match &r.outcome {
                Outcome::Failure(e, _) => match e {
                    ErrorKind::RunAborted => true,
                    _ => false,
                },
                Outcome::Success(_) => false,
            };
            if aborted {
                return Err(ErrorKind::RunAborted);
            }
            results.push(r);
            i = i + 1;
        }
    }
    let report = reduce(items, results, cancelled);
    Ok(report)
}

/// The items of a plan over `total_units` units in chunks of
/// `units_per_chunk`, as a sequence: item `i` covers units
/// `i*units_per_chunk + 1` through `min((i+1)*units_per_chunk, total_units)`.
pub open spec fn plan_spec(total_units: int, units_per_chunk: int) -> Seq<WorkItem> {
    Seq::new(
        chunk_count(total_units, units_per_chunk) as nat,
        |i: int|
            WorkItem {
                index: i as usize,
                start_unit: (i * units_per_chunk + 1) as usize,
                end_unit: (if (i + 1) * units_per_chunk <= total_units {
                    (i + 1) * units_per_chunk
                } else {
                    total_units
                }) as usize,
            },
    )
}

/// A plan is unique: any item sequence satisfying the plan predicate is
/// exactly [`plan_spec`] of its inputs.
pub proof fn lemma_plan_is_plan_spec(items: Seq<WorkItem>, total_units: int, units_per_chunk: int)
    requires
        is_plan(items, total_units, units_per_chunk),
    ensures
        items =~= plan_spec(total_units, units_per_chunk),
{
    assert forall|i: int| 0 <= i < items.len() implies items[i] == plan_spec(
        total_units,
        units_per_chunk,
    )[i] by {
        assert(is_planned_item(items[i], i, total_units, units_per_chunk));
    }
}

/// The public run entry point: plans the unit range, then runs the items.
///
/// Fails with `InvalidConfig` exactly when `units_per_chunk` or
/// `concurrency_limit` is zero; otherwise behaves as [`run`] on the plan
/// over `total_units`. A document of zero units always succeeds with an
/// empty, uncancelled report, and a cancelled report never covers the
/// whole plan.
pub fn extract_document<P: ExtractionPort, S: ProgressSink, C: CancelSignal, W: WaitPort>(
    total_units: usize,
    units_per_chunk: usize,
    concurrency_limit: usize,
    policy: &RetryPolicy,
    port: &mut P,
    sink: &mut S,
    cancel: &C,
    waiter: &mut W,
) -> (r: Result<AggregateReport, ErrorKind>)
    ensures
        r matches Err(e) && e == ErrorKind::InvalidConfig <==> (units_per_chunk == 0
            || concurrency_limit == 0),
        r matches Err(e) ==> (e == ErrorKind::InvalidConfig || e == ErrorKind::RunAborted),
        r matches Ok(report) ==> run_report_valid(
            plan_spec(total_units as int, units_per_chunk as int),
            *policy,
            report,
        ),
        total_units == 0 && units_per_chunk != 0 && concurrency_limit != 0 ==> (r matches Ok(
            report,
        ) && !report.cancelled),
        r matches Ok(report) ==> (report.cancelled ==> report.results@.len() < plan_spec(
            total_units as int,
            units_per_chunk as int,
        ).len()),
{
    let items = match plan(total_units, units_per_chunk) {
        Ok(items) => items,
        Err(e) => { return Err(e) },
    };
    if concurrency_limit == 0 {
        return Err(ErrorKind::InvalidConfig);
    }
    proof {
        lemma_plan_is_plan_spec(items@, total_units as int, units_per_chunk as int);
        assert(chunk_count(0, units_per_chunk as int) == 0);
    }
    run(&items, port, concurrency_limit, policy, sink, cancel, waiter)
}

} // verus!
