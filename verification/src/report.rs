//! Terminal outcomes of work items and the final reduction: trailing-empty
//! truncation, failure accounting, and assembly of the ordered document text.

use vstd::prelude::*;
use vstd::string::*;

use crate::errors::ErrorKind;
use crate::planner::WorkItem;

verus! {

/// How one work item ended: the extracted text, or the error that exhausted
/// its retries together with the number of calls made.
#[derive(Debug, Clone, PartialEq)]
pub enum Outcome {
    Success(String),
    Failure(ErrorKind, usize),
}

/// The terminal record of one work item, keyed by the item's original index.
/// Written exactly once, when the item's processing (retries included)
/// terminates; immutable afterwards.
#[derive(Debug, Clone, PartialEq)]
pub struct WorkResult {
    pub index: usize,
    pub outcome: Outcome,
}

/// What the orchestrator hands back: every terminal record, the texts kept
/// after trailing truncation, the unit ranges of failed items, summary
/// counts, the joined document text, and whether the run was cut short by
/// cancellation.
#[derive(Debug, Clone, PartialEq)]
pub struct AggregateReport {
    /// One terminal record per processed item, in index order. Covers every
    /// planned item unless the run was cancelled.
    pub results: Vec<WorkResult>,
    /// Per-index texts up to the last non-blank success; blank successes and
    /// failures hold an empty string.
    pub ordered_texts: Vec<String>,
    /// The `(start_unit, end_unit)` range of every failed item, in index
    /// order, truncated or not.
    pub failed_ranges: Vec<(usize, usize)>,
    /// How many kept texts come from a non-blank success.
    pub success_count: usize,
    /// Characters over all kept texts, saturating at `usize::MAX`.
    pub total_chars: usize,
    /// The kept success texts joined with [`separator`]; failed slots are
    /// left out, blank mid-document successes stay as empty entries.
    pub final_text: String,
    /// True when cancellation stopped the run before every item finished.
    pub cancelled: bool,
}

/// The Unicode whitespace characters; a text consisting only of these
/// counts as blank.
pub open spec fn is_space_char(c: char) -> bool {
    ||| c == ' '
    ||| c == '\t'
    ||| c == '\n'
    ||| c == '\r'
    ||| c == '\u{0B}'
    ||| c == '\u{0C}'
    ||| c == '\u{85}'
    ||| c == '\u{A0}'
    ||| c == '\u{1680}'
    ||| c == '\u{2000}'
    ||| c == '\u{2001}'
    ||| c == '\u{2002}'
    ||| c == '\u{2003}'
    ||| c == '\u{2004}'
    ||| c == '\u{2005}'
    ||| c == '\u{2006}'
    ||| c == '\u{2007}'
    ||| c == '\u{2008}'
    ||| c == '\u{2009}'
    ||| c == '\u{200A}'
    ||| c == '\u{2028}'
    ||| c == '\u{2029}'
    ||| c == '\u{202F}'
    ||| c == '\u{205F}'
    ||| c == '\u{3000}'
}

/// Blank: empty or made of whitespace only.
pub open spec fn is_blank(s: Seq<char>) -> bool {
    forall|i: int| 0 <= i < s.len() ==> is_space_char(#[trigger] s[i])
}

/// Whether `c` is one of the Unicode whitespace characters.
pub fn char_is_space(c: char) -> (r: bool)
    ensures
        r == is_space_char(c),
{
    match c {
        ' ' | '\t' | '\n' | '\r' => true,
        '\u{0B}' | '\u{0C}' | '\u{85}' | '\u{A0}' | '\u{1680}' => true,
        '\u{2000}' | '\u{2001}' | '\u{2002}' | '\u{2003}' | '\u{2004}' => true,
        '\u{2005}' | '\u{2006}' | '\u{2007}' | '\u{2008}' | '\u{2009}' => true,
        '\u{200A}' | '\u{2028}' | '\u{2029}' | '\u{202F}' | '\u{205F}' => true,
        '\u{3000}' => true,
        _ => false,
    }
}

/// Whether `s` trims to nothing: it holds whitespace characters only.
pub fn str_is_blank(s: &str) -> (r: bool)
    ensures
        r == is_blank(s@),
{
    let n = s.unicode_len();
    let mut i: usize = 0;
    while i < n
        invariant
            i <= n,
            n == s@.len(),
            forall|j: int| 0 <= j < i ==> is_space_char(#[trigger] s@[j]),
        decreases n - i,
    {
        if !char_is_space(s.get_char(i)) {
            return false;
        }
        i = i + 1;
    }
    true
}

/// A result that contributes content: a success whose text is not blank.
pub open spec fn is_content(r: WorkResult) -> bool {
    r.outcome matches Outcome::Success(t) && !is_blank(t@)
}

/// What a result contributes to the kept texts: its text for a non-blank
/// success, the empty string for a blank success or a failure.
pub open spec fn slot_text(r: WorkResult) -> Seq<char> {
    match r.outcome {
        Outcome::Success(t) => if is_blank(t@) {
            Seq::empty()
        } else {
            t@
        },
        Outcome::Failure(_, _) => Seq::empty(),
    }
}

/// The highest index below `upto` whose result contributes content, or `-1`
/// when there is none.
pub open spec fn last_content_before(rs: Seq<WorkResult>, upto: int) -> int
    decreases upto,
{
    if upto <= 0 {
        -1
    } else if is_content(rs[upto - 1]) {
        upto - 1
    } else {
        last_content_before(rs, upto - 1)
    }
}

/// How many leading results survive trailing truncation: everything up to
/// and including the last non-blank success; one slot when nothing has
/// content but results exist; nothing when there are no results.
pub open spec fn kept_len(rs: Seq<WorkResult>) -> int {
    let lc = last_content_before(rs, rs.len() as int);
    if lc >= 0 {
        lc + 1
    } else if rs.len() == 0 {
        0
    } else {
        1
    }
}

/// How many of the first `upto` results contribute content.
pub open spec fn content_count(rs: Seq<WorkResult>, upto: int) -> int
    decreases upto,
{
    if upto <= 0 {
        0
    } else {
        content_count(rs, upto - 1) + if is_content(rs[upto - 1]) {
            1int
        } else {
            0int
        }
    }
}

/// Characters contributed by the first `upto` results.
pub open spec fn chars_total(rs: Seq<WorkResult>, upto: int) -> int
    decreases upto,
{
    if upto <= 0 {
        0
    } else {
        chars_total(rs, upto - 1) + slot_text(rs[upto - 1]).len()
    }
}

/// The failed items among the first `upto` results, as the unit ranges of
/// the items they belong to, in index order.
pub open spec fn failed_upto(items: Seq<WorkItem>, rs: Seq<WorkResult>, upto: int) -> Seq<
    (usize, usize),
>
    decreases upto,
{
    if upto <= 0 {
        Seq::empty()
    } else {
        let init = failed_upto(items, rs, upto - 1);
        if rs[upto - 1].outcome is Failure {
            init.push(
                (
                    items[rs[upto - 1].index as int].start_unit,
                    items[rs[upto - 1].index as int].end_unit,
                ),
            )
        } else {
            init
        }
    }
}

/// Whether any of the first `upto` results is a success (blank or not).
pub open spec fn has_success_before(rs: Seq<WorkResult>, upto: int) -> bool {
    exists|j: int| 0 <= j < upto && (#[trigger] rs[j].outcome) is Success
}

/// The page-break separator placed between kept success texts.
pub open spec fn separator() -> Seq<char> {
    "\n\n--- Page Break ---\n\n"@
}

/// The separator as a string slice.
pub fn separator_str() -> (s: &'static str)
    ensures
        s@ == separator(),
{
    "\n\n--- Page Break ---\n\n"
}

/// The joined text of the first `upto` results: success slots in index
/// order with one separator between consecutive kept successes; failed
/// slots contribute nothing, blank successes stay as empty entries.
pub open spec fn join_upto(rs: Seq<WorkResult>, upto: int) -> Seq<char>
    decreases upto,
{
    if upto <= 0 {
        Seq::empty()
    } else {
        let prev = join_upto(rs, upto - 1);
        if rs[upto - 1].outcome is Success {
            if has_success_before(rs, upto - 1) {
                prev + separator() + slot_text(rs[upto - 1])
            } else {
                slot_text(rs[upto - 1])
            }
        } else {
            prev
        }
    }
}

/// Results are stored by their item's index: record `i` belongs to item `i`.
pub open spec fn results_indexed(rs: Seq<WorkResult>) -> bool {
    forall|i: int| 0 <= i < rs.len() ==> (#[trigger] rs[i].index) as int == i
}

/// Everything the reduction promises about a report built from `results`.
pub open spec fn report_matches(
    items: Seq<WorkItem>,
    results: Seq<WorkResult>,
    cancelled: bool,
    report: AggregateReport,
) -> bool {
    &&& report.results@ == results
    &&& report.ordered_texts@.len() == kept_len(results)
    &&& forall|i: int|
        0 <= i < kept_len(results) ==> (#[trigger] report.ordered_texts@[i])@ == slot_text(
            results[i],
        )
    &&& report.failed_ranges@ == failed_upto(items, results, results.len() as int)
    &&& report.success_count as int == content_count(results, kept_len(results))
    &&& report.total_chars as int == if chars_total(results, kept_len(results)) <= usize::MAX {
        chars_total(results, kept_len(results))
    } else {
        usize::MAX as int
    }
    &&& report.final_text@ == join_upto(results, kept_len(results))
    &&& report.cancelled == cancelled
}

/// Builds the aggregate report from the terminal records of a run, purely:
/// applies trailing truncation, collects the kept texts and the failed
/// ranges, computes the summary counts, and joins the final text.
pub fn reduce(items: &Vec<WorkItem>, results: Vec<WorkResult>, cancelled: bool) -> (report:
    AggregateReport)
    requires
        forall|i: int|
            0 <= i < results@.len() ==> (#[trigger] results@[i].index) < items@.len(),
    ensures
        report_matches(items@, results@, cancelled, report),
{
    let ghost rs = results@;
    let n = results.len();

    // Locate the last non-blank success.
    let mut has_content: bool = false;
    let mut lc: usize = 0;
    let mut i: usize = 0;
    while i < n
        invariant
            i <= n,
            n == rs.len(),
            results@ == rs,
            has_content <==> last_content_before(rs, i as int) >= 0,
            has_content ==> lc as int == last_content_before(rs, i as int),
            has_content ==> lc < i,
        decreases n - i,
    {
        if is_content_exec(&results[i]) {
            has_content = true;
            lc = i;
        }
        i = i + 1;
    }
    let kept: usize = if has_content {
        lc + 1
    } else if n == 0 {
        0
    } else {
        1
    };
    proof {
        assert(kept as int == kept_len(rs));
    }

    // Kept texts, content count, character total, joined text.
    let mut ordered_texts: Vec<String> = Vec::new();
    let mut success_count: usize = 0;
    let mut total_chars: usize = 0;
    let mut final_text: String = String::new();
    let mut any_success: bool = false;
    let mut i: usize = 0;
    while i < kept
        invariant
            i <= kept,
            kept as int <= rs.len(),
            results@ == rs,
            ordered_texts@.len() == i as int,
            forall|j: int|
                0 <= j < i ==> (#[trigger] ordered_texts@[j])@ == slot_text(rs[j]),
            success_count as int == content_count(rs, i as int),
            success_count <= i,
            total_chars as int == if chars_total(rs, i as int) <= usize::MAX {
                chars_total(rs, i as int)
            } else {
                usize::MAX as int
            },
            final_text@ == join_upto(rs, i as int),
            any_success == has_success_before(rs, i as int),
        decreases kept - i,
    {
        proof {
            lemma_chars_total_nonneg(rs, i as int);
        }
        let ghost text0 = final_text@;
        let ghost any0 = any_success;
        let ghost j = i as int;
        match &results[i].outcome {
            Outcome::Success(t) => {
                let blank = str_is_blank(t.as_str());
                if blank {
                    ordered_texts.push(String::new());
                } else {
                    ordered_texts.push(t.clone());
                    success_count = success_count + 1;
                    let chars = t.as_str().unicode_len();
                    total_chars = total_chars.saturating_add(chars);
                }
                if any_success {
                    final_text.append(separator_str());
                } else {
                    proof {
                        lemma_join_empty_without_success(rs, j);
                    }
                }
                if !blank {
                    final_text.append(t.as_str());
                }
                any_success = true;
                proof {
                    if any0 {
                        assert(final_text@ =~= text0 + separator() + slot_text(rs[j]));
                    } else {
                        assert(text0 =~= Seq::<char>::empty());
                        assert(final_text@ =~= slot_text(rs[j]));
                    }
                }
            },
            Outcome::Failure(_, _) => {
                ordered_texts.push(String::new());
            },
        }
        i = i + 1;
    }

    // Failed ranges over all results, truncated or not.
    let mut failed_ranges: Vec<(usize, usize)> = Vec::new();
    let mut i: usize = 0;
    while i < n
        invariant
            i <= n,
            n == rs.len(),
            results@ == rs,
            forall|j: int| 0 <= j < rs.len() ==> (#[trigger] rs[j].index) < items@.len(),
            failed_ranges@ == failed_upto(items@, rs, i as int),
        decreases n - i,
    {
        let is_failure = match &results[i].outcome {
            Outcome::Failure(_, _) => true,
            Outcome::Success(_) => false,
        };
        if is_failure {
            let idx = results[i].index;
            failed_ranges.push((items[idx].start_unit, items[idx].end_unit));
        }
        i = i + 1;
    }

    AggregateReport {
        results,
        ordered_texts,
        failed_ranges,
        success_count,
        total_chars,
        final_text,
        cancelled,
    }
}

/// Whether this result contributes content (a non-blank success).
pub fn is_content_exec(r: &WorkResult) -> (b: bool)
    ensures
        b == is_content(*r),
{
    match &r.outcome {
        Outcome::Success(t) => !str_is_blank(t.as_str()),
        Outcome::Failure(_, _) => false,
    }
}

/// `last_content_before` stays in `[-1, upto)`, points at content when
/// non-negative, and nothing after it up to `upto` has content.
pub proof fn lemma_last_content_spec(rs: Seq<WorkResult>, upto: int)
    requires
        0 <= upto <= rs.len(),
    ensures
        -1 <= last_content_before(rs, upto) < upto,
        last_content_before(rs, upto) >= 0 ==> is_content(rs[last_content_before(rs, upto)]),
        forall|j: int| last_content_before(rs, upto) < j < upto ==> !is_content(#[trigger] rs[j]),
    decreases upto,
{
    if upto > 0 {
        lemma_last_content_spec(rs, upto - 1);
    }
}

/// Until the first success, the joined text is empty.
pub proof fn lemma_join_empty_without_success(rs: Seq<WorkResult>, upto: int)
    requires
        !has_success_before(rs, upto),
    ensures
        join_upto(rs, upto) =~= Seq::<char>::empty(),
    decreases upto,
{
    if upto > 0 {
        assert(!(rs[upto - 1].outcome is Success));
        lemma_join_empty_without_success(rs, upto - 1);
    }
}

/// Character totals are never negative.
pub proof fn lemma_chars_total_nonneg(rs: Seq<WorkResult>, upto: int)
    ensures
        chars_total(rs, upto) >= 0,
    decreases upto,
{
    if upto > 0 {
        lemma_chars_total_nonneg(rs, upto - 1);
    }
}

/// Truncation never invents slots: at most one text per result is kept.
pub proof fn lemma_kept_len_bound(rs: Seq<WorkResult>)
    ensures
        0 <= kept_len(rs) <= rs.len(),
{
    lemma_last_content_spec(rs, rs.len() as int);
}

/// The trailing-truncation law: when result `k` is the last one with
/// content — every later result is a blank success or a failure — exactly
/// `k + 1` slots are kept. Later failures extend nothing.
pub proof fn lemma_trailing_truncation(rs: Seq<WorkResult>, k: int)
    requires
        0 <= k < rs.len(),
        is_content(rs[k]),
        forall|j: int| k < j < rs.len() ==> !is_content(#[trigger] rs[j]),
    ensures
        kept_len(rs) == k + 1,
{
    lemma_last_content_spec(rs, rs.len() as int);
    let lc = last_content_before(rs, rs.len() as int);
    if lc < k {
        assert(!is_content(rs[k]));
    }
}

/// The reduction is deterministic: two reports built from the same items,
/// the same terminal records and the same cancellation state agree on every
/// derived field. Running the orchestrator twice over a port that answers
/// the same way both times therefore yields identical report content.
pub proof fn lemma_report_deterministic(
    items: Seq<WorkItem>,
    results: Seq<WorkResult>,
    cancelled: bool,
    r1: AggregateReport,
    r2: AggregateReport,
)
    requires
        report_matches(items, results, cancelled, r1),
        report_matches(items, results, cancelled, r2),
    ensures
        r1.results@ == r2.results@,
        r1.ordered_texts@.len() == r2.ordered_texts@.len(),
        forall|i: int|
            0 <= i < r1.ordered_texts@.len() ==> (#[trigger] r1.ordered_texts@[i])@
                == r2.ordered_texts@[i]@,
        r1.failed_ranges@ == r2.failed_ranges@,
        r1.success_count == r2.success_count,
        r1.total_chars == r2.total_chars,
        r1.final_text@ == r2.final_text@,
        r1.cancelled == r2.cancelled,
{
}

/// Some result carries index `j`.
pub open spec fn index_present(rs: Seq<WorkResult>, j: int) -> bool {
    exists|i: int| 0 <= i < rs.len() && (#[trigger] rs[i].index) as int == j
}

/// The indices of results stored by index form exactly `0..n-1`: every
/// position below the length is some result's index, and no two results
/// share one.
pub proof fn lemma_result_indices_complete(rs: Seq<WorkResult>)
    requires
        results_indexed(rs),
    ensures
        forall|j: int| 0 <= j < rs.len() ==> #[trigger] index_present(rs, j),
        forall|i1: int, i2: int|
            0 <= i1 < i2 < rs.len() ==> rs[i1].index != rs[i2].index,
{
    assert forall|j: int| 0 <= j < rs.len() implies #[trigger] index_present(rs, j) by {
        assert(rs[j].index as int == j);
    }
}

} // verus!
