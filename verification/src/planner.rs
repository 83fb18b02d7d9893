//! The page-range planner: turns a total unit count and a units-per-chunk
//! size into the ordered sequence of work items the orchestrator processes.

use vstd::prelude::*;

use crate::errors::ErrorKind;

verus! {

/// One contiguous unit range scheduled for extraction. Created by [`plan`],
/// consumed exactly once by the orchestrator, never mutated. Units are
/// numbered from 1; `index` is the item's position in the plan.
#[derive(Clone, Copy, Debug, PartialEq, Eq, Structural)]
pub struct WorkItem {
    pub index: usize,
    pub start_unit: usize,
    pub end_unit: usize,
}

/// How many chunks a plan over `total_units` units holds when each chunk
/// covers `units_per_chunk` units: one chunk per full `units_per_chunk`
/// units, plus one for a non-empty remainder. Equal to the ceiling of
/// `total_units / units_per_chunk` (see [`lemma_chunk_count_is_ceil`]).
pub open spec fn chunk_count(total_units: int, units_per_chunk: int) -> int
    decreases total_units,
{
    if total_units <= 0 || units_per_chunk <= 0 {
        0
    } else {
        1 + chunk_count(
            if total_units - units_per_chunk > 0 {
                total_units - units_per_chunk
            } else {
                0
            },
            units_per_chunk,
        )
    }
}

/// The `i`-th item of a plan over `total_units` units in chunks of
/// `units_per_chunk`: it covers units `i*units_per_chunk + 1` through
/// `min((i+1)*units_per_chunk, total_units)`.
pub open spec fn is_planned_item(
    item: WorkItem,
    i: int,
    total_units: int,
    units_per_chunk: int,
) -> bool {
    &&& item.index as int == i
    &&& item.start_unit as int == i * units_per_chunk + 1
    &&& item.end_unit as int == if (i + 1) * units_per_chunk <= total_units {
        (i + 1) * units_per_chunk
    } else {
        total_units
    }
}

/// A whole plan: the right number of items, each with the item formula.
pub open spec fn is_plan(items: Seq<WorkItem>, total_units: int, units_per_chunk: int) -> bool {
    &&& items.len() == chunk_count(total_units, units_per_chunk)
    &&& forall|i: int|
        0 <= i < items.len() ==> is_planned_item(
            #[trigger] items[i],
            i,
            total_units,
            units_per_chunk,
        )
}

/// Splits `1..=total_units` into chunks of `units_per_chunk` units.
///
/// Returns the ordered items of the plan; `units_per_chunk == 0` is an
/// input-validation error, never a runtime fallback. Pure and
/// deterministic: identical inputs give identical output.
pub fn plan(total_units: usize, units_per_chunk: usize) -> (r: Result<Vec<WorkItem>, ErrorKind>)
    ensures
        r is Err <==> units_per_chunk == 0,
        r matches Err(e) ==> e == ErrorKind::InvalidConfig,
        r matches Ok(items) ==> is_plan(items@, total_units as int, units_per_chunk as int),
{
    if units_per_chunk == 0 {
        return Err(ErrorKind::InvalidConfig);
    }
    let mut items: Vec<WorkItem> = Vec::new();
    let mut start0: usize = 0;
    proof {
        vstd::arithmetic::mul::lemma_mul_basics(units_per_chunk as int);
    }
    while start0 < total_units
        invariant
            units_per_chunk >= 1,
            start0 <= total_units,
            start0 < total_units ==> start0 as int == items@.len() * units_per_chunk,
            items@.len() + chunk_count(
                total_units - start0,
                units_per_chunk as int,
            ) == chunk_count(total_units as int, units_per_chunk as int),
            forall|i: int|
                0 <= i < items@.len() ==> is_planned_item(
                    #[trigger] items@[i],
                    i,
                    total_units as int,
                    units_per_chunk as int,
                ),
        decreases total_units - start0,
    {
        let idx = items.len();
        let remaining = total_units - start0;
        let step = if remaining < units_per_chunk {
            remaining
        } else {
            units_per_chunk
        };
        let end = start0 + step;
        proof {
            let t: int = total_units as int - start0 as int;
            let u: int = units_per_chunk as int;
            assert((idx as int + 1) * u == idx as int * u + u) by (nonlinear_arith);
            assert(chunk_count(t, u) == 1 + chunk_count(
                if t - u > 0 {
                    t - u
                } else {
                    0
                },
                u,
            ));
        }
        items.push(WorkItem { index: idx, start_unit: start0 + 1, end_unit: end });
        start0 = end;
    }
    Ok(items)
}

/// The chunk count is the ceiling of `total_units / units_per_chunk`.
pub proof fn lemma_chunk_count_is_ceil(total_units: int, units_per_chunk: int)
    requires
        total_units >= 0,
        units_per_chunk >= 1,
    ensures
        chunk_count(total_units, units_per_chunk) == (total_units + units_per_chunk - 1)
            / units_per_chunk,
    decreases total_units,
{
    if total_units <= 0 {
        vstd::arithmetic::div_mod::lemma_basic_div(units_per_chunk - 1, units_per_chunk);
    } else {
        if total_units <= units_per_chunk {
            assert(chunk_count(0, units_per_chunk) == 0);
            assert(chunk_count(total_units, units_per_chunk) == 1);
            vstd::arithmetic::div_mod::lemma_basic_div(total_units - 1, units_per_chunk);
        } else {
            lemma_chunk_count_is_ceil(total_units - units_per_chunk, units_per_chunk);
        }
        vstd::arithmetic::div_mod::lemma_hoist_over_denominator(
            total_units - 1,
            1,
            units_per_chunk as nat,
        );
        assert(total_units - 1 + 1 * units_per_chunk == total_units + units_per_chunk - 1);
    }
}

/// The planned ranges tile `1..=total_units` exactly: the first item starts
/// at unit 1, each item starts right after its predecessor ends, the last
/// item ends at `total_units`, and every item covers at least one unit.
pub proof fn lemma_plan_tiles(items: Seq<WorkItem>, total_units: int, units_per_chunk: int)
    requires
        total_units >= 0,
        units_per_chunk >= 1,
        is_plan(items, total_units, units_per_chunk),
    ensures
        items.len() == 0 <==> total_units == 0,
        items.len() > 0 ==> items[0].start_unit as int == 1,
        items.len() > 0 ==> items[items.len() - 1].end_unit as int == total_units,
        forall|i: int|
            0 <= i < items.len() - 1 ==> (#[trigger] items[i + 1].start_unit) as int
                == items[i].end_unit as int + 1,
        forall|i: int|
            0 <= i < items.len() ==> (#[trigger] items[i].start_unit) as int
                <= items[i].end_unit as int,
{
    lemma_chunk_count_positive(total_units, units_per_chunk);
    vstd::arithmetic::mul::lemma_mul_basics(units_per_chunk);
    let n = items.len() as int;
    assert forall|i: int| 0 <= i < n implies (#[trigger] items[i].start_unit) as int
        <= items[i].end_unit as int by {
        lemma_planned_bounds(i, total_units, units_per_chunk, n);
        assert((i + 1) * units_per_chunk == i * units_per_chunk + units_per_chunk)
            by (nonlinear_arith);
    }
    assert forall|i: int| 0 <= i < n - 1 implies (#[trigger] items[i + 1].start_unit) as int
        == items[i].end_unit as int + 1 by {
        lemma_planned_bounds(i + 1, total_units, units_per_chunk, n);
    }
    if n > 0 {
        lemma_planned_bounds(n - 1, total_units, units_per_chunk, n);
    }
}

/// Helper facts about where item `i` of a plan of `n` chunks falls:
/// its range is non-empty, lies inside `1..=total_units`, and the last
/// item's range ends exactly at `total_units`.
proof fn lemma_planned_bounds(i: int, total_units: int, units_per_chunk: int, n: int)
    requires
        units_per_chunk >= 1,
        n == chunk_count(total_units, units_per_chunk),
        0 <= i < n,
    ensures
        i * units_per_chunk < total_units,
        i == n - 1 ==> total_units <= (i + 1) * units_per_chunk,
    decreases i,
{
    lemma_chunk_count_positive(total_units, units_per_chunk);
    vstd::arithmetic::mul::lemma_mul_basics(units_per_chunk);
    let rest = if total_units - units_per_chunk > 0 {
        total_units - units_per_chunk
    } else {
        0
    };
    lemma_chunk_count_positive(rest, units_per_chunk);
    assert(n - 1 == chunk_count(rest, units_per_chunk));
    if i == 0 {
        if n == 1 {
            assert(chunk_count(rest, units_per_chunk) == 0);
            assert(rest == 0);
        }
    } else {
        assert(rest == total_units - units_per_chunk);
        lemma_planned_bounds(i - 1, total_units - units_per_chunk, units_per_chunk, n - 1);
        assert((i - 1) * units_per_chunk + units_per_chunk == i * units_per_chunk)
            by (nonlinear_arith);
        assert(i * units_per_chunk + units_per_chunk == (i + 1) * units_per_chunk)
            by (nonlinear_arith);
    }
}

/// A plan is empty exactly when there are no units, and never holds more
/// chunks than units.
pub proof fn lemma_chunk_count_positive(total_units: int, units_per_chunk: int)
    requires
        units_per_chunk >= 1,
    ensures
        chunk_count(total_units, units_per_chunk) >= 0,
        total_units > 0 ==> chunk_count(total_units, units_per_chunk) >= 1,
        total_units <= 0 ==> chunk_count(total_units, units_per_chunk) == 0,
        chunk_count(total_units, units_per_chunk) <= if total_units >= 0 {
            total_units
        } else {
            0
        },
    decreases total_units,
{
    if total_units > 0 {
        let rest = if total_units - units_per_chunk > 0 {
            total_units - units_per_chunk
        } else {
            0
        };
        lemma_chunk_count_positive(rest, units_per_chunk);
    }
}

} // verus!
