use crate::action_csv_row::RowV;
use crate::detection::spec_can_mark;
use crate::detection::spec_is_erroneous_action;
use crate::detection::spec_is_error_marker;
use crate::detection::spec_is_stage_boundary;
use crate::plot_point_processors::spec_check_pending;
use crate::plot_point_processors::spec_erroneous_step;
use crate::plot_point_processors::spec_seek_backward;
use crate::plot_point_processors::spec_stage_step;
use crate::csv_processor::spec_run;
use crate::row_processing::spec_parse_csv_row;
use crate::row_processing::spec_step;
use crate::row_processing::spec_update_recent;
use crate::scatter_points::ActionPlotPointV;
use crate::scatter_points::PeriodType;
use crate::scatter_points::PlotLocationV;
use crate::scatter_points::spec_erroneous_action_of;
use crate::scatter_points::spec_error_info_of;
use crate::scatter_points::spec_location_of;
use crate::state_management::StateV;
use vstd::prelude::*;

verus! {

pub open spec fn emits_stage_period(out: Option<Result<ActionPlotPointV, Seq<char>>>) -> bool {
    match out {
        Some(Ok(ActionPlotPointV::Period(t, _, _))) => t == PeriodType::Stage,
        _ => false,
    }
}

/// A `Period(Stage, …)` point is emitted only for a record that parses into
/// a stage-boundary row; for every other record the pipeline step yields no
/// stage interval.
pub proof fn lemma_stage_period_only_on_boundary(
    state: StateV,
    rec: Result<Seq<Seq<char>>, Seq<char>>,
    idx: usize,
)
    ensures
        emits_stage_period(spec_step(state, rec, idx).1) ==> (spec_parse_csv_row(
            rec,
            state.year,
            state.month,
            state.day,
        ) matches Ok(row) && spec_is_stage_boundary(row)),
{
}

/// A stage-boundary row arriving with no open boundary emits nothing and
/// merely opens a boundary at its own location.
pub proof fn lemma_lone_boundary_emits_nothing(row: RowV)
    requires
        spec_is_stage_boundary(row),
    ensures
        spec_stage_step(Seq::empty(), row).1 is None,
        spec_stage_step(Seq::empty(), row).0 == seq![spec_location_of(row)],
{
}

/// Two consecutive stage-boundary rows produce exactly one stage interval:
/// the first opens a boundary and emits nothing; the second closes it into
/// the interval from the first row's time — relabelled with the second
/// row's stage — to the second row's location, and re-opens there.
pub proof fn lemma_consecutive_boundaries_pair(b1: RowV, b2: RowV)
    requires
        spec_is_stage_boundary(b1),
        spec_is_stage_boundary(b2),
    ensures
        ({
            let first = spec_stage_step(Seq::empty(), b1);
            let second = spec_stage_step(first.0, b2);
            &&& first.1 is None
            &&& second.1 == Some(
                ActionPlotPointV::Period(
                    PeriodType::Stage,
                    Some(
                        PlotLocationV {
                            timestamp: spec_location_of(b1).timestamp,
                            stage: b2.parsed_stage->Some_0,
                        },
                    ),
                    Some(spec_location_of(b2)),
                ),
            )
            &&& second.0 == seq![spec_location_of(b2)]
        }),
{
    let first = spec_stage_step(Seq::empty(), b1);
    let second = spec_stage_step(first.0, b2);
    assert(first.0 == seq![spec_location_of(b1)]);
    assert(second.0 =~= seq![spec_location_of(b2)]);
}

/// A row that is not a stage boundary leaves the stage tracker untouched
/// and yields no stage point.
pub proof fn lemma_non_boundary_preserves_tracker(stack: Seq<PlotLocationV>, row: RowV)
    requires
        !spec_is_stage_boundary(row),
    ensures
        spec_stage_step(stack, row).0 == stack,
        spec_stage_step(stack, row).1 is None,
{
}

/// The backward search returns the most recent qualifying action row: it
/// succeeds exactly when the buffer holds one, and what it returns is the
/// qualifying row with no qualifying row after it.
pub proof fn lemma_seek_backward_finds(recent: Seq<RowV>, marker: RowV)
    ensures
        (spec_seek_backward(recent, marker) is Some) <==> exists|k: int|
            0 <= k < recent.len() && spec_is_erroneous_action(recent[k], marker),
        spec_seek_backward(recent, marker) matches Some(a) ==> exists|j: int|
            0 <= j < recent.len() && a == recent[j] && spec_is_erroneous_action(recent[j], marker)
                && (forall|k: int|
                j < k < recent.len() ==> !spec_is_erroneous_action(recent[k], marker)),
    decreases recent.len(),
{
    if recent.len() > 0 {
        if spec_is_erroneous_action(recent.last(), marker) {
            let j = recent.len() - 1;
            assert(recent[j] == recent.last());
        } else {
            lemma_seek_backward_finds(recent.drop_last(), marker);
            let prefix = recent.drop_last();
            assert(forall|k: int| 0 <= k < prefix.len() ==> prefix[k] == recent[k]);
            if spec_seek_backward(recent, marker) is Some {
                let a = spec_seek_backward(recent, marker)->Some_0;
                let j = choose|j: int|
                    0 <= j < prefix.len() && a == prefix[j] && spec_is_erroneous_action(
                        prefix[j],
                        marker,
                    ) && (forall|k: int|
                        j < k < prefix.len() ==> !spec_is_erroneous_action(prefix[k], marker));
                assert(0 <= j < recent.len() && a == recent[j] && spec_is_erroneous_action(
                    recent[j],
                    marker,
                ) && (forall|k: int|
                    j < k < recent.len() ==> !spec_is_erroneous_action(recent[k], marker)));
            }
            if exists|k: int| 0 <= k < recent.len() && spec_is_erroneous_action(recent[k], marker) {
                let k = choose|k: int|
                    0 <= k < recent.len() && spec_is_erroneous_action(recent[k], marker);
                assert(k < prefix.len() && prefix[k] == recent[k]);
            }
        }
    }
}

/// An error-marker row whose qualifying action stands in the lookback
/// buffer emits the pairing at once — paired with the most recent
/// qualifying action — and leaves nothing pending.
pub proof fn lemma_backward_match_emits_once(recent: Seq<RowV>, marker: RowV, idx: usize)
    requires
        spec_is_error_marker(marker),
        exists|k: int| 0 <= k < recent.len() && spec_is_erroneous_action(recent[k], marker),
    ensures
        ({
            let step = spec_erroneous_step(None, recent, marker, idx);
            &&& step.0 is None
            &&& step.1 == Some(
                Ok::<ActionPlotPointV, Seq<char>>(
                    ActionPlotPointV::Error(
                        spec_erroneous_action_of(spec_seek_backward(recent, marker)->Some_0, marker),
                    ),
                ),
            )
        }),
{
    lemma_seek_backward_finds(recent, marker);
}

/// With marker M pending, a row that qualifies as its erroneous action
/// resolves the marker: the pairing is emitted keyed to the current row and
/// the cell is cleared, so no second pairing for M can ever be emitted.
pub proof fn lemma_forward_match_resolves(pending_idx: usize, marker: RowV, row: RowV)
    requires
        spec_is_erroneous_action(row, marker),
    ensures
        spec_check_pending(Some((pending_idx, marker)), row).0 is None,
        spec_check_pending(Some((pending_idx, marker)), row).1 == Some(
            ActionPlotPointV::Error(spec_erroneous_action_of(row, marker)),
        ),
{
}

/// With no marker pending, the forward check emits nothing and leaves the
/// cell empty.
pub proof fn lemma_no_pending_no_forward_emission(row: RowV)
    ensures
        spec_check_pending(None, row).0 is None,
        spec_check_pending(None, row).1 is None,
{
}

/// An error-marker row with no qualifying action in the lookback buffer
/// emits nothing at its own row and becomes the pending marker, replacing
/// whatever marker was pending before — provided the marker row does not
/// itself resolve that earlier marker.
pub proof fn lemma_unmatched_marker_goes_pending(
    pending: Option<(usize, RowV)>,
    recent: Seq<RowV>,
    marker: RowV,
    idx: usize,
)
    requires
        spec_is_error_marker(marker),
        forall|k: int| 0 <= k < recent.len() ==> !spec_is_erroneous_action(recent[k], marker),
        match pending {
            Some(p) => !spec_is_erroneous_action(marker, p.1),
            None => true,
        },
    ensures
        spec_erroneous_step(pending, recent, marker, idx).0 == Some((idx, marker)),
        spec_erroneous_step(pending, recent, marker, idx).1 is None,
{
    lemma_seek_backward_finds(recent, marker);
}

/// A marker that finds no qualifying action in the lookback buffer and is
/// then resolved by a later qualifying action row emits exactly one pairing
/// over the two steps: nothing at the marker's own row, and the pairing —
/// keyed to the action row, the row classified second — when that row
/// arrives, after which the cell is empty and can emit nothing more for the
/// marker.  Whatever marker was pending before is silently replaced, as long
/// as the new marker row does not itself resolve it.
pub proof fn lemma_marker_then_action_emits_exactly_once(
    pending: Option<(usize, RowV)>,
    recent1: Seq<RowV>,
    recent2: Seq<RowV>,
    marker: RowV,
    action: RowV,
    i: usize,
    j: usize,
)
    requires
        spec_is_error_marker(marker),
        forall|k: int| 0 <= k < recent1.len() ==> !spec_is_erroneous_action(recent1[k], marker),
        spec_is_erroneous_action(action, marker),
        match pending {
            Some(p) => !spec_is_erroneous_action(marker, p.1),
            None => true,
        },
    ensures
        ({
            let first = spec_erroneous_step(pending, recent1, marker, i);
            let second = spec_erroneous_step(first.0, recent2, action, j);
            &&& first.1 is None
            &&& second.1 == Some(
                Ok::<ActionPlotPointV, Seq<char>>(
                    ActionPlotPointV::Error(spec_erroneous_action_of(action, marker)),
                ),
            )
            &&& second.0 is None
        }),
{
    lemma_unmatched_marker_goes_pending(pending, recent1, marker, i);
    lemma_forward_match_resolves(i, marker, action);
}

/// A pending marker is dropped silently by the first row that neither
/// matches it nor lies within the time window: nothing is emitted for the
/// marker, then or ever after, since the cell is cleared.
pub proof fn lemma_pending_dropped_beyond_window(idx: usize, marker: RowV, row: RowV)
    requires
        !spec_is_erroneous_action(row, marker),
        !spec_can_mark(row, marker),
    ensures
        spec_check_pending(Some((idx, marker)), row).0 is None,
        spec_check_pending(Some((idx, marker)), row).1 is None,
{
}

/// A dropped marker is gone for good: when a row neither matches the
/// pending marker nor lies within its time window, the full correlation step
/// run on that row emits no pairing for the dropped marker — any erroneous
/// action it emits carries the current row's error details — and the cell
/// afterwards holds either nothing or the current row, never the dropped
/// marker.
pub proof fn lemma_dropped_marker_is_gone(
    pending_idx: usize,
    marker: RowV,
    recent: Seq<RowV>,
    row: RowV,
    idx: usize,
)
    requires
        !spec_is_erroneous_action(row, marker),
        !spec_can_mark(row, marker),
    ensures
        ({
            let step = spec_erroneous_step(Some((pending_idx, marker)), recent, row, idx);
            &&& match step.0 {
                Some(p) => p == (idx, row),
                None => true,
            }
            &&& match step.1 {
                Some(Ok(ActionPlotPointV::Error(e))) => e.error_info == spec_error_info_of(row),
                _ => true,
            }
        }),
{
}

/// The lookback buffer is bounded: recording a row never grows it past its
/// capacity (past one entry, for the degenerate capacity zero), so at most a
/// window's worth of rows is ever inspected for a marker.
pub proof fn lemma_lookback_buffer_bounded(recent: Seq<RowV>, row: RowV, max_rows: usize)
    requires
        recent.len() <= (if max_rows == 0 {
            1int
        } else {
            max_rows as int
        }),
    ensures
        spec_update_recent(recent, row, max_rows).len() <= (if max_rows == 0 {
            1int
        } else {
            max_rows as int
        }),
{
}

/// Every erroneous-action point a pipeline step emits pairs the rows the
/// correlation rule names, and nothing else: either the current row resolves
/// the pending marker, or the current row is itself a marker paired with the
/// most recent qualifying action in the lookback buffer.  A marker that was
/// dropped earlier is in neither place, so no pairing for it can ever be
/// emitted afterwards.
pub proof fn lemma_error_point_provenance(
    state: StateV,
    rec: Result<Seq<Seq<char>>, Seq<char>>,
    idx: usize,
)
    ensures
        ({
            let step = spec_step(state, rec, idx);
            match step.1 {
                Some(Ok(ActionPlotPointV::Error(e))) => match spec_parse_csv_row(
                    rec,
                    state.year,
                    state.month,
                    state.day,
                ) {
                    Ok(row) => {
                        let buf = spec_update_recent(
                            state.recent_rows,
                            row,
                            state.max_rows_to_check,
                        );
                        ||| (match state.pending_error_marker {
                            Some(p) => spec_is_erroneous_action(row, p.1) && e
                                == spec_erroneous_action_of(row, p.1),
                            None => false,
                        })
                        ||| (spec_is_error_marker(row) && (match spec_seek_backward(buf, row) {
                            Some(a) => spec_is_erroneous_action(a, row) && e
                                == spec_erroneous_action_of(a, row),
                            None => false,
                        }))
                    },
                    Err(_) => false,
                },
                _ => true,
            }
        }),
{
    let step = spec_step(state, rec, idx);
    let parsed = spec_parse_csv_row(rec, state.year, state.month, state.day);
    if parsed is Ok {
        let row = parsed->Ok_0;
        let buf = spec_update_recent(state.recent_rows, row, state.max_rows_to_check);
        lemma_seek_backward_finds(buf, row);
    }
}

/// The number of stage periods among a run's outputs.
pub open spec fn stage_period_count(out: Seq<Result<ActionPlotPointV, Seq<char>>>) -> int
    decreases out.len(),
{
    if out.len() == 0 {
        0
    } else {
        (if emits_stage_period(Some(out[0])) {
            1int
        } else {
            0int
        }) + stage_period_count(out.drop_first())
    }
}

/// The number of records that parse into stage-boundary rows.
pub open spec fn boundary_row_count(
    records: Seq<Result<Seq<Seq<char>>, Seq<char>>>,
    y: int,
    m: int,
    d: int,
) -> int
    decreases records.len(),
{
    if records.len() == 0 {
        0
    } else {
        (match spec_parse_csv_row(records[0], y, m, d) {
            Ok(row) => if spec_is_stage_boundary(row) {
                1int
            } else {
                0int
            },
            Err(_) => 0int,
        }) + boundary_row_count(records.drop_first(), y, m, d)
    }
}

proof fn lemma_boundary_count_nonneg(
    records: Seq<Result<Seq<Seq<char>>, Seq<char>>>,
    y: int,
    m: int,
    d: int,
)
    ensures
        boundary_row_count(records, y, m, d) >= 0,
    decreases records.len(),
{
    if records.len() > 0 {
        lemma_boundary_count_nonneg(records.drop_first(), y, m, d);
    }
}

/// One pipeline step keeps the processing date, keeps the stage tracker at
/// most one slot deep, and emits a stage period exactly when a boundary row
/// arrives while a boundary is already open.
pub proof fn lemma_step_stage_accounting(
    state: StateV,
    rec: Result<Seq<Seq<char>>, Seq<char>>,
    idx: usize,
)
    requires
        state.stage_boundaries.len() <= 1,
    ensures
        ({
            let step = spec_step(state, rec, idx);
            let parsed = spec_parse_csv_row(rec, state.year, state.month, state.day);
            &&& step.0.year == state.year
            &&& step.0.month == state.month
            &&& step.0.day == state.day
            &&& step.0.stage_boundaries.len() <= 1
            &&& match parsed {
                Ok(row) => if spec_is_stage_boundary(row) {
                    &&& step.0.stage_boundaries.len() == 1
                    &&& emits_stage_period(step.1) == (state.stage_boundaries.len() == 1)
                } else {
                    &&& step.0.stage_boundaries == state.stage_boundaries
                    &&& !emits_stage_period(step.1)
                },
                Err(_) => step.0.stage_boundaries == state.stage_boundaries && !emits_stage_period(
                    step.1,
                ),
            }
        }),
{
    let parsed = spec_parse_csv_row(rec, state.year, state.month, state.day);
    if parsed is Ok {
        let row = parsed->Ok_0;
        if spec_is_stage_boundary(row) {
            if state.stage_boundaries.len() == 1 {
                assert(spec_stage_step(state.stage_boundaries, row).0
                    == state.stage_boundaries.drop_last().push(spec_location_of(row)));
            }
        }
    }
}

/// Stage intervals pair consecutive boundary rows: over a whole run, with
/// the stage tracker holding at most one open boundary, the number of stage
/// periods emitted is the number of boundary rows less one for the boundary
/// left open at the start (a lone trailing boundary thus yields none).
pub proof fn lemma_stage_periods_pair_consecutive_boundaries(
    records: Seq<Result<Seq<Seq<char>>, Seq<char>>>,
    state: StateV,
    idx: usize,
)
    requires
        state.stage_boundaries.len() <= 1,
    ensures
        ({
            let b = boundary_row_count(records, state.year, state.month, state.day);
            stage_period_count(spec_run(records, state, idx)) == if state.stage_boundaries.len()
                == 1 {
                b
            } else if b > 0 {
                b - 1
            } else {
                0
            }
        }),
    decreases records.len(),
{
    if records.len() == 0 {
        assert(stage_period_count(spec_run(records, state, idx)) == 0);
        assert(boundary_row_count(records, state.year, state.month, state.day) == 0);
    } else {
        let step = spec_step(state, records[0], idx);
        let rest = records.drop_first();
        lemma_step_stage_accounting(state, records[0], idx);
        lemma_stage_periods_pair_consecutive_boundaries(rest, step.0, (idx + 1) as usize);
        let head = (match step.1 {
            Some(x) => seq![x],
            None => Seq::<Result<ActionPlotPointV, Seq<char>>>::empty(),
        });
        assert(spec_run(records, state, idx) == head + spec_run(rest, step.0, (idx + 1) as usize));
        let tail = spec_run(rest, step.0, (idx + 1) as usize);
        match step.1 {
            Some(x) => {
                assert((head + tail)[0] == x);
                assert((head + tail).drop_first() =~= tail);
                assert(stage_period_count(head + tail) == (if emits_stage_period(Some(x)) {
                    1int
                } else {
                    0int
                }) + stage_period_count(tail));
            },
            None => {
                assert(head + tail =~= tail);
            },
        }
        let parsed = spec_parse_csv_row(records[0], state.year, state.month, state.day);
        let b = boundary_row_count(records, state.year, state.month, state.day);
        let brest = boundary_row_count(rest, state.year, state.month, state.day);
        lemma_boundary_count_nonneg(rest, state.year, state.month, state.day);
        assert(b == (match parsed {
            Ok(row) => if spec_is_stage_boundary(row) {
                1int
            } else {
                0int
            },
            Err(_) => 0int,
        }) + brest);
        assert(stage_period_count(tail) == (if step.0.stage_boundaries.len() == 1 {
            brest
        } else if brest > 0 {
            brest - 1
        } else {
            0int
        }));
        match parsed {
            Ok(row) => {
                if spec_is_stage_boundary(row) {
                    assert(step.0.stage_boundaries.len() == 1);
                    assert(stage_period_count(tail) == brest);
                    assert(b == 1 + brest);
                    if state.stage_boundaries.len() == 1 {
                        assert(emits_stage_period(step.1));
                        assert(stage_period_count(spec_run(records, state, idx)) == 1
                            + stage_period_count(tail));
                        assert(stage_period_count(spec_run(records, state, idx)) == b);
                    } else {
                        assert(!emits_stage_period(step.1));
                        if step.1 is Some {
                            assert(stage_period_count(spec_run(records, state, idx))
                                == stage_period_count(tail));
                        }
                        assert(stage_period_count(spec_run(records, state, idx)) == brest);
                        assert(b > 0 && stage_period_count(spec_run(records, state, idx)) == b
                            - 1);
                    }
                } else {
                    assert(step.0.stage_boundaries == state.stage_boundaries);
                    assert(b == brest);
                    if step.1 is Some {
                        assert(stage_period_count(spec_run(records, state, idx))
                            == stage_period_count(tail));
                    }
                    assert(stage_period_count(spec_run(records, state, idx))
                        == stage_period_count(tail));
                }
            },
            Err(_) => {
                assert(!emits_stage_period(step.1));
                assert(step.0.stage_boundaries == state.stage_boundaries);
                assert(b == brest);
                if step.1 is Some {
                    assert(stage_period_count(spec_run(records, state, idx))
                        == stage_period_count(tail));
                }
                assert(stage_period_count(spec_run(records, state, idx)) == stage_period_count(
                    tail,
                ));
            },
        }
    }
}

} // verus!
