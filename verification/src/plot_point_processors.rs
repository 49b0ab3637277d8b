use crate::action_csv_row::ActionCsvRow;
use crate::action_csv_row::RowV;
use crate::detection::is_erroneous_action;
use crate::detection::is_error_action_marker;
use crate::detection::is_missed_action;
use crate::detection::is_stage_boundary;
use crate::detection::spec_can_mark;
use crate::detection::spec_is_erroneous_action;
use crate::detection::spec_is_error_marker;
use crate::detection::spec_is_missed_action;
use crate::detection::spec_is_stage_boundary;
use crate::detection::can_mark_each_other;
use crate::scatter_points::Action;
use crate::scatter_points::ActionPlotPoint;
use crate::scatter_points::ActionPlotPointV;
use crate::scatter_points::ErroneousAction;
use crate::scatter_points::MissedAction;
use crate::scatter_points::PeriodType;
use crate::scatter_points::PlotLocation;
use crate::scatter_points::PlotLocationV;
use crate::scatter_points::spec_action_of;
use crate::scatter_points::spec_erroneous_action_of;
use crate::scatter_points::spec_location_of;
use crate::scatter_points::spec_missed_action_of;
use crate::state_management::CsvProcessingState;
use crate::state_management::loc_views;
use crate::state_management::point_views;
use crate::state_management::row_views;
use crate::util::check_cpr;
use crate::util::merge_plot_location_range;
use crate::util::opt_point_view;
use crate::util::res_point_view;
use crate::util::spec_check_cpr;
use crate::util::spec_merge;
use vstd::prelude::*;
use vstd::pervasive::unreached;

verus! {

pub open spec fn opt_res_view(r: Option<Result<ActionPlotPoint, String>>) -> Option<
    Result<ActionPlotPointV, Seq<char>>,
> {
    match r {
        Some(x) => Some(res_point_view(x)),
        None => None,
    }
}

// ---------------------------------------------------------------------------
// Stage tracker
// ---------------------------------------------------------------------------

/// One step of the stage tracker.  A non-boundary row leaves the slot alone
/// and emits nothing.  A boundary row with no open boundary records its
/// location and emits nothing.  A boundary row with an open boundary closes
/// it into an interval whose start carries the stage being entered, re-opens
/// with the current location, and emits the interval.
pub open spec fn spec_stage_step(stack: Seq<PlotLocationV>, row: RowV) -> (
    Seq<PlotLocationV>,
    Option<ActionPlotPointV>,
) {
    if !spec_is_stage_boundary(row) {
        (stack, None)
    } else {
        let cur = spec_location_of(row);
        if stack.len() == 0 {
            (seq![cur], None)
        } else {
            let open = stack.last();
            let start = PlotLocationV { timestamp: open.timestamp, stage: row.parsed_stage->Some_0 };
            (
                stack.drop_last().push(cur),
                Some(ActionPlotPointV::Period(PeriodType::Stage, Some(start), Some(cur))),
            )
        }
    }
}

/// Stage-boundary step of the pipeline: pair consecutive boundary rows into
/// stage intervals.
pub fn process_if_stage_boundary(
    stage_boundary_points: &mut Vec<PlotLocation>,
    csv_row: &ActionCsvRow,
) -> (r: Option<Result<ActionPlotPoint, String>>)
    ensures
        loc_views(final(stage_boundary_points)@) == spec_stage_step(
            loc_views(old(stage_boundary_points)@),
            csv_row@,
        ).0,
        opt_res_view(r) == match spec_stage_step(loc_views(old(stage_boundary_points)@), csv_row@).1 {
            Some(p) => Some(Ok::<ActionPlotPointV, Seq<char>>(p)),
            None => None,
        },
{
    if !is_stage_boundary(csv_row) {
        return None;
    }
    let cur = PlotLocation::new(csv_row);
    match stage_boundary_points.pop() {
        None => {
            stage_boundary_points.push(cur);
            proof {
                assert(loc_views(stage_boundary_points@) =~= seq![spec_location_of(csv_row@)]);
            }
            None
        },
        Some(open) => {
            let stage: (u32, String) = match &csv_row.parsed_stage {
                Some(s) => (s.0, s.1.clone()),
                None => unreached(),
            };
            let start = PlotLocation { timestamp: open.timestamp, stage };
            stage_boundary_points.push(cur.clone());
            proof {
                assert(loc_views(stage_boundary_points@) =~= loc_views(
                    old(stage_boundary_points)@,
                ).drop_last().push(spec_location_of(csv_row@)));
            }
            Some(Ok(ActionPlotPoint::Period(PeriodType::Stage, Some(start), Some(cur))))
        },
    }
}

/// Stage-boundary step of the pipeline, under its other public name.
pub fn process_stage_boundary(
    stage_boundary_points: &mut Vec<PlotLocation>,
    csv_row: &ActionCsvRow,
) -> (r: Option<Result<ActionPlotPoint, String>>)
    ensures
        loc_views(final(stage_boundary_points)@) == spec_stage_step(
            loc_views(old(stage_boundary_points)@),
            csv_row@,
        ).0,
        opt_res_view(r) == match spec_stage_step(loc_views(old(stage_boundary_points)@), csv_row@).1 {
            Some(p) => Some(Ok::<ActionPlotPointV, Seq<char>>(p)),
            None => None,
        },
{
    process_if_stage_boundary(stage_boundary_points, csv_row)
}

// ---------------------------------------------------------------------------
// CPR tracker
// ---------------------------------------------------------------------------

/// One step of the CPR tracker.  A row that is no CPR marker leaves the slot
/// alone.  A CPR marker with an empty slot is stored as a partial interval.
/// A CPR marker with a stored partial interval merges the two; the merge
/// fails when both fill the same side.
pub open spec fn spec_cpr_step(stack: Seq<ActionPlotPointV>, row: RowV) -> (
    Seq<ActionPlotPointV>,
    Option<Result<ActionPlotPointV, Seq<char>>>,
) {
    match spec_check_cpr(row) {
        None => (stack, None),
        Some(cpr) => {
            if stack.len() == 0 {
                (stack.push(cpr), None)
            } else {
                (stack.drop_last(), Some(spec_merge(Some(cpr), Some(stack.last()))))
            }
        },
    }
}

/// CPR step of the pipeline: pair start and end markers into CPR intervals.
pub fn process_cpr_lines(cpr_points: &mut Vec<ActionPlotPoint>, csv_row: &ActionCsvRow) -> (r:
    Option<Result<ActionPlotPoint, String>>)
    ensures
        point_views(final(cpr_points)@) == spec_cpr_step(
            point_views(old(cpr_points)@),
            csv_row@,
        ).0,
        opt_res_view(r) == spec_cpr_step(point_views(old(cpr_points)@), csv_row@).1,
{
    match check_cpr(csv_row) {
        Some(cpr) => {
            match cpr_points.pop() {
                Some(previous_cpr) => {
                    proof {
                        assert(point_views(cpr_points@) =~= point_views(
                            old(cpr_points)@,
                        ).drop_last());
                    }
                    Some(merge_plot_location_range(Some(cpr), Some(previous_cpr)))
                },
                None => {
                    cpr_points.push(cpr);
                    proof {
                        assert(point_views(cpr_points@) =~= point_views(old(cpr_points)@).push(
                            spec_check_cpr(csv_row@)->Some_0,
                        ));
                    }
                    None
                },
            }
        },
        None => None,
    }
}

// ---------------------------------------------------------------------------
// Marker-action correlation
// ---------------------------------------------------------------------------

/// One step of the pending-marker cell.  With a marker pending: a row that
/// matches it resolves the marker and emits the pairing; a row too far away
/// in time drops the marker silently; any other row leaves it pending.
pub open spec fn spec_check_pending(pending: Option<(usize, RowV)>, row: RowV) -> (
    Option<(usize, RowV)>,
    Option<ActionPlotPointV>,
) {
    match pending {
        Some(p) => {
            if spec_is_erroneous_action(row, p.1) {
                (None, Some(ActionPlotPointV::Error(spec_erroneous_action_of(row, p.1))))
            } else if !spec_can_mark(row, p.1) {
                (None, None)
            } else {
                (pending, None)
            }
        },
        None => (None, None),
    }
}

/// Forward marker correlation: test the current row against a pending error
/// marker; resolve it on a match, drop it once the time window is exceeded.
pub fn check_pending_erroneous_action_marker(
    pending_error_marker: &mut Option<(usize, ActionCsvRow)>,
    row_idx: usize,
    current_row: &ActionCsvRow,
) -> (r: Option<ActionPlotPoint>)
    ensures
        ({
            let (p, out) = spec_check_pending(
                match *old(pending_error_marker) {
                    Some(p) => Some((p.0, p.1@)),
                    None => None,
                },
                current_row@,
            );
            &&& (match *final(pending_error_marker) {
                Some(q) => Some((q.0, q.1@)),
                None => None::<(usize, RowV)>,
            }) == p
            &&& opt_point_view(r) == out
        }),
{
    let resolved: bool = match pending_error_marker {
        Some(p) => is_erroneous_action(current_row, &p.1),
        None => false,
    };
    if resolved {
        let point: ActionPlotPoint = match pending_error_marker {
            Some(p) => ActionPlotPoint::Error(ErroneousAction::new(current_row, &p.1)),
            None => unreached(),
        };
        *pending_error_marker = None;
        return Some(point);
    }
    let expired: bool = match pending_error_marker {
        Some(p) => !can_mark_each_other(current_row, &p.1),
        None => false,
    };
    if expired {
        *pending_error_marker = None;
    }
    None
}

/// The most recent row in the lookback buffer that an error marker points
/// to, searching backward from the newest entry.
pub open spec fn spec_seek_backward(recent: Seq<RowV>, marker: RowV) -> Option<RowV>
    decreases recent.len(),
{
    if recent.len() == 0 {
        None
    } else if spec_is_erroneous_action(recent.last(), marker) {
        Some(recent.last())
    } else {
        spec_seek_backward(recent.drop_last(), marker)
    }
}

fn seek_erroneous_action_in_visited_rows(
    visited_rows_buffer: &std::collections::VecDeque<ActionCsvRow>,
    error_marker_row: &ActionCsvRow,
) -> (r: Option<Result<ActionPlotPoint, String>>)
    ensures
        opt_res_view(r) == match spec_seek_backward(row_views(visited_rows_buffer@), error_marker_row@) {
            Some(a) => Some(
                Ok(ActionPlotPointV::Error(spec_erroneous_action_of(a, error_marker_row@))),
            ),
            None => None::<Result<ActionPlotPointV, Seq<char>>>,
        },
{
    let mut j: usize = visited_rows_buffer.len();
    proof {
        assert(row_views(visited_rows_buffer@).subrange(0, j as int) =~= row_views(
            visited_rows_buffer@,
        ));
    }
    while j > 0
        invariant
            j <= visited_rows_buffer@.len(),
            spec_seek_backward(row_views(visited_rows_buffer@), error_marker_row@)
                == spec_seek_backward(
                row_views(visited_rows_buffer@).subrange(0, j as int),
                error_marker_row@,
            ),
        decreases j,
    {
        let ghost pre = row_views(visited_rows_buffer@).subrange(0, j as int);
        proof {
            assert(pre.last() == visited_rows_buffer@[j - 1]@);
            assert(pre.drop_last() =~= row_views(visited_rows_buffer@).subrange(0, j - 1));
        }
        let candidate = &visited_rows_buffer[j - 1];
        if is_erroneous_action(candidate, error_marker_row) {
            return Some(
                Ok(ActionPlotPoint::Error(ErroneousAction::new(candidate, error_marker_row))),
            );
        }
        j = j - 1;
    }
    proof {
        assert(row_views(visited_rows_buffer@).subrange(0, 0) =~= Seq::<RowV>::empty());
    }
    None
}

/// One step of marker-action correlation: forward correlation against a
/// pending marker first; then, for an error-marker row, backward search in
/// the lookback buffer, the marker becoming pending when the search fails;
/// and a missed-action row yields its point.
pub open spec fn spec_erroneous_step(
    pending: Option<(usize, RowV)>,
    recent: Seq<RowV>,
    row: RowV,
    idx: usize,
) -> (Option<(usize, RowV)>, Option<Result<ActionPlotPointV, Seq<char>>>) {
    let (p1, out1) = spec_check_pending(pending, row);
    if out1 is Some {
        (p1, Some(Ok(out1->Some_0)))
    } else if spec_is_error_marker(row) {
        match spec_seek_backward(recent, row) {
            Some(a) => (p1, Some(Ok(ActionPlotPointV::Error(spec_erroneous_action_of(a, row))))),
            None => (Some((idx, row)), None),
        }
    } else if spec_is_missed_action(row) {
        (p1, Some(Ok(ActionPlotPointV::MissedAction(spec_missed_action_of(row)))))
    } else {
        (p1, None)
    }
}

/// Marker-correlation step of the pipeline, updating the pending-marker cell
/// in the processing state.
pub fn process_erroneous_action(
    state: &mut CsvProcessingState,
    row_idx: usize,
    current_row: &ActionCsvRow,
) -> (r: Option<Result<ActionPlotPoint, String>>)
    ensures
        ({
            let (p, out) = spec_erroneous_step(
                old(state)@.pending_error_marker,
                old(state)@.recent_rows,
                current_row@,
                row_idx,
            );
            &&& final(state)@.pending_error_marker == p
            &&& opt_res_view(r) == out
            &&& final(state)@.max_rows_to_check == old(state)@.max_rows_to_check
            &&& final(state)@.recent_rows == old(state)@.recent_rows
            &&& final(state)@.stage_boundaries == old(state)@.stage_boundaries
            &&& final(state)@.cpr_points == old(state)@.cpr_points
            &&& final(state)@.year == old(state)@.year
            &&& final(state)@.month == old(state)@.month
            &&& final(state)@.day == old(state)@.day
        }),
{
    if let Some(error_point) = check_pending_erroneous_action_marker(
        &mut state.pending_error_marker,
        row_idx,
        current_row,
    ) {
        return Some(Ok(error_point));
    }
    if is_error_action_marker(current_row) {
        match seek_erroneous_action_in_visited_rows(&state.recent_rows, current_row) {
            Some(point) => Some(point),
            None => {
                state.pending_error_marker = Some((row_idx, current_row.clone()));
                None
            },
        }
    } else if is_missed_action(current_row) {
        Some(Ok(ActionPlotPoint::MissedAction(MissedAction::new(current_row))))
    } else {
        None
    }
}

/// Action-point step of the pipeline: an action row yields its point.
pub fn process_action_point(current_row: &ActionCsvRow) -> (r: Option<
    Result<ActionPlotPoint, String>,
>)
    ensures
        opt_res_view(r) == if current_row@.action_point {
            Some(Ok(ActionPlotPointV::Action(spec_action_of(current_row@))))
        } else {
            None::<Result<ActionPlotPointV, Seq<char>>>
        },
{
    if current_row.action_point {
        Some(Ok(ActionPlotPoint::Action(Action::new(current_row))))
    } else {
        None
    }
}

} // verus!
