use crate::action_csv_row::ActionCsvRow;
use crate::action_csv_row::RowV;
use crate::parsing::current_date;
use crate::scatter_points::ActionPlotPoint;
use crate::scatter_points::ActionPlotPointV;
use crate::scatter_points::PlotLocation;
use crate::scatter_points::PlotLocationV;
use std::collections::VecDeque;
use vstd::prelude::*;

verus! {

pub open spec fn row_views(s: Seq<ActionCsvRow>) -> Seq<RowV> {
    Seq::new(s.len(), |i: int| s[i]@)
}

pub open spec fn loc_views(s: Seq<PlotLocation>) -> Seq<PlotLocationV> {
    Seq::new(s.len(), |i: int| s[i]@)
}

pub open spec fn point_views(s: Seq<ActionPlotPoint>) -> Seq<ActionPlotPointV> {
    Seq::new(s.len(), |i: int| s[i]@)
}

/// Mathematical view of the processing state.
pub ghost struct StateV {
    pub max_rows_to_check: usize,
    pub recent_rows: Seq<RowV>,
    pub stage_boundaries: Seq<PlotLocationV>,
    pub cpr_points: Seq<ActionPlotPointV>,
    pub pending_error_marker: Option<(usize, RowV)>,
    pub year: int,
    pub month: int,
    pub day: int,
}

/// The state of one pass over one log: the lookback buffer, the stage and
/// CPR tracker slots, the pending-marker cell, and the processing date that
/// anchors each row's date-time string.
pub struct CsvProcessingState {
    pub max_rows_to_check: usize,
    pub recent_rows: VecDeque<ActionCsvRow>,
    pub stage_boundaries: Vec<PlotLocation>,
    pub cpr_points: Vec<ActionPlotPoint>,
    pub pending_error_marker: Option<(usize, ActionCsvRow)>,
    pub year: i32,
    pub month: u32,
    pub day: u32,
}

impl View for CsvProcessingState {
    type V = StateV;

    open spec fn view(&self) -> StateV {
        StateV {
            max_rows_to_check: self.max_rows_to_check,
            recent_rows: row_views(self.recent_rows@),
            stage_boundaries: loc_views(self.stage_boundaries@),
            cpr_points: point_views(self.cpr_points@),
            pending_error_marker: match &self.pending_error_marker {
                Some(p) => Some((p.0, p.1@)),
                None => None,
            },
            year: self.year as int,
            month: self.month as int,
            day: self.day as int,
        }
    }
}

/// The fresh state: an empty lookback buffer of the given capacity, empty
/// tracker slots, no pending marker, and a valid processing date.
pub open spec fn spec_fresh_state(s: StateV, max_rows_to_check: usize) -> bool {
    &&& s.max_rows_to_check == max_rows_to_check
    &&& s.recent_rows == Seq::<RowV>::empty()
    &&& s.stage_boundaries == Seq::<PlotLocationV>::empty()
    &&& s.cpr_points == Seq::<ActionPlotPointV>::empty()
    &&& s.pending_error_marker is None
    &&& 1 <= s.month <= 12
    &&& 1 <= s.day <= 31
}

impl CsvProcessingState {
    pub fn new(max_rows_to_check: usize) -> (r: Self)
        ensures
            spec_fresh_state(r@, max_rows_to_check),
    {
        let (year, month, day) = current_date();
        let r = CsvProcessingState {
            max_rows_to_check,
            recent_rows: VecDeque::new(),
            stage_boundaries: Vec::new(),
            cpr_points: Vec::new(),
            pending_error_marker: None,
            year,
            month,
            day,
        };
        proof {
            assert(row_views(r.recent_rows@) =~= Seq::<RowV>::empty());
            assert(loc_views(r.stage_boundaries@) =~= Seq::<PlotLocationV>::empty());
            assert(point_views(r.cpr_points@) =~= Seq::<ActionPlotPointV>::empty());
        }
        r
    }

    /// The fresh state anchored to a given processing date.
    pub fn new_at(max_rows_to_check: usize, year: i32, month: u32, day: u32) -> (r: Self)
        requires
            1 <= month <= 12,
            1 <= day <= 31,
        ensures
            spec_fresh_state(r@, max_rows_to_check),
            r@.year == year as int,
            r@.month == month as int,
            r@.day == day as int,
    {
        let r = CsvProcessingState {
            max_rows_to_check,
            recent_rows: VecDeque::new(),
            stage_boundaries: Vec::new(),
            cpr_points: Vec::new(),
            pending_error_marker: None,
            year,
            month,
            day,
        };
        proof {
            assert(row_views(r.recent_rows@) =~= Seq::<RowV>::empty());
            assert(loc_views(r.stage_boundaries@) =~= Seq::<PlotLocationV>::empty());
            assert(point_views(r.cpr_points@) =~= Seq::<ActionPlotPointV>::empty());
        }
        r
    }
}

} // verus!
