use crate::action_csv_row::ActionCsvRow;
use crate::action_csv_row::RowV;
use crate::action_csv_row::spec_post_deserialize;
use crate::action_csv_row::str_views;
use crate::parsing::parse_time_at;
use crate::parsing::spec_parse_time;
use crate::plot_point_processors::opt_res_view;
use crate::plot_point_processors::process_action_point;
use crate::plot_point_processors::process_cpr_lines;
use crate::plot_point_processors::process_erroneous_action;
use crate::plot_point_processors::process_if_stage_boundary;
use crate::plot_point_processors::spec_cpr_step;
use crate::plot_point_processors::spec_erroneous_step;
use crate::plot_point_processors::spec_stage_step;
use crate::scatter_points::ActionPlotPoint;
use crate::scatter_points::ActionPlotPointV;
use crate::scatter_points::spec_action_of;
use crate::state_management::CsvProcessingState;
use crate::state_management::StateV;
use crate::state_management::row_views;
use crate::text::str_chars;
use crate::text::trim_chars;
use crate::text::trim_seq;
use crate::util::check_cpr;
use crate::util::spec_check_cpr;
use std::collections::VecDeque;
use vstd::prelude::*;

verus! {

pub open spec fn res_row_view(r: Result<ActionCsvRow, String>) -> Result<RowV, Seq<char>> {
    match r {
        Ok(row) => Ok(row@),
        Err(e) => Err(e@),
    }
}

pub open spec fn record_view(r: Result<Vec<String>, String>) -> Result<Seq<Seq<char>>, Seq<char>> {
    match r {
        Ok(f) => Ok(str_views(f@)),
        Err(e) => Err(e@),
    }
}

// ---------------------------------------------------------------------------
// Building a classified row from raw fields
// ---------------------------------------------------------------------------

/// The row built from one record's fields, on the processing date `y-m-d`:
/// nine fields are required, the first must hold a non-blank timestamp text,
/// and the derived fields are computed on the result.  A non-blank timestamp
/// that does not parse leaves the row without a timestamp; such a row still
/// reaches the pipeline and counts as second zero in the time-threshold test.
pub open spec fn spec_row_from_fields(fields: Seq<Seq<char>>, y: int, m: int, d: int) -> Result<
    RowV,
    Seq<char>,
> {
    if fields.len() < 9 {
        Err("Could not deserialize row: wrong number of fields"@)
    } else if trim_seq(fields[0]).len() == 0 {
        Err("Could not deserialize row: Field cannot be empty"@)
    } else {
        let raw = RowV {
            timestamp: spec_parse_time(fields[0], y, m, d),
            action_vital_name: fields[1],
            subaction_time: fields[2],
            subaction_name: fields[3],
            score: fields[4],
            old_value: fields[5],
            new_value: fields[6],
            username: fields[7],
            speech_command: fields[8],
            parsed_stage: None,
            action_name: Seq::<char>::empty(),
            action_category: Seq::<char>::empty(),
            shock_value: Seq::<char>::empty(),
            action_point: false,
            stage_boundary: false,
            error_action_marker: false,
            missed_action_marker: false,
        };
        Ok(spec_post_deserialize(raw))
    }
}

/// Build and classify a row from one record's text fields.
pub fn row_from_fields(fields: &Vec<String>, year: i32, month: u32, day: u32) -> (r: Result<
    ActionCsvRow,
    String,
>)
    ensures
        res_row_view(r) == spec_row_from_fields(
            str_views(fields@),
            year as int,
            month as int,
            day as int,
        ),
{
    if fields.len() < 9 {
        return Err(String::from_str("Could not deserialize row: wrong number of fields"));
    }
    let t0 = str_chars(fields[0].as_str());
    let t0t = trim_chars(&t0);
    if t0t.len() == 0 {
        return Err(String::from_str("Could not deserialize row: Field cannot be empty"));
    }
    let timestamp = parse_time_at(fields[0].as_str(), year, month, day);
    let mut row = ActionCsvRow {
        timestamp,
        action_vital_name: fields[1].clone(),
        subaction_time: fields[2].clone(),
        subaction_name: fields[3].clone(),
        score: fields[4].clone(),
        old_value: fields[5].clone(),
        new_value: fields[6].clone(),
        username: fields[7].clone(),
        speech_command: fields[8].clone(),
        parsed_stage: None,
        action_name: String::new(),
        action_category: String::new(),
        shock_value: String::new(),
        action_point: false,
        stage_boundary: false,
        error_action_marker: false,
        missed_action_marker: false,
    };
    row.post_deserialize();
    Ok(row)
}

/// The parse outcome for one record: a read error is passed on under the
/// row-error prefix, a good record is built into a classified row.
pub open spec fn spec_parse_csv_row(
    rec: Result<Seq<Seq<char>>, Seq<char>>,
    y: int,
    m: int,
    d: int,
) -> Result<RowV, Seq<char>> {
    match rec {
        Err(e) => Err("Could not deserialize row: "@ + e),
        Ok(fields) => spec_row_from_fields(fields, y, m, d),
    }
}

fn parse_csv_row(record: Result<Vec<String>, String>, year: i32, month: u32, day: u32) -> (r:
    Result<ActionCsvRow, String>)
    ensures
        res_row_view(r) == spec_parse_csv_row(
            record_view(record),
            year as int,
            month as int,
            day as int,
        ),
{
    match record {
        Err(e) => {
            let mut msg = str_chars("Could not deserialize row: ");
            let tail = str_chars(e.as_str());
            crate::text::append_chars(&mut msg, &tail);
            Err(crate::text::chars_string(&msg))
        },
        Ok(fields) => row_from_fields(&fields, year, month, day),
    }
}

// ---------------------------------------------------------------------------
// The lookback buffer
// ---------------------------------------------------------------------------

/// The lookback buffer after a row is recorded: the row is appended, and the
/// oldest entry leaves once the buffer would exceed its capacity.
pub open spec fn spec_update_recent(recent: Seq<RowV>, row: RowV, max_rows: usize) -> Seq<RowV> {
    if recent.len() >= max_rows && recent.len() > 0 {
        recent.drop_first().push(row)
    } else {
        recent.push(row)
    }
}

/// Record a classified row in the lookback buffer, evicting the oldest row
/// once the buffer is full.
pub fn update_recent_rows(
    current_row: &ActionCsvRow,
    recent_rows: &mut VecDeque<ActionCsvRow>,
    max_rows: usize,
)
    ensures
        row_views(final(recent_rows)@) == spec_update_recent(
            row_views(old(recent_rows)@),
            current_row@,
            max_rows,
        ),
{
    if recent_rows.len() >= max_rows {
        let _evicted = recent_rows.pop_front();
    }
    recent_rows.push_back(current_row.clone());
    proof {
        let old_views = row_views(old(recent_rows)@);
        if old_views.len() >= max_rows && old_views.len() > 0 {
            assert(row_views(recent_rows@) =~= old_views.drop_first().push(current_row@));
        } else {
            assert(row_views(recent_rows@) =~= old_views.push(current_row@));
        }
    }
}

// ---------------------------------------------------------------------------
// One full pipeline step
// ---------------------------------------------------------------------------

/// One step of the classification pipeline on one record: parse the record
/// (a failure is the row's error and leaves the state alone), record the row
/// in the lookback buffer, then run the stage, CPR, marker-correlation and
/// action-point checks in that order, the first to yield a point winning.
pub open spec fn spec_step(
    state: StateV,
    rec: Result<Seq<Seq<char>>, Seq<char>>,
    idx: usize,
) -> (StateV, Option<Result<ActionPlotPointV, Seq<char>>>) {
    match spec_parse_csv_row(rec, state.year, state.month, state.day) {
        Err(e) => (state, Some(Err(e))),
        Ok(row) => {
            let s1 = StateV {
                recent_rows: spec_update_recent(state.recent_rows, row, state.max_rows_to_check),
                ..state
            };
            let stage_r = spec_stage_step(s1.stage_boundaries, row);
            let s2 = StateV { stage_boundaries: stage_r.0, ..s1 };
            match stage_r.1 {
                Some(p) => (s2, Some(Ok(p))),
                None => {
                    let cpr_r = spec_cpr_step(s2.cpr_points, row);
                    let s3 = StateV { cpr_points: cpr_r.0, ..s2 };
                    if spec_check_cpr(row) is Some {
                        // A CPR marker row is consumed here: opening a CPR
                        // interval emits nothing, and the row is not also
                        // classified as an action point.
                        (s3, cpr_r.1)
                    } else {
                        {
                            let err_r = spec_erroneous_step(
                                s3.pending_error_marker,
                                s3.recent_rows,
                                row,
                                idx,
                            );
                            let s4 = StateV { pending_error_marker: err_r.0, ..s3 };
                            match err_r.1 {
                                Some(res) => (s4, Some(res)),
                                None => if row.action_point {
                                    (s4, Some(Ok(ActionPlotPointV::Action(spec_action_of(row)))))
                                } else {
                                    (s4, None)
                                },
                            }
                        }
                    }
                },
            }
        },
    }
}

/// Process one record through the pipeline, updating the processing state
/// and yielding at most one point or row error.
pub fn process_csv_row(
    row_idx: usize,
    record: Result<Vec<String>, String>,
    state: &mut CsvProcessingState,
) -> (r: Option<Result<ActionPlotPoint, String>>)
    ensures
        final(state)@ == spec_step(old(state)@, record_view(record), row_idx).0,
        opt_res_view(r) == spec_step(old(state)@, record_view(record), row_idx).1,
{
    let ghost grec = record_view(record);
    let current_row = match parse_csv_row(record, state.year, state.month, state.day) {
        Ok(row) => row,
        Err(e) => {
            return Some(Err(e));
        },
    };
    let max_rows = state.max_rows_to_check;
    update_recent_rows(&current_row, &mut state.recent_rows, max_rows);
    let r1 = process_if_stage_boundary(&mut state.stage_boundaries, &current_row);
    if r1.is_some() {
        return r1;
    }
    let r2 = process_cpr_lines(&mut state.cpr_points, &current_row);
    if r2.is_some() {
        return r2;
    }
    if check_cpr(&current_row).is_some() {
        // A CPR marker that opened an interval is consumed without a point.
        return None;
    }
    let r3 = process_erroneous_action(state, row_idx, &current_row);
    if r3.is_some() {
        return r3;
    }
    process_action_point(&current_row)
}

} // verus!
