use crate::action_csv_row::column_names;
use crate::action_csv_row::spec_column_names;
use crate::action_csv_row::spec_header_error;
use crate::action_csv_row::spec_headers_match;
use crate::action_csv_row::str_views;
use crate::action_csv_row::validate_header;
use crate::parsing::current_date;
use crate::row_processing::process_csv_row;
use crate::row_processing::record_view;
use crate::row_processing::spec_step;
use crate::scatter_points::ActionPlotPoint;
use crate::scatter_points::ActionPlotPointV;
use crate::state_management::CsvProcessingState;
use crate::state_management::StateV;
use crate::util::res_point_view;
use vstd::prelude::*;

verus! {

pub open spec fn records_view(s: Seq<Result<Vec<String>, String>>) -> Seq<
    Result<Seq<Seq<char>>, Seq<char>>,
> {
    Seq::new(s.len(), |i: int| record_view(s[i]))
}

pub open spec fn results_view(s: Seq<Result<ActionPlotPoint, String>>) -> Seq<
    Result<ActionPlotPointV, Seq<char>>,
> {
    Seq::new(s.len(), |i: int| res_point_view(s[i]))
}

/// The points and row errors emitted by running the pipeline over `records`
/// from state `state`, the first record carrying index `idx`.
pub open spec fn spec_run(
    records: Seq<Result<Seq<Seq<char>>, Seq<char>>>,
    state: StateV,
    idx: usize,
) -> Seq<Result<ActionPlotPointV, Seq<char>>>
    decreases records.len(),
{
    if records.len() == 0 {
        Seq::empty()
    } else {
        let step = spec_step(state, records[0], idx);
        (match step.1 {
            Some(x) => seq![x],
            None => Seq::empty(),
        }) + spec_run(records.drop_first(), step.0, (idx + 1) as usize)
    }
}

/// The fresh state for one pass: empty buffer and trackers, no pending
/// marker, the given capacity and processing date.
pub open spec fn spec_initial_state(max_rows_to_check: usize, y: int, m: int, d: int) -> StateV {
    StateV {
        max_rows_to_check: max_rows_to_check,
        recent_rows: Seq::empty(),
        stage_boundaries: Seq::empty(),
        cpr_points: Seq::empty(),
        pending_error_marker: None,
        year: y,
        month: m,
        day: d,
    }
}

/// The full output of one pass: the first record is the header row, checked
/// against the fixed schema; a header mismatch is reported first and the
/// remaining records are still classified; an unreadable header ends the
/// pass with its error alone.
pub open spec fn spec_process(
    records: Seq<Result<Seq<Seq<char>>, Seq<char>>>,
    max_rows_to_check: usize,
    y: int,
    m: int,
    d: int,
) -> Seq<Result<ActionPlotPointV, Seq<char>>> {
    let init = spec_initial_state(max_rows_to_check, y, m, d);
    if records.len() == 0 {
        seq![Err(spec_header_error(spec_column_names(), Seq::empty()))]
    } else {
        match records[0] {
            Err(e) => seq![Err(e)],
            Ok(h) => if spec_headers_match(h, spec_column_names()) {
                spec_run(records.drop_first(), init, 0)
            } else {
                seq![
                    Err(spec_header_error(spec_column_names(), h)),
                ] + spec_run(records.drop_first(), init, 0)
            },
        }
    }
}

fn clone_string_vec(v: &Vec<String>) -> (r: Vec<String>)
    ensures
        str_views(r@) == str_views(v@),
{
    let mut r: Vec<String> = Vec::new();
    let mut i: usize = 0;
    while i < v.len()
        invariant
            i <= v@.len(),
            r@.len() == i,
            forall|k: int| 0 <= k < i ==> r@[k]@ == v@[k]@,
        decreases v@.len() - i,
    {
        r.push(v[i].clone());
        i = i + 1;
    }
    assert(str_views(r@) =~= str_views(v@));
    r
}

fn clone_record(rec: &Result<Vec<String>, String>) -> (r: Result<Vec<String>, String>)
    ensures
        record_view(r) == record_view(*rec),
{
    match rec {
        Ok(fields) => Ok(clone_string_vec(fields)),
        Err(e) => Err(e.clone()),
    }
}

/// Run the pipeline over a whole log, anchored to a given processing date.
/// The first record must be the header row; every later record is one data
/// row, classified in order, each yielding at most one point or row error.
pub fn process_csv_at(
    records: &Vec<Result<Vec<String>, String>>,
    max_rows_to_check: usize,
    year: i32,
    month: u32,
    day: u32,
) -> (r: Vec<Result<ActionPlotPoint, String>>)
    requires
        1 <= month <= 12,
        1 <= day <= 31,
    ensures
        results_view(r@) == spec_process(
            records_view(records@),
            max_rows_to_check,
            year as int,
            month as int,
            day as int,
        ),
{
    let ghost grecords = records_view(records@);
    let mut out: Vec<Result<ActionPlotPoint, String>> = Vec::new();
    let expected = column_names();
    if records.len() == 0 {
        let empty_headers: Vec<String> = Vec::new();
        proof {
            assert(str_views(empty_headers@) =~= Seq::<Seq<char>>::empty());
            assert(spec_column_names().len() == 9);
        }
        match validate_header(&empty_headers, &expected) {
            Err(e) => {
                out.push(Err(e));
                assert(results_view(out@) =~= spec_process(
                    grecords,
                    max_rows_to_check,
                    year as int,
                    month as int,
                    day as int,
                ));
                return out;
            },
            Ok(_) => {
                return vstd::pervasive::unreached();
            },
        }
    }
    match &records[0] {
        Err(e) => {
            out.push(Err(e.clone()));
            assert(results_view(out@) =~= spec_process(
                grecords,
                max_rows_to_check,
                year as int,
                month as int,
                day as int,
            ));
            return out;
        },
        Ok(h) => {
            match validate_header(h, &expected) {
                Err(e) => {
                    out.push(Err(e));
                },
                Ok(_) => {},
            }
        },
    }
    let mut state = CsvProcessingState::new_at(max_rows_to_check, year, month, day);
    proof {
        assert(state@ == spec_initial_state(
            max_rows_to_check,
            year as int,
            month as int,
            day as int,
        ));
    }
    let ghost header_out = results_view(out@);
    let mut i: usize = 1;
    proof {
        assert(grecords.subrange(1, grecords.len() as int) =~= grecords.drop_first());
        assert(spec_process(grecords, max_rows_to_check, year as int, month as int, day as int)
            =~= header_out + spec_run(
            grecords.subrange(i as int, grecords.len() as int),
            state@,
            0,
        ));
    }
    while i < records.len()
        invariant
            1 <= i <= records@.len(),
            grecords == records_view(records@),
            grecords.len() == records@.len(),
            spec_process(grecords, max_rows_to_check, year as int, month as int, day as int)
                == results_view(out@) + spec_run(
                grecords.subrange(i as int, grecords.len() as int),
                state@,
                (i - 1) as usize,
            ),
        decreases records@.len() - i,
    {
        let ghost pre_out = results_view(out@);
        let ghost pre_state = state@;
        let ghost rest = grecords.subrange(i as int, grecords.len() as int);
        let rec = clone_record(&records[i]);
        proof {
            assert(rest[0] == grecords[i as int]);
            assert(record_view(rec) == rest[0]);
            assert(rest.drop_first() =~= grecords.subrange(i as int + 1, grecords.len() as int));
        }
        let step_out = process_csv_row(i - 1, rec, &mut state);
        proof {
            let step = spec_step(pre_state, rest[0], (i - 1) as usize);
            assert(state@ == step.0);
            assert(spec_run(rest, pre_state, (i - 1) as usize) == (match step.1 {
                Some(x) => seq![x],
                None => Seq::<Result<ActionPlotPointV, Seq<char>>>::empty(),
            }) + spec_run(rest.drop_first(), step.0, i as usize));
        }
        match step_out {
            Some(x) => {
                out.push(x);
                proof {
                    assert(results_view(out@) =~= pre_out + seq![
                        spec_step(pre_state, rest[0], (i - 1) as usize).1->Some_0,
                    ]);
                }
            },
            None => {},
        }
        i = i + 1;
    }
    proof {
        assert(grecords.subrange(i as int, grecords.len() as int) =~= Seq::<
            Result<Seq<Seq<char>>, Seq<char>>,
        >::empty());
    }
    out
}

/// Run the pipeline over a whole log, anchored to today's date.  The output
/// is a function of the records, the window size and the processing date
/// alone.
pub fn process_csv(records: &Vec<Result<Vec<String>, String>>, max_rows_to_check: usize) -> (r:
    Vec<Result<ActionPlotPoint, String>>)
    ensures
        exists|y: int, m: int, d: int|
            1 <= m <= 12 && 1 <= d <= 31 && results_view(r@) == spec_process(
                records_view(records@),
                max_rows_to_check,
                y,
                m,
                d,
            ),
{
    let (year, month, day) = current_date();
    let r = process_csv_at(records, max_rows_to_check, year, month, day);
    proof {
        assert(1 <= month as int <= 12 && 1 <= day as int <= 31 && results_view(r@)
            == spec_process(
            records_view(records@),
            max_rows_to_check,
            year as int,
            month as int,
            day as int,
        ));
    }
    r
}

/// Re-running the pipeline on the same records with the same window size and
/// processing date yields the identical output sequence.
pub proof fn lemma_reprocessing_is_identical(
    out1: Seq<Result<ActionPlotPointV, Seq<char>>>,
    out2: Seq<Result<ActionPlotPointV, Seq<char>>>,
    records: Seq<Result<Seq<Seq<char>>, Seq<char>>>,
    max_rows_to_check: usize,
    y: int,
    m: int,
    d: int,
)
    requires
        out1 == spec_process(records, max_rows_to_check, y, m, d),
        out2 == spec_process(records, max_rows_to_check, y, m, d),
    ensures
        out1 == out2,
{
}

} // verus!
