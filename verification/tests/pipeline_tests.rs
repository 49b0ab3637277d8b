use mteam_dashboard_action_processor::action_csv_row::ActionCsvRow;
use mteam_dashboard_action_processor::csv_processor::process_csv_at;
use mteam_dashboard_action_processor::process_csv;
use mteam_dashboard_action_processor::parsing::parse_time;
use mteam_dashboard_action_processor::plot_point_processors::process_erroneous_action;
use mteam_dashboard_action_processor::row_processing::update_recent_rows;
use mteam_dashboard_action_processor::scatter_points::ActionPlotPoint;
use mteam_dashboard_action_processor::scatter_points::CsvRowTime;
use mteam_dashboard_action_processor::scatter_points::PeriodType;
use mteam_dashboard_action_processor::state_management::CsvProcessingState;

fn rec(fields: [&str; 9]) -> Result<Vec<String>, String> {
    Ok(fields.iter().map(|s| s.to_string()).collect())
}

fn header() -> Result<Vec<String>, String> {
    rec([
        "Time Stamp[Hr:Min:Sec]",
        "Action/Vital Name",
        "SubAction Time[Min:Sec]",
        "SubAction Name",
        "Score",
        "Old Value",
        "New Value",
        "Username",
        "Speech Command",
    ])
}

// A CPR start opens an interval without emitting a point; the matching end
// marker closes it into one CPR period spanning both rows.
#[test]
fn cpr_open_then_close_scenario() {
    let records = vec![
        header(),
        rec(["", "(1)Stage1(action)", "", "", "", "", "", "", ""]),
        rec(["0:00:05", "(1)Stage1(action)", "0:01", "Begin CPR", "", "", "", "", ""]),
        rec(["0:02:00", "(1)Stage1(action)", "0:01", "End CPR", "", "", "", "", ""]),
    ];
    let out = process_csv_at(&records, 10, 2024, 12, 24);
    assert_eq!(out.len(), 2);
    match &out[0] {
        Err(e) => assert!(e.contains("Field cannot be empty")),
        other => panic!("expected a row error for the blank timestamp, got {:?}", other),
    }
    match &out[1] {
        Ok(ActionPlotPoint::Period(PeriodType::CPR, Some(start), Some(end))) => {
            assert_eq!(start.timestamp.total_seconds, 5);
            assert_eq!(start.timestamp.timestamp, "00:00:05");
            assert_eq!(start.stage, (1, "Stage1".to_string()));
            assert_eq!(end.timestamp.total_seconds, 120);
            assert_eq!(end.timestamp.timestamp, "00:02:00");
        },
        other => panic!("expected a CPR period, got {:?}", other),
    }
}

// Backward correlation: an error marker following a qualifying action row in
// the lookback buffer emits the pairing immediately, on the marker row.
#[test]
fn backward_match_scenario() {
    let mut state = CsvProcessingState::new(10);
    let action_row = ActionCsvRow {
        action_point: true,
        action_vital_name: "Alice".to_string(),
        action_name: "Check Pulse".to_string(),
        timestamp: Some(CsvRowTime {
            total_seconds: 101,
            date_string: "2024-12-24 00:01:41".to_string(),
            timestamp: "00:01:41".to_string(),
        }),
        ..Default::default()
    };
    let max_rows = state.max_rows_to_check;
    update_recent_rows(&action_row, &mut state.recent_rows, max_rows);
    let marker_row = ActionCsvRow {
        old_value: "Error-Triggered".to_string(),
        score: "Action-Was-Performed".to_string(),
        error_action_marker: true,
        username: "Alice".to_string(),
        speech_command: "slow down".to_string(),
        timestamp: Some(CsvRowTime {
            total_seconds: 100,
            date_string: "2024-12-24 00:01:40".to_string(),
            timestamp: "00:01:40".to_string(),
        }),
        ..Default::default()
    };
    let result = process_erroneous_action(&mut state, 1, &marker_row);
    match result {
        Some(Ok(ActionPlotPoint::Error(e))) => {
            assert_eq!(e.name, "Check Pulse");
            assert_eq!(e.location.timestamp.total_seconds, 101);
            assert_eq!(e.error_info.violation, "Action-Was-Performed");
            assert_eq!(e.error_info.advice, "slow down");
        },
        other => panic!("expected an erroneous-action point, got {:?}", other),
    }
    assert!(state.pending_error_marker.is_none());
}

// Forward correlation: an unmatched marker becomes pending and the pairing
// is emitted later, keyed to the action row that resolves it.
#[test]
fn forward_match_scenario() {
    let records = vec![
        header(),
        rec([
            "0:01:40",
            "vitals",
            "",
            "rule broken",
            "Action-Was-Performed",
            "Error-Triggered",
            "",
            "(1)Alice(action)",
            "be careful",
        ]),
        rec(["0:01:41", "(1)Alice(action)", "0:01", "Check Pulse", "", "", "", "", ""]),
    ];
    let out = process_csv_at(&records, 10, 2024, 12, 24);
    assert_eq!(out.len(), 1);
    match &out[0] {
        Ok(ActionPlotPoint::Error(e)) => {
            assert_eq!(e.name, "Check Pulse");
            assert_eq!(e.location.timestamp.total_seconds, 101);
            assert_eq!(e.error_info.action_rule, "rule broken");
            assert_eq!(e.error_info.advice, "be careful");
        },
        other => panic!("expected an erroneous-action point, got {:?}", other),
    }
}

// A still-pending marker is silently replaced by a newer unresolved marker;
// the resolution pairs with the newer one.
#[test]
fn pending_marker_replacement() {
    let records = vec![
        header(),
        rec([
            "0:01:40",
            "vitals",
            "",
            "first rule",
            "Action-Was-Performed",
            "Error-Triggered",
            "",
            "nobody",
            "advice one",
        ]),
        rec([
            "0:01:40",
            "vitals",
            "",
            "second rule",
            "Action-Was-Performed",
            "Error-Triggered",
            "",
            "(1)Alice(action)",
            "advice two",
        ]),
        rec(["0:01:41", "(1)Alice(action)", "0:01", "Check Pulse", "", "", "", "", ""]),
    ];
    let out = process_csv_at(&records, 10, 2024, 12, 24);
    assert_eq!(out.len(), 1);
    match &out[0] {
        Ok(ActionPlotPoint::Error(e)) => {
            assert_eq!(e.error_info.action_rule, "second rule");
            assert_eq!(e.error_info.advice, "advice two");
        },
        other => panic!("expected an erroneous-action point, got {:?}", other),
    }
}

// A marker with no qualifying action in the buffer and none within the time
// window forward never produces an erroneous-action point.
#[test]
fn unmatched_marker_is_dropped() {
    let records = vec![
        header(),
        rec([
            "0:01:40",
            "vitals",
            "",
            "some rule",
            "Action-Was-Performed",
            "Error-Triggered",
            "",
            "(1)Alice(action)",
            "",
        ]),
        rec(["0:03:20", "vitals", "", "", "", "", "", "", ""]),
        rec(["0:01:41", "(1)Alice(action)", "0:01", "Check Pulse", "", "", "", "", ""]),
    ];
    let out = process_csv_at(&records, 10, 2024, 12, 24);
    // The dropped marker yields nothing; the later action row is an ordinary
    // action point, not an erroneous one.
    assert_eq!(out.len(), 1);
    match &out[0] {
        Ok(ActionPlotPoint::Action(a)) => {
            assert_eq!(a.name, "Check Pulse");
        },
        other => panic!("expected a plain action point, got {:?}", other),
    }
}

// The lookback buffer is bounded: a match further back than the window is
// not found, while a larger window finds it.
#[test]
fn lookback_window_bounds_backward_search() {
    let records = vec![
        header(),
        rec(["0:01:40", "(1)Alice(action)", "0:01", "Check Pulse", "", "", "", "", ""]),
        rec(["0:01:40", "filler", "", "", "", "", "", "", ""]),
        rec([
            "0:01:40",
            "vitals",
            "",
            "some rule",
            "Action-Was-Performed",
            "Error-Triggered",
            "",
            "(1)Alice(action)",
            "",
        ]),
    ];
    let narrow = process_csv_at(&records, 1, 2024, 12, 24);
    assert_eq!(narrow.len(), 1);
    assert!(matches!(&narrow[0], Ok(ActionPlotPoint::Action(_))));

    let wide = process_csv_at(&records, 3, 2024, 12, 24);
    assert_eq!(wide.len(), 2);
    assert!(matches!(&wide[0], Ok(ActionPlotPoint::Action(_))));
    assert!(matches!(&wide[1], Ok(ActionPlotPoint::Error(_))));
}

// Consecutive stage boundaries pair into intervals; the interval start is
// relabelled with the stage being entered.
#[test]
fn stage_boundary_pairing() {
    let records = vec![
        header(),
        rec(["0:00:10", "(1)First(action)", "", "", "", "", "", "", ""]),
        rec(["0:00:20", "(2)Second(action)", "", "", "", "", "", "", ""]),
        rec(["0:00:30", "(3)Third(action)", "", "", "", "", "", "", ""]),
    ];
    let out = process_csv_at(&records, 10, 2024, 12, 24);
    assert_eq!(out.len(), 2);
    match &out[0] {
        Ok(ActionPlotPoint::Period(PeriodType::Stage, Some(start), Some(end))) => {
            assert_eq!(start.timestamp.total_seconds, 10);
            assert_eq!(start.stage, (2, "Second".to_string()));
            assert_eq!(end.timestamp.total_seconds, 20);
            assert_eq!(end.stage, (2, "Second".to_string()));
        },
        other => panic!("expected a stage period, got {:?}", other),
    }
    match &out[1] {
        Ok(ActionPlotPoint::Period(PeriodType::Stage, Some(start), Some(end))) => {
            assert_eq!(start.timestamp.total_seconds, 20);
            assert_eq!(start.stage, (3, "Third".to_string()));
            assert_eq!(end.timestamp.total_seconds, 30);
        },
        other => panic!("expected a stage period, got {:?}", other),
    }
}

// A lone trailing stage boundary produces no output.
#[test]
fn lone_stage_boundary_emits_nothing() {
    let records = vec![
        header(),
        rec(["0:00:10", "(1)First(action)", "", "", "", "", "", "", ""]),
    ];
    let out = process_csv_at(&records, 10, 2024, 12, 24);
    assert_eq!(out.len(), 0);
}

// Two CPR start markers without an intervening close collide with a
// range-merge error; the trackers do not abort the stream.
#[test]
fn cpr_same_direction_markers_error() {
    let records = vec![
        header(),
        rec(["0:00:05", "(1)Stage1(action)", "0:01", "Begin CPR", "", "", "", "", ""]),
        rec(["0:00:10", "(1)Stage1(action)", "0:01", "Begin CPR", "", "", "", "", ""]),
    ];
    let out = process_csv_at(&records, 10, 2024, 12, 24);
    assert_eq!(out.len(), 1);
    match &out[0] {
        Err(e) => {
            assert_eq!(
                e,
                "Should have a begin and end point in order. Start/end markers are not encountered as expected for a valid range/duration."
            );
        },
        other => panic!("expected a range-merge error, got {:?}", other),
    }
}

// A header row missing a required column is reported with the expected and
// actual header lists; later rows are still classified individually.
#[test]
fn header_missing_score_column() {
    let bad_header = [
        "Time Stamp[Hr:Min:Sec]",
        "Action/Vital Name",
        "SubAction Time[Min:Sec]",
        "SubAction Name",
        "Old Value",
        "New Value",
        "Username",
        "Speech Command",
    ];
    let expected_columns = [
        "Time Stamp[Hr:Min:Sec]",
        "Action/Vital Name",
        "SubAction Time[Min:Sec]",
        "SubAction Name",
        "Score",
        "Old Value",
        "New Value",
        "Username",
        "Speech Command",
    ];
    let records = vec![
        Ok(bad_header.iter().map(|s| s.to_string()).collect::<Vec<String>>()),
        Ok(vec![
            "0:00:05".to_string(),
            "x".to_string(),
            "".to_string(),
            "".to_string(),
            "".to_string(),
            "".to_string(),
            "".to_string(),
            "".to_string(),
        ]),
    ];
    let out = process_csv_at(&records, 10, 2024, 12, 24);
    assert_eq!(out.len(), 2);
    match &out[0] {
        Err(e) => {
            let expected_msg = format!(
                "Line {:?}: expected {:?} as the header row of csv but got {:?}",
                1, expected_columns, bad_header
            );
            assert_eq!(e, &expected_msg);
        },
        other => panic!("expected a header validation error, got {:?}", other),
    }
    match &out[1] {
        Err(e) => assert!(e.contains("wrong number of fields")),
        other => panic!("expected a row error, got {:?}", other),
    }
}

// An empty input reports the header mismatch against an empty header list.
#[test]
fn empty_input_reports_header_error() {
    let records: Vec<Result<Vec<String>, String>> = Vec::new();
    let out = process_csv_at(&records, 10, 2024, 12, 24);
    assert_eq!(out.len(), 1);
    let empty: [&str; 0] = [];
    let expected_columns = [
        "Time Stamp[Hr:Min:Sec]",
        "Action/Vital Name",
        "SubAction Time[Min:Sec]",
        "SubAction Name",
        "Score",
        "Old Value",
        "New Value",
        "Username",
        "Speech Command",
    ];
    let expected_msg = format!(
        "Line {:?}: expected {:?} as the header row of csv but got {:?}",
        1, expected_columns, empty
    );
    match &out[0] {
        Err(e) => assert_eq!(e, &expected_msg),
        other => panic!("expected a header validation error, got {:?}", other),
    }
}

// Row-scoped errors: a record with too few fields and one with a blank
// timestamp each fail alone; a malformed but non-blank timestamp leaves the
// row in play with the zero-seconds fallback.
#[test]
fn row_error_variants() {
    let records = vec![
        header(),
        Ok(vec!["0:00:05".to_string(), "too short".to_string()]),
        rec(["", "(1)S(action)", "0:01", "Act", "", "", "", "", ""]),
        rec(["junk", "(1)S(action)", "0:01", "Act", "", "", "", "", ""]),
    ];
    let out = process_csv_at(&records, 10, 2024, 12, 24);
    assert_eq!(out.len(), 3);
    match &out[0] {
        Err(e) => assert_eq!(e, "Could not deserialize row: wrong number of fields"),
        other => panic!("expected a field-count error, got {:?}", other),
    }
    match &out[1] {
        Err(e) => assert_eq!(e, "Could not deserialize row: Field cannot be empty"),
        other => panic!("expected an empty-timestamp error, got {:?}", other),
    }
    match &out[2] {
        Ok(ActionPlotPoint::Action(a)) => {
            assert_eq!(a.location.timestamp.total_seconds, 0);
        },
        other => panic!("expected an action point with the fallback time, got {:?}", other),
    }
}

// Re-running the pipeline on the same records with the same window size
// produces the identical output sequence.
#[test]
fn reprocessing_is_identical() {
    let records = vec![
        header(),
        rec(["0:00:10", "(1)First(action)", "", "", "", "", "", "", ""]),
        rec(["0:00:05", "(1)Stage1(action)", "0:01", "Begin CPR", "", "", "", "", ""]),
        rec(["0:02:00", "(1)Stage1(action)", "0:01", "End CPR", "", "", "", "", ""]),
        rec(["0:00:20", "(2)Second(action)", "", "", "", "", "", "", ""]),
        rec(["0:01:41", "(1)Alice(action)", "0:01", "Check Pulse", "", "", "", "", ""]),
    ];
    let first = process_csv(&records, 10);
    let second = process_csv(&records, 10);
    assert_eq!(first, second);
    let third = process_csv_at(&records, 10, 2024, 12, 24);
    let fourth = process_csv_at(&records, 10, 2024, 12, 24);
    assert_eq!(third, fourth);
}

// Hour counts that overflow the second counter are rejected; the largest
// representable time is accepted exactly.
#[test]
fn parse_time_second_counter_limits() {
    assert!(parse_time("4294967296:00:00").is_none());
    assert!(parse_time("1193047:00:00").is_none());
    let edge = parse_time("1193046:28:15").unwrap();
    assert_eq!(edge.total_seconds, u32::MAX);
}
