use mteam_dashboard_action_processor::action_csv_row::ActionCsvRow;
use mteam_dashboard_action_processor::detection::check_cpr;
use mteam_dashboard_action_processor::detection::can_mark_each_other;
use mteam_dashboard_action_processor::detection::is_action_row;
use mteam_dashboard_action_processor::detection::is_erroneous_action;
use mteam_dashboard_action_processor::detection::is_error_action_marker;
use mteam_dashboard_action_processor::detection::is_missed_action;
use mteam_dashboard_action_processor::detection::is_stage_boundary;
use mteam_dashboard_action_processor::detection::ERROR_MARKER_TIME_THRESHOLD;
use mteam_dashboard_action_processor::scatter_points::CsvRowTime;
use mteam_dashboard_action_processor::scatter_points::PlotLocation;

fn time_at(total_seconds: u32, date_string: &str, timestamp: &str) -> CsvRowTime {
    CsvRowTime {
        total_seconds,
        date_string: date_string.to_string(),
        timestamp: timestamp.to_string(),
    }
}

#[test]
fn mod_is_true() {
    let action = ActionCsvRow {
        parsed_stage: Some((1, "Action".to_string())),
        subaction_time: "12:34".to_string(),
        subaction_name: "SubAction".to_string(),
        ..Default::default()
    };
    assert!(is_action_row(&action));

    let boundary = ActionCsvRow {
        parsed_stage: Some((1, "Action".to_string())),
        subaction_time: "".to_string(),
        subaction_name: "".to_string(),
        score: "".to_string(),
        old_value: "".to_string(),
        new_value: "".to_string(),
        ..Default::default()
    };
    assert!(is_stage_boundary(&boundary));

    let marker = ActionCsvRow {
        old_value: "Error-Triggered".to_string(),
        score: "Action-Was-Performed".to_string(),
        ..Default::default()
    };
    assert!(is_error_action_marker(&marker));

    let missed = ActionCsvRow {
        old_value: "Error-Triggered".to_string(),
        score: "Action-Was-Not-Performed".to_string(),
        ..Default::default()
    };
    assert!(is_missed_action(&missed));

    let time = 3600;
    let csv_row = ActionCsvRow {
        action_point: true,
        action_vital_name: "User1".to_string(),
        timestamp: Some(time_at(time, "2024-12-24 01:00:00", "01:00:00")),
        ..Default::default()
    };
    let error_marker_row = ActionCsvRow {
        username: "User1".to_string(),
        timestamp: Some(time_at(
            time - ERROR_MARKER_TIME_THRESHOLD,
            "2024-12-24 01:00:02",
            "01:00:02",
        )),
        ..Default::default()
    };
    assert!(is_erroneous_action(&csv_row, &error_marker_row));
}

#[test]
fn mod_is_false_no_parsed_action_name() {
    let csv_row = ActionCsvRow {
        parsed_stage: None,
        subaction_time: "12:34".to_string(),
        subaction_name: "SubAction".to_string(),
        ..Default::default()
    };
    assert!(!is_action_row(&csv_row));
}

#[test]
fn mod_is_false_empty_subaction_time() {
    let csv_row = ActionCsvRow {
        parsed_stage: Some((1, "Action".to_string())),
        subaction_time: "".to_string(),
        subaction_name: "SubAction".to_string(),
        ..Default::default()
    };
    assert!(!is_action_row(&csv_row));
}

#[test]
fn mod_is_false_empty_subaction_name() {
    let csv_row = ActionCsvRow {
        parsed_stage: Some((1, "Action".to_string())),
        subaction_time: "12:34".to_string(),
        subaction_name: "".to_string(),
        ..Default::default()
    };
    assert!(!is_action_row(&csv_row));
}

#[test]
fn mod_is_false_non_empty_subaction_time() {
    let csv_row = ActionCsvRow {
        parsed_stage: Some((1, "Action".to_string())),
        subaction_time: "12:34".to_string(),
        subaction_name: "".to_string(),
        score: "".to_string(),
        old_value: "".to_string(),
        new_value: "".to_string(),
        ..Default::default()
    };
    assert!(!is_stage_boundary(&csv_row));
}

#[test]
fn mod_is_false_non_empty_subaction_name() {
    let csv_row = ActionCsvRow {
        parsed_stage: Some((1, "Action".to_string())),
        subaction_time: "".to_string(),
        subaction_name: "SubAction".to_string(),
        score: "".to_string(),
        old_value: "".to_string(),
        new_value: "".to_string(),
        ..Default::default()
    };
    assert!(!is_stage_boundary(&csv_row));
}

#[test]
fn mod_is_false_non_empty_score() {
    let csv_row = ActionCsvRow {
        parsed_stage: Some((1, "Action".to_string())),
        subaction_time: "".to_string(),
        subaction_name: "".to_string(),
        score: "Score".to_string(),
        old_value: "".to_string(),
        new_value: "".to_string(),
        ..Default::default()
    };
    assert!(!is_stage_boundary(&csv_row));
}

#[test]
fn mod_is_false_non_empty_old_value() {
    let csv_row = ActionCsvRow {
        parsed_stage: Some((1, "Action".to_string())),
        subaction_time: "".to_string(),
        subaction_name: "".to_string(),
        score: "".to_string(),
        old_value: "OldValue".to_string(),
        new_value: "".to_string(),
        ..Default::default()
    };
    assert!(!is_stage_boundary(&csv_row));
}

#[test]
fn mod_is_false_non_empty_new_value() {
    let csv_row = ActionCsvRow {
        parsed_stage: Some((1, "Action".to_string())),
        subaction_time: "".to_string(),
        subaction_name: "".to_string(),
        score: "".to_string(),
        old_value: "".to_string(),
        new_value: "NewValue".to_string(),
        ..Default::default()
    };
    assert!(!is_stage_boundary(&csv_row));
}

#[test]
fn mod_is_false_wrong_old_value() {
    let marker = ActionCsvRow {
        old_value: "Not-Error".to_string(),
        score: "Action-Was-Performed".to_string(),
        ..Default::default()
    };
    assert!(!is_error_action_marker(&marker));

    let missed = ActionCsvRow {
        old_value: "Not-Error".to_string(),
        score: "Action-Was-Not-Performed".to_string(),
        ..Default::default()
    };
    assert!(!is_missed_action(&missed));
}

#[test]
fn mod_is_false_wrong_score() {
    let marker = ActionCsvRow {
        old_value: "Error-Triggered".to_string(),
        score: "Not-Performed".to_string(),
        ..Default::default()
    };
    assert!(!is_error_action_marker(&marker));
    assert!(!is_missed_action(&marker));
}

#[test]
fn mod_is_false_both_wrong() {
    let csv_row = ActionCsvRow {
        old_value: "Not-Error".to_string(),
        score: "Not-Performed".to_string(),
        ..Default::default()
    };
    assert!(!is_error_action_marker(&csv_row));
    assert!(!is_missed_action(&csv_row));
}

#[test]
fn mod_is_false_empty_values() {
    let csv_row = ActionCsvRow {
        old_value: "".to_string(),
        score: "".to_string(),
        ..Default::default()
    };
    assert!(!is_error_action_marker(&csv_row));
    assert!(!is_missed_action(&csv_row));
}

#[test]
fn mod_is_beginning() {
    let expected_plot_location = PlotLocation {
        timestamp: time_at(3600, "2024-12-24 01:00:00", "01:00:00"),
        stage: (1, "Stage 1".to_string()),
    };
    let mut csv_row = ActionCsvRow {
        timestamp: Some(expected_plot_location.timestamp.clone()),
        parsed_stage: Some(expected_plot_location.stage.clone()),
        subaction_name: "  BeGin   CpR  ".to_string(),
        ..Default::default()
    };
    let expected = Some((String::from("START"), expected_plot_location));
    assert_eq!(expected, check_cpr(&csv_row));
    csv_row.subaction_name = "  enteR   cPR  ".to_string();
    assert_eq!(expected, check_cpr(&csv_row));
    csv_row.subaction_name = "Begin CPR".to_string();
    assert_eq!(expected, check_cpr(&csv_row));
    csv_row.subaction_name = "Enter CPR".to_string();
    assert_eq!(expected, check_cpr(&csv_row));
}

#[test]
fn mod_is_end() {
    let expected_plot_location = PlotLocation {
        timestamp: time_at(3600, "2024-12-24 01:00:00", "01:00:00"),
        stage: (1, "Stage 1".to_string()),
    };
    let mut csv_row = ActionCsvRow {
        timestamp: Some(expected_plot_location.timestamp.clone()),
        parsed_stage: Some(expected_plot_location.stage.clone()),
        subaction_name: "  Stop   CPR  ".to_string(),
        ..Default::default()
    };
    let expected = Some((String::from("END"), expected_plot_location));
    assert_eq!(expected, check_cpr(&csv_row));
    csv_row.subaction_name = "  enD   cPR  ".to_string();
    assert_eq!(expected, check_cpr(&csv_row));
    csv_row.subaction_name = "stoP CpR".to_string();
    assert_eq!(expected, check_cpr(&csv_row));
    csv_row.subaction_name = "End CPR".to_string();
    assert_eq!(expected, check_cpr(&csv_row));
}

#[test]
fn mod_within_threshold() {
    let time = 3600;
    let csv_row1 = ActionCsvRow {
        timestamp: Some(time_at(time, "2024-12-24 01:00:00", "01:00:00")),
        ..Default::default()
    };
    let csv_row2 = ActionCsvRow {
        timestamp: Some(time_at(
            time + ERROR_MARKER_TIME_THRESHOLD,
            "2024-12-24 01:00:02",
            "01:00:02",
        )),
        ..Default::default()
    };
    assert!(can_mark_each_other(&csv_row1, &csv_row2));
}

#[test]
fn mod_within_threshold_opposite_direction() {
    let time = 3600;
    let csv_row1 = ActionCsvRow {
        timestamp: Some(time_at(3600, "2024-12-24 01:00:00", "01:00:00")),
        ..Default::default()
    };
    let csv_row2 = ActionCsvRow {
        timestamp: Some(time_at(
            time - ERROR_MARKER_TIME_THRESHOLD,
            "2024-12-24 01:00:02",
            "01:00:02",
        )),
        ..Default::default()
    };
    assert!(can_mark_each_other(&csv_row1, &csv_row2));
}

#[test]
fn mod_exceeds_threshold() {
    let time = 3600;
    let csv_row1 = ActionCsvRow {
        timestamp: Some(time_at(time, "2024-12-24 01:00:00", "01:00:00")),
        ..Default::default()
    };
    let csv_row2 = ActionCsvRow {
        timestamp: Some(time_at(
            time + ERROR_MARKER_TIME_THRESHOLD + 1,
            "2024-12-24 01:00:03",
            "01:00:03",
        )),
        ..Default::default()
    };
    assert!(!can_mark_each_other(&csv_row1, &csv_row2));
}

#[test]
fn mod_exceeds_threshold_opposite_direction() {
    let time = 3600;
    let csv_row1 = ActionCsvRow {
        timestamp: Some(time_at(time, "2024-12-24 01:00:00", "01:00:00")),
        ..Default::default()
    };
    let csv_row2 = ActionCsvRow {
        timestamp: Some(time_at(
            time - ERROR_MARKER_TIME_THRESHOLD - 1,
            "2024-12-24 01:00:03",
            "01:00:03",
        )),
        ..Default::default()
    };
    assert!(!can_mark_each_other(&csv_row1, &csv_row2));
}

#[test]
fn mod_no_timestamp() {
    let csv_row1 = ActionCsvRow { timestamp: None, ..Default::default() };
    let csv_row2 = ActionCsvRow {
        timestamp: Some(time_at(3600, "2024-12-24 01:00:00", "01:00:00")),
        ..Default::default()
    };
    assert!(!can_mark_each_other(&csv_row1, &csv_row2));
}

#[test]
fn mod_both_no_timestamp() {
    let csv_row1 = ActionCsvRow { timestamp: None, ..Default::default() };
    let csv_row2 = ActionCsvRow { timestamp: None, ..Default::default() };
    assert!(can_mark_each_other(&csv_row1, &csv_row2));
}

#[test]
fn mod_is_false_different_stages() {
    let time = 3600;
    let csv_row = ActionCsvRow {
        action_point: true,
        action_vital_name: "X".to_string(),
        timestamp: Some(time_at(time, "2024-12-24 01:00:00", "01:00:00")),
        ..Default::default()
    };
    let error_marker_row = ActionCsvRow {
        username: "(1)Stage A(action)".to_string(),
        timestamp: Some(time_at(
            time + ERROR_MARKER_TIME_THRESHOLD,
            "2024-12-24 01:00:02",
            "01:00:02",
        )),
        ..Default::default()
    };
    assert!(!is_erroneous_action(&csv_row, &error_marker_row));
}

#[test]
fn mod_is_false_time_threshold_exceeded() {
    let time = 3600;
    let csv_row = ActionCsvRow {
        action_point: true,
        action_vital_name: "User1".to_string(),
        timestamp: Some(time_at(time, "2024-12-24 01:00:00", "01:00:00")),
        ..Default::default()
    };
    let error_marker_row = ActionCsvRow {
        username: "User1".to_string(),
        timestamp: Some(time_at(
            time + ERROR_MARKER_TIME_THRESHOLD + 1,
            "2024-12-24 01:00:05",
            "01:00:05",
        )),
        ..Default::default()
    };
    assert!(!is_erroneous_action(&csv_row, &error_marker_row));
}

#[test]
fn mod_is_false_time_threshold_exceeded_opposite_direction() {
    let time = 3600;
    let csv_row = ActionCsvRow {
        action_point: true,
        action_vital_name: "User1".to_string(),
        timestamp: Some(time_at(time, "2024-12-24 01:00:00", "01:00:00")),
        ..Default::default()
    };
    let error_marker_row = ActionCsvRow {
        username: "User1".to_string(),
        timestamp: Some(time_at(
            time - ERROR_MARKER_TIME_THRESHOLD - 1,
            "2024-12-24 01:00:05",
            "01:00:05",
        )),
        ..Default::default()
    };
    assert!(!is_erroneous_action(&csv_row, &error_marker_row));
}

#[test]
fn mod_is_false_not_action_point() {
    let time = 3600;
    let csv_row = ActionCsvRow {
        action_point: false,
        action_vital_name: "User1".to_string(),
        timestamp: Some(time_at(time, "2024-12-24 01:00:00", "01:00:00")),
        ..Default::default()
    };
    let error_marker_row = ActionCsvRow {
        username: "User1".to_string(),
        timestamp: Some(time_at(
            time + ERROR_MARKER_TIME_THRESHOLD - 1,
            "2024-12-24 01:00:02",
            "01:00:02",
        )),
        ..Default::default()
    };
    assert!(!is_erroneous_action(&csv_row, &error_marker_row));
}
