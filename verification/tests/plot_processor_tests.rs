use mteam_dashboard_action_processor::action_csv_row::ActionCsvRow;
use mteam_dashboard_action_processor::plot_point_processors::process_action_point;
use mteam_dashboard_action_processor::plot_point_processors::process_cpr_lines;
use mteam_dashboard_action_processor::plot_point_processors::process_stage_boundary;
use mteam_dashboard_action_processor::scatter_points::ActionPlotPoint;
use mteam_dashboard_action_processor::scatter_points::CsvRowTime;
use mteam_dashboard_action_processor::scatter_points::PeriodType;
use mteam_dashboard_action_processor::scatter_points::PlotLocation;

// The first boundary row opens a stage without emitting anything: the
// tracker records the row's location and the interval waits for the next
// boundary.
#[test]
fn stage_begin() {
    let mut stage_boundary_points = Vec::new();

    let csv_row = ActionCsvRow {
        action_vital_name: "Stage 1".to_string(),
        parsed_stage: Some((1, "Stage 1".to_string())),
        ..Default::default()
    };

    let result = process_stage_boundary(&mut stage_boundary_points, &csv_row);

    assert!(result.is_none());
    assert_eq!(stage_boundary_points.len(), 1);
    assert_eq!(stage_boundary_points[0].stage, (1, "Stage 1".to_string()));
}

#[test]
fn stage_end() {
    let mut stage_boundary_points = vec![PlotLocation::new(&ActionCsvRow {
        action_vital_name: "Stage 1".to_string(),
        parsed_stage: Some((1, "Stage 1".to_string())),
        ..Default::default()
    })];
    let csv_row = ActionCsvRow {
        action_vital_name: "Stage 2".to_string(),
        parsed_stage: Some((2, "Stage 2".to_string())),
        ..Default::default()
    };

    let result = process_stage_boundary(&mut stage_boundary_points, &csv_row);

    assert!(result.is_some());
    if let Some(Ok(ActionPlotPoint::Period(PeriodType::Stage, Some(start), Some(end)))) = result {
        assert_eq!(start.stage, (2, "Stage 2".to_string()));
        assert_eq!(end.stage, (2, "Stage 2".to_string()));
    } else {
        panic!("Expected ActionPlotPoint::Period with PeriodType::Stage");
    }
}

#[test]
fn not_stage_boundary() {
    let mut stage_boundary_points = Vec::new();
    let csv_row = ActionCsvRow {
        action_vital_name: "Not a stage boundary".to_string(),
        parsed_stage: None,
        ..Default::default()
    };

    let result = process_stage_boundary(&mut stage_boundary_points, &csv_row);
    assert!(result.is_none());
    assert!(stage_boundary_points.is_empty());
}

#[test]
fn start_cpr_period() {
    let mut cpr_points = Vec::new();
    let csv_row = ActionCsvRow {
        subaction_name: "Begin CPR".to_string(),
        timestamp: Some(CsvRowTime {
            total_seconds: 120,
            timestamp: "00:02:00".to_string(),
            date_string: "2021-01-01 00:02:00".to_string(),
        }),
        ..Default::default()
    };

    let result = process_cpr_lines(&mut cpr_points, &csv_row);

    assert!(result.is_none());
    assert_eq!(cpr_points.len(), 1);
    match &cpr_points[0] {
        ActionPlotPoint::Period(PeriodType::CPR, Some(start), None) => {
            assert_eq!(start.timestamp.total_seconds, csv_row.timestamp.unwrap().total_seconds);
        },
        other => panic!("Expected a stored CPR start, got {:?}", other),
    }
}

#[test]
fn end_cpr_period() {
    let mut cpr_points = vec![ActionPlotPoint::Period(
        PeriodType::CPR,
        Some(PlotLocation::new(&ActionCsvRow {
            subaction_name: "Begin CPR".to_string(),
            ..Default::default()
        })),
        None,
    )];
    let csv_row = ActionCsvRow {
        subaction_name: "End CPR".to_string(),
        timestamp: Some(CsvRowTime {
            total_seconds: 120,
            timestamp: "00:02:00".to_string(),
            date_string: "2021-01-01 00:02:00".to_string(),
        }),
        ..Default::default()
    };

    let result = process_cpr_lines(&mut cpr_points, &csv_row);

    assert!(result.is_some());
    assert!(cpr_points.is_empty());
    if let Some(Ok(ActionPlotPoint::Period(PeriodType::CPR, Some(start), Some(end)))) = result {
        assert_eq!(0, start.timestamp.total_seconds);
        assert_eq!(csv_row.timestamp.unwrap().total_seconds, end.timestamp.total_seconds);
    } else {
        panic!("Expected ActionPlotPoint::Period with PeriodType::CPR");
    }
}

// Two same-direction CPR markers collide with a range-merge error instead of
// closing an interval.
#[test]
fn same_direction_cpr_markers_collide() {
    let mut cpr_points = vec![ActionPlotPoint::Period(
        PeriodType::CPR,
        Some(PlotLocation::new(&ActionCsvRow {
            subaction_name: "Begin CPR".to_string(),
            ..Default::default()
        })),
        None,
    )];
    let csv_row = ActionCsvRow {
        subaction_name: "Begin CPR".to_string(),
        timestamp: Some(CsvRowTime {
            total_seconds: 120,
            timestamp: "00:02:00".to_string(),
            date_string: "2021-01-01 00:02:00".to_string(),
        }),
        ..Default::default()
    };

    let result = process_cpr_lines(&mut cpr_points, &csv_row);

    match result {
        Some(Err(e)) => assert!(e.contains("begin and end point in order")),
        other => panic!("Expected a range-merge error, got {:?}", other),
    }
}

#[test]
fn non_cpr_row() {
    let mut cpr_points: Vec<ActionPlotPoint> = Vec::new();
    let csv_row = ActionCsvRow {
        action_vital_name: "Non-CPR".to_string(),
        ..Default::default()
    };

    let result = process_cpr_lines(&mut cpr_points, &csv_row);

    assert!(result.is_none());
    assert!(cpr_points.is_empty());
}

#[test]
fn action_point() {
    let csv_row = ActionCsvRow {
        action_point: true,
        action_name: "Action Point".to_string(),
        action_vital_name: "Action Point".to_string(),
        ..Default::default()
    };

    let result = process_action_point(&csv_row);

    assert!(result.is_some());
    if let Some(Ok(ActionPlotPoint::Action(action))) = result {
        assert_eq!(csv_row.action_name, action.name);
    } else {
        panic!("Expected ActionPlotPoint::Action");
    }
}

#[test]
fn not_action_point() {
    let csv_row = ActionCsvRow {
        action_point: false,
        action_vital_name: "Not an Action Point".to_string(),
        ..Default::default()
    };

    let result = process_action_point(&csv_row);

    assert!(result.is_none());
}
