use mteam_dashboard_action_processor::action_csv_row::validate_header;

fn to_strings(items: &[&str]) -> Vec<String> {
    items.iter().map(|s| s.to_string()).collect()
}

fn assert_header_check(headers: &[&str], actual: Result<(), String>, expected_headers: &[&str]) {
    assert!(actual.is_err());
    let message: String = actual.unwrap_err();
    assert_eq!(
        message,
        format!(
            "Line {:?}: expected {:?} as the header row of csv but got {:?}",
            1, expected_headers, headers
        )
    );
}

#[test]
fn test_check_headers_missing_header() {
    let headers = ["Time Stamp[Hr:Min:Sec]", "Action/Vital Name"];
    let expected_headers = ["Time Stamp[Hr:Min:Sec]", "Action/Vital Name", "Score"];

    assert_header_check(
        &headers,
        validate_header(&to_strings(&headers), &to_strings(&expected_headers)),
        &expected_headers,
    );
}

#[test]
fn test_check_headers_different_order() {
    let headers = [
        "Action/Vital Name",
        "Time Stamp[Hr:Min:Sec]",
        "SubAction Time[Min:Sec]",
    ];
    let expected_headers = [
        "Time Stamp[Hr:Min:Sec]",
        "Action/Vital Name",
        "SubAction Time[Min:Sec]",
    ];

    assert_header_check(
        &headers,
        validate_header(&to_strings(&headers), &to_strings(&expected_headers)),
        &expected_headers,
    );
}

#[test]
fn test_check_headers_unknown_header() {
    let headers = [
        "Time Stamp[Hr:Min:Sec]",
        "Action/Vital Name",
        "Unknown Header",
        "SubAction Time[Min:Sec]",
    ];
    let expected_headers = [
        "Time Stamp[Hr:Min:Sec]",
        "Action/Vital Name",
        "SubAction Time[Min:Sec]",
    ];

    assert_header_check(
        &headers,
        validate_header(&to_strings(&headers), &to_strings(&expected_headers)),
        &expected_headers,
    );
}

#[test]
fn test_check_headers_matching() {
    let headers = [
        "Time Stamp[Hr:Min:Sec]",
        "Action/Vital Name",
        "SubAction Time[Min:Sec]",
    ];
    let expected_headers = [
        "Time Stamp[Hr:Min:Sec]",
        "Action/Vital Name",
        "SubAction Time[Min:Sec]",
    ];

    assert!(validate_header(&to_strings(&headers), &to_strings(&expected_headers)).is_ok());
}

#[test]
fn test_check_headers_matching_case_insensitive() {
    let headers = [
        "time Stamp[Hr:Min:Sec]",
        "ActioN/Vital Name",
        "subAction time[min:sec]",
    ];
    let expected_headers = [
        "Time Stamp[Hr:Min:Sec]",
        "Action/Vital Name",
        "SubAction Time[Min:Sec]",
    ];

    assert!(validate_header(&to_strings(&headers), &to_strings(&expected_headers)).is_ok());
}

#[test]
fn test_check_headers_matching_extra_header() {
    let headers = [
        "time Stamp[Hr:Min:Sec]",
        "ActioN/Vital Name",
        "subAction time[min:sec]",
        "Extra Column",
    ];
    let expected_headers = [
        "Time Stamp[Hr:Min:Sec]",
        "Action/Vital Name",
        "SubAction Time[Min:Sec]",
    ];

    assert!(validate_header(&to_strings(&headers), &to_strings(&expected_headers)).is_ok());
}
