use crate::action_csv_row::ActionCsvRow;
use crate::action_csv_row::RowV;
use crate::scatter_points::PlotLocation;
use crate::scatter_points::spec_location_of;
use crate::text::chars_eq_str;
use crate::text::lower_chars;
use crate::text::lower_seq;
use crate::text::norm_chars;
use crate::text::norm_ws;
use crate::text::str_chars;
use crate::text::trim_chars;
use crate::text::trim_seq;
use vstd::prelude::*;

verus! {

/// Seconds threshold within which an error marker and an action row may
/// refer to each other.
pub const ERROR_MARKER_TIME_THRESHOLD: u32 = 2;

// ---------------------------------------------------------------------------
// Row classification predicates
// ---------------------------------------------------------------------------

/// An action point: a parsed stage, a non-blank subaction time, and a
/// non-blank subaction name.
pub open spec fn spec_is_action_row(row: RowV) -> bool {
    &&& row.parsed_stage is Some
    &&& trim_seq(row.subaction_time).len() != 0
    &&& trim_seq(row.subaction_name).len() != 0
}

/// A stage boundary: a parsed stage and no other content at all.
pub open spec fn spec_is_stage_boundary(row: RowV) -> bool {
    &&& row.parsed_stage is Some
    &&& trim_seq(row.subaction_time).len() == 0
    &&& trim_seq(row.subaction_name).len() == 0
    &&& trim_seq(row.score).len() == 0
    &&& trim_seq(row.old_value).len() == 0
    &&& trim_seq(row.new_value).len() == 0
}

/// An error marker: a row flagging that some action violated a rule.
pub open spec fn spec_is_error_marker(row: RowV) -> bool {
    trim_seq(row.old_value) == "Error-Triggered"@ && trim_seq(row.score)
        == "Action-Was-Performed"@
}

/// A missed action: a required action that was never performed.
pub open spec fn spec_is_missed_action(row: RowV) -> bool {
    trim_seq(row.old_value) == "Error-Triggered"@ && trim_seq(row.score)
        == "Action-Was-Not-Performed"@
}

fn is_blank(text: &str) -> (r: bool)
    ensures
        r == (trim_seq(text@).len() == 0),
{
    let t = str_chars(text);
    let tt = trim_chars(&t);
    tt.len() == 0
}

pub fn is_action_row(csv_row: &ActionCsvRow) -> (r: bool)
    ensures
        r == spec_is_action_row(csv_row@),
{
    csv_row.parsed_stage.is_some() && !is_blank(csv_row.subaction_time.as_str()) && !is_blank(
        csv_row.subaction_name.as_str(),
    )
}

pub fn is_stage_boundary(csv_row: &ActionCsvRow) -> (r: bool)
    ensures
        r == spec_is_stage_boundary(csv_row@),
{
    csv_row.parsed_stage.is_some() && is_blank(csv_row.subaction_time.as_str()) && is_blank(
        csv_row.subaction_name.as_str(),
    ) && is_blank(csv_row.score.as_str()) && is_blank(csv_row.old_value.as_str()) && is_blank(
        csv_row.new_value.as_str(),
    )
}

pub fn is_error_action_marker(csv_row: &ActionCsvRow) -> (r: bool)
    ensures
        r == spec_is_error_marker(csv_row@),
{
    let ov = str_chars(csv_row.old_value.as_str());
    let ovt = trim_chars(&ov);
    let sc = str_chars(csv_row.score.as_str());
    let sct = trim_chars(&sc);
    chars_eq_str(&ovt, "Error-Triggered") && chars_eq_str(&sct, "Action-Was-Performed")
}

pub fn is_missed_action(csv_row: &ActionCsvRow) -> (r: bool)
    ensures
        r == spec_is_missed_action(csv_row@),
{
    let ov = str_chars(csv_row.old_value.as_str());
    let ovt = trim_chars(&ov);
    let sc = str_chars(csv_row.score.as_str());
    let sct = trim_chars(&sc);
    chars_eq_str(&ovt, "Error-Triggered") && chars_eq_str(&sct, "Action-Was-Not-Performed")
}

// ---------------------------------------------------------------------------
// CPR marker vocabulary
// ---------------------------------------------------------------------------

/// A subaction name, lower-cased and whitespace-normalized, for matching
/// against the CPR marker vocabulary.
pub open spec fn spec_cpr_normalized(s: Seq<char>) -> Seq<char> {
    norm_ws(lower_seq(s))
}

/// The vocabulary that opens a CPR interval.
pub open spec fn spec_is_cpr_start(s: Seq<char>) -> bool {
    spec_cpr_normalized(s) == "begin cpr"@ || spec_cpr_normalized(s) == "enter cpr"@
}

/// The vocabulary that closes a CPR interval.
pub open spec fn spec_is_cpr_end(s: Seq<char>) -> bool {
    spec_cpr_normalized(s) == "stop cpr"@ || spec_cpr_normalized(s) == "end cpr"@
}

/// Classify a row's subaction name against the CPR vocabulary: a start
/// marker yields `("START", location)`, an end marker `("END", location)`.
pub fn check_cpr(csv_row: &ActionCsvRow) -> (r: Option<(String, PlotLocation)>)
    ensures
        spec_is_cpr_start(csv_row@.subaction_name) ==> (r matches Some(p) && p.0@ == "START"@
            && p.1@ == spec_location_of(csv_row@)),
        !spec_is_cpr_start(csv_row@.subaction_name) && spec_is_cpr_end(csv_row@.subaction_name)
            ==> (r matches Some(p) && p.0@ == "END"@ && p.1@ == spec_location_of(csv_row@)),
        !spec_is_cpr_start(csv_row@.subaction_name) && !spec_is_cpr_end(csv_row@.subaction_name)
            ==> r is None,
{
    let sn = str_chars(csv_row.subaction_name.as_str());
    let low = lower_chars(&sn);
    let normalized = norm_chars(&low);
    if chars_eq_str(&normalized, "begin cpr") || chars_eq_str(&normalized, "enter cpr") {
        Some((String::from_str("START"), PlotLocation::new(csv_row)))
    } else if chars_eq_str(&normalized, "stop cpr") || chars_eq_str(&normalized, "end cpr") {
        Some((String::from_str("END"), PlotLocation::new(csv_row)))
    } else {
        None
    }
}

// ---------------------------------------------------------------------------
// Marker-action correlation
// ---------------------------------------------------------------------------

/// The seconds a row counts for in the time-threshold test: its timestamp's
/// total seconds, or 0 where it has no timestamp.
pub open spec fn spec_row_seconds(row: RowV) -> u32 {
    match row.timestamp {
        Some(t) => t.total_seconds,
        None => 0,
    }
}

/// Two rows are close enough to refer to each other when their seconds
/// differ by at most the threshold.
pub open spec fn spec_can_mark(r1: RowV, r2: RowV) -> bool {
    -(ERROR_MARKER_TIME_THRESHOLD as int) <= spec_row_seconds(r1) - spec_row_seconds(r2) <= (
    ERROR_MARKER_TIME_THRESHOLD as int)
}

pub fn can_mark_each_other(csv_row1: &ActionCsvRow, csv_row2: &ActionCsvRow) -> (r: bool)
    ensures
        r == spec_can_mark(csv_row1@, csv_row2@),
{
    let marker_time: u32 = match &csv_row1.timestamp {
        Some(t) => t.total_seconds,
        None => 0,
    };
    let current_time: u32 = match &csv_row2.timestamp {
        Some(t) => t.total_seconds,
        None => 0,
    };
    if marker_time >= current_time {
        marker_time - current_time <= ERROR_MARKER_TIME_THRESHOLD
    } else {
        current_time - marker_time <= ERROR_MARKER_TIME_THRESHOLD
    }
}

/// An action row is the erroneous action a marker points to when it is an
/// action point, the marker's username names its vital field, and the two
/// rows lie within the time threshold.
pub open spec fn spec_is_erroneous_action(row: RowV, marker: RowV) -> bool {
    row.action_point && marker.username == row.action_vital_name && spec_can_mark(row, marker)
}

pub fn is_erroneous_action(csv_row: &ActionCsvRow, error_marker_row: &ActionCsvRow) -> (r: bool)
    ensures
        r == spec_is_erroneous_action(csv_row@, error_marker_row@),
{
    csv_row.action_point && error_marker_row.username == csv_row.action_vital_name
        && can_mark_each_other(csv_row, error_marker_row)
}

} // verus!
