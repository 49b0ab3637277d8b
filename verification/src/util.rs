use crate::action_csv_row::ActionCsvRow;
use crate::detection::spec_is_cpr_end;
use crate::detection::spec_is_cpr_start;
use crate::scatter_points::ActionPlotPoint;
use crate::scatter_points::ActionPlotPointV;
use crate::scatter_points::PeriodType;
use crate::scatter_points::PlotLocation;
use crate::scatter_points::PlotLocationV;
use crate::scatter_points::spec_location_of;
use crate::text::chars_eq_str;
use crate::text::lower_chars;
use crate::text::norm_chars;
use crate::text::str_chars;
use vstd::prelude::*;

verus! {

pub open spec fn opt_point_view(o: Option<ActionPlotPoint>) -> Option<ActionPlotPointV> {
    match o {
        Some(p) => Some(p@),
        None => None,
    }
}

pub open spec fn res_point_view(r: Result<ActionPlotPoint, String>) -> Result<
    ActionPlotPointV,
    Seq<char>,
> {
    match r {
        Ok(p) => Ok(p@),
        Err(e) => Err(e@),
    }
}

/// The message reported when two partial intervals collide on the same side.
pub open spec fn spec_range_error() -> Seq<char> {
    "Should have a begin and end point in order. Start/end markers are not encountered as expected for a valid range/duration."@
}

/// The message reported when two intervals of different kinds are merged.
pub open spec fn spec_type_error() -> Seq<char> {
    "The periods you are trying to merge are of different types"@
}

/// Merging one side of two partial intervals: at most one of the two slots
/// may be filled; two filled slots collide.
pub open spec fn spec_merge_slot(a: Option<PlotLocationV>, b: Option<PlotLocationV>) -> Result<
    Option<PlotLocationV>,
    Seq<char>,
> {
    match (a, b) {
        (None, None) => Ok(None),
        (Some(p), None) => Ok(Some(p)),
        (None, Some(p)) => Ok(Some(p)),
        (Some(_), Some(_)) => Err(spec_range_error()),
    }
}

/// Merging two partial interval points into one: both must be `Period`
/// points of the same kind, and each side must be filled at most once in
/// total; a start-side collision is reported before an end-side one.
pub open spec fn spec_merge(p1: Option<ActionPlotPointV>, p2: Option<ActionPlotPointV>) -> Result<
    ActionPlotPointV,
    Seq<char>,
> {
    match (p1, p2) {
        (
            Some(ActionPlotPointV::Period(t1, s1, e1)),
            Some(ActionPlotPointV::Period(t2, s2, e2)),
        ) => {
            if t1 != t2 {
                Err(spec_type_error())
            } else {
                match spec_merge_slot(s1, s2) {
                    Err(e) => Err(e),
                    Ok(s) => match spec_merge_slot(e1, e2) {
                        Err(e) => Err(e),
                        Ok(e) => Ok(ActionPlotPointV::Period(t1, s, e)),
                    },
                }
            }
        },
        _ => Err(spec_range_error()),
    }
}

/// Merge two partial interval points into one complete interval.
pub fn merge_plot_location_range(app1: Option<ActionPlotPoint>, app2: Option<ActionPlotPoint>) -> (
    r: Result<ActionPlotPoint, String>)
    ensures
        res_point_view(r) == spec_merge(opt_point_view(app1), opt_point_view(app2)),
{
    match (app1, app2) {
        (
            Some(ActionPlotPoint::Period(period_type1, start1, end1)),
            Some(ActionPlotPoint::Period(period_type2, start2, end2)),
        ) => {
            if period_type1 != period_type2 {
                return Err(
                    String::from_str("The periods you are trying to merge are of different types"),
                );
            }
            let start = match (start1, start2) {
                (None, None) => None,
                (Some(p), None) => Some(p),
                (None, Some(p)) => Some(p),
                (Some(_), Some(_)) => {
                    return Err(
                        String::from_str(
                            "Should have a begin and end point in order. Start/end markers are not encountered as expected for a valid range/duration.",
                        ),
                    );
                },
            };
            let end = match (end1, end2) {
                (None, None) => None,
                (Some(p), None) => Some(p),
                (None, Some(p)) => Some(p),
                (Some(_), Some(_)) => {
                    return Err(
                        String::from_str(
                            "Should have a begin and end point in order. Start/end markers are not encountered as expected for a valid range/duration.",
                        ),
                    );
                },
            };
            Ok(ActionPlotPoint::Period(period_type1, start, end))
        },
        _ => Err(
            String::from_str(
                "Should have a begin and end point in order. Start/end markers are not encountered as expected for a valid range/duration.",
            ),
        ),
    }
}

/// The partial CPR interval a row stands for, if its subaction name is a CPR
/// marker: a start marker fills the start slot, an end marker the end slot.
pub open spec fn spec_check_cpr(row: crate::action_csv_row::RowV) -> Option<ActionPlotPointV> {
    if spec_is_cpr_start(row.subaction_name) {
        Some(ActionPlotPointV::Period(PeriodType::CPR, Some(spec_location_of(row)), None))
    } else if spec_is_cpr_end(row.subaction_name) {
        Some(ActionPlotPointV::Period(PeriodType::CPR, None, Some(spec_location_of(row))))
    } else {
        None
    }
}

/// Classify a row's subaction name against the CPR vocabulary, as a partial
/// interval point.
pub fn check_cpr(csv_row: &ActionCsvRow) -> (r: Option<ActionPlotPoint>)
    ensures
        opt_point_view(r) == spec_check_cpr(csv_row@),
{
    let sn = str_chars(csv_row.subaction_name.as_str());
    let low = lower_chars(&sn);
    let normalized = norm_chars(&low);
    if chars_eq_str(&normalized, "begin cpr") || chars_eq_str(&normalized, "enter cpr") {
        Some(ActionPlotPoint::Period(PeriodType::CPR, Some(PlotLocation::new(csv_row)), None))
    } else if chars_eq_str(&normalized, "stop cpr") || chars_eq_str(&normalized, "end cpr") {
        Some(ActionPlotPoint::Period(PeriodType::CPR, None, Some(PlotLocation::new(csv_row))))
    } else {
        None
    }
}

} // verus!
