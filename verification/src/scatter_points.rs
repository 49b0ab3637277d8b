use crate::action_csv_row::ActionCsvRow;
use crate::action_csv_row::RowV;
use vstd::prelude::*;

verus! {

// ---------------------------------------------------------------------------
// Mathematical views of the output data shapes
// ---------------------------------------------------------------------------

pub ghost struct CsvRowTimeV {
    pub total_seconds: u32,
    pub date_string: Seq<char>,
    pub timestamp: Seq<char>,
}

pub ghost struct PlotLocationV {
    pub timestamp: CsvRowTimeV,
    pub stage: (u32, Seq<char>),
}

pub ghost struct ErrorInfoV {
    pub action_rule: Seq<char>,
    pub violation: Seq<char>,
    pub advice: Seq<char>,
}

pub ghost struct StageBoundaryV {
    pub location: PlotLocationV,
}

pub ghost struct ActionV {
    pub location: PlotLocationV,
    pub name: Seq<char>,
    pub action_category: Seq<char>,
    pub shock_value: Seq<char>,
}

pub ghost struct ErroneousActionV {
    pub location: PlotLocationV,
    pub name: Seq<char>,
    pub action_category: Seq<char>,
    pub shock_value: Seq<char>,
    pub error_info: ErrorInfoV,
}

pub ghost struct MissedActionV {
    pub location: PlotLocationV,
    pub action_name: Seq<char>,
    pub error_info: ErrorInfoV,
}

pub ghost enum ActionPlotPointV {
    Error(ErroneousActionV),
    Action(ActionV),
    StageBoundary(StageBoundaryV),
    MissedAction(MissedActionV),
    Period(PeriodType, Option<PlotLocationV>, Option<PlotLocationV>),
}

// ---------------------------------------------------------------------------
// A time of day, decomposed
// ---------------------------------------------------------------------------

/// A time of day: total elapsed seconds, a full date-time string anchored to
/// the processing date, and the normalized `HH:MM:SS` text.
#[derive(Debug)]
pub struct CsvRowTime {
    pub total_seconds: u32,
    pub date_string: String,
    pub timestamp: String,
}

impl View for CsvRowTime {
    type V = CsvRowTimeV;

    open spec fn view(&self) -> CsvRowTimeV {
        CsvRowTimeV {
            total_seconds: self.total_seconds,
            date_string: self.date_string@,
            timestamp: self.timestamp@,
        }
    }
}

impl Clone for CsvRowTime {
    fn clone(&self) -> (r: Self)
        ensures
            r@ == self@,
    {
        CsvRowTime {
            total_seconds: self.total_seconds,
            date_string: self.date_string.clone(),
            timestamp: self.timestamp.clone(),
        }
    }
}

impl Default for CsvRowTime {
    fn default() -> (r: Self)
        ensures
            r@ == spec_default_time(),
    {
        CsvRowTime { total_seconds: 0, date_string: String::new(), timestamp: String::new() }
    }
}

/// The placeholder time used where a row carries none.
pub open spec fn spec_default_time() -> CsvRowTimeV {
    CsvRowTimeV {
        total_seconds: 0,
        date_string: Seq::<char>::empty(),
        timestamp: Seq::<char>::empty(),
    }
}

impl PartialEq for CsvRowTime {
    fn eq(&self, other: &Self) -> bool {
        self.total_seconds == other.total_seconds && self.date_string == other.date_string
            && self.timestamp == other.timestamp
    }
}

impl vstd::std_specs::cmp::PartialEqSpecImpl for CsvRowTime {
    open spec fn obeys_eq_spec() -> bool {
        true
    }

    open spec fn eq_spec(&self, other: &Self) -> bool {
        self@ == other@
    }
}

// ---------------------------------------------------------------------------
// Interval endpoints
// ---------------------------------------------------------------------------

/// A (time, stage) snapshot of one row, marking a point or interval endpoint.
#[derive(Debug)]
pub struct PlotLocation {
    pub timestamp: CsvRowTime,
    pub stage: (u32, String),
}

impl View for PlotLocation {
    type V = PlotLocationV;

    open spec fn view(&self) -> PlotLocationV {
        PlotLocationV { timestamp: self.timestamp@, stage: (self.stage.0, self.stage.1@) }
    }
}

impl Clone for PlotLocation {
    fn clone(&self) -> (r: Self)
        ensures
            r@ == self@,
    {
        PlotLocation {
            timestamp: self.timestamp.clone(),
            stage: (self.stage.0, self.stage.1.clone()),
        }
    }
}

impl Default for PlotLocation {
    fn default() -> (r: Self)
        ensures
            r@ == spec_default_location(),
    {
        PlotLocation { timestamp: CsvRowTime::default(), stage: (0, String::new()) }
    }
}

/// The placeholder location: the default time and stage (0, "").
pub open spec fn spec_default_location() -> PlotLocationV {
    PlotLocationV { timestamp: spec_default_time(), stage: (0, Seq::<char>::empty()) }
}

impl PartialEq for PlotLocation {
    fn eq(&self, other: &Self) -> bool {
        self.timestamp == other.timestamp && self.stage.0 == other.stage.0 && self.stage.1
            == other.stage.1
    }
}

impl vstd::std_specs::cmp::PartialEqSpecImpl for PlotLocation {
    open spec fn obeys_eq_spec() -> bool {
        true
    }

    open spec fn eq_spec(&self, other: &Self) -> bool {
        self@ == other@
    }
}

/// The location a row stands for: its own time and parsed stage, with the
/// placeholder time or stage where the row carries none.
pub open spec fn spec_location_of(row: RowV) -> PlotLocationV {
    PlotLocationV {
        timestamp: match row.timestamp {
            Some(t) => t,
            None => spec_default_time(),
        },
        stage: match row.parsed_stage {
            Some(s) => s,
            None => (0, Seq::<char>::empty()),
        },
    }
}

impl PlotLocation {
    pub fn new(row: &ActionCsvRow) -> (r: Self)
        ensures
            r@ == spec_location_of(row@),
    {
        PlotLocation {
            timestamp: match &row.timestamp {
                Some(t) => t.clone(),
                None => CsvRowTime::default(),
            },
            stage: match &row.parsed_stage {
                Some(s) => (s.0, s.1.clone()),
                None => (0, String::new()),
            },
        }
    }
}

// ---------------------------------------------------------------------------
// Error details carried by a marker row
// ---------------------------------------------------------------------------

#[derive(Debug)]
pub struct ErrorInfo {
    pub action_rule: String,
    pub violation: String,
    pub advice: String,
}

impl View for ErrorInfo {
    type V = ErrorInfoV;

    open spec fn view(&self) -> ErrorInfoV {
        ErrorInfoV {
            action_rule: self.action_rule@,
            violation: self.violation@,
            advice: self.advice@,
        }
    }
}

impl Clone for ErrorInfo {
    fn clone(&self) -> (r: Self)
        ensures
            r@ == self@,
    {
        ErrorInfo {
            action_rule: self.action_rule.clone(),
            violation: self.violation.clone(),
            advice: self.advice.clone(),
        }
    }
}

impl PartialEq for ErrorInfo {
    fn eq(&self, other: &Self) -> bool {
        self.action_rule == other.action_rule && self.violation == other.violation && self.advice
            == other.advice
    }
}

impl vstd::std_specs::cmp::PartialEqSpecImpl for ErrorInfo {
    open spec fn obeys_eq_spec() -> bool {
        true
    }

    open spec fn eq_spec(&self, other: &Self) -> bool {
        self@ == other@
    }
}

/// The error details taken from a marker row.
pub open spec fn spec_error_info_of(row: RowV) -> ErrorInfoV {
    ErrorInfoV {
        action_rule: row.subaction_name,
        violation: row.score,
        advice: row.speech_command,
    }
}

impl ErrorInfo {
    pub fn new(row: &ActionCsvRow) -> (r: Self)
        ensures
            r@ == spec_error_info_of(row@),
    {
        ErrorInfo {
            action_rule: row.subaction_name.clone(),
            violation: row.score.clone(),
            advice: row.speech_command.clone(),
        }
    }
}

// ---------------------------------------------------------------------------
// The point shapes
// ---------------------------------------------------------------------------

#[derive(Debug)]
pub struct StageBoundary {
    pub location: PlotLocation,
}

impl View for StageBoundary {
    type V = StageBoundaryV;

    open spec fn view(&self) -> StageBoundaryV {
        StageBoundaryV { location: self.location@ }
    }
}

impl Clone for StageBoundary {
    fn clone(&self) -> (r: Self)
        ensures
            r@ == self@,
    {
        StageBoundary { location: self.location.clone() }
    }
}

impl PartialEq for StageBoundary {
    fn eq(&self, other: &Self) -> bool {
        self.location == other.location
    }
}

impl vstd::std_specs::cmp::PartialEqSpecImpl for StageBoundary {
    open spec fn obeys_eq_spec() -> bool {
        true
    }

    open spec fn eq_spec(&self, other: &Self) -> bool {
        self@ == other@
    }
}

impl StageBoundary {
    pub fn new(row: &ActionCsvRow) -> (r: Self)
        ensures
            r@ == (StageBoundaryV { location: spec_location_of(row@) }),
    {
        StageBoundary { location: PlotLocation::new(row) }
    }
}

#[derive(Debug)]
pub struct Action {
    pub location: PlotLocation,
    pub name: String,
    pub action_category: String,
    pub shock_value: String,
}

impl View for Action {
    type V = ActionV;

    open spec fn view(&self) -> ActionV {
        ActionV {
            location: self.location@,
            name: self.name@,
            action_category: self.action_category@,
            shock_value: self.shock_value@,
        }
    }
}

impl Clone for Action {
    fn clone(&self) -> (r: Self)
        ensures
            r@ == self@,
    {
        Action {
            location: self.location.clone(),
            name: self.name.clone(),
            action_category: self.action_category.clone(),
            shock_value: self.shock_value.clone(),
        }
    }
}

impl PartialEq for Action {
    fn eq(&self, other: &Self) -> bool {
        self.location == other.location && self.name == other.name && self.action_category
            == other.action_category && self.shock_value == other.shock_value
    }
}

impl vstd::std_specs::cmp::PartialEqSpecImpl for Action {
    open spec fn obeys_eq_spec() -> bool {
        true
    }

    open spec fn eq_spec(&self, other: &Self) -> bool {
        self@ == other@
    }
}

/// The action point taken from an action row.
pub open spec fn spec_action_of(row: RowV) -> ActionV {
    ActionV {
        location: spec_location_of(row),
        name: row.action_name,
        action_category: row.action_category,
        shock_value: row.shock_value,
    }
}

impl Action {
    pub fn new(row: &ActionCsvRow) -> (r: Self)
        ensures
            r@ == spec_action_of(row@),
    {
        Action {
            location: PlotLocation::new(row),
            name: row.action_name.clone(),
            action_category: row.action_category.clone(),
            shock_value: row.shock_value.clone(),
        }
    }
}

#[derive(Debug)]
pub struct ErroneousAction {
    pub location: PlotLocation,
    pub name: String,
    pub action_category: String,
    pub shock_value: String,
    pub error_info: ErrorInfo,
}

impl View for ErroneousAction {
    type V = ErroneousActionV;

    open spec fn view(&self) -> ErroneousActionV {
        ErroneousActionV {
            location: self.location@,
            name: self.name@,
            action_category: self.action_category@,
            shock_value: self.shock_value@,
            error_info: self.error_info@,
        }
    }
}

impl Clone for ErroneousAction {
    fn clone(&self) -> (r: Self)
        ensures
            r@ == self@,
    {
        ErroneousAction {
            location: self.location.clone(),
            name: self.name.clone(),
            action_category: self.action_category.clone(),
            shock_value: self.shock_value.clone(),
            error_info: self.error_info.clone(),
        }
    }
}

impl PartialEq for ErroneousAction {
    fn eq(&self, other: &Self) -> bool {
        self.location == other.location && self.name == other.name && self.action_category
            == other.action_category && self.shock_value == other.shock_value && self.error_info
            == other.error_info
    }
}

impl vstd::std_specs::cmp::PartialEqSpecImpl for ErroneousAction {
    open spec fn obeys_eq_spec() -> bool {
        true
    }

    open spec fn eq_spec(&self, other: &Self) -> bool {
        self@ == other@
    }
}

/// The pairing of an action row with the error marker that flagged it.
pub open spec fn spec_erroneous_action_of(action_row: RowV, marker_row: RowV) -> ErroneousActionV {
    ErroneousActionV {
        location: spec_location_of(action_row),
        name: action_row.action_name,
        action_category: action_row.action_category,
        shock_value: action_row.shock_value,
        error_info: spec_error_info_of(marker_row),
    }
}

impl ErroneousAction {
    pub fn new(action_row: &ActionCsvRow, error_marker_row: &ActionCsvRow) -> (r: Self)
        ensures
            r@ == spec_erroneous_action_of(action_row@, error_marker_row@),
    {
        ErroneousAction {
            location: PlotLocation::new(action_row),
            name: action_row.action_name.clone(),
            action_category: action_row.action_category.clone(),
            shock_value: action_row.shock_value.clone(),
            error_info: ErrorInfo::new(error_marker_row),
        }
    }
}

#[derive(Debug)]
pub struct MissedAction {
    pub location: PlotLocation,
    pub action_name: String,
    pub error_info: ErrorInfo,
}

impl View for MissedAction {
    type V = MissedActionV;

    open spec fn view(&self) -> MissedActionV {
        MissedActionV {
            location: self.location@,
            action_name: self.action_name@,
            error_info: self.error_info@,
        }
    }
}

impl Clone for MissedAction {
    fn clone(&self) -> (r: Self)
        ensures
            r@ == self@,
    {
        MissedAction {
            location: self.location.clone(),
            action_name: self.action_name.clone(),
            error_info: self.error_info.clone(),
        }
    }
}

impl PartialEq for MissedAction {
    fn eq(&self, other: &Self) -> bool {
        self.location == other.location && self.action_name == other.action_name && self.error_info
            == other.error_info
    }
}

impl vstd::std_specs::cmp::PartialEqSpecImpl for MissedAction {
    open spec fn obeys_eq_spec() -> bool {
        true
    }

    open spec fn eq_spec(&self, other: &Self) -> bool {
        self@ == other@
    }
}

/// The missed-action point taken from a missed-action row.
pub open spec fn spec_missed_action_of(row: RowV) -> MissedActionV {
    MissedActionV {
        location: spec_location_of(row),
        action_name: row.action_vital_name,
        error_info: spec_error_info_of(row),
    }
}

impl MissedAction {
    pub fn new(row: &ActionCsvRow) -> (r: Self)
        ensures
            r@ == spec_missed_action_of(row@),
    {
        MissedAction {
            location: PlotLocation::new(row),
            action_name: row.action_vital_name.clone(),
            error_info: ErrorInfo::new(row),
        }
    }
}

// ---------------------------------------------------------------------------
// The tagged output union
// ---------------------------------------------------------------------------

/// Which kind of interval a `Period` point spans.
#[derive(Debug, Clone, Copy, PartialEq, Eq, Structural)]
pub enum PeriodType {
    Stage,
    CPR,
}

/// One output point of the classification pipeline.
#[derive(Debug)]
pub enum ActionPlotPoint {
    Error(ErroneousAction),
    Action(Action),
    StageBoundary(StageBoundary),
    MissedAction(MissedAction),
    Period(PeriodType, Option<PlotLocation>, Option<PlotLocation>),
}

impl View for ActionPlotPoint {
    type V = ActionPlotPointV;

    open spec fn view(&self) -> ActionPlotPointV {
        match self {
            ActionPlotPoint::Error(e) => ActionPlotPointV::Error(e@),
            ActionPlotPoint::Action(a) => ActionPlotPointV::Action(a@),
            ActionPlotPoint::StageBoundary(b) => ActionPlotPointV::StageBoundary(b@),
            ActionPlotPoint::MissedAction(m) => ActionPlotPointV::MissedAction(m@),
            ActionPlotPoint::Period(t, s, e) => ActionPlotPointV::Period(
                *t,
                match s {
                    Some(l) => Some(l@),
                    None => None,
                },
                match e {
                    Some(l) => Some(l@),
                    None => None,
                },
            ),
        }
    }
}

impl Clone for ActionPlotPoint {
    fn clone(&self) -> (r: Self)
        ensures
            r@ == self@,
    {
        match self {
            ActionPlotPoint::Error(e) => ActionPlotPoint::Error(e.clone()),
            ActionPlotPoint::Action(a) => ActionPlotPoint::Action(a.clone()),
            ActionPlotPoint::StageBoundary(b) => ActionPlotPoint::StageBoundary(b.clone()),
            ActionPlotPoint::MissedAction(m) => ActionPlotPoint::MissedAction(m.clone()),
            ActionPlotPoint::Period(t, s, e) => ActionPlotPoint::Period(
                *t,
                match s {
                    Some(l) => Some(l.clone()),
                    None => None,
                },
                match e {
                    Some(l) => Some(l.clone()),
                    None => None,
                },
            ),
        }
    }
}

impl PartialEq for ActionPlotPoint {
    fn eq(&self, other: &Self) -> bool {
        match (self, other) {
            (ActionPlotPoint::Error(a), ActionPlotPoint::Error(b)) => a == b,
            (ActionPlotPoint::Action(a), ActionPlotPoint::Action(b)) => a == b,
            (ActionPlotPoint::StageBoundary(a), ActionPlotPoint::StageBoundary(b)) => a == b,
            (ActionPlotPoint::MissedAction(a), ActionPlotPoint::MissedAction(b)) => a == b,
            (
                ActionPlotPoint::Period(t1, s1, e1),
                ActionPlotPoint::Period(t2, s2, e2),
            ) => {
                let type_eq = *t1 == *t2;
                let start_eq = match (s1, s2) {
                    (Some(a), Some(b)) => a == b,
                    (None, None) => true,
                    _ => false,
                };
                let end_eq = match (e1, e2) {
                    (Some(a), Some(b)) => a == b,
                    (None, None) => true,
                    _ => false,
                };
                type_eq && start_eq && end_eq
            },
            _ => false,
        }
    }
}

impl vstd::std_specs::cmp::PartialEqSpecImpl for ActionPlotPoint {
    open spec fn obeys_eq_spec() -> bool {
        true
    }

    open spec fn eq_spec(&self, other: &Self) -> bool {
        self@ == other@
    }
}

} // verus!
