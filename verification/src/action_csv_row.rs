use crate::detection::spec_is_action_row;
use crate::detection::spec_is_error_marker;
use crate::detection::spec_is_missed_action;
use crate::detection::spec_is_stage_boundary;
use crate::detection::is_action_row;
use crate::detection::is_error_action_marker;
use crate::detection::is_missed_action;
use crate::detection::is_stage_boundary;
use crate::parsing::spec_extract_stage;
use crate::parsing::spec_process_action_name;
use crate::parsing::extract_stage_name;
use crate::parsing::process_action_name;
use crate::scatter_points::CsvRowTime;
use crate::scatter_points::CsvRowTimeV;
use crate::text::chars_eq;
use crate::text::chars_string;
use crate::text::lower_chars;
use crate::text::lower_seq;
use crate::text::str_chars;
use crate::text::append_chars;
use vstd::prelude::*;

verus! {

/// Mathematical view of one classified log record.
pub ghost struct RowV {
    pub timestamp: Option<CsvRowTimeV>,
    pub action_vital_name: Seq<char>,
    pub subaction_time: Seq<char>,
    pub subaction_name: Seq<char>,
    pub score: Seq<char>,
    pub old_value: Seq<char>,
    pub new_value: Seq<char>,
    pub username: Seq<char>,
    pub speech_command: Seq<char>,
    pub parsed_stage: Option<(u32, Seq<char>)>,
    pub action_name: Seq<char>,
    pub action_category: Seq<char>,
    pub shock_value: Seq<char>,
    pub action_point: bool,
    pub stage_boundary: bool,
    pub error_action_marker: bool,
    pub missed_action_marker: bool,
}

/// One log record: the raw text fields read from a record, and the derived
/// fields computed once after construction.
#[derive(Debug)]
pub struct ActionCsvRow {
    pub timestamp: Option<CsvRowTime>,
    pub action_vital_name: String,
    pub subaction_time: String,
    pub subaction_name: String,
    pub score: String,
    pub old_value: String,
    pub new_value: String,
    pub username: String,
    pub speech_command: String,
    pub parsed_stage: Option<(u32, String)>,
    pub action_name: String,
    pub action_category: String,
    pub shock_value: String,
    pub action_point: bool,
    pub stage_boundary: bool,
    pub error_action_marker: bool,
    pub missed_action_marker: bool,
}

impl View for ActionCsvRow {
    type V = RowV;

    open spec fn view(&self) -> RowV {
        RowV {
            timestamp: match self.timestamp {
                Some(t) => Some(t@),
                None => None,
            },
            action_vital_name: self.action_vital_name@,
            subaction_time: self.subaction_time@,
            subaction_name: self.subaction_name@,
            score: self.score@,
            old_value: self.old_value@,
            new_value: self.new_value@,
            username: self.username@,
            speech_command: self.speech_command@,
            parsed_stage: match self.parsed_stage {
                Some(s) => Some((s.0, s.1@)),
                None => None,
            },
            action_name: self.action_name@,
            action_category: self.action_category@,
            shock_value: self.shock_value@,
            action_point: self.action_point,
            stage_boundary: self.stage_boundary,
            error_action_marker: self.error_action_marker,
            missed_action_marker: self.missed_action_marker,
        }
    }
}

/// The row whose text fields are all empty.
pub open spec fn spec_default_row() -> RowV {
    RowV {
        timestamp: None,
        action_vital_name: Seq::<char>::empty(),
        subaction_time: Seq::<char>::empty(),
        subaction_name: Seq::<char>::empty(),
        score: Seq::<char>::empty(),
        old_value: Seq::<char>::empty(),
        new_value: Seq::<char>::empty(),
        username: Seq::<char>::empty(),
        speech_command: Seq::<char>::empty(),
        parsed_stage: None,
        action_name: Seq::<char>::empty(),
        action_category: Seq::<char>::empty(),
        shock_value: Seq::<char>::empty(),
        action_point: false,
        stage_boundary: false,
        error_action_marker: false,
        missed_action_marker: false,
    }
}

impl Default for ActionCsvRow {
    fn default() -> (r: Self)
        ensures
            r@ == spec_default_row(),
    {
        ActionCsvRow {
            timestamp: None,
            action_vital_name: String::new(),
            subaction_time: String::new(),
            subaction_name: String::new(),
            score: String::new(),
            old_value: String::new(),
            new_value: String::new(),
            username: String::new(),
            speech_command: String::new(),
            parsed_stage: None,
            action_name: String::new(),
            action_category: String::new(),
            shock_value: String::new(),
            action_point: false,
            stage_boundary: false,
            error_action_marker: false,
            missed_action_marker: false,
        }
    }
}

impl Clone for ActionCsvRow {
    fn clone(&self) -> (r: Self)
        ensures
            r@ == self@,
    {
        ActionCsvRow {
            timestamp: match &self.timestamp {
                Some(t) => Some(t.clone()),
                None => None,
            },
            action_vital_name: self.action_vital_name.clone(),
            subaction_time: self.subaction_time.clone(),
            subaction_name: self.subaction_name.clone(),
            score: self.score.clone(),
            old_value: self.old_value.clone(),
            new_value: self.new_value.clone(),
            username: self.username.clone(),
            speech_command: self.speech_command.clone(),
            parsed_stage: match &self.parsed_stage {
                Some(s) => Some((s.0, s.1.clone())),
                None => None,
            },
            action_name: self.action_name.clone(),
            action_category: self.action_category.clone(),
            shock_value: self.shock_value.clone(),
            action_point: self.action_point,
            stage_boundary: self.stage_boundary,
            error_action_marker: self.error_action_marker,
            missed_action_marker: self.missed_action_marker,
        }
    }
}

// ---------------------------------------------------------------------------
// Derived-field computation
// ---------------------------------------------------------------------------

/// The row after its derived fields are computed: the parsed stage is read
/// from the vital-name field, the four classification flags are evaluated on
/// the row with that stage in place, and the normalized action name, category
/// and energy value are read from the subaction name.
pub open spec fn spec_post_deserialize(row: RowV) -> RowV {
    let stage = spec_extract_stage(row.action_vital_name);
    let with_stage = RowV { parsed_stage: stage, ..row };
    let pan = spec_process_action_name(row.subaction_name);
    RowV {
        parsed_stage: stage,
        action_point: spec_is_action_row(with_stage),
        stage_boundary: spec_is_stage_boundary(with_stage),
        error_action_marker: spec_is_error_marker(with_stage),
        missed_action_marker: spec_is_missed_action(with_stage),
        action_name: pan.0,
        action_category: pan.1,
        shock_value: pan.2,
        ..row
    }
}

impl ActionCsvRow {
    /// Compute the derived fields once, after the raw fields are filled in.
    pub fn post_deserialize(&mut self)
        ensures
            final(self)@ == spec_post_deserialize(old(self)@),
    {
        let stage = extract_stage_name(self.action_vital_name.as_str());
        self.parsed_stage = stage;
        self.action_point = is_action_row(self);
        self.stage_boundary = is_stage_boundary(self);
        self.error_action_marker = is_error_action_marker(self);
        self.missed_action_marker = is_missed_action(self);
        let pan = process_action_name(self.subaction_name.as_str());
        self.action_name = pan.0;
        self.action_category = pan.1;
        self.shock_value = pan.2;
    }
}

// ---------------------------------------------------------------------------
// Header validation
// ---------------------------------------------------------------------------

/// The views of a sequence of strings.
pub open spec fn str_views(v: Seq<String>) -> Seq<Seq<char>> {
    Seq::new(v.len(), |i: int| v[i]@)
}

/// The fixed nine-column schema of the log format.
pub open spec fn spec_column_names() -> Seq<Seq<char>> {
    seq![
        "Time Stamp[Hr:Min:Sec]"@,
        "Action/Vital Name"@,
        "SubAction Time[Min:Sec]"@,
        "SubAction Name"@,
        "Score"@,
        "Old Value"@,
        "New Value"@,
        "Username"@,
        "Speech Command"@,
    ]
}

/// The nine expected header names, in order.
pub fn column_names() -> (r: Vec<String>)
    ensures
        str_views(r@) == spec_column_names(),
{
    let mut r: Vec<String> = Vec::new();
    r.push(String::from_str("Time Stamp[Hr:Min:Sec]"));
    r.push(String::from_str("Action/Vital Name"));
    r.push(String::from_str("SubAction Time[Min:Sec]"));
    r.push(String::from_str("SubAction Name"));
    r.push(String::from_str("Score"));
    r.push(String::from_str("Old Value"));
    r.push(String::from_str("New Value"));
    r.push(String::from_str("Username"));
    r.push(String::from_str("Speech Command"));
    assert(str_views(r@) =~= spec_column_names());
    r
}

/// Headers match when each expected name equals the header at its position,
/// case-insensitively; extra trailing headers are tolerated.
pub open spec fn spec_headers_match(headers: Seq<Seq<char>>, expected: Seq<Seq<char>>) -> bool {
    headers.len() >= expected.len() && forall|k: int|
        0 <= k < expected.len() ==> lower_seq(headers[k]) == lower_seq(expected[k])
}

/// A character as it appears inside a double-quoted rendering: embedded
/// quotes and backslashes are escaped, everything else is kept verbatim.
pub open spec fn escape_char(c: char) -> Seq<char> {
    if c == '"' {
        seq!['\\', '"']
    } else if c == '\\' {
        seq!['\\', '\\']
    } else {
        seq![c]
    }
}

pub open spec fn escape_from(s: Seq<char>, i: int) -> Seq<char>
    decreases s.len() - i,
{
    if i < 0 || i >= s.len() {
        Seq::empty()
    } else {
        escape_char(s[i]) + escape_from(s, i + 1)
    }
}

pub open spec fn escape_seq(s: Seq<char>) -> Seq<char> {
    escape_from(s, 0)
}

fn escape_chars(v: &Vec<char>) -> (r: Vec<char>)
    ensures
        r@ == escape_seq(v@),
{
    let mut r: Vec<char> = Vec::new();
    let mut i: usize = 0;
    while i < v.len()
        invariant
            i <= v@.len(),
            escape_seq(v@) == r@ + escape_from(v@, i as int),
        decreases v@.len() - i,
    {
        let ghost old_r = r@;
        let c = v[i];
        if c == '"' {
            r.push('\\');
            r.push('"');
        } else if c == '\\' {
            r.push('\\');
            r.push('\\');
        } else {
            r.push(c);
        }
        assert(r@ =~= old_r + escape_char(v@[i as int]));
        i = i + 1;
        assert(r@ + escape_from(v@, i as int) =~= old_r + escape_from(v@, i - 1));
    }
    r
}

/// `["a", "b"]`-style rendering of a list of strings, quotes and backslashes
/// inside a name escaped.
pub open spec fn spec_quoted_list_items(items: Seq<Seq<char>>, i: int) -> Seq<char>
    decreases items.len() - i,
{
    if i < 0 || i >= items.len() {
        Seq::empty()
    } else if i == items.len() - 1 {
        seq!['"'] + escape_seq(items[i]) + seq!['"']
    } else {
        seq!['"'] + escape_seq(items[i]) + seq!['"', ',', ' '] + spec_quoted_list_items(
            items,
            i + 1,
        )
    }
}

pub open spec fn spec_debug_list(items: Seq<Seq<char>>) -> Seq<char> {
    seq!['['] + spec_quoted_list_items(items, 0) + seq![']']
}

/// The message reported when the header row does not match the schema.
pub open spec fn spec_header_error(expected: Seq<Seq<char>>, headers: Seq<Seq<char>>) -> Seq<
    char,
> {
    "Line 1: expected "@ + spec_debug_list(expected) + " as the header row of csv but got "@
        + spec_debug_list(headers)
}

fn debug_list_chars(items: &Vec<String>) -> (r: Vec<char>)
    ensures
        r@ == spec_debug_list(str_views(items@)),
{
    let ghost gitems = str_views(items@);
    let mut r: Vec<char> = Vec::new();
    r.push('[');
    let mut i: usize = 0;
    while i < items.len()
        invariant
            i <= items@.len(),
            gitems == str_views(items@),
            gitems.len() == items@.len(),
            seq!['['] + spec_quoted_list_items(gitems, 0) == r@ + spec_quoted_list_items(
                gitems,
                i as int,
            ),
        decreases items@.len() - i,
    {
        r.push('"');
        let item = str_chars(items[i].as_str());
        let escaped = escape_chars(&item);
        append_chars(&mut r, &escaped);
        r.push('"');
        if i + 1 < items.len() {
            r.push(',');
            r.push(' ');
        }
        i = i + 1;
    }
    r.push(']');
    assert(r@ =~= spec_debug_list(gitems));
    r
}

fn header_error(expected_headers: &Vec<String>, headers: &Vec<String>) -> (r: String)
    ensures
        r@ == spec_header_error(str_views(expected_headers@), str_views(headers@)),
{
    let mut msg = str_chars("Line 1: expected ");
    let el = debug_list_chars(expected_headers);
    append_chars(&mut msg, &el);
    let mid = str_chars(" as the header row of csv but got ");
    append_chars(&mut msg, &mid);
    let hl = debug_list_chars(headers);
    append_chars(&mut msg, &hl);
    assert(msg@ =~= spec_header_error(str_views(expected_headers@), str_views(headers@)));
    chars_string(&msg)
}

/// Validate a header row against the expected names, case-insensitively.
/// A mismatch is reported with the expected and the actual header lists.
pub fn validate_header(headers: &Vec<String>, expected_headers: &Vec<String>) -> (r: Result<
    (),
    String,
>)
    ensures
        r matches Ok(_) <==> spec_headers_match(str_views(headers@), str_views(expected_headers@)),
        r matches Err(e) ==> e@ == spec_header_error(
            str_views(expected_headers@),
            str_views(headers@),
        ),
{
    if headers.len() < expected_headers.len() {
        return Err(header_error(expected_headers, headers));
    }
    let mut k: usize = 0;
    while k < expected_headers.len()
        invariant
            k <= expected_headers@.len(),
            headers@.len() >= expected_headers@.len(),
            forall|m: int|
                0 <= m < k ==> lower_seq(str_views(headers@)[m]) == lower_seq(
                    str_views(expected_headers@)[m],
                ),
        decreases expected_headers@.len() - k,
    {
        let h = str_chars(headers[k].as_str());
        let hl = lower_chars(&h);
        let e = str_chars(expected_headers[k].as_str());
        let el = lower_chars(&e);
        if !chars_eq(&hl, &el) {
            proof {
                assert(lower_seq(str_views(headers@)[k as int]) != lower_seq(
                    str_views(expected_headers@)[k as int],
                ));
            }
            return Err(header_error(expected_headers, headers));
        }
        k = k + 1;
    }
    assert(spec_headers_match(str_views(headers@), str_views(expected_headers@)));
    Ok(())
}

} // verus!
