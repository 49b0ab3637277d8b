use crate::scatter_points::CsvRowTime;
use crate::scatter_points::CsvRowTimeV;
use crate::text::all_ws_from;
use crate::text::action_lit;
use crate::text::chars_eq_str;
use crate::text::chars_string;
use crate::text::check_all_ws_from;
use crate::text::dec2_str;
use crate::text::digit_run_end;
use crate::text::find_digit_run_end;
use crate::text::find_first_non_ws;
use crate::text::find_last_match;
use crate::text::first_non_ws;
use crate::text::i32_to_chars;
use crate::text::int_str;
use crate::text::last_match;
use crate::text::norm_chars;
use crate::text::norm_ws;
use crate::text::capitalize_words;
use crate::text::replace_chars;
use crate::text::replace_seq;
use crate::text::spec_capitalize;
use crate::text::spec_parse_u32;
use crate::text::split_char;
use crate::text::split_char_chars;
use crate::text::str_chars;
use crate::text::subvec_chars;
use crate::text::token_at;
use crate::text::first_token_from;
use crate::text::find_first_token;
use crate::text::trim_chars;
use crate::text::trim_seq;
use crate::text::u32_to_chars2;
use crate::text::parse_u32_chars;
use crate::text::append_chars;
use vstd::prelude::*;

verus! {

pub open spec fn opt_time_view(r: Option<CsvRowTime>) -> Option<CsvRowTimeV> {
    match r {
        Some(t) => Some(t@),
        None => None,
    }
}

pub open spec fn opt_stage_view(r: Option<(u32, String)>) -> Option<(u32, Seq<char>)> {
    match r {
        Some(s) => Some((s.0, s.1@)),
        None => None,
    }
}

// ---------------------------------------------------------------------------
// Time-of-day parsing
// ---------------------------------------------------------------------------

/// The hours, minutes and seconds read from `HH:MM:SS` text: exactly three
/// colon-separated parts, each an unsigned decimal number, minutes and seconds
/// below 60, and a total that fits the second counter.
pub open spec fn spec_parse_hms(s: Seq<char>) -> Option<(u32, u32, u32)> {
    let parts = split_char(s, ':');
    if parts.len() != 3 {
        None
    } else {
        match (spec_parse_u32(parts[0]), spec_parse_u32(parts[1]), spec_parse_u32(parts[2])) {
            (Some(h), Some(mi), Some(se)) => if mi < 60 && se < 60 && h as int * 3600
                + mi as int * 60 + se as int <= u32::MAX {
                Some((h, mi, se))
            } else {
                None
            },
            _ => None,
        }
    }
}

/// The normalized `HH:MM:SS` text of a time of day.
pub open spec fn spec_time_text(h: int, mi: int, se: int) -> Seq<char> {
    dec2_str(h) + seq![':'] + dec2_str(mi) + seq![':'] + dec2_str(se)
}

/// The full date-time string anchored to the processing date `y-m-d`.
pub open spec fn spec_date_string(y: int, m: int, d: int, h: int, mi: int, se: int) -> Seq<char> {
    int_str(y) + seq!['-'] + dec2_str(m) + seq!['-'] + dec2_str(d) + seq![' '] + spec_time_text(
        h,
        mi,
        se,
    )
}

/// The time value built from parsed hours/minutes/seconds and a date.
pub open spec fn spec_time_of(h: u32, mi: u32, se: u32, y: int, m: int, d: int) -> CsvRowTimeV {
    CsvRowTimeV {
        total_seconds: (h * 3600 + mi * 60 + se) as u32,
        date_string: spec_date_string(y, m, d, h as int, mi as int, se as int),
        timestamp: spec_time_text(h as int, mi as int, se as int),
    }
}

/// What `parse_time` yields for input `s` when the processing date is `y-m-d`.
pub open spec fn spec_parse_time(s: Seq<char>, y: int, m: int, d: int) -> Option<CsvRowTimeV> {
    match spec_parse_hms(s) {
        Some(hms) => Some(spec_time_of(hms.0, hms.1, hms.2, y, m, d)),
        None => None,
    }
}

/// Relies on chrono's `Utc::now` and `Datelike`: the month is in 1..=12 and
/// the day in 1..=31, as chrono documents.
#[verifier::external_body]
pub(crate) fn current_date() -> (r: (i32, u32, u32))
    ensures
        1 <= r.1 <= 12,
        1 <= r.2 <= 31,
{
    let now = chrono::Utc::now();
    (
        chrono::Datelike::year(&now),
        chrono::Datelike::month(&now),
        chrono::Datelike::day(&now),
    )
}

/// Parse `HH:MM:SS` text into a time of day anchored to the given date.
pub fn parse_time_at(input: &str, year: i32, month: u32, day: u32) -> (r: Option<CsvRowTime>)
    ensures
        opt_time_view(r) == spec_parse_time(input@, year as int, month as int, day as int),
{
    let v = str_chars(input);
    let parts = split_char_chars(&v, ':');
    if parts.len() != 3 {
        return None;
    }
    let h = match parse_u32_chars(&parts[0]) {
        Some(h) => h,
        None => {
            return None;
        },
    };
    let mi = match parse_u32_chars(&parts[1]) {
        Some(mi) => mi,
        None => {
            return None;
        },
    };
    let se = match parse_u32_chars(&parts[2]) {
        Some(se) => se,
        None => {
            return None;
        },
    };
    if mi >= 60 || se >= 60 {
        return None;
    }
    let total64: u64 = (h as u64) * 3600 + (mi as u64) * 60 + (se as u64);
    if total64 > u32::MAX as u64 {
        return None;
    }
    let total: u32 = total64 as u32;
    let mut ts = u32_to_chars2(h);
    ts.push(':');
    let mm = u32_to_chars2(mi);
    append_chars(&mut ts, &mm);
    ts.push(':');
    let ss = u32_to_chars2(se);
    append_chars(&mut ts, &ss);
    assert(ts@ =~= spec_time_text(h as int, mi as int, se as int));
    let mut ds = i32_to_chars(year);
    ds.push('-');
    let mo2 = u32_to_chars2(month);
    append_chars(&mut ds, &mo2);
    ds.push('-');
    let da2 = u32_to_chars2(day);
    append_chars(&mut ds, &da2);
    ds.push(' ');
    append_chars(&mut ds, &ts);
    assert(ds@ =~= spec_date_string(
        year as int,
        month as int,
        day as int,
        h as int,
        mi as int,
        se as int,
    ));
    Some(
        CsvRowTime {
            total_seconds: total,
            date_string: chars_string(&ds),
            timestamp: chars_string(&ts),
        },
    )
}

/// Parse `HH:MM:SS` text into a time of day anchored to today's date.
/// Whether parsing succeeds, the total seconds and the normalized text depend
/// on the input alone; only the date-time string carries the current date.
pub fn parse_time(input: &str) -> (r: Option<CsvRowTime>)
    ensures
        match spec_parse_hms(input@) {
            Some(hms) => r matches Some(t) && exists|y: int, m: int, d: int|
                1 <= m <= 12 && 1 <= d <= 31 && t@ == spec_time_of(hms.0, hms.1, hms.2, y, m, d),
            None => r is None,
        },
{
    let (year, month, day) = current_date();
    let r = parse_time_at(input, year, month, day);
    proof {
        if spec_parse_hms(input@) is Some {
            let hms = spec_parse_hms(input@)->Some_0;
            assert(r matches Some(t) && t@ == spec_time_of(
                hms.0,
                hms.1,
                hms.2,
                year as int,
                month as int,
                day as int,
            ));
        }
    }
    r
}

// ---------------------------------------------------------------------------
// Stage-name extraction
// ---------------------------------------------------------------------------

/// The stage number and cleaned stage name read from a vital-name field of
/// the shape `(<digits>) <text> (action)`: optional leading whitespace, a
/// parenthesized run of digits, at least one character of text, then the
/// literal `(action)` followed only by whitespace.  The text is
/// whitespace-normalized; a digit run that does not fit a `u32` fails.
pub open spec fn spec_extract_stage(s: Seq<char>) -> Option<(u32, Seq<char>)> {
    let m = last_match(s, action_lit(), s.len() - 8);
    let a = first_non_ws(s, 0);
    if m >= 0 && all_ws_from(s, m + 8) && a < s.len() && s[a] == '(' {
        let ds = a + 1;
        let de = digit_run_end(s, ds);
        if de > ds && de < s.len() && s[de] == ')' && m > de + 1 {
            match spec_parse_u32(s.subrange(ds, de)) {
                Some(n) => Some((n, norm_ws(s.subrange(de + 1, m)))),
                None => None,
            }
        } else {
            None
        }
    } else {
        None
    }
}

/// Extract the stage number and whitespace-normalized stage name from a
/// vital-name field of the shape `(<digits>) <text> (action)`.
pub fn extract_stage_name(input: &str) -> (r: Option<(u32, String)>)
    ensures
        opt_stage_view(r) == spec_extract_stage(input@),
{
    let v = str_chars(input);
    let pat = str_chars("(action)");
    proof {
        reveal_strlit("(action)");
        assert(pat@ =~= action_lit());
    }
    let m = match find_last_match(&v, &pat) {
        Some(m) => m,
        None => {
            return None;
        },
    };
    let n = v.len();
    proof {
        assert(action_lit().len() == 8);
        assert(m + 8 <= v@.len());
        assert(v@.len() == n as int);
    }
    if !check_all_ws_from(&v, m + 8) {
        return None;
    }
    let a = find_first_non_ws(&v);
    if a >= v.len() || v[a] != '(' {
        return None;
    }
    let ds = a + 1;
    let de = find_digit_run_end(&v, ds);
    if !(de > ds && de < v.len()) {
        return None;
    }
    if v[de] != ')' {
        return None;
    }
    if !(m > de + 1) {
        return None;
    }
    let digits = subvec_chars(&v, ds, de);
    let n = match parse_u32_chars(&digits) {
        Some(n) => n,
        None => {
            return None;
        },
    };
    let region = subvec_chars(&v, de + 1, m);
    let name = norm_chars(&region);
    Some((n, chars_string(&name)))
}

// ---------------------------------------------------------------------------
// Energy-value extraction
// ---------------------------------------------------------------------------

/// The name with the energy token removed, and the token itself.  The token
/// is the leftmost word-bounded run of digits followed by `J` or `j`; with no
/// token the input is returned unchanged.
pub open spec fn spec_extract_shock(s: Seq<char>) -> (Seq<char>, Seq<char>) {
    let p = first_token_from(s, 0);
    if p < 0 {
        (s, Seq::<char>::empty())
    } else {
        let q = digit_run_end(s, p);
        let before = trim_seq(s.subrange(0, p));
        let value = s.subrange(p, q + 1);
        let after = trim_seq(s.subrange(q + 1, s.len() as int));
        (trim_seq(before + seq![' '] + after), value)
    }
}

/// Remove the leftmost word-bounded `<digits>J` token from the text and hand
/// it back beside the remaining name.
pub fn extract_shock_chars(v: &Vec<char>) -> (r: (Vec<char>, Vec<char>))
    ensures
        r.0@ == spec_extract_shock(v@).0,
        r.1@ == spec_extract_shock(v@).1,
{
    let p = match find_first_token(v) {
        Some(p) => p,
        None => {
            let name = subvec_chars(v, 0, v.len());
            let empty: Vec<char> = Vec::new();
            assert(name@ =~= v@);
            assert(empty@ =~= Seq::<char>::empty());
            return (name, empty);
        },
    };
    let q = find_digit_run_end(v, p);
    let n = v.len();
    proof {
        assert(token_at(v@, p as int));
        assert(q < v@.len());
        assert(v@.len() == n as int);
    }
    let value = subvec_chars(v, p, q + 1);
    let b = subvec_chars(v, 0, p);
    let before = trim_chars(&b);
    let af = subvec_chars(v, q + 1, v.len());
    let after = trim_chars(&af);
    let ghost spec_before = trim_seq(v@.subrange(0, p as int));
    let ghost spec_after = trim_seq(v@.subrange(q as int + 1, v@.len() as int));
    let mut joined = before;
    joined.push(' ');
    append_chars(&mut joined, &after);
    assert(joined@ =~= spec_before + seq![' '] + spec_after);
    let name = trim_chars(&joined);
    (name, value)
}

/// Remove the leftmost word-bounded `<digits>J` token from a subaction name.
pub fn extract_shock_value(input: &str) -> (r: (String, String))
    ensures
        r.0@ == spec_extract_shock(input@).0,
        r.1@ == spec_extract_shock(input@).1,
{
    let v = str_chars(input);
    let (name, value) = extract_shock_chars(&v);
    (chars_string(&name), chars_string(&value))
}

// ---------------------------------------------------------------------------
// Action-name normalization
// ---------------------------------------------------------------------------

pub open spec fn unavailable_lit() -> Seq<char> {
    seq!['U', 'N', 'A', 'V', 'A', 'I', 'L', 'A', 'B', 'L', 'E']
}

/// The corrected action name, its category, and the energy token: the name is
/// title-cased, stripped of the `UNAVAILABLE` tag and of the energy token,
/// trimmed, and put through a small correction table; four medications map to
/// the category `Medication`, every other name is its own category.
pub open spec fn spec_process_action_name(s: Seq<char>) -> (Seq<char>, Seq<char>, Seq<char>) {
    let cleaned = trim_seq(replace_seq(spec_capitalize(s), unavailable_lit(), Seq::empty()));
    let sv = spec_extract_shock(cleaned);
    let corrected = if sv.0 == "Ascultate Lungs"@ {
        "Auscultate Lungs"@
    } else if sv.0 == "SYNCHRONIZED Shock"@ {
        "Synchronized Shock"@
    } else {
        sv.0
    };
    let category = if corrected == "Select Amiodarone"@ || corrected == "Select Calcium"@
        || corrected == "Select Epinephrine"@ || corrected == "Select Lidocaine"@ {
        "Medication"@
    } else {
        corrected
    };
    (corrected, category, sv.1)
}

/// Normalize a subaction name into (corrected name, category, energy value).
pub fn process_action_name(input: &str) -> (r: (String, String, String))
    ensures
        r.0@ == spec_process_action_name(input@).0,
        r.1@ == spec_process_action_name(input@).1,
        r.2@ == spec_process_action_name(input@).2,
{
    let capitalized = capitalize_words(input);
    let cap_chars = str_chars(capitalized.as_str());
    let pat = str_chars("UNAVAILABLE");
    proof {
        reveal_strlit("UNAVAILABLE");
        assert(pat@ =~= unavailable_lit());
    }
    let empty_rep: Vec<char> = Vec::new();
    let replaced = replace_chars(&cap_chars, &pat, &empty_rep);
    let cleaned = trim_chars(&replaced);
    let (name0, joule) = extract_shock_chars(&cleaned);
    let corrected: Vec<char> = if chars_eq_str(&name0, "Ascultate Lungs") {
        str_chars("Auscultate Lungs")
    } else if chars_eq_str(&name0, "SYNCHRONIZED Shock") {
        str_chars("Synchronized Shock")
    } else {
        name0
    };
    let category: Vec<char> = if chars_eq_str(&corrected, "Select Amiodarone") || chars_eq_str(
        &corrected,
        "Select Calcium",
    ) || chars_eq_str(&corrected, "Select Epinephrine") || chars_eq_str(
        &corrected,
        "Select Lidocaine",
    ) {
        str_chars("Medication")
    } else {
        subvec_chars(&corrected, 0, corrected.len())
    };
    proof {
        assert(corrected@ =~= spec_process_action_name(input@).0);
        assert(category@ =~= spec_process_action_name(input@).1);
    }
    (chars_string(&corrected), chars_string(&category), chars_string(&joule))
}

} // verus!
