use vstd::prelude::*;
use vstd::string::StrSliceExecFns;

verus! {

// ---------------------------------------------------------------------------
// Character classes and case mapping
// ---------------------------------------------------------------------------

/// Whitespace characters recognized when splitting and trimming text.
pub open spec fn is_ws_char(c: char) -> bool {
    c == ' ' || c == '\t' || c == '\n' || c == '\r' || c == '\u{b}' || c == '\u{c}'
}

/// Decimal digit.
pub open spec fn is_digit_char(c: char) -> bool {
    '0' <= c && c <= '9'
}

pub open spec fn is_upper_char(c: char) -> bool {
    'A' <= c && c <= 'Z'
}

pub open spec fn is_lower_char(c: char) -> bool {
    'a' <= c && c <= 'z'
}

/// Lower-case image of a character (letters only; all others unchanged).
pub open spec fn lower_char(c: char) -> char {
    if is_upper_char(c) {
        (c as u8 + 32) as char
    } else {
        c
    }
}

/// Upper-case image of a character (letters only; all others unchanged).
pub open spec fn upper_char(c: char) -> char {
    if is_lower_char(c) {
        (c as u8 - 32) as char
    } else {
        c
    }
}

pub fn is_ws(c: char) -> (r: bool)
    ensures
        r == is_ws_char(c),
{
    c == ' ' || c == '\t' || c == '\n' || c == '\r' || c == '\u{b}' || c == '\u{c}'
}

pub fn to_lower_char(c: char) -> (r: char)
    ensures
        r == lower_char(c),
{
    if 'A' <= c && c <= 'Z' {
        ((c as u8) + 32) as char
    } else {
        c
    }
}

pub fn to_upper_char(c: char) -> (r: char)
    ensures
        r == upper_char(c),
{
    if 'a' <= c && c <= 'z' {
        ((c as u8) - 32) as char
    } else {
        c
    }
}

// ---------------------------------------------------------------------------
// Conversions between strings and character vectors
// ---------------------------------------------------------------------------

/// The characters of a string, in order.
pub fn str_chars(s: &str) -> (r: Vec<char>)
    ensures
        r@ == s@,
{
    let n = s.unicode_len();
    let mut r: Vec<char> = Vec::new();
    let mut i: usize = 0;
    while i < n
        invariant
            n == s@.len(),
            i <= n,
            r@ == s@.subrange(0, i as int),
        decreases n - i,
    {
        r.push(s.get_char(i));
        i = i + 1;
        assert(r@ =~= s@.subrange(0, i as int));
    }
    assert(r@ =~= s@);
    r
}

/// Relies on String: collecting characters builds the string whose view is
/// exactly that character sequence.
#[verifier::external_body]
pub fn chars_string(v: &Vec<char>) -> (r: String)
    ensures
        r@ == v@,
{
    v.iter().collect()
}

// ---------------------------------------------------------------------------
// Small vector helpers
// ---------------------------------------------------------------------------

pub fn subvec_chars(v: &Vec<char>, a: usize, b: usize) -> (r: Vec<char>)
    requires
        a <= b <= v@.len(),
    ensures
        r@ == v@.subrange(a as int, b as int),
{
    let mut r: Vec<char> = Vec::new();
    let mut i: usize = a;
    while i < b
        invariant
            a <= i <= b <= v@.len(),
            r@ == v@.subrange(a as int, i as int),
        decreases b - i,
    {
        r.push(v[i]);
        i = i + 1;
        assert(r@ =~= v@.subrange(a as int, i as int));
    }
    r
}

pub fn append_chars(r: &mut Vec<char>, v: &Vec<char>)
    ensures
        final(r)@ == old(r)@ + v@,
{
    let mut i: usize = 0;
    while i < v.len()
        invariant
            i <= v@.len(),
            r@ == old(r)@ + v@.subrange(0, i as int),
        decreases v@.len() - i,
    {
        r.push(v[i]);
        i = i + 1;
        assert(r@ =~= old(r)@ + v@.subrange(0, i as int));
    }
    assert(r@ =~= old(r)@ + v@);
}

pub fn chars_eq(a: &Vec<char>, b: &Vec<char>) -> (r: bool)
    ensures
        r == (a@ == b@),
{
    if a.len() != b.len() {
        return false;
    }
    let mut i: usize = 0;
    while i < a.len()
        invariant
            a@.len() == b@.len(),
            i <= a@.len(),
            forall|k: int| 0 <= k < i ==> a@[k] == b@[k],
        decreases a@.len() - i,
    {
        if a[i] != b[i] {
            return false;
        }
        i = i + 1;
    }
    assert(a@ =~= b@);
    true
}

pub fn chars_eq_str(v: &Vec<char>, s: &str) -> (r: bool)
    ensures
        r == (v@ == s@),
{
    let t = str_chars(s);
    chars_eq(v, &t)
}

// ---------------------------------------------------------------------------
// Trimming
// ---------------------------------------------------------------------------

/// First index at or after `i` holding a non-whitespace character, or the length.
pub open spec fn first_non_ws(s: Seq<char>, i: int) -> int
    decreases s.len() - i,
{
    if i < 0 || i >= s.len() {
        s.len() as int
    } else if is_ws_char(s[i]) {
        first_non_ws(s, i + 1)
    } else {
        i
    }
}

/// End (exclusive) of the last non-whitespace character strictly before `j`, or 0.
pub open spec fn last_non_ws(s: Seq<char>, j: int) -> int
    decreases j,
{
    if j <= 0 || j > s.len() {
        0
    } else if is_ws_char(s[j - 1]) {
        last_non_ws(s, j - 1)
    } else {
        j
    }
}

/// The sequence with leading and trailing whitespace removed.
pub open spec fn trim_seq(s: Seq<char>) -> Seq<char> {
    let a = first_non_ws(s, 0);
    let b = last_non_ws(s, s.len() as int);
    if a <= b {
        s.subrange(a, b)
    } else {
        Seq::empty()
    }
}

pub fn trim_chars(v: &Vec<char>) -> (r: Vec<char>)
    ensures
        r@ == trim_seq(v@),
{
    let n = v.len();
    let mut a: usize = 0;
    while a < n && is_ws(v[a])
        invariant
            a <= n == v@.len(),
            first_non_ws(v@, 0) == first_non_ws(v@, a as int),
        decreases n - a,
    {
        a = a + 1;
    }
    assert(first_non_ws(v@, a as int) == a as int);
    let mut b: usize = n;
    while b > 0 && is_ws(v[b - 1])
        invariant
            b <= n == v@.len(),
            last_non_ws(v@, n as int) == last_non_ws(v@, b as int),
        decreases b,
    {
        b = b - 1;
    }
    assert(last_non_ws(v@, b as int) == b as int);
    if a <= b {
        subvec_chars(v, a, b)
    } else {
        let r: Vec<char> = Vec::new();
        assert(r@ =~= trim_seq(v@));
        r
    }
}

// ---------------------------------------------------------------------------
// Splitting into whitespace-separated words, and joining
// ---------------------------------------------------------------------------

/// The words remaining from position `i` on, with `cur` the word accumulated
/// so far (the characters just before `i` that are not yet closed off).
pub open spec fn words_acc(s: Seq<char>, i: int, cur: Seq<char>) -> Seq<Seq<char>>
    decreases s.len() - i,
{
    if i < 0 || i >= s.len() {
        if cur.len() > 0 {
            seq![cur]
        } else {
            Seq::empty()
        }
    } else if is_ws_char(s[i]) {
        if cur.len() > 0 {
            seq![cur] + words_acc(s, i + 1, Seq::empty())
        } else {
            words_acc(s, i + 1, Seq::empty())
        }
    } else {
        words_acc(s, i + 1, cur.push(s[i]))
    }
}

/// The whitespace-separated words of a sequence.
pub open spec fn words_of(s: Seq<char>) -> Seq<Seq<char>> {
    words_acc(s, 0, Seq::empty())
}

/// Join a sequence of words, one space between neighbours, starting at word `i`.
pub open spec fn join_from(ws: Seq<Seq<char>>, i: int) -> Seq<char>
    decreases ws.len() - i,
{
    if i < 0 || i >= ws.len() {
        Seq::empty()
    } else if i == ws.len() - 1 {
        ws[i]
    } else {
        ws[i] + seq![' '] + join_from(ws, i + 1)
    }
}

/// Collapse whitespace runs to single spaces and trim the ends.
pub open spec fn norm_ws(s: Seq<char>) -> Seq<char> {
    join_from(words_of(s), 0)
}

/// The views of a sequence of character vectors.
pub open spec fn seq_views(rs: Seq<Vec<char>>) -> Seq<Seq<char>> {
    Seq::new(rs.len(), |i: int| rs[i]@)
}

/// Split a character vector into whitespace-separated words.
pub fn split_ws_chars(v: &Vec<char>) -> (r: Vec<Vec<char>>)
    ensures
        seq_views(r@) == words_of(v@),
{
    let mut r: Vec<Vec<char>> = Vec::new();
    let mut cur: Vec<char> = Vec::new();
    let mut i: usize = 0;
    assert(seq_views(r@) =~= Seq::<Seq<char>>::empty());
    while i < v.len()
        invariant
            i <= v@.len(),
            words_of(v@) == seq_views(r@) + words_acc(v@, i as int, cur@),
        decreases v@.len() - i,
    {
        let c = v[i];
        if is_ws(c) {
            if cur.len() > 0 {
                proof {
                    assert(words_acc(v@, i as int, cur@) =~= seq![cur@] + words_acc(
                        v@,
                        i as int + 1,
                        Seq::empty(),
                    ));
                }
                let ghost old_r = r@;
                let ghost w = cur@;
                r.push(cur);
                assert(seq_views(r@) =~= seq_views(old_r) + seq![w]);
                cur = Vec::new();
                assert(seq_views(r@) + words_acc(v@, i as int + 1, cur@) =~= seq_views(old_r)
                    + seq![w] + words_acc(v@, i as int + 1, Seq::empty()));
            } else {
                assert(cur@ =~= Seq::<char>::empty());
            }
        } else {
            cur.push(c);
        }
        i = i + 1;
    }
    if cur.len() > 0 {
        let ghost old_r = r@;
        let ghost w = cur@;
        r.push(cur);
        assert(seq_views(r@) =~= seq_views(old_r) + seq![w]);
    }
    assert(seq_views(r@) =~= words_of(v@));
    r
}

/// Join words with single spaces.
pub fn join_ws_chars(ws: &Vec<Vec<char>>) -> (r: Vec<char>)
    ensures
        r@ == join_from(seq_views(ws@), 0),
{
    let mut r: Vec<char> = Vec::new();
    let mut i: usize = 0;
    while i < ws.len()
        invariant
            i <= ws@.len(),
            join_from(seq_views(ws@), 0) == r@ + join_from(seq_views(ws@), i as int),
        decreases ws@.len() - i,
    {
        append_chars(&mut r, &ws[i]);
        if i + 1 < ws.len() {
            r.push(' ');
        }
        i = i + 1;
    }
    r
}

/// Collapse internal whitespace runs to single spaces and trim the ends.
pub fn norm_chars(v: &Vec<char>) -> (r: Vec<char>)
    ensures
        r@ == norm_ws(v@),
{
    let ws = split_ws_chars(v);
    join_ws_chars(&ws)
}

/// Collapse internal whitespace runs to single spaces and trim the ends.
pub fn normalize_whitespace(input: &str) -> (r: String)
    ensures
        r@ == norm_ws(input@),
{
    let v = str_chars(input);
    let ws = split_ws_chars(&v);
    let j = join_ws_chars(&ws);
    chars_string(&j)
}

// ---------------------------------------------------------------------------
// Case mapping over sequences
// ---------------------------------------------------------------------------

pub open spec fn lower_seq(s: Seq<char>) -> Seq<char> {
    s.map_values(|c: char| lower_char(c))
}

pub fn lower_chars(v: &Vec<char>) -> (r: Vec<char>)
    ensures
        r@ == lower_seq(v@),
{
    let mut r: Vec<char> = Vec::new();
    let mut i: usize = 0;
    while i < v.len()
        invariant
            i <= v@.len(),
            r@ == v@.subrange(0, i as int).map_values(|c: char| lower_char(c)),
        decreases v@.len() - i,
    {
        r.push(to_lower_char(v[i]));
        i = i + 1;
        assert(r@ =~= v@.subrange(0, i as int).map_values(|c: char| lower_char(c)));
    }
    assert(v@.subrange(0, i as int) =~= v@);
    r
}

/// Subrange-copy of `v` from `a` on, with every character lower-cased.
pub fn lower_tail_chars(v: &Vec<char>, a: usize) -> (r: Vec<char>)
    requires
        a <= v@.len(),
    ensures
        r@ == lower_seq(v@.subrange(a as int, v@.len() as int)),
{
    let t = subvec_chars(v, a, v.len());
    lower_chars(&t)
}

// ---------------------------------------------------------------------------
// Word capitalization
// ---------------------------------------------------------------------------

/// Whether every character from `i` on is a digit or an upper-case letter.
pub open spec fn all_digit_or_upper_from(w: Seq<char>, i: int) -> bool
    decreases w.len() - i,
{
    i < 0 || i >= w.len() || ((is_digit_char(w[i]) || is_upper_char(w[i]))
        && all_digit_or_upper_from(w, i + 1))
}

pub fn check_digit_or_upper_from(w: &Vec<char>, i: usize) -> (r: bool)
    requires
        i <= w@.len(),
    ensures
        r == all_digit_or_upper_from(w@, i as int),
{
    let mut j: usize = i;
    while j < w.len()
        invariant
            i <= j <= w@.len(),
            all_digit_or_upper_from(w@, i as int) == all_digit_or_upper_from(w@, j as int),
        decreases w@.len() - j,
    {
        let c = w[j];
        if !(('0' <= c && c <= '9') || ('A' <= c && c <= 'Z')) {
            return false;
        }
        j = j + 1;
    }
    true
}

/// Title-case transform of a word from position `i` on: a word made wholly of
/// digits and upper-case letters is kept verbatim; an opening parenthesis is
/// kept and the rest of the word is transformed again; any other word has its
/// first character upper-cased and the rest lower-cased.
pub open spec fn cap_word_from(w: Seq<char>, i: int) -> Seq<char>
    decreases w.len() - i,
{
    if i < 0 || i >= w.len() {
        Seq::empty()
    } else if all_digit_or_upper_from(w, i) {
        w.subrange(i, w.len() as int)
    } else if w[i] == '(' {
        seq!['('] + cap_word_from(w, i + 1)
    } else {
        seq![upper_char(w[i])] + lower_seq(w.subrange(i + 1, w.len() as int))
    }
}

pub open spec fn cap_word(w: Seq<char>) -> Seq<char> {
    cap_word_from(w, 0)
}

pub fn capitalize_word_from(w: &Vec<char>, i: usize) -> (r: Vec<char>)
    requires
        i <= w@.len(),
    ensures
        r@ == cap_word_from(w@, i as int),
    decreases w@.len() - i,
{
    if i >= w.len() {
        let r: Vec<char> = Vec::new();
        assert(r@ =~= cap_word_from(w@, i as int));
        r
    } else if check_digit_or_upper_from(w, i) {
        subvec_chars(w, i, w.len())
    } else if w[i] == '(' {
        let mut r: Vec<char> = Vec::new();
        r.push('(');
        let rest = capitalize_word_from(w, i + 1);
        append_chars(&mut r, &rest);
        assert(r@ =~= seq!['('] + cap_word_from(w@, i as int + 1));
        r
    } else {
        let mut r: Vec<char> = Vec::new();
        r.push(to_upper_char(w[i]));
        let rest = lower_tail_chars(w, i + 1);
        append_chars(&mut r, &rest);
        assert(r@ =~= seq![upper_char(w@[i as int])] + lower_seq(
            w@.subrange(i as int + 1, w@.len() as int),
        ));
        r
    }
}

/// The words of `s`, each put through the title-case transform.
pub open spec fn cap_words(ws: Seq<Seq<char>>) -> Seq<Seq<char>> {
    ws.map_values(|w: Seq<char>| cap_word(w))
}

/// Title-case every word, then tighten the spacing around parentheses.
pub open spec fn spec_capitalize(s: Seq<char>) -> Seq<char> {
    let joined = join_from(cap_words(words_of(s)), 0);
    replace_seq(replace_seq(joined, seq![' ', '(', ' '], seq![' ', '(']), seq![' ', ')'], seq![')'])
}

/// Title-case each whitespace-separated word: words made wholly of digits and
/// upper-case letters stay verbatim, a leading parenthesis is kept in place,
/// and any other word gets an upper-case first letter and a lower-case rest;
/// then spacing around parentheses is tightened.
pub fn capitalize_words(input: &str) -> (r: String)
    ensures
        r@ == spec_capitalize(input@),
{
    let v = str_chars(input);
    let ws = split_ws_chars(&v);
    let mut cw: Vec<Vec<char>> = Vec::new();
    let mut i: usize = 0;
    assert(seq_views(cw@) =~= cap_words(seq_views(ws@)).subrange(0, 0));
    while i < ws.len()
        invariant
            i <= ws@.len(),
            seq_views(ws@) == words_of(v@),
            seq_views(cw@) == cap_words(seq_views(ws@)).subrange(0, i as int),
        decreases ws@.len() - i,
    {
        let w = capitalize_word_from(&ws[i], 0);
        let ghost gw = w@;
        let ghost old_cw = cw@;
        cw.push(w);
        proof {
            let cws = cap_words(seq_views(ws@));
            assert(cws.len() == ws@.len());
            assert(cws[i as int] == cap_word(seq_views(ws@)[i as int]));
            assert(seq_views(old_cw).len() == i as int);
            assert(old_cw.len() == i as int);
            assert(cw@ == old_cw.push(w));
            assert(cw@[i as int]@ == gw);
            assert(gw == cws[i as int]);
            assert(forall|k: int| 0 <= k < i ==> cw@[k] == old_cw[k]);
            assert(forall|k: int| 0 <= k < i ==> seq_views(cw@)[k] == seq_views(old_cw)[k]);
            assert(seq_views(cw@) =~= cws.subrange(0, i as int + 1));
        }
        i = i + 1;
    }
    assert(cap_words(seq_views(ws@)).subrange(0, i as int) =~= cap_words(seq_views(ws@)));
    let joined = join_ws_chars(&cw);
    let mut pat1: Vec<char> = Vec::new();
    pat1.push(' ');
    pat1.push('(');
    pat1.push(' ');
    let mut rep1: Vec<char> = Vec::new();
    rep1.push(' ');
    rep1.push('(');
    let mut pat2: Vec<char> = Vec::new();
    pat2.push(' ');
    pat2.push(')');
    let mut rep2: Vec<char> = Vec::new();
    rep2.push(')');
    assert(pat1@ =~= seq![' ', '(', ' ']);
    assert(rep1@ =~= seq![' ', '(']);
    assert(pat2@ =~= seq![' ', ')']);
    assert(rep2@ =~= seq![')']);
    let step1 = replace_chars(&joined, &pat1, &rep1);
    let step2 = replace_chars(&step1, &pat2, &rep2);
    chars_string(&step2)
}

// ---------------------------------------------------------------------------
// Splitting on a separator character
// ---------------------------------------------------------------------------

/// The parts of `s` from position `i` on when split at `sep`, with `cur` the
/// part accumulated so far.  Empty parts are kept, as `str::split` keeps them.
pub open spec fn split_acc(s: Seq<char>, sep: char, i: int, cur: Seq<char>) -> Seq<Seq<char>>
    decreases s.len() - i,
{
    if i < 0 || i >= s.len() {
        seq![cur]
    } else if s[i] == sep {
        seq![cur] + split_acc(s, sep, i + 1, Seq::empty())
    } else {
        split_acc(s, sep, i + 1, cur.push(s[i]))
    }
}

pub open spec fn split_char(s: Seq<char>, sep: char) -> Seq<Seq<char>> {
    split_acc(s, sep, 0, Seq::empty())
}

pub fn split_char_chars(v: &Vec<char>, sep: char) -> (r: Vec<Vec<char>>)
    ensures
        seq_views(r@) == split_char(v@, sep),
{
    let mut r: Vec<Vec<char>> = Vec::new();
    let mut cur: Vec<char> = Vec::new();
    let mut i: usize = 0;
    assert(seq_views(r@) =~= Seq::<Seq<char>>::empty());
    while i < v.len()
        invariant
            i <= v@.len(),
            split_char(v@, sep) == seq_views(r@) + split_acc(v@, sep, i as int, cur@),
        decreases v@.len() - i,
    {
        let c = v[i];
        if c == sep {
            proof {
                assert(split_acc(v@, sep, i as int, cur@) =~= seq![cur@] + split_acc(
                    v@,
                    sep,
                    i as int + 1,
                    Seq::empty(),
                ));
            }
            let ghost old_r = r@;
            let ghost w = cur@;
            r.push(cur);
            assert(seq_views(r@) =~= seq_views(old_r) + seq![w]);
            cur = Vec::new();
            assert(seq_views(r@) + split_acc(v@, sep, i as int + 1, cur@) =~= seq_views(old_r)
                + seq![w] + split_acc(v@, sep, i as int + 1, Seq::empty()));
        } else {
            cur.push(c);
        }
        i = i + 1;
    }
    let ghost old_r = r@;
    let ghost w = cur@;
    r.push(cur);
    assert(seq_views(r@) =~= seq_views(old_r) + seq![w]);
    assert(seq_views(r@) =~= split_char(v@, sep));
    r
}

// ---------------------------------------------------------------------------
// Pattern search helpers
// ---------------------------------------------------------------------------

/// Whether `pat` occurs in `s` starting at position `i`.
pub open spec fn has_pat_at(s: Seq<char>, i: int, pat: Seq<char>) -> bool {
    0 <= i && i + pat.len() <= s.len() && s.subrange(i, i + pat.len() as int) == pat
}

/// The largest position at most `i` where `pat` occurs in `s`, or -1.
pub open spec fn last_match(s: Seq<char>, pat: Seq<char>, i: int) -> int
    decreases i + 1,
{
    if i < 0 {
        -1
    } else if has_pat_at(s, i, pat) {
        i
    } else {
        last_match(s, pat, i - 1)
    }
}

/// Whether everything from position `i` on is whitespace.
pub open spec fn all_ws_from(s: Seq<char>, i: int) -> bool {
    forall|k: int| i <= k < s.len() ==> is_ws_char(s[k])
}

/// End (exclusive) of the run of decimal digits starting at `i`.
pub open spec fn digit_run_end(s: Seq<char>, i: int) -> int
    decreases s.len() - i,
{
    if 0 <= i < s.len() && is_digit_char(s[i]) {
        digit_run_end(s, i + 1)
    } else {
        i
    }
}

pub fn find_first_non_ws(v: &Vec<char>) -> (r: usize)
    ensures
        r == first_non_ws(v@, 0),
{
    let mut a: usize = 0;
    while a < v.len() && is_ws(v[a])
        invariant
            a <= v@.len(),
            first_non_ws(v@, 0) == first_non_ws(v@, a as int),
        decreases v@.len() - a,
    {
        a = a + 1;
    }
    a
}

pub fn find_digit_run_end(v: &Vec<char>, i: usize) -> (r: usize)
    requires
        i <= v@.len(),
    ensures
        r == digit_run_end(v@, i as int),
        i <= r <= v@.len(),
{
    let mut j: usize = i;
    while j < v.len() && '0' <= v[j] && v[j] <= '9'
        invariant
            i <= j <= v@.len(),
            digit_run_end(v@, i as int) == digit_run_end(v@, j as int),
        decreases v@.len() - j,
    {
        j = j + 1;
    }
    j
}

pub fn find_last_match(v: &Vec<char>, pat: &Vec<char>) -> (r: Option<usize>)
    requires
        pat@.len() > 0,
    ensures
        match r {
            Some(m) => m == last_match(v@, pat@, v@.len() - pat@.len()) && has_pat_at(
                v@,
                m as int,
                pat@,
            ),
            None => last_match(v@, pat@, v@.len() - pat@.len()) == -1,
        },
{
    if pat.len() > v.len() {
        return None;
    }
    let mut i: usize = v.len() - pat.len();
    loop
        invariant
            pat@.len() > 0,
            i <= v@.len() - pat@.len(),
            last_match(v@, pat@, v@.len() - pat@.len()) == last_match(v@, pat@, i as int),
        decreases i + 1,
    {
        if pattern_at(v, i, pat) {
            return Some(i);
        }
        if i == 0 {
            proof {
                assert(last_match(v@, pat@, -1) == -1);
            }
            return None;
        }
        i = i - 1;
    }
}

/// The literal `(action)` tag that closes a stage name.
pub open spec fn action_lit() -> Seq<char> {
    seq!['(', 'a', 'c', 't', 'i', 'o', 'n', ')']
}

/// A word character for the purpose of word boundaries.
pub open spec fn is_word_char(c: char) -> bool {
    is_digit_char(c) || is_upper_char(c) || is_lower_char(c) || c == '_'
}

pub fn is_word(c: char) -> (r: bool)
    ensures
        r == is_word_char(c),
{
    ('0' <= c && c <= '9') || ('A' <= c && c <= 'Z') || ('a' <= c && c <= 'z') || c == '_'
}

/// Whether a word-bounded energy token `<digits><J|j>` starts at `p`: a digit
/// run preceded by a non-word character (or the start), closed by `J` or `j`,
/// and followed by a non-word character (or the end).
pub open spec fn token_at(s: Seq<char>, p: int) -> bool {
    let q = digit_run_end(s, p);
    &&& 0 <= p < s.len()
    &&& is_digit_char(s[p])
    &&& (p == 0 || !is_word_char(s[p - 1]))
    &&& q < s.len()
    &&& (s[q] == 'J' || s[q] == 'j')
    &&& (q + 1 == s.len() || !is_word_char(s[q + 1]))
}

/// The smallest position at or after `i` where an energy token starts, or -1.
pub open spec fn first_token_from(s: Seq<char>, i: int) -> int
    decreases s.len() - i,
{
    if i < 0 || i >= s.len() {
        -1
    } else if token_at(s, i) {
        i
    } else {
        first_token_from(s, i + 1)
    }
}

pub fn find_first_token(v: &Vec<char>) -> (r: Option<usize>)
    ensures
        match r {
            Some(p) => p as int == first_token_from(v@, 0) && token_at(v@, p as int),
            None => first_token_from(v@, 0) == -1,
        },
{
    let mut i: usize = 0;
    while i < v.len()
        invariant
            i <= v@.len(),
            first_token_from(v@, 0) == first_token_from(v@, i as int),
        decreases v@.len() - i,
    {
        let c = v[i];
        let mut ok: bool = '0' <= c && c <= '9';
        if ok && i > 0 {
            ok = !is_word(v[i - 1]);
        }
        if ok {
            let q = find_digit_run_end(v, i);
            if q < v.len() && (v[q] == 'J' || v[q] == 'j') {
                if q + 1 == v.len() || !is_word(v[q + 1]) {
                    assert(token_at(v@, i as int));
                    return Some(i);
                }
            }
        }
        assert(!token_at(v@, i as int));
        i = i + 1;
    }
    None
}

pub fn check_all_ws_from(v: &Vec<char>, i: usize) -> (r: bool)
    requires
        i <= v@.len(),
    ensures
        r == all_ws_from(v@, i as int),
{
    let mut j: usize = i;
    while j < v.len()
        invariant
            i <= j <= v@.len(),
            forall|k: int| i <= k < j ==> is_ws_char(v@[k]),
        decreases v@.len() - j,
    {
        if !is_ws(v[j]) {
            return false;
        }
        j = j + 1;
    }
    true
}

// ---------------------------------------------------------------------------
// Substring replacement (left to right, non-overlapping)
// ---------------------------------------------------------------------------

pub open spec fn replace_from(s: Seq<char>, i: int, pat: Seq<char>, rep: Seq<char>) -> Seq<char>
    decreases s.len() - i,
{
    if i < 0 || i >= s.len() {
        Seq::empty()
    } else if pat.len() > 0 && i + pat.len() <= s.len() && s.subrange(i, i + pat.len() as int)
        == pat {
        rep + replace_from(s, i + pat.len() as int, pat, rep)
    } else {
        seq![s[i]] + replace_from(s, i + 1, pat, rep)
    }
}

pub open spec fn replace_seq(s: Seq<char>, pat: Seq<char>, rep: Seq<char>) -> Seq<char> {
    replace_from(s, 0, pat, rep)
}

fn pattern_at(s: &Vec<char>, i: usize, pat: &Vec<char>) -> (r: bool)
    requires
        i <= s@.len(),
    ensures
        r == (i + pat@.len() <= s@.len() && s@.subrange(i as int, i as int + pat@.len() as int)
            == pat@),
{
    if pat.len() > s.len() - i {
        return false;
    }
    let n = s.len();
    let mut k: usize = 0;
    while k < pat.len()
        invariant
            k <= pat@.len(),
            i + pat@.len() <= s@.len(),
            n == s@.len(),
            forall|m: int| 0 <= m < k ==> s@[i as int + m] == pat@[m],
        decreases pat@.len() - k,
    {
        if s[i + k] != pat[k] {
            assert(s@.subrange(i as int, i as int + pat@.len() as int)[k as int] != pat@[k as int]);
            return false;
        }
        k = k + 1;
    }
    assert(s@.subrange(i as int, i as int + pat@.len() as int) =~= pat@);
    true
}

pub fn replace_chars(s: &Vec<char>, pat: &Vec<char>, rep: &Vec<char>) -> (r: Vec<char>)
    ensures
        r@ == replace_seq(s@, pat@, rep@),
{
    let mut r: Vec<char> = Vec::new();
    let mut i: usize = 0;
    while i < s.len()
        invariant
            i <= s@.len(),
            replace_from(s@, 0, pat@, rep@) == r@ + replace_from(s@, i as int, pat@, rep@),
        decreases s@.len() - i,
    {
        if pat.len() > 0 && pattern_at(s, i, pat) {
            append_chars(&mut r, rep);
            i = i + pat.len();
        } else {
            r.push(s[i]);
            i = i + 1;
        }
    }
    r
}

// ---------------------------------------------------------------------------
// Decimal rendering of integers
// ---------------------------------------------------------------------------

pub open spec fn dec_digit_char(d: int) -> char {
    ((48 + d) as u8) as char
}

/// Decimal digits of a non-negative integer, most significant first.
pub open spec fn dec_str(n: int) -> Seq<char>
    decreases n,
{
    if n < 0 {
        Seq::empty()
    } else if n < 10 {
        seq![dec_digit_char(n)]
    } else {
        dec_str(n / 10) + seq![dec_digit_char(n % 10)]
    }
}

/// Decimal digits padded on the left with '0' to at least two places.
pub open spec fn dec2_str(n: int) -> Seq<char> {
    if 0 <= n < 10 {
        seq!['0'] + dec_str(n)
    } else {
        dec_str(n)
    }
}

/// Decimal rendering of an integer, with a leading minus sign when negative.
pub open spec fn int_str(n: int) -> Seq<char> {
    if n < 0 {
        seq!['-'] + dec_str(-n)
    } else {
        dec_str(n)
    }
}

pub fn u64_to_chars(n: u64) -> (r: Vec<char>)
    ensures
        r@ == dec_str(n as int),
    decreases n,
{
    if n < 10 {
        let mut r: Vec<char> = Vec::new();
        r.push(((48 + n) as u8) as char);
        assert(r@ =~= seq![dec_digit_char(n as int)]);
        r
    } else {
        let mut r = u64_to_chars(n / 10);
        r.push(((48 + n % 10) as u8) as char);
        assert(r@ =~= dec_str(n as int / 10) + seq![dec_digit_char(n as int % 10)]);
        r
    }
}

pub fn u32_to_chars2(n: u32) -> (r: Vec<char>)
    ensures
        r@ == dec2_str(n as int),
{
    if n < 10 {
        let mut r: Vec<char> = Vec::new();
        r.push('0');
        let d = u64_to_chars(n as u64);
        append_chars(&mut r, &d);
        assert(r@ =~= seq!['0'] + dec_str(n as int));
        r
    } else {
        u64_to_chars(n as u64)
    }
}

pub fn i32_to_chars(n: i32) -> (r: Vec<char>)
    ensures
        r@ == int_str(n as int),
{
    if n < 0 {
        let m: i64 = -(n as i64);
        let mut r: Vec<char> = Vec::new();
        r.push('-');
        let d = u64_to_chars(m as u64);
        append_chars(&mut r, &d);
        assert(r@ =~= seq!['-'] + dec_str(-(n as int)));
        r
    } else {
        u64_to_chars(n as u64)
    }
}

// ---------------------------------------------------------------------------
// Parsing unsigned decimal numbers
// ---------------------------------------------------------------------------

pub open spec fn all_digits(s: Seq<char>) -> bool {
    forall|k: int| 0 <= k < s.len() ==> is_digit_char(s[k])
}

/// The value of a sequence of decimal digits, most significant first.
pub open spec fn digits_val(s: Seq<char>) -> int
    decreases s.len(),
{
    if s.len() == 0 {
        0
    } else {
        digits_val(s.drop_last()) * 10 + (s.last() as u32 - 48)
    }
}

/// What `str::parse::<u32>` accepts: an optional leading '+', then one or
/// more decimal digits whose value fits in a `u32`.
pub open spec fn spec_parse_u32(s: Seq<char>) -> Option<u32> {
    let body = if s.len() > 0 && s[0] == '+' {
        s.drop_first()
    } else {
        s
    };
    if body.len() > 0 && all_digits(body) && digits_val(body) <= u32::MAX {
        Some(digits_val(body) as u32)
    } else {
        None
    }
}

proof fn lemma_digits_val_extend_exceeds(s: Seq<char>, k: int)
    requires
        0 <= k <= s.len(),
        digits_val(s.subrange(0, k)) > u32::MAX,
    ensures
        digits_val(s) > u32::MAX,
    decreases s.len() - k,
{
    if k == s.len() {
        assert(s.subrange(0, k) =~= s);
    } else {
        let t = s.subrange(0, k + 1);
        assert(t.drop_last() =~= s.subrange(0, k));
        let v = digits_val(s.subrange(0, k));
        assert(digits_val(t) == v * 10 + (t.last() as u32 - 48));
        assert(v * 10 >= v + 48 + 1) by (nonlinear_arith)
            requires
                v > u32::MAX,
        ;
        assert(digits_val(t) > u32::MAX);
        lemma_digits_val_extend_exceeds(s, k + 1);
    }
}

pub fn parse_u32_chars(v: &Vec<char>) -> (r: Option<u32>)
    ensures
        r == spec_parse_u32(v@),
{
    let start: usize = if v.len() > 0 && v[0] == '+' {
        1
    } else {
        0
    };
    let ghost body = if v@.len() > 0 && v@[0] == '+' {
        v@.drop_first()
    } else {
        v@
    };
    assert(body =~= v@.subrange(start as int, v@.len() as int));
    if v.len() == start {
        return None;
    }
    let mut acc: u32 = 0;
    let mut j: usize = start;
    while j < v.len()
        invariant
            start <= j <= v@.len(),
            start < v@.len(),
            body == (if v@.len() > 0 && v@[0] == '+' {
                v@.drop_first()
            } else {
                v@
            }),
            body == v@.subrange(start as int, v@.len() as int),
            all_digits(body.subrange(0, j - start)),
            acc as int == digits_val(body.subrange(0, j - start)),
        decreases v@.len() - j,
    {
        let c = v[j];
        if !('0' <= c && c <= '9') {
            proof {
                assert(body[j - start] == v@[j as int]);
                assert(!is_digit_char(body[j - start]));
                assert(!all_digits(body));
            }
            return None;
        }
        let d: u32 = (c as u32) - 48;
        let ghost prefix = body.subrange(0, j - start);
        let ghost prefix1 = body.subrange(0, j + 1 - start);
        proof {
            assert(prefix1.drop_last() =~= prefix);
            assert(prefix1.last() == body[j - start]);
            assert(digits_val(prefix1) == digits_val(prefix) * 10 + (c as u32 - 48));
        }
        if acc > (u32::MAX - d) / 10 {
            proof {
                assert(acc as int * 10 + d as int > u32::MAX) by (nonlinear_arith)
                    requires
                        acc as int > ((u32::MAX - d) as int) / 10,
                        0 <= d <= 9,
                        acc as int >= 0,
                ;
                assert(digits_val(prefix1) > u32::MAX);
                lemma_digits_val_extend_exceeds(body, j + 1 - start);
            }
            return None;
        }
        proof {
            assert(acc as int * 10 + d as int <= u32::MAX) by (nonlinear_arith)
                requires
                    acc as int <= ((u32::MAX - d) as int) / 10,
                    0 <= d <= 9,
                    acc as int >= 0,
            ;
        }
        acc = acc * 10 + d;
        j = j + 1;
    }
    assert(body.subrange(0, j - start) =~= body);
    Some(acc)
}

} // verus!
