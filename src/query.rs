//! Turns the output of a database CLI into a typed event sequence.
//!
//! stderr lines come first (errors or notices); stdout is scanned line by
//! line: result messages, error lines, tab-separated blocks (a header, then
//! rows until a blank line), and plain lines. A `Done` event ends every
//! sequence.
use vstd::prelude::*;

use crate::dialect::DialectKind;
use crate::text::{
    chars_of, contains, contains_chars, eq_ignore_ascii_case, eq_ignore_ascii_case_chars,
    has_char, has_char_chars, lines_chars, lines_of, split_chars, split_on, starts_with,
    starts_with_chars, str_views, string_of, strings_of, trim, trim_chars, views,
};

verus! {

broadcast use vstd::string::group_string_axioms;

/// One cell of a result row.
///
/// `Float` keeps the decimal literal as written; a consumer that needs the
/// number converts it, and treats a literal out of `f64` range as text.
#[derive(Debug, Clone, PartialEq)]
pub enum CellValue {
    Null,
    Int(i64),
    Float(String),
    Bool(bool),
    Text(String),
}

/// The mathematical value of a cell.
pub enum CellModel {
    Null,
    Int(i64),
    Float(Seq<char>),
    Bool(bool),
    Text(Seq<char>),
}

impl View for CellValue {
    type V = CellModel;

    open spec fn view(&self) -> CellModel {
        match self {
            CellValue::Null => CellModel::Null,
            CellValue::Int(i) => CellModel::Int(*i),
            CellValue::Float(s) => CellModel::Float(s@),
            CellValue::Bool(b) => CellModel::Bool(*b),
            CellValue::Text(s) => CellModel::Text(s@),
        }
    }
}

impl CellValue {
    /// A copy of the cell.
    pub fn copy(&self) -> (r: CellValue)
        ensures
            r@ == self@,
    {
        match self {
            CellValue::Null => CellValue::Null,
            CellValue::Int(i) => CellValue::Int(*i),
            CellValue::Float(s) => CellValue::Float(s.clone()),
            CellValue::Bool(b) => CellValue::Bool(*b),
            CellValue::Text(s) => CellValue::Text(s.clone()),
        }
    }
}

/// A copy of each cell of `v`.
pub fn copy_cells(v: &Vec<CellValue>) -> (r: Vec<CellValue>)
    ensures
        cell_views(r@) == cell_views(v@),
{
    let mut r: Vec<CellValue> = Vec::new();
    let mut i: usize = 0;
    while i < v.len()
        invariant
            i <= v.len(),
            cell_views(r@) == cell_views(v@).subrange(0, i as int),
        decreases v.len() - i,
    {
        let ghost before = r@;
        r.push(v[i].copy());
        assert(cell_views(r@) =~= cell_views(before).push(v@[i as int]@));
        i = i + 1;
        assert(cell_views(r@) =~= cell_views(v@).subrange(0, i as int));
    }
    assert(cell_views(v@).subrange(0, v.len() as int) =~= cell_views(v@));
    r
}

/// What a CLI run printed, unmodified.
#[derive(Debug)]
pub struct RawQueryOutput {
    pub stdout: String,
    pub stderr: String,
}

/// One event of a query's result.
#[derive(Debug, Clone, PartialEq)]
pub enum QueryEvent {
    Line { text: String },
    Record { columns: Vec<String>, row: Vec<CellValue> },
    Error { message: String },
    Done { affected_rows: Option<u64> },
}

/// The mathematical value of an event.
pub enum EventModel {
    Line(Seq<char>),
    Record(Seq<Seq<char>>, Seq<CellModel>),
    Error(Seq<char>),
    Done(Option<u64>),
}

pub open spec fn cell_views(v: Seq<CellValue>) -> Seq<CellModel> {
    v.map_values(|c: CellValue| c@)
}

impl View for QueryEvent {
    type V = EventModel;

    open spec fn view(&self) -> EventModel {
        match self {
            QueryEvent::Line { text } => EventModel::Line(text@),
            QueryEvent::Record { columns, row } => EventModel::Record(
                str_views(columns@),
                cell_views(row@),
            ),
            QueryEvent::Error { message } => EventModel::Error(message@),
            QueryEvent::Done { affected_rows } => EventModel::Done(*affected_rows),
        }
    }
}

pub open spec fn event_views(v: Seq<QueryEvent>) -> Seq<EventModel> {
    v.map_values(|e: QueryEvent| e@)
}

pub open spec fn is_digit(c: char) -> bool {
    48 <= (c as u32) && (c as u32) <= 57
}

pub open spec fn digit_value(c: char) -> int {
    (c as u32) as int - 48
}

/// The number that a run of decimal digits denotes.
pub open spec fn digits_value(s: Seq<char>) -> int
    decreases s.len(),
{
    if s.len() == 0 {
        0
    } else {
        digits_value(s.drop_last()) * 10 + digit_value(s.last())
    }
}

pub open spec fn all_digits(s: Seq<char>) -> bool {
    s.len() > 0 && forall|i: int| 0 <= i < s.len() ==> is_digit(s[i])
}

/// The integer written by an optional sign followed by decimal digits.
pub open spec fn int_literal(s: Seq<char>) -> Option<int> {
    if s.len() > 0 && (s[0] == '+' || s[0] == '-') {
        if all_digits(s.drop_first()) {
            if s[0] == '-' {
                Some(-digits_value(s.drop_first()))
            } else {
                Some(digits_value(s.drop_first()))
            }
        } else {
            None
        }
    } else if all_digits(s) {
        Some(digits_value(s))
    } else {
        None
    }
}

/// What `str::parse::<i64>` accepts: an integer literal within range.
pub open spec fn i64_of(s: Seq<char>) -> Option<i64> {
    match int_literal(s) {
        Some(v) => if i64::MIN <= v && v <= i64::MAX {
            Some(v as i64)
        } else {
            None
        },
        None => None,
    }
}

/// States of the recognizer of decimal literals.
#[derive(Debug, Clone, Copy, PartialEq, Eq, Structural)]
pub enum NumState {
    Start,
    Sign,
    Int,
    Dot,
    IntDot,
    Frac,
    Exp,
    ExpSign,
    ExpDigits,
    Reject,
}

/// One step of the recognizer of
/// `[+-]? (digits | digits '.' digits? | '.' digits) ([eE] [+-]? digits)?`.
pub open spec fn num_step(st: NumState, c: char) -> NumState {
    if is_digit(c) {
        match st {
            NumState::Start | NumState::Sign | NumState::Int => NumState::Int,
            NumState::Dot | NumState::IntDot | NumState::Frac => NumState::Frac,
            NumState::Exp | NumState::ExpSign | NumState::ExpDigits => NumState::ExpDigits,
            NumState::Reject => NumState::Reject,
        }
    } else if c == '+' || c == '-' {
        match st {
            NumState::Start => NumState::Sign,
            NumState::Exp => NumState::ExpSign,
            _ => NumState::Reject,
        }
    } else if c == '.' {
        match st {
            NumState::Start | NumState::Sign => NumState::Dot,
            NumState::Int => NumState::IntDot,
            _ => NumState::Reject,
        }
    } else if c == 'e' || c == 'E' {
        match st {
            NumState::Int | NumState::IntDot | NumState::Frac => NumState::Exp,
            _ => NumState::Reject,
        }
    } else {
        NumState::Reject
    }
}

pub open spec fn num_run(s: Seq<char>) -> NumState
    decreases s.len(),
{
    if s.len() == 0 {
        NumState::Start
    } else {
        num_step(num_run(s.drop_last()), s.last())
    }
}

/// A finite decimal literal as `str::parse::<f64>` reads it.
pub open spec fn is_decimal(s: Seq<char>) -> bool {
    let st = num_run(s);
    st == NumState::Int || st == NumState::IntDot || st == NumState::Frac || st
        == NumState::ExpDigits
}

/// A cell's value: null, then integer, then decimal, then boolean, then text.
pub open spec fn cell_of(s: Seq<char>) -> CellModel {
    if eq_ignore_ascii_case(s, "null"@) || s.len() == 0 {
        CellModel::Null
    } else if i64_of(s) is Some {
        CellModel::Int(i64_of(s)->0)
    } else if is_decimal(s) {
        CellModel::Float(s)
    } else if eq_ignore_ascii_case(s, "true"@) || s == "1"@ {
        CellModel::Bool(true)
    } else if eq_ignore_ascii_case(s, "false"@) || s == "0"@ {
        CellModel::Bool(false)
    } else {
        CellModel::Text(s)
    }
}

/// The cells of a tab-separated row, each trimmed.
pub open spec fn cells_of(l: Seq<char>) -> Seq<CellModel> {
    split_on(l, '\t').map_values(|c: Seq<char>| cell_of(trim(c)))
}

/// A line made only of `-`, `+`, space and tab.
pub open spec fn is_separator(l: Seq<char>) -> bool {
    forall|i: int|
        0 <= i < l.len() ==> (l[i] == '-' || l[i] == '\t' || l[i] == '+' || l[i] == ' ')
}

/// A line that reports the effect of a statement.
pub open spec fn is_result_message(l: Seq<char>) -> bool {
    starts_with(l, "Query OK"@) || starts_with(l, "Rows matched"@) || contains(
        l,
        "row(s) affected"@,
    ) || contains(l, "rows affected"@)
}

/// The events of the stderr lines: each non-blank trimmed line is an error or a notice.
pub open spec fn stderr_events(d: DialectKind, ls: Seq<Seq<char>>) -> Seq<EventModel>
    decreases ls.len(),
{
    if ls.len() == 0 {
        Seq::empty()
    } else {
        let l = trim(ls[0]);
        let rest = stderr_events(d, ls.drop_first());
        if l.len() == 0 {
            rest
        } else if d.spec_is_error_line(l) {
            seq![EventModel::Error(l)] + rest
        } else {
            seq![EventModel::Line(l)] + rest
        }
    }
}

/// The events of the stdout lines. `hdr` is the header of the tab-separated
/// block being read, if one is open.
pub open spec fn scan(d: DialectKind, ls: Seq<Seq<char>>, hdr: Option<Seq<Seq<char>>>) -> Seq<
    EventModel,
>
    decreases ls.len(),
{
    if ls.len() == 0 {
        Seq::empty()
    } else {
        let l = trim(ls[0]);
        let rest = ls.drop_first();
        match hdr {
            Some(h) => if l.len() == 0 {
                scan(d, rest, None)
            } else if is_separator(l) {
                scan(d, rest, Some(h))
            } else {
                seq![EventModel::Record(h, cells_of(l))] + scan(d, rest, Some(h))
            },
            None => if l.len() == 0 {
                scan(d, rest, None)
            } else if is_result_message(l) {
                seq![EventModel::Line(l)] + scan(d, rest, None)
            } else if d.spec_is_error_line(l) {
                seq![EventModel::Error(l)] + scan(d, rest, None)
            } else if has_char(l, '\t') && rest.len() > 0 && (has_char(trim(rest[0]), '\t')
                || trim(rest[0]).len() == 0) {
                scan(d, rest, Some(split_on(l, '\t')))
            } else {
                seq![EventModel::Line(l)] + scan(d, rest, None)
            },
        }
    }
}

/// All events of one CLI run, ending with `Done` and no row count.
pub open spec fn output_events(d: DialectKind, stdout: Seq<char>, stderr: Seq<char>) -> Seq<
    EventModel,
> {
    stderr_events(d, lines_of(stderr)) + scan(d, lines_of(stdout), None) + seq![
        EventModel::Done(None),
    ]
}

fn is_digit_char(c: char) -> (r: bool)
    ensures
        r == is_digit(c),
{
    let u = c as u32;
    48 <= u && u <= 57
}

/// Largest magnitude tracked while reading digits: one past `2^63`.
const MAGNITUDE_CAP: u128 = 9223372036854775809;

/// Reads an `i64` as `str::parse::<i64>` does.
pub fn parse_i64(v: &Vec<char>) -> (r: Option<i64>)
    ensures
        r == i64_of(v@),
{
    let n = v.len();
    if n == 0 {
        return None;
    }
    let neg = v[0] == '-';
    let start: usize = if v[0] == '+' || v[0] == '-' {
        1
    } else {
        0
    };
    if start == n {
        return None;
    }
    let ghost ds = v@.subrange(start as int, n as int);
    assert(start == 1 ==> ds =~= v@.drop_first());
    assert(start == 0 ==> ds =~= v@);
    let mut mag: u128 = 0;
    let mut i: usize = start;
    assert(v@.subrange(start as int, start as int) =~= Seq::<char>::empty());
    while i < n
        invariant
            start <= i <= n == v.len(),
            n > 0,
            ds == v@.subrange(start as int, n as int),
            start == 1 ==> ds == v@.drop_first(),
            start == 0 ==> ds == v@,
            (start == 1) == (v@[0] == '+' || v@[0] == '-'),
            neg == (v@[0] == '-'),
            forall|j: int| start <= j < i ==> is_digit(v@[j]),
            mag as int == if digits_value(v@.subrange(start as int, i as int)) < MAGNITUDE_CAP {
                digits_value(v@.subrange(start as int, i as int))
            } else {
                MAGNITUDE_CAP as int
            },
        decreases n - i,
    {
        let c = v[i];
        if !is_digit_char(c) {
            assert(ds[i - start] == c);
            assert(!all_digits(ds));
            return None;
        }
        let d = (c as u32 - 48) as u128;
        let ghost pre = v@.subrange(start as int, i as int);
        assert(v@.subrange(start as int, i + 1).drop_last() =~= pre);
        let next = mag * 10 + d;
        mag = if next < MAGNITUDE_CAP {
            next
        } else {
            MAGNITUDE_CAP
        };
        i = i + 1;
    }
    assert(v@.subrange(start as int, n as int) == ds);
    assert(all_digits(ds));
    if neg {
        if mag <= 9223372036854775808 {
            Some((0 - (mag as i128)) as i64)
        } else {
            None
        }
    } else {
        if mag <= 9223372036854775807 {
            Some(mag as i64)
        } else {
            None
        }
    }
}

fn num_step_exec(st: NumState, c: char) -> (r: NumState)
    ensures
        r == num_step(st, c),
{
    if is_digit_char(c) {
        match st {
            NumState::Start | NumState::Sign | NumState::Int => NumState::Int,
            NumState::Dot | NumState::IntDot | NumState::Frac => NumState::Frac,
            NumState::Exp | NumState::ExpSign | NumState::ExpDigits => NumState::ExpDigits,
            NumState::Reject => NumState::Reject,
        }
    } else if c == '+' || c == '-' {
        match st {
            NumState::Start => NumState::Sign,
            NumState::Exp => NumState::ExpSign,
            _ => NumState::Reject,
        }
    } else if c == '.' {
        match st {
            NumState::Start | NumState::Sign => NumState::Dot,
            NumState::Int => NumState::IntDot,
            _ => NumState::Reject,
        }
    } else if c == 'e' || c == 'E' {
        match st {
            NumState::Int | NumState::IntDot | NumState::Frac => NumState::Exp,
            _ => NumState::Reject,
        }
    } else {
        NumState::Reject
    }
}

/// Whether `v` is a finite decimal literal.
pub fn is_decimal_chars(v: &Vec<char>) -> (r: bool)
    ensures
        r == is_decimal(v@),
{
    let mut st = NumState::Start;
    let mut i: usize = 0;
    assert(v@.subrange(0, 0) =~= Seq::<char>::empty());
    while i < v.len()
        invariant
            i <= v.len(),
            st == num_run(v@.subrange(0, i as int)),
        decreases v.len() - i,
    {
        assert(v@.subrange(0, i + 1).drop_last() =~= v@.subrange(0, i as int));
        st = num_step_exec(st, v[i]);
        i = i + 1;
    }
    assert(v@.subrange(0, v.len() as int) =~= v@);
    st == NumState::Int || st == NumState::IntDot || st == NumState::Frac || st
        == NumState::ExpDigits
}

/// Classifies one trimmed cell.
pub fn parse_value_chars(s: &Vec<char>) -> (r: CellValue)
    ensures
        r@ == cell_of(s@),
{
    if eq_ignore_ascii_case_chars(s, &chars_of("null")) || s.len() == 0 {
        return CellValue::Null;
    }
    match parse_i64(s) {
        Some(n) => {
            return CellValue::Int(n);
        },
        None => {},
    }
    if is_decimal_chars(s) {
        return CellValue::Float(string_of(s));
    }
    proof {
        reveal_strlit("1");
        reveal_strlit("0");
    }
    if eq_ignore_ascii_case_chars(s, &chars_of("true")) || (s.len() == 1 && s[0] == '1') {
        assert(s.len() == 1 && s[0] == '1' ==> s@ =~= "1"@);
        return CellValue::Bool(true);
    }
    assert(s@ == "1"@ ==> s.len() == 1 && s@[0] == '1');
    if eq_ignore_ascii_case_chars(s, &chars_of("false")) || (s.len() == 1 && s[0] == '0') {
        assert(s.len() == 1 && s[0] == '0' ==> s@ =~= "0"@);
        return CellValue::Bool(false);
    }
    assert(s@ == "0"@ ==> s.len() == 1 && s@[0] == '0');
    CellValue::Text(string_of(s))
}

/// Classifies one cell: null, integer, decimal, boolean or text, in that order.
pub fn parse_value(s: &str) -> (r: CellValue)
    ensures
        r@ == cell_of(s@),
{
    parse_value_chars(&chars_of(s))
}

/// The cells of a tab-separated row.
fn row_cells(l: &Vec<char>) -> (r: Vec<CellValue>)
    ensures
        cell_views(r@) == cells_of(l@),
{
    let parts = split_chars(l, '\t');
    let ghost ps = split_on(l@, '\t');
    let mut r: Vec<CellValue> = Vec::new();
    let mut i: usize = 0;
    while i < parts.len()
        invariant
            i <= parts.len(),
            views(parts@) == ps,
            cell_views(r@) == ps.subrange(0, i as int).map_values(
                |c: Seq<char>| cell_of(trim(c)),
            ),
        decreases parts.len() - i,
    {
        let t = trim_chars(&parts[i]);
        let cell = parse_value_chars(&t);
        let ghost before = r@;
        r.push(cell);
        assert(ps[i as int] == parts@[i as int]@);
        assert(cell_views(r@) =~= cell_views(before).push(cell_of(trim(ps[i as int]))));
        assert(ps.subrange(0, i + 1).map_values(|c: Seq<char>| cell_of(trim(c))) =~= ps.subrange(
            0,
            i as int,
        ).map_values(|c: Seq<char>| cell_of(trim(c))).push(cell_of(trim(ps[i as int]))));
        i = i + 1;
    }
    assert(ps.subrange(0, parts.len() as int) =~= ps);
    r
}

fn is_separator_chars(l: &Vec<char>) -> (r: bool)
    ensures
        r == is_separator(l@),
{
    let mut i: usize = 0;
    while i < l.len()
        invariant
            i <= l.len(),
            forall|j: int|
                0 <= j < i ==> (l@[j] == '-' || l@[j] == '\t' || l@[j] == '+' || l@[j] == ' '),
        decreases l.len() - i,
    {
        let c = l[i];
        if !(c == '-' || c == '\t' || c == '+' || c == ' ') {
            return false;
        }
        i = i + 1;
    }
    true
}

fn is_result_message_chars(l: &Vec<char>) -> (r: bool)
    ensures
        r == is_result_message(l@),
{
    starts_with_chars(l, &chars_of("Query OK")) || starts_with_chars(l, &chars_of("Rows matched"))
        || contains_chars(l, &chars_of("row(s) affected")) || contains_chars(
        l,
        &chars_of("rows affected"),
    )
}

fn push_event(ev: &mut Vec<QueryEvent>, e: QueryEvent)
    ensures
        event_views(final(ev)@) == event_views(old(ev)@).push(e@),
{
    ev.push(e);
    assert(event_views(ev@) =~= event_views(old(ev)@).push(e@));
}

/// Parses the output of one CLI run into events; the last one is `Done`.
pub fn parse_cli_output(stdout: &str, stderr: &str, dialect: DialectKind) -> (r: Vec<QueryEvent>)
    ensures
        event_views(r@) == output_events(dialect, stdout@, stderr@),
{
    let mut ev: Vec<QueryEvent> = Vec::new();
    let err_lines = lines_chars(&chars_of(stderr));
    let ghost els = lines_of(stderr@);
    let mut i: usize = 0;
    assert(els.subrange(0, els.len() as int) =~= els);
    assert(event_views(ev@) + stderr_events(dialect, els) =~= stderr_events(dialect, els));
    while i < err_lines.len()
        invariant
            i <= err_lines.len(),
            views(err_lines@) == els,
            event_views(ev@) + stderr_events(dialect, els.subrange(i as int, els.len() as int))
                == stderr_events(dialect, els),
        decreases err_lines.len() - i,
    {
        let ghost sub = els.subrange(i as int, els.len() as int);
        assert(sub.drop_first() =~= els.subrange(i + 1, els.len() as int));
        assert(sub[0] == err_lines@[i as int]@);
        let l = trim_chars(&err_lines[i]);
        let ghost rest = stderr_events(dialect, els.subrange(i + 1, els.len() as int));
        let ghost before = event_views(ev@);
        if l.len() == 0 {
        } else if dialect.is_error_chars(&l) {
            push_event(&mut ev, QueryEvent::Error { message: string_of(&l) });
            assert(before + stderr_events(dialect, sub) =~= event_views(ev@) + rest);
        } else {
            push_event(&mut ev, QueryEvent::Line { text: string_of(&l) });
            assert(before + stderr_events(dialect, sub) =~= event_views(ev@) + rest);
        }
        i = i + 1;
    }
    assert(els.subrange(i as int, els.len() as int) =~= Seq::<Seq<char>>::empty());
    assert(event_views(ev@) =~= stderr_events(dialect, els));
    let out_lines = lines_chars(&chars_of(stdout));
    let ghost ols = lines_of(stdout@);
    let ghost base = event_views(ev@);
    let mut hdr: Option<Vec<Vec<char>>> = None;
    let mut j: usize = 0;
    let n = out_lines.len();
    assert(ols.subrange(0, n as int) =~= ols);
    while j < n
        invariant
            j <= n == out_lines.len(),
            views(out_lines@) == ols,
            base == stderr_events(dialect, els),
            event_views(ev@) + scan(
                dialect,
                ols.subrange(j as int, n as int),
                match hdr {
                    Some(h) => Some(views(h@)),
                    None => None,
                },
            ) == base + scan(dialect, ols, None),
        decreases n - j,
    {
        let ghost sub = ols.subrange(j as int, n as int);
        let ghost rest = ols.subrange(j + 1, n as int);
        assert(sub.drop_first() =~= rest);
        assert(sub[0] == out_lines@[j as int]@);
        let ghost before = event_views(ev@);
        let l = trim_chars(&out_lines[j]);
        match hdr {
            Some(h) => {
                let ghost hv = views(h@);
                if l.len() == 0 {
                    hdr = None;
                } else if is_separator_chars(&l) {
                    hdr = Some(h);
                } else {
                    let columns = strings_of(&h);
                    let row = row_cells(&l);
                    push_event(&mut ev, QueryEvent::Record { columns, row });
                    assert(before + scan(dialect, sub, Some(hv)) =~= event_views(ev@) + scan(
                        dialect,
                        rest,
                        Some(hv),
                    ));
                    hdr = Some(h);
                }
            },
            None => {
                if l.len() == 0 {
                } else if is_result_message_chars(&l) {
                    push_event(&mut ev, QueryEvent::Line { text: string_of(&l) });
                    assert(before + scan(dialect, sub, None) =~= event_views(ev@) + scan(
                        dialect,
                        rest,
                        None,
                    ));
                } else if dialect.is_error_chars(&l) {
                    push_event(&mut ev, QueryEvent::Error { message: string_of(&l) });
                    assert(before + scan(dialect, sub, None) =~= event_views(ev@) + scan(
                        dialect,
                        rest,
                        None,
                    ));
                } else {
                    let opens = if has_char_chars(&l, '\t') && j + 1 < n {
                        assert(rest[0] == out_lines@[j + 1]@);
                        let next = trim_chars(&out_lines[j + 1]);
                        has_char_chars(&next, '\t') || next.len() == 0
                    } else {
                        false
                    };
                    if opens {
                        let h = split_chars(&l, '\t');
                        hdr = Some(h);
                    } else {
                        push_event(&mut ev, QueryEvent::Line { text: string_of(&l) });
                        assert(before + scan(dialect, sub, None) =~= event_views(ev@) + scan(
                            dialect,
                            rest,
                            None,
                        ));
                    }
                }
            },
        }
        j = j + 1;
    }
    assert(ols.subrange(n as int, n as int) =~= Seq::<Seq<char>>::empty());
    let ghost before_done = event_views(ev@);
    push_event(&mut ev, QueryEvent::Done { affected_rows: None });
    assert(event_views(ev@) =~= output_events(dialect, stdout@, stderr@));
    ev
}

} // verus!
