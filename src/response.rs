//! Shapes query results for the client: format selection, the text body
//! with separators between ASCII tables, and the collapsed JSON document.
use vstd::prelude::*;

use crate::query::{
    cell_views, copy_cells, event_views, CellModel, CellValue, EventModel, QueryEvent,
    RawQueryOutput,
};
use crate::text::{
    append_chars, chars_of, copy_strings, join, join_chars, lines_chars, lines_of, owned,
    same_text, str_views, string_of, trim_end, trim_end_chars, views,
};

verus! {

broadcast use vstd::string::group_string_axioms;

/// How a query's result is sent back.
#[derive(Debug, Clone, Copy, PartialEq, Eq, Structural)]
pub enum OutputFormat {
    /// Raw CLI output as plain text.
    Text,
    /// One JSON document.
    Json,
    /// A stream of server-sent events, one per query event.
    Jsonl,
}

/// The body of a query request.
#[derive(Debug)]
pub struct QueryRequest {
    pub query: String,
    pub format: Option<String>,
    pub transport: Option<String>,
}

pub open spec fn opt_view(o: Option<String>) -> Option<Seq<char>> {
    match o {
        Some(s) => Some(s@),
        None => None,
    }
}

/// The format chosen by the `format` and `transport` parameters: an explicit
/// known format wins; without one, `sse` transport means the event stream;
/// anything else is one JSON document.
pub open spec fn format_for(format: Option<Seq<char>>, transport: Option<Seq<char>>) -> OutputFormat {
    match format {
        Some(f) => if f == "text"@ {
            OutputFormat::Text
        } else if f == "json"@ {
            OutputFormat::Json
        } else if f == "jsonl"@ {
            OutputFormat::Jsonl
        } else {
            OutputFormat::Json
        },
        None => match transport {
            Some(t) => if t == "sse"@ {
                OutputFormat::Jsonl
            } else {
                OutputFormat::Json
            },
            None => OutputFormat::Json,
        },
    }
}

impl QueryRequest {
    pub fn resolve_format(&self) -> (r: OutputFormat)
        ensures
            r == format_for(opt_view(self.format), opt_view(self.transport)),
    {
        match &self.format {
            Some(f) => {
                if same_text(f.as_str(), "text") {
                    OutputFormat::Text
                } else if same_text(f.as_str(), "json") {
                    OutputFormat::Json
                } else if same_text(f.as_str(), "jsonl") {
                    OutputFormat::Jsonl
                } else {
                    OutputFormat::Json
                }
            },
            None => match &self.transport {
                Some(t) => {
                    if same_text(t.as_str(), "sse") {
                        OutputFormat::Jsonl
                    } else {
                        OutputFormat::Json
                    }
                },
                None => OutputFormat::Json,
            },
        }
    }
}

/// A border line of an ASCII table, `^\+[-+]*\+$`: at least two characters,
/// all of them `-` or `+`, the first and the last `+`.
pub open spec fn is_border(l: Seq<char>) -> bool {
    &&& l.len() >= 2
    &&& l[0] == '+'
    &&& l.last() == '+'
    &&& forall|i: int| 0 <= i < l.len() ==> (l[i] == '-' || l[i] == '+')
}

/// The lines with a `---` line between every two neighbouring borders.
pub open spec fn with_separators(ls: Seq<Seq<char>>) -> Seq<Seq<char>>
    decreases ls.len(),
{
    if ls.len() == 0 {
        Seq::empty()
    } else {
        let pre = with_separators(ls.drop_last());
        if ls.len() >= 2 && is_border(ls[ls.len() - 2]) && is_border(ls.last()) {
            pre.push("---"@).push(ls.last())
        } else {
            pre.push(ls.last())
        }
    }
}

/// Text of fewer than two lines stays as it is; otherwise its lines, with
/// separators between adjacent tables, joined by newlines.
pub open spec fn separated(text: Seq<char>) -> Seq<char> {
    if lines_of(text).len() < 2 {
        text
    } else {
        join(with_separators(lines_of(text)), "\n"@)
    }
}

/// The plain-text body: stderr (without trailing whitespace) before stdout,
/// then separated.
pub open spec fn text_body(stdout: Seq<char>, stderr: Seq<char>) -> Seq<char> {
    separated(
        if stderr.len() == 0 {
            stdout
        } else if stdout.len() == 0 {
            stderr
        } else {
            trim_end(stderr) + "\n"@ + stdout
        },
    )
}

fn is_border_chars(l: &Vec<char>) -> (r: bool)
    ensures
        r == is_border(l@),
{
    if l.len() < 2 || l[0] != '+' || l[l.len() - 1] != '+' {
        return false;
    }
    let mut i: usize = 0;
    while i < l.len()
        invariant
            i <= l.len(),
            forall|j: int| 0 <= j < i ==> (l@[j] == '-' || l@[j] == '+'),
        decreases l.len() - i,
    {
        if l[i] != '-' && l[i] != '+' {
            return false;
        }
        i = i + 1;
    }
    true
}

/// Inserts a `---` line between adjacent ASCII tables.
pub fn add_result_separators(text: &str) -> (r: String)
    ensures
        r@ == separated(text@),
{
    let lines = lines_chars(&chars_of(text));
    let ghost ls = lines_of(text@);
    if lines.len() < 2 {
        return owned(text);
    }
    let mut out: Vec<Vec<char>> = Vec::new();
    let mut prev_border = false;
    let mut i: usize = 0;
    assert(ls.subrange(0, 0) =~= Seq::<Seq<char>>::empty());
    while i < lines.len()
        invariant
            i <= lines.len(),
            views(lines@) == ls,
            views(out@) == with_separators(ls.subrange(0, i as int)),
            i > 0 ==> prev_border == is_border(ls[i - 1]),
        decreases lines.len() - i,
    {
        let ghost pre = ls.subrange(0, i as int);
        let ghost next = ls.subrange(0, i + 1);
        assert(next.drop_last() =~= pre);
        assert(ls[i as int] == lines@[i as int]@);
        let line = string_chars_copy(&lines[i]);
        let border = is_border_chars(&line);
        let ghost before = views(out@);
        if prev_border && border && i > 0 {
            out.push(chars_of("---"));
            out.push(line);
            assert(views(out@) =~= before.push("---"@).push(ls[i as int]));
        } else {
            out.push(line);
            assert(views(out@) =~= before.push(ls[i as int]));
        }
        prev_border = border;
        i = i + 1;
    }
    assert(ls.subrange(0, lines.len() as int) =~= ls);
    let joined = join_chars(&out, &chars_of("\n"));
    string_of(&joined)
}

fn string_chars_copy(v: &Vec<char>) -> (r: Vec<char>)
    ensures
        r@ == v@,
{
    let mut r: Vec<char> = Vec::new();
    append_chars(&mut r, v);
    r
}

/// The plain-text body of a query's raw output.
pub fn text_response_body(output: &RawQueryOutput) -> (r: String)
    ensures
        r@ == text_body(output.stdout@, output.stderr@),
{
    let combined: String = if output.stderr.as_str().is_empty() {
        output.stdout.clone()
    } else if output.stdout.as_str().is_empty() {
        output.stderr.clone()
    } else {
        let mut c = trim_end_chars(&chars_of(output.stderr.as_str()));
        c.push('\n');
        append_chars(&mut c, &chars_of(output.stdout.as_str()));
        proof {
            reveal_strlit("\n");
        }
        assert(c@ =~= trim_end(output.stderr@) + "\n"@ + output.stdout@);
        string_of(&c)
    };
    add_result_separators(combined.as_str())
}

/// The body of `/health`.
#[derive(Debug)]
pub struct HealthResponse {
    pub status: &'static str,
    pub docker: &'static str,
}

/// The number of instances held in the cache.
#[derive(Debug)]
pub struct MetricsResponse {
    pub active_instances: usize,
}

/// Healthy exactly when the container daemon answers.
pub fn health_response(daemon_answers: bool) -> (r: HealthResponse)
    ensures
        daemon_answers ==> r.status@ == "healthy"@ && r.docker@ == "connected"@,
        !daemon_answers ==> r.status@ == "unhealthy"@ && r.docker@ == "disconnected"@,
{
    if daemon_answers {
        HealthResponse { status: "healthy", docker: "connected" }
    } else {
        HealthResponse { status: "unhealthy", docker: "disconnected" }
    }
}

/// The collapsed JSON document of a query's events.
#[derive(Debug)]
pub struct JsonQueryResponse {
    pub columns: Option<Vec<String>>,
    pub rows: Option<Vec<Vec<CellValue>>>,
    pub affected_rows: Option<u64>,
    pub error: Option<String>,
    pub messages: Vec<String>,
}

/// The mathematical value of a JSON document.
pub struct JsonModel {
    pub columns: Option<Seq<Seq<char>>>,
    pub rows: Option<Seq<Seq<CellModel>>>,
    pub affected_rows: Option<u64>,
    pub error: Option<Seq<char>>,
    pub messages: Seq<Seq<char>>,
}

pub open spec fn row_views(v: Seq<Vec<CellValue>>) -> Seq<Seq<CellModel>> {
    v.map_values(|r: Vec<CellValue>| cell_views(r@))
}

impl View for JsonQueryResponse {
    type V = JsonModel;

    open spec fn view(&self) -> JsonModel {
        JsonModel {
            columns: match self.columns {
                Some(c) => Some(str_views(c@)),
                None => None,
            },
            rows: match self.rows {
                Some(r) => Some(row_views(r@)),
                None => None,
            },
            affected_rows: self.affected_rows,
            error: opt_view(self.error),
            messages: str_views(self.messages@),
        }
    }
}

/// What has been gathered from a prefix of the events: messages, joined
/// errors, the first header, all rows and the last row count.
pub struct Gathered {
    pub messages: Seq<Seq<char>>,
    pub error: Option<Seq<char>>,
    pub columns: Option<Seq<Seq<char>>>,
    pub rows: Seq<Seq<CellModel>>,
    pub affected_rows: Option<u64>,
}

pub open spec fn gather(evs: Seq<EventModel>) -> Gathered
    decreases evs.len(),
{
    if evs.len() == 0 {
        Gathered {
            messages: Seq::empty(),
            error: None,
            columns: None,
            rows: Seq::empty(),
            affected_rows: None,
        }
    } else {
        let g = gather(evs.drop_last());
        match evs.last() {
            EventModel::Line(t) => Gathered {
                messages: g.messages.push(t),
                error: g.error,
                columns: g.columns,
                rows: g.rows,
                affected_rows: g.affected_rows,
            },
            EventModel::Record(c, r) => Gathered {
                messages: g.messages,
                error: g.error,
                columns: if g.columns is None {
                    Some(c)
                } else {
                    g.columns
                },
                rows: g.rows.push(r),
                affected_rows: g.affected_rows,
            },
            EventModel::Error(m) => Gathered {
                messages: g.messages,
                error: Some(
                    match g.error {
                        Some(e) => e + "\n"@ + m,
                        None => m,
                    },
                ),
                columns: g.columns,
                rows: g.rows,
                affected_rows: g.affected_rows,
            },
            EventModel::Done(n) => Gathered {
                messages: g.messages,
                error: g.error,
                columns: g.columns,
                rows: g.rows,
                affected_rows: n,
            },
        }
    }
}

/// The JSON document of a sequence of events: columns and rows only when
/// there is at least one row.
pub open spec fn collapse(evs: Seq<EventModel>) -> JsonModel {
    let g = gather(evs);
    JsonModel {
        columns: if g.rows.len() > 0 {
            g.columns
        } else {
            None
        },
        rows: if g.rows.len() > 0 {
            Some(g.rows)
        } else {
            None
        },
        affected_rows: g.affected_rows,
        error: g.error,
        messages: g.messages,
    }
}

/// Collapses a query's events into one JSON document.
pub fn create_json_response(events: &Vec<QueryEvent>) -> (r: JsonQueryResponse)
    ensures
        r@ == collapse(event_views(events@)),
{
    let ghost evs = event_views(events@);
    let mut messages: Vec<String> = Vec::new();
    let mut error: Option<String> = None;
    let mut columns: Option<Vec<String>> = None;
    let mut rows: Vec<Vec<CellValue>> = Vec::new();
    let mut affected_rows: Option<u64> = None;
    let mut i: usize = 0;
    assert(evs.subrange(0, 0) =~= Seq::<EventModel>::empty());
    while i < events.len()
        invariant
            i <= events.len(),
            evs == event_views(events@),
            ({
                let g = gather(evs.subrange(0, i as int));
                &&& str_views(messages@) == g.messages
                &&& opt_view(error) == g.error
                &&& match columns {
                    Some(c) => g.columns == Some(str_views(c@)),
                    None => g.columns is None,
                }
                &&& row_views(rows@) == g.rows
                &&& affected_rows == g.affected_rows
            }),
        decreases events.len() - i,
    {
        let ghost next = evs.subrange(0, i + 1);
        assert(next.drop_last() =~= evs.subrange(0, i as int));
        assert(next.last() == events@[i as int]@);
        match &events[i] {
            QueryEvent::Line { text } => {
                let ghost before = messages@;
                messages.push(text.clone());
                assert(str_views(messages@) =~= str_views(before).push(text@));
            },
            QueryEvent::Record { columns: cols, row } => {
                if columns.is_none() {
                    columns = Some(copy_strings(cols));
                }
                let ghost before = rows@;
                rows.push(copy_cells(row));
                assert(row_views(rows@) =~= row_views(before).push(cell_views(row@)));
            },
            QueryEvent::Error { message } => {
                let joined = match &error {
                    Some(e) => {
                        let mut c = chars_of(e.as_str());
                        c.push('\n');
                        append_chars(&mut c, &chars_of(message.as_str()));
                        proof {
                            reveal_strlit("\n");
                        }
                        assert(c@ =~= e@ + "\n"@ + message@);
                        string_of(&c)
                    },
                    None => message.clone(),
                };
                error = Some(joined);
            },
            QueryEvent::Done { affected_rows: n } => {
                affected_rows = *n;
            },
        }
        i = i + 1;
    }
    assert(evs.subrange(0, events.len() as int) =~= evs);
    let has_rows = rows.len() > 0;
    JsonQueryResponse {
        columns: if has_rows {
            columns
        } else {
            None
        },
        rows: if has_rows {
            Some(rows)
        } else {
            None
        },
        affected_rows,
        error,
        messages,
    }
}

} // verus!
