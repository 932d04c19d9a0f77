use db_api::dialect::DialectKind;
use db_api::query::{parse_cli_output, parse_value, CellValue, QueryEvent, RawQueryOutput};
use db_api::response::{
    add_result_separators, create_json_response, text_response_body, OutputFormat, QueryRequest,
};

fn request(format: Option<&str>, transport: Option<&str>) -> QueryRequest {
    QueryRequest {
        query: "SELECT 1".to_string(),
        format: format.map(|s| s.to_string()),
        transport: transport.map(|s| s.to_string()),
    }
}

#[test]
fn parse_value_follows_precedence() {
    assert_eq!(parse_value("0"), CellValue::Int(0));
    assert_eq!(parse_value("1"), CellValue::Int(1));
    assert_eq!(parse_value("false"), CellValue::Bool(false));
    assert_eq!(parse_value("TRUE"), CellValue::Bool(true));
    assert_eq!(parse_value(""), CellValue::Null);
    assert_eq!(parse_value("NULL"), CellValue::Null);
    assert_eq!(parse_value("3.14"), CellValue::Float("3.14".to_string()));
    assert_eq!(parse_value("hello"), CellValue::Text("hello".to_string()));
}

#[test]
fn parse_value_integer_edges() {
    assert_eq!(parse_value("-42"), CellValue::Int(-42));
    assert_eq!(parse_value("+7"), CellValue::Int(7));
    assert_eq!(parse_value("9223372036854775807"), CellValue::Int(i64::MAX));
    assert_eq!(parse_value("-9223372036854775808"), CellValue::Int(i64::MIN));
    assert_eq!(
        parse_value("9223372036854775808"),
        CellValue::Float("9223372036854775808".to_string())
    );
    assert_eq!(parse_value("-"), CellValue::Text("-".to_string()));
    assert_eq!(parse_value("1e5"), CellValue::Float("1e5".to_string()));
    assert_eq!(parse_value("1."), CellValue::Float("1.".to_string()));
    assert_eq!(parse_value(".5"), CellValue::Float(".5".to_string()));
    assert_eq!(parse_value("."), CellValue::Text(".".to_string()));
    assert_eq!(parse_value("inf"), CellValue::Text("inf".to_string()));
    assert_eq!(parse_value("12abc"), CellValue::Text("12abc".to_string()));
}

#[test]
fn format_selection_table() {
    assert_eq!(request(Some("text"), Some("sse")).resolve_format(), OutputFormat::Text);
    assert_eq!(request(Some("json"), Some("sse")).resolve_format(), OutputFormat::Json);
    assert_eq!(request(Some("jsonl"), None).resolve_format(), OutputFormat::Jsonl);
    assert_eq!(request(None, Some("sse")).resolve_format(), OutputFormat::Jsonl);
    assert_eq!(request(None, None).resolve_format(), OutputFormat::Json);
    assert_eq!(request(Some("xml"), None).resolve_format(), OutputFormat::Json);
    assert_eq!(request(Some("xml"), Some("sse")).resolve_format(), OutputFormat::Json);
    assert_eq!(request(None, Some("websocket")).resolve_format(), OutputFormat::Json);
}

#[test]
fn parses_tab_separated_block() {
    let events = parse_cli_output("a\tb\n1\tx\n2\tnull\n", "", DialectKind::MySql);
    let cols = vec!["a".to_string(), "b".to_string()];
    assert_eq!(
        events,
        vec![
            QueryEvent::Record {
                columns: cols.clone(),
                row: vec![CellValue::Int(1), CellValue::Text("x".to_string())],
            },
            QueryEvent::Record { columns: cols, row: vec![CellValue::Int(2), CellValue::Null] },
            QueryEvent::Done { affected_rows: None },
        ]
    );
}

#[test]
fn single_column_output_is_lines() {
    let events = parse_cli_output("a\n1\n2\n", "", DialectKind::MySql);
    assert_eq!(
        events,
        vec![
            QueryEvent::Line { text: "a".to_string() },
            QueryEvent::Line { text: "1".to_string() },
            QueryEvent::Line { text: "2".to_string() },
            QueryEvent::Done { affected_rows: None },
        ]
    );
}

#[test]
fn stderr_comes_first_and_is_classified() {
    let events = parse_cli_output(
        "Query OK, 1 row affected\n",
        "ERROR 1064 (42000): syntax\nWarning: using a password\n\n",
        DialectKind::MySql,
    );
    assert_eq!(
        events,
        vec![
            QueryEvent::Error { message: "ERROR 1064 (42000): syntax".to_string() },
            QueryEvent::Line { text: "Warning: using a password".to_string() },
            QueryEvent::Line { text: "Query OK, 1 row affected".to_string() },
            QueryEvent::Done { affected_rows: None },
        ]
    );
}

#[test]
fn sqlserver_output_skips_separators_and_ends_blocks() {
    let out = "id\tname\n--\t----\n1\tann\n\n(1 rows affected)\n";
    let events = parse_cli_output(out, "", DialectKind::SqlServer);
    assert_eq!(
        events,
        vec![
            QueryEvent::Record {
                columns: vec!["id".to_string(), "name".to_string()],
                row: vec![CellValue::Int(1), CellValue::Text("ann".to_string())],
            },
            QueryEvent::Line { text: "(1 rows affected)".to_string() },
            QueryEvent::Done { affected_rows: None },
        ]
    );
    let errs = parse_cli_output("Msg 208, Level 16\n", "", DialectKind::SqlServer);
    assert_eq!(errs[0], QueryEvent::Error { message: "Msg 208, Level 16".to_string() });
}

#[test]
fn empty_output_is_just_done() {
    assert_eq!(
        parse_cli_output("", "", DialectKind::MySql),
        vec![QueryEvent::Done { affected_rows: None }]
    );
}

#[test]
fn json_collapses_rows_and_errors() {
    let events = parse_cli_output("a\n1\n2\n", "", DialectKind::MySql);
    let r = create_json_response(&events);
    assert_eq!(r.rows, None);
    assert_eq!(r.columns, None);
    assert_eq!(r.messages, vec!["a".to_string(), "1".to_string(), "2".to_string()]);

    let events = parse_cli_output("a\tb\n1\tx\n2\ty\n", "", DialectKind::MySql);
    let r = create_json_response(&events);
    assert_eq!(r.columns, Some(vec!["a".to_string(), "b".to_string()]));
    assert_eq!(
        r.rows,
        Some(vec![
            vec![CellValue::Int(1), CellValue::Text("x".to_string())],
            vec![CellValue::Int(2), CellValue::Text("y".to_string())],
        ])
    );
    assert_eq!(r.error, None);

    let events = vec![
        QueryEvent::Error { message: "first".to_string() },
        QueryEvent::Error { message: "second".to_string() },
        QueryEvent::Done { affected_rows: Some(3) },
    ];
    let r = create_json_response(&events);
    assert_eq!(r.error, Some("first\nsecond".to_string()));
    assert_eq!(r.affected_rows, Some(3));
    assert!(r.messages.is_empty());
}

#[test]
fn separators_between_adjacent_tables() {
    let text = "+---+\n| a |\n+---+\n+---+\n| b |\n+---+\n";
    assert_eq!(
        add_result_separators(text),
        "+---+\n| a |\n+---+\n---\n+---+\n| b |\n+---+"
    );
    assert_eq!(add_result_separators("one line\n"), "one line\n");
    assert_eq!(add_result_separators("++\n++"), "++\n---\n++");
    assert_eq!(add_result_separators("+x-+\n+--+"), "+x-+\n+--+");
    assert_eq!(add_result_separators("+-+-+\n+\n+-+"), "+-+-+\n+\n+-+");
    assert_eq!(add_result_separators("a\r\nb\r\n"), "a\nb");
}

#[test]
fn text_body_puts_stderr_first() {
    let out = RawQueryOutput { stdout: "Query OK\n".to_string(), stderr: "warn  \n".to_string() };
    assert_eq!(text_response_body(&out), "warn\nQuery OK");
    let only_err = RawQueryOutput { stdout: String::new(), stderr: "bad\n".to_string() };
    assert_eq!(text_response_body(&only_err), "bad\n");
    let only_out = RawQueryOutput { stdout: "x".to_string(), stderr: String::new() };
    assert_eq!(text_response_body(&only_out), "x");
}
