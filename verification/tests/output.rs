use llmpulse_cli::json::{Json, JsonNumber};
use llmpulse_cli::output::{
    cell_string, display_payload, extract_array, format_csv, format_table, layout, pagination_meta, rows,
    sanitize_spreadsheet_cell,
};

fn text(s: &str) -> Json {
    Json::String(s.to_string())
}

fn num(n: u64) -> Json {
    Json::Number(JsonNumber::PosInt(n))
}

fn object(members: Vec<(&str, Json)>) -> Json {
    Json::Object(members.into_iter().map(|(k, v)| (k.to_string(), v)).collect())
}

/// The cells of a value as text, the way a table shows scalars.
fn cells_of(value: &Json) -> (Vec<String>, Vec<Vec<String>>) {
    let (columns, grid) = layout(value);
    let cells = grid
        .iter()
        .map(|row| row.iter().map(|cell| cell_string(cell).expect("scalar cell")).collect())
        .collect();
    (columns, cells)
}

#[test]
fn extracts_data_arrays_first() {
    let value = object(vec![("meta", Json::Array(vec![])), ("data", Json::Array(vec![object(vec![("id", num(1))])]))]);
    let rows = extract_array(&value).unwrap();
    assert_eq!(rows[0].get("id"), Some(&num(1)));
}

#[test]
fn csv_quotes_fields_and_blocks_formulas() {
    let value = Json::Array(vec![object(vec![("name", text("=1+1")), ("text", text("hello, world"))])]);
    let (columns, cells) = cells_of(&value);
    let csv = format_csv(&columns, &cells).unwrap();
    assert!(csv.contains("'=1+1"));
    assert!(csv.contains("\"hello, world\""));
}

#[test]
fn table_handles_empty_arrays() {
    let (columns, cells) = cells_of(&Json::Array(vec![]));
    assert_eq!(format_table(&columns, &cells), "(no data)");
}

#[test]
fn csv_output_is_exact() {
    let value = Json::Array(vec![
        object(vec![("id", num(1)), ("name", text("+cmd")), ("ok", Json::Bool(true))]),
        object(vec![("id", num(2)), ("note", text("x")), ("ok", Json::Null)]),
    ]);
    let (columns, cells) = cells_of(&value);
    assert_eq!(columns, vec!["id".to_string(), "name".to_string(), "ok".to_string()]);
    assert_eq!(format_csv(&columns, &cells).unwrap(), "id,name,ok\n1,'+cmd,true\n2,,");
    assert_eq!(format_csv(&columns, &Vec::new()).unwrap(), "");
    let ragged = vec![vec!["1".to_string()]];
    assert!(format_csv(&columns, &ragged).is_err());
}

#[test]
fn table_shows_the_header_and_cells() {
    let value = Json::Array(vec![object(vec![("id", num(7)), ("name", text("alpha"))])]);
    let (columns, cells) = cells_of(&value);
    let table = format_table(&columns, &cells);
    let lines: Vec<&str> = table.lines().collect();
    assert!(lines.iter().position(|l| l.contains("id")).unwrap() < lines.iter().position(|l| l.contains("alpha")).unwrap());
    assert!(table.contains("id"));
    assert!(table.contains("alpha"));
    assert!(table.contains('7'));
}

#[test]
fn values_that_are_not_lists_become_single_rows() {
    let scalar = num(5);
    let r = rows(&scalar);
    assert_eq!(r.len(), 1);
    assert_eq!(r[0], vec![("value".to_string(), num(5))]);
    let listed = object(vec![("items", Json::Array(vec![text("a"), object(vec![("k", num(1))])]))]);
    let r = rows(&listed);
    assert_eq!(r.len(), 2);
    assert_eq!(r[0], vec![("value".to_string(), text("a"))]);
    assert_eq!(r[1], vec![("k".to_string(), num(1))]);
}

#[test]
fn missing_cells_show_as_empty_and_nested_values_as_json() {
    assert_eq!(cell_string(&Json::Null), Some(String::new()));
    assert_eq!(cell_string(&Json::Bool(false)), Some("false".to_string()));
    assert_eq!(cell_string(&Json::Number(JsonNumber::NegInt(-12))), Some("-12".to_string()));
    assert_eq!(cell_string(&Json::Number(JsonNumber::Float("1.5".to_string()))), Some("1.5".to_string()));
    assert_eq!(cell_string(&Json::Array(vec![])), None);
}

#[test]
fn formulas_are_neutralised() {
    assert_eq!(sanitize_spreadsheet_cell("=SUM(A1)".to_string()), "'=SUM(A1)");
    assert_eq!(sanitize_spreadsheet_cell("-1".to_string()), "'-1");
    assert_eq!(sanitize_spreadsheet_cell("@x".to_string()), "'@x");
    assert_eq!(sanitize_spreadsheet_cell("plain".to_string()), "plain");
    assert_eq!(sanitize_spreadsheet_cell(String::new()), "");
}

#[test]
fn pagination_note_counts_pages() {
    let value = object(vec![("page", num(2)), ("per_page", num(10)), ("total", num(25))]);
    assert_eq!(pagination_meta(&value), Some("Page 2/3 (25 total)".to_string()));
    let value = object(vec![("page", num(1)), ("total", num(0))]);
    assert_eq!(pagination_meta(&value), Some("Page 1/0 (0 total)".to_string()));
    let value = object(vec![("page", num(1)), ("total", num(40))]);
    assert_eq!(pagination_meta(&value), Some("Page 1/1 (40 total)".to_string()));
    assert_eq!(pagination_meta(&object(vec![("page", num(1))])), None);
}

#[test]
fn payload_is_the_data_member_when_present() {
    let value = object(vec![("data", num(3)), ("meta", num(4))]);
    assert_eq!(display_payload(&value), &num(3));
    let value = object(vec![("meta", num(4))]);
    assert_eq!(display_payload(&value), &value);
}

#[test]
fn first_array_member_is_used_without_data() {
    let value = object(vec![("count", num(2)), ("items", Json::Array(vec![num(1)])), ("more", Json::Array(vec![]))]);
    assert_eq!(extract_array(&value).unwrap().len(), 1);
    let value = object(vec![("data", num(2))]);
    assert!(extract_array(&value).is_none());
}
