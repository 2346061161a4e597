use llmpulse_cli::client::interpret_bytes;
use llmpulse_cli::error::CliError;
use llmpulse_cli::json::{Json, JsonNumber};
use llmpulse_cli::json_io::{read_json, read_json_bytes, to_json, to_value, write_json};
use llmpulse_cli::output::{cell_text, format_value, table_cells, OutputFormat};

fn text(s: &str) -> Json {
    Json::String(s.to_string())
}

fn num(n: u64) -> Json {
    Json::Number(JsonNumber::PosInt(n))
}

fn object(members: Vec<(&str, Json)>) -> Json {
    Json::Object(members.into_iter().map(|(k, v)| (k.to_string(), v)).collect())
}

#[test]
fn json_text_is_read_into_the_model() {
    let value = read_json(r#"{"b":[1,-2,1.5,null,true],"a":"x"}"#).unwrap();
    assert_eq!(
        value,
        object(vec![
            ("a", text("x")),
            (
                "b",
                Json::Array(vec![
                    num(1),
                    Json::Number(JsonNumber::NegInt(-2)),
                    Json::Number(JsonNumber::Float("1.5".to_string())),
                    Json::Null,
                    Json::Bool(true),
                ]),
            ),
        ])
    );
    let message = read_json("{").unwrap_err();
    assert_eq!(message, serde_json::from_str::<serde_json::Value>("{").unwrap_err().to_string());
    assert_eq!(read_json_bytes(&b"[7]".to_vec()).unwrap(), Json::Array(vec![num(7)]));
    assert!(read_json_bytes(&b"<html>".to_vec()).is_err());
}

#[test]
fn json_is_written_compact_or_indented() {
    let value = object(vec![("b", num(1)), ("a", Json::Array(vec![text("x"), Json::Null]))]);
    assert_eq!(write_json(&value, false), r#"{"a":["x",null],"b":1}"#);
    assert_eq!(write_json(&value, true), "{\n  \"a\": [\n    \"x\",\n    null\n  ],\n  \"b\": 1\n}");
    assert_eq!(write_json(&Json::Number(JsonNumber::NegInt(5)), false), "5");
    assert_eq!(write_json(&Json::Number(JsonNumber::Float("6.0".to_string())), false), "6.0");
    let round = to_json(&to_value(&value));
    assert_eq!(round, object(vec![("a", Json::Array(vec![text("x"), Json::Null])), ("b", num(1))]));
}

#[test]
fn response_bytes_become_data_or_errors() {
    let response = interpret_bytes(200, &br#"{"status":"ok"}"#.to_vec()).unwrap();
    assert_eq!(response.data, object(vec![("status", text("ok"))]));
    assert_eq!(interpret_bytes(204, &Vec::new()).unwrap().data, Json::Object(vec![]));
    match interpret_bytes(502, &b"<html>".to_vec()) {
        Err(CliError::Api { code, message, status, .. }) => {
            assert_eq!(code, "HTTP_502");
            assert!(message.starts_with("The API returned a non-JSON response: "));
            assert_eq!(status, 502);
        }
        other => panic!("unexpected {other:?}"),
    }
    match interpret_bytes(404, &br#"{"error":{"code":"ERR_PROJECT_NOT_FOUND","message":"Nope"}}"#.to_vec()) {
        Err(CliError::Api { code, message, .. }) => {
            assert_eq!(code, "ERR_PROJECT_NOT_FOUND");
            assert_eq!(message, "Nope");
        }
        other => panic!("unexpected {other:?}"),
    }
}

#[test]
fn values_are_formatted_as_json_tables_or_csv() {
    let value = Json::Array(vec![object(vec![("id", num(1)), ("tags", Json::Array(vec![text("a"), text("b")]))])]);
    assert_eq!(format_value(&value, OutputFormat::Json, false).unwrap(), r#"[{"id":1,"tags":["a","b"]}]"#);
    assert_eq!(format_value(&value, OutputFormat::Csv, false).unwrap(), "id,tags\n1,\"[\"\"a\"\",\"\"b\"\"]\"");
    let table = format_value(&value, OutputFormat::Table, false).unwrap();
    assert!(table.contains(r#"["a","b"]"#));
    assert_eq!(format_value(&Json::Array(vec![]), OutputFormat::Table, false).unwrap(), "(no data)");
    assert_eq!(format_value(&Json::Array(vec![]), OutputFormat::Csv, false).unwrap(), "");
    assert_eq!(cell_text(&object(vec![("k", num(2))])), r#"{"k":2}"#);
    let (columns, cells) = table_cells(&value);
    assert_eq!(columns, vec!["id".to_string(), "tags".to_string()]);
    assert_eq!(cells, vec![vec!["1".to_string(), r#"["a","b"]"#.to_string()]]);
}
