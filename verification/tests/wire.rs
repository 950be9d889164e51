use serde_json::{Number, Value};
use todo_service::models::{NewTodo, Todo};
use todo_service::wire::{
    decode_id, decode_new_todo, decode_todo, done_from, encode_todos, id_from, title_from,
    todo_from, write_decimal, write_todo, DecodeError,
};

fn decimal(n: i32) -> String {
    let mut out = String::new();
    write_decimal(&mut out, n);
    out
}

fn todo(id: i32, title: &str, done: bool) -> Todo {
    Todo { id, title: title.to_string(), done }
}

fn object(members: Vec<(&str, Value)>) -> Value {
    let mut map = serde_json::Map::new();
    for (key, value) in members {
        map.insert(key.to_string(), value);
    }
    Value::Object(map)
}

#[test]
fn decimal_of_zero_is_one_digit() {
    assert_eq!(decimal(0), "0");
}

#[test]
fn decimal_of_small_numbers() {
    assert_eq!(decimal(7), "7");
    assert_eq!(decimal(10), "10");
    assert_eq!(decimal(42), "42");
    assert_eq!(decimal(1905), "1905");
}

#[test]
fn decimal_of_negative_numbers() {
    assert_eq!(decimal(-1), "-1");
    assert_eq!(decimal(-30), "-30");
}

#[test]
fn decimal_of_the_limits() {
    assert_eq!(decimal(i32::MAX), "2147483647");
    assert_eq!(decimal(i32::MIN), "-2147483648");
}

#[test]
fn decimal_appends_to_what_is_there() {
    let mut out = String::from("id=");
    write_decimal(&mut out, 12);
    assert_eq!(out, "id=12");
}

#[test]
fn decimal_agrees_with_serde_json() {
    for n in [0, 1, 9, 10, 99, 100, 12345, -7, -100, i32::MAX, i32::MIN] {
        assert_eq!(decimal(n), serde_json::to_string(&n).unwrap());
    }
}

#[test]
fn write_todo_frames_the_three_fields() {
    let mut out = String::new();
    write_todo(&mut out, 1, "\"buy milk\"", false);
    assert_eq!(out, "{\"id\":1,\"title\":\"buy milk\",\"done\":false}");
}

#[test]
fn write_todo_writes_true() {
    let mut out = String::from("[");
    write_todo(&mut out, -3, "\"x\"", true);
    assert_eq!(out, "[{\"id\":-3,\"title\":\"x\",\"done\":true}");
}

#[test]
fn encode_no_rows_is_an_empty_array() {
    assert_eq!(encode_todos(&Vec::new()), Some("[]".to_string()));
}

#[test]
fn encode_one_row() {
    let rows = vec![todo(1, "buy milk", false)];
    assert_eq!(
        encode_todos(&rows),
        Some("[{\"id\":1,\"title\":\"buy milk\",\"done\":false}]".to_string())
    );
}

#[test]
fn encode_rows_in_order_with_commas() {
    let rows = vec![todo(2, "b", true), todo(1, "a", false), todo(30, "c", true)];
    assert_eq!(
        encode_todos(&rows),
        Some(
            "[{\"id\":2,\"title\":\"b\",\"done\":true},{\"id\":1,\"title\":\"a\",\"done\":false},{\"id\":30,\"title\":\"c\",\"done\":true}]"
                .to_string()
        )
    );
}

#[test]
fn encode_escapes_the_title() {
    let rows = vec![todo(5, "say \"hi\"\n\\", false)];
    assert_eq!(
        encode_todos(&rows),
        Some("[{\"id\":5,\"title\":\"say \\\"hi\\\"\\n\\\\\",\"done\":false}]".to_string())
    );
}

#[test]
fn encode_keeps_text_outside_ascii() {
    let rows = vec![todo(1, "caf\u{e9} \u{1f600}", true)];
    assert_eq!(
        encode_todos(&rows),
        Some("[{\"id\":1,\"title\":\"caf\u{e9} \u{1f600}\",\"done\":true}]".to_string())
    );
}

#[test]
fn encoded_rows_decode_again() {
    let rows = vec![todo(1, "a \"b\" \t c", false), todo(2, "", true)];
    let text = encode_todos(&rows).unwrap();
    let parsed: Value = serde_json::from_str(&text).unwrap();
    let items = parsed.as_array().unwrap();
    assert_eq!(items.len(), 2);
    assert_eq!(todo_from(&items[0]), Ok(todo(1, "a \"b\" \t c", false)));
    assert_eq!(todo_from(&items[1]), Ok(todo(2, "", true)));
}

#[test]
fn new_todo_decodes_from_a_title() {
    assert_eq!(
        decode_new_todo(b"{\"title\":\"buy milk\"}"),
        Ok(NewTodo { title: "buy milk".to_string() })
    );
}

#[test]
fn new_todo_ignores_id_and_done() {
    assert_eq!(
        decode_new_todo(b"{\"id\": 9, \"title\": \"x\", \"done\": true, \"more\": [1, 2]}"),
        Ok(NewTodo { title: "x".to_string() })
    );
}

#[test]
fn new_todo_ignores_members_of_the_wrong_type() {
    assert_eq!(
        decode_new_todo(b"{\"id\":\"nine\",\"done\":0,\"title\":\"x\"}"),
        Ok(NewTodo { title: "x".to_string() })
    );
}

#[test]
fn new_todo_unescapes_the_title() {
    assert_eq!(
        decode_new_todo(b"{\"title\":\"a\\\"b\\u0041\\n\"}"),
        Ok(NewTodo { title: "a\"bA\n".to_string() })
    );
}

#[test]
fn new_todo_takes_the_last_of_two_titles() {
    assert_eq!(
        decode_new_todo(b"{\"title\":\"a\",\"title\":\"b\"}"),
        Ok(NewTodo { title: "b".to_string() })
    );
}

#[test]
fn new_todo_accepts_an_empty_title() {
    assert_eq!(decode_new_todo(b"{\"title\":\"\"}"), Ok(NewTodo { title: String::new() }));
}

#[test]
fn new_todo_rejects_what_is_not_json() {
    assert_eq!(decode_new_todo(b"{\"title\":"), Err(DecodeError::Malformed));
    assert_eq!(decode_new_todo(b""), Err(DecodeError::Malformed));
    assert_eq!(decode_new_todo(b"title=buy milk"), Err(DecodeError::Malformed));
    assert_eq!(decode_new_todo(b"{'title':'x'}"), Err(DecodeError::Malformed));
}

#[test]
fn new_todo_rejects_text_after_the_document() {
    assert_eq!(decode_new_todo(b"{\"title\":\"x\"} {}"), Err(DecodeError::Malformed));
}

#[test]
fn new_todo_rejects_bytes_that_are_not_utf8() {
    assert_eq!(decode_new_todo(b"{\"title\":\"\xff\"}"), Err(DecodeError::Malformed));
}

#[test]
fn new_todo_rejects_a_missing_title() {
    assert_eq!(decode_new_todo(b"{}"), Err(DecodeError::Title));
    assert_eq!(decode_new_todo(b"{\"Title\":\"x\"}"), Err(DecodeError::Title));
}

#[test]
fn new_todo_rejects_a_title_of_another_type() {
    assert_eq!(decode_new_todo(b"{\"title\":5}"), Err(DecodeError::Title));
    assert_eq!(decode_new_todo(b"{\"title\":null}"), Err(DecodeError::Title));
    assert_eq!(decode_new_todo(b"{\"title\":[\"x\"]}"), Err(DecodeError::Title));
}

#[test]
fn new_todo_rejects_documents_that_are_no_object() {
    assert_eq!(decode_new_todo(b"\"title\""), Err(DecodeError::Title));
    assert_eq!(decode_new_todo(b"[\"x\"]"), Err(DecodeError::Title));
    assert_eq!(decode_new_todo(b"null"), Err(DecodeError::Title));
}

#[test]
fn todo_decodes_from_three_fields() {
    assert_eq!(
        decode_todo(b"{\"id\":1,\"title\":\"buy milk\",\"done\":true}"),
        Ok(todo(1, "buy milk", true))
    );
}

#[test]
fn todo_decodes_in_any_order_with_white_space() {
    assert_eq!(
        decode_todo(b"  { \"done\" : false ,\n \"title\" : \"t\" , \"id\" : -4 , \"x\" : {} } "),
        Ok(todo(-4, "t", false))
    );
}

#[test]
fn todo_takes_the_limits_of_i32() {
    assert_eq!(
        decode_todo(b"{\"id\":2147483647,\"title\":\"\",\"done\":true}"),
        Ok(todo(i32::MAX, "", true))
    );
    assert_eq!(
        decode_todo(b"{\"id\":-2147483648,\"title\":\"\",\"done\":true}"),
        Ok(todo(i32::MIN, "", true))
    );
}

#[test]
fn todo_rejects_an_id_out_of_range() {
    assert_eq!(
        decode_todo(b"{\"id\":2147483648,\"title\":\"t\",\"done\":true}"),
        Err(DecodeError::Id)
    );
    assert_eq!(
        decode_todo(b"{\"id\":-2147483649,\"title\":\"t\",\"done\":true}"),
        Err(DecodeError::Id)
    );
    assert_eq!(
        decode_todo(b"{\"id\":18446744073709551615,\"title\":\"t\",\"done\":true}"),
        Err(DecodeError::Id)
    );
    assert_eq!(
        decode_todo(b"{\"id\":99999999999999999999999,\"title\":\"t\",\"done\":true}"),
        Err(DecodeError::Id)
    );
}

#[test]
fn todo_rejects_an_id_that_is_no_integer() {
    assert_eq!(
        decode_todo(b"{\"id\":1.0,\"title\":\"t\",\"done\":true}"),
        Err(DecodeError::Id)
    );
    assert_eq!(
        decode_todo(b"{\"id\":\"1\",\"title\":\"t\",\"done\":true}"),
        Err(DecodeError::Id)
    );
    assert_eq!(decode_todo(b"{\"title\":\"t\",\"done\":true}"), Err(DecodeError::Id));
}

#[test]
fn todo_rejects_a_missing_title() {
    assert_eq!(decode_todo(b"{\"id\":1,\"done\":true}"), Err(DecodeError::Title));
    assert_eq!(decode_todo(b"{\"id\":1,\"title\":true,\"done\":true}"), Err(DecodeError::Title));
}

#[test]
fn todo_rejects_a_missing_done() {
    assert_eq!(decode_todo(b"{\"id\":1,\"title\":\"t\"}"), Err(DecodeError::Done));
    assert_eq!(decode_todo(b"{\"id\":1,\"title\":\"t\",\"done\":1}"), Err(DecodeError::Done));
    assert_eq!(
        decode_todo(b"{\"id\":1,\"title\":\"t\",\"done\":\"true\"}"),
        Err(DecodeError::Done)
    );
}

#[test]
fn todo_names_the_first_field_that_fails() {
    assert_eq!(decode_todo(b"{}"), Err(DecodeError::Id));
    assert_eq!(decode_todo(b"{\"id\":1}"), Err(DecodeError::Title));
    assert_eq!(decode_todo(b"{\"done\":true}"), Err(DecodeError::Id));
}

#[test]
fn todo_rejects_what_is_not_json() {
    assert_eq!(decode_todo(b"{\"id\":1,\"title\":\"t\",\"done\":true"), Err(DecodeError::Malformed));
    assert_eq!(decode_todo(b"id: 1"), Err(DecodeError::Malformed));
}

#[test]
fn todo_rejects_the_array_form() {
    assert_eq!(decode_todo(b"[1,\"t\",true]"), Err(DecodeError::Id));
}

#[test]
fn id_decodes_alone() {
    assert_eq!(decode_id(b"{\"id\":1}"), Ok(1));
    assert_eq!(decode_id(b"{\"id\":-12}"), Ok(-12));
}

#[test]
fn id_ignores_the_other_members() {
    assert_eq!(decode_id(b"{\"id\":7,\"title\":\"t\",\"done\":false}"), Ok(7));
    assert_eq!(decode_id(b"{\"title\":5,\"done\":\"no\",\"id\":7}"), Ok(7));
}

#[test]
fn id_rejects_a_missing_or_wrong_id() {
    assert_eq!(decode_id(b"{}"), Err(DecodeError::Id));
    assert_eq!(decode_id(b"{\"id\":null}"), Err(DecodeError::Id));
    assert_eq!(decode_id(b"{\"id\":4294967296}"), Err(DecodeError::Id));
    assert_eq!(decode_id(b"7"), Err(DecodeError::Id));
}

#[test]
fn id_rejects_what_is_not_json() {
    assert_eq!(decode_id(b"{\"id\":1"), Err(DecodeError::Malformed));
    assert_eq!(decode_id(b"\xff\xfe"), Err(DecodeError::Malformed));
}

#[test]
fn fields_are_read_from_a_document() {
    let doc = object(vec![
        ("id", Value::Number(Number::from(12))),
        ("title", Value::String("water the plants".to_string())),
        ("done", Value::Bool(true)),
    ]);
    assert_eq!(id_from(&doc), Ok(12));
    assert_eq!(title_from(&doc), Ok("water the plants".to_string()));
    assert_eq!(done_from(&doc), Ok(true));
    assert_eq!(todo_from(&doc), Ok(todo(12, "water the plants", true)));
}

#[test]
fn fields_of_the_wrong_type_are_errors() {
    let doc = object(vec![
        ("id", Value::String("12".to_string())),
        ("title", Value::Bool(false)),
        ("done", Value::Null),
    ]);
    assert_eq!(id_from(&doc), Err(DecodeError::Id));
    assert_eq!(title_from(&doc), Err(DecodeError::Title));
    assert_eq!(done_from(&doc), Err(DecodeError::Done));
    assert_eq!(todo_from(&doc), Err(DecodeError::Id));
}

#[test]
fn fields_of_documents_that_are_no_object_are_errors() {
    for doc in [
        Value::Null,
        Value::Bool(true),
        Value::Number(Number::from(1)),
        Value::String("id".to_string()),
        Value::Array(vec![Value::Number(Number::from(1))]),
    ] {
        assert_eq!(id_from(&doc), Err(DecodeError::Id));
        assert_eq!(title_from(&doc), Err(DecodeError::Title));
        assert_eq!(done_from(&doc), Err(DecodeError::Done));
    }
}

#[test]
fn id_from_checks_the_range() {
    let at_most = object(vec![("id", Value::Number(Number::from(2147483647i64)))]);
    let too_big = object(vec![("id", Value::Number(Number::from(2147483648i64)))]);
    let at_least = object(vec![("id", Value::Number(Number::from(-2147483648i64)))]);
    let too_small = object(vec![("id", Value::Number(Number::from(-2147483649i64)))]);
    let beyond_i64 = object(vec![("id", Value::Number(Number::from(u64::MAX)))]);
    assert_eq!(id_from(&at_most), Ok(i32::MAX));
    assert_eq!(id_from(&too_big), Err(DecodeError::Id));
    assert_eq!(id_from(&at_least), Ok(i32::MIN));
    assert_eq!(id_from(&too_small), Err(DecodeError::Id));
    assert_eq!(id_from(&beyond_i64), Err(DecodeError::Id));
}
