use handy::json_util::{
    convert_text, format_text, layout_parsed, normalize, words_of, written_outcome, Conversion,
    Formatter, JsonConverter, JsonEngine, JsonOutcome,
};
use handy::ToolItem;

fn text_of(outcome: JsonOutcome) -> String {
    match outcome {
        JsonOutcome::Converted { text, .. } => text,
        JsonOutcome::Warning(w) => panic!("unexpected warning: {}", w),
    }
}

fn warning_of(outcome: JsonOutcome) -> String {
    match outcome {
        JsonOutcome::Converted { text, .. } => panic!("unexpected success: {}", text),
        JsonOutcome::Warning(w) => w,
    }
}

#[test]
fn pretty_prints_object() {
    match JsonEngine::process("{\"a\":1}", Conversion::Keep, Formatter::Pretty, false) {
        JsonOutcome::Converted { text, structured, value } => {
            assert_eq!(text, "{\n  \"a\": 1\n}");
            assert!(structured);
            let mut expected = serde_json::Map::new();
            expected.insert("a".to_string(), serde_json::Value::from(1));
            assert_eq!(value, Some(serde_json::Value::Object(expected)));
        }
        JsonOutcome::Warning(w) => panic!("unexpected warning: {}", w),
    }
}

#[test]
fn trailing_comma_is_a_warning() {
    let w = warning_of(JsonEngine::process(
        "{\"a\":1,}",
        Conversion::Keep,
        Formatter::Pretty,
        false,
    ));
    assert_eq!(w, "trailing comma at line 1 column 8");
}

#[test]
fn deserialize_unescapes_a_string_literal() {
    let r = JsonEngine::process("\"ab\\\"c\"", Conversion::Deserialize, Formatter::Plain, false);
    assert_eq!(
        r,
        JsonOutcome::Converted { text: "ab\"c".to_string(), structured: false, value: None }
    );
}

#[test]
fn serialize_quotes_plain_text() {
    let r = JsonEngine::process("hello", Conversion::Serialize, Formatter::Plain, false);
    assert_eq!(
        r,
        JsonOutcome::Converted { text: "\"hello\"".to_string(), structured: false, value: None }
    );
}

#[test]
fn pythonic_input_is_normalized_then_printed() {
    assert_eq!(normalize("{'a': None}", true), "{\"a\": null}");
    let r = JsonEngine::process("{'a': None}", Conversion::Keep, Formatter::Pretty, true);
    assert_eq!(text_of(r), "{\n  \"a\": null\n}");
}

#[test]
fn pythonic_input_without_the_flag_fails() {
    let w = warning_of(JsonEngine::process(
        "{'a': None}",
        Conversion::Keep,
        Formatter::Pretty,
        false,
    ));
    assert_eq!(w, "key must be a string at line 1 column 2");
}

#[test]
fn normalize_replaces_blindly() {
    assert_eq!(normalize("it's None", true), "it\"s null");
    assert_eq!(normalize("NoneNone 'NonNone'", true), "nullnull \"Nonnull\"");
    assert_eq!(normalize("Non", true), "Non");
    assert_eq!(normalize("", true), "");
    assert_eq!(normalize("it's None", false), "it's None");
    assert_eq!(normalize("'N'one", true), "\"N\"one");
}

#[test]
fn minimize_is_idempotent_and_keeps_key_order() {
    let once = text_of(JsonEngine::process(
        "{ \"b\" : [1, 2.50, \"x y\"],\n \"a\" : { \"z\": null, \"c\": true } }",
        Conversion::Keep,
        Formatter::Minimize,
        false,
    ));
    assert_eq!(once, "{\"b\":[1,2.5,\"x y\"],\"a\":{\"z\":null,\"c\":true}}");
    let twice = text_of(JsonEngine::process(
        &once,
        Conversion::Keep,
        Formatter::Minimize,
        false,
    ));
    assert_eq!(twice, once);
}

#[test]
fn minimize_is_not_structured() {
    let r = JsonEngine::process("[1, 2]", Conversion::Keep, Formatter::Minimize, false);
    assert_eq!(
        r,
        JsonOutcome::Converted { text: "[1,2]".to_string(), structured: false, value: None }
    );
}

#[test]
fn pretty_keeps_key_order() {
    let r = text_of(JsonEngine::process(
        "{\"b\":1,\"a\":2}",
        Conversion::Keep,
        Formatter::Pretty,
        false,
    ));
    assert_eq!(r, "{\n  \"b\": 1,\n  \"a\": 2\n}");
}

#[test]
fn plain_format_never_parses() {
    let r = JsonEngine::process("not json {", Conversion::Keep, Formatter::Plain, false);
    assert_eq!(
        r,
        JsonOutcome::Converted { text: "not json {".to_string(), structured: false, value: None }
    );
}

#[test]
fn deserialize_failure_stops_the_pipeline() {
    let w = warning_of(JsonEngine::process(
        "{\"a\":1}",
        Conversion::Deserialize,
        Formatter::Pretty,
        false,
    ));
    assert_eq!(w, "invalid type: map, expected a string at line 1 column 0");
    let w = warning_of(JsonEngine::process(
        "\"abc",
        Conversion::Deserialize,
        Formatter::Plain,
        false,
    ));
    assert_eq!(w, "EOF while parsing a string at line 1 column 4");
}

#[test]
fn deserialize_then_pretty() {
    let r = text_of(JsonEngine::process(
        "\"{\\\"a\\\":[1]}\"",
        Conversion::Deserialize,
        Formatter::Pretty,
        false,
    ));
    assert_eq!(r, "{\n  \"a\": [\n    1\n  ]\n}");
}

#[test]
fn serialize_with_a_format_does_not_crash() {
    let r = text_of(JsonEngine::process(
        "{\"a\":1}",
        Conversion::Serialize,
        Formatter::Pretty,
        false,
    ));
    assert_eq!(r, "\"{\\\"a\\\":1}\"");
}

#[test]
fn serialize_escapes_as_json_does() {
    let cases = [
        ("", "\"\""),
        ("a\"b", "\"a\\\"b\""),
        ("a\\b", "\"a\\\\b\""),
        ("\u{8}\t\n\u{c}\r", "\"\\b\\t\\n\\f\\r\""),
        ("\u{0}\u{1}\u{b}\u{e}\u{1f}", "\"\\u0000\\u0001\\u000b\\u000e\\u001f\""),
        ("\u{7f} / é 中 \u{1F600}", "\"\u{7f} / é 中 \u{1F600}\""),
        (" ", "\" \""),
    ];
    for (input, expected) in cases {
        let r = convert_text(input.to_string(), Conversion::Serialize);
        assert_eq!(r, Ok(expected.to_string()));
    }
}

#[test]
fn conversion_step_alone() {
    assert_eq!(convert_text("x".to_string(), Conversion::Keep), Ok("x".to_string()));
    assert_eq!(
        convert_text("\"\\u4e2d\\n\"".to_string(), Conversion::Deserialize),
        Ok("中\n".to_string())
    );
    assert_eq!(
        convert_text("x".to_string(), Conversion::Deserialize),
        Err("expected value at line 1 column 1".to_string())
    );
}

#[test]
fn format_step_alone() {
    assert_eq!(
        format_text("[ ]".to_string(), Formatter::Pretty),
        JsonOutcome::Converted {
            text: "[]".to_string(),
            structured: true,
            value: Some(serde_json::Value::Array(Vec::new())),
        }
    );
    assert_eq!(
        format_text("".to_string(), Formatter::Minimize),
        JsonOutcome::Warning("EOF while parsing a value at line 1 column 0".to_string())
    );
}

#[test]
fn converter_opens_empty_and_pretty() {
    let c = JsonConverter::default();
    assert_eq!(c.input(), "");
    assert_eq!(c.converted(), "");
    assert_eq!(c.format(), Formatter::Pretty);
    assert_eq!(c.conversion(), Conversion::Keep);
    assert_eq!(c.warning(), "");
    assert!(!c.use_json_tree());
    assert!(c.tree().is_none());
    assert_eq!(c.search_input(), "");
    assert_eq!(c.copied_prompt(), "");
    assert!(!c.pythonic_style());
    assert_eq!(c.name(), "JSON 转换");
    assert_eq!(c.description(), "JSON 字符串格式处理");
}

#[test]
fn converter_keeps_last_output_on_failure() {
    let mut c = JsonConverter::default();
    c.set_input("{\"a\":1}".to_string());
    c.process();
    assert_eq!(c.converted(), "{\n  \"a\": 1\n}");
    assert_eq!(c.warning(), "");
    assert!(c.use_json_tree());
    assert!(c.tree().is_some());
    c.set_input("{\"a\":1,}".to_string());
    c.process();
    assert_eq!(c.converted(), "{\n  \"a\": 1\n}");
    assert_eq!(c.warning(), "trailing comma at line 1 column 8");
    assert!(!c.use_json_tree());
    assert!(c.tree().is_none());
    c.set_input("[]".to_string());
    c.process();
    assert_eq!(c.converted(), "[]");
    assert_eq!(c.warning(), "");
}

#[test]
fn converter_serialize_selects_plain_format() {
    let mut c = JsonConverter::default();
    c.set_conversion(Conversion::Deserialize);
    assert_eq!(c.format(), Formatter::Pretty);
    c.set_conversion(Conversion::Serialize);
    assert_eq!(c.format(), Formatter::Plain);
    assert_eq!(c.conversion(), Conversion::Serialize);
    c.set_input("hello".to_string());
    c.process();
    assert_eq!(c.converted(), "\"hello\"");
    c.set_format(Formatter::Minimize);
    assert_eq!(c.format(), Formatter::Minimize);
}

#[test]
fn converter_copy_mark_and_search() {
    let mut c = JsonConverter::default();
    c.mark_copied();
    assert!(c.copied());
    assert_eq!(c.copied_prompt(), "已复制");
    c.dismiss_copied();
    assert!(!c.copied());
    c.mark_copied();
    c.set_pythonic_style(true);
    c.set_input("{'k': None}".to_string());
    c.process();
    assert!(!c.copied());
    assert_eq!(c.converted(), "{\n  \"k\": null\n}");
    c.set_search_input("k".to_string());
    assert_eq!(c.search_input(), "k");
    c.clear_search();
    assert_eq!(c.search_input(), "");
}

#[test]
fn words_take_the_place_of_an_error() {
    assert_eq!(words_of(Ok("fine".to_string())), Ok("fine".to_string()));
    let e = serde_json::from_str::<serde_json::Value>("[1,").unwrap_err();
    assert_eq!(words_of(Err(e)), Err("EOF while parsing a value at line 1 column 3".to_string()));
}

#[test]
fn outcome_of_a_document_written() {
    let document = serde_json::Value::Bool(true);
    assert_eq!(
        written_outcome(Ok("true".to_string()), true, document.clone()),
        JsonOutcome::Converted {
            text: "true".to_string(),
            structured: true,
            value: Some(document.clone()),
        }
    );
    assert_eq!(
        written_outcome(Ok("true".to_string()), false, document.clone()),
        JsonOutcome::Converted { text: "true".to_string(), structured: false, value: None }
    );
    assert_eq!(
        written_outcome(Err("no".to_string()), true, document),
        JsonOutcome::Warning("no".to_string())
    );
}

#[test]
fn outcome_of_a_text_read() {
    let mut map = serde_json::Map::new();
    map.insert("z".to_string(), serde_json::Value::Null);
    map.insert("a".to_string(), serde_json::Value::from(vec![1, 2]));
    let document = serde_json::Value::Object(map);
    assert_eq!(
        layout_parsed(Ok(document.clone()), true),
        JsonOutcome::Converted {
            text: "{\n  \"z\": null,\n  \"a\": [\n    1,\n    2\n  ]\n}".to_string(),
            structured: true,
            value: Some(document.clone()),
        }
    );
    assert_eq!(
        layout_parsed(Ok(document), false),
        JsonOutcome::Converted {
            text: "{\"z\":null,\"a\":[1,2]}".to_string(),
            structured: false,
            value: None,
        }
    );
    let e = serde_json::from_str::<serde_json::Value>("nul").unwrap_err();
    assert_eq!(
        layout_parsed(Err(e), true),
        JsonOutcome::Warning("EOF while parsing a value at line 1 column 3".to_string())
    );
}
