use reqcli::json::{parse_json5, render_json, JsonValue};

fn sample() -> JsonValue {
    JsonValue::Object(vec![
        (
            "a".to_string(),
            JsonValue::Array(vec![
                JsonValue::Number("1".to_string()),
                JsonValue::Number("2".to_string()),
            ]),
        ),
        ("b".to_string(), JsonValue::Null),
    ])
}

/// Drops ANSI escape sequences of the form `ESC [ ... m`.
fn strip_ansi(s: &str) -> String {
    let mut out = String::new();
    let mut chars = s.chars();
    while let Some(c) = chars.next() {
        if c == '\u{1b}' {
            for e in chars.by_ref() {
                if e == 'm' {
                    break;
                }
            }
        } else {
            out.push(c);
        }
    }
    out
}

#[test]
fn leaves_render_their_literal_form() {
    assert_eq!(render_json(&JsonValue::Null, 0, false), "null");
    assert_eq!(render_json(&JsonValue::Bool(true), 0, false), "true");
    assert_eq!(render_json(&JsonValue::Bool(false), 0, false), "false");
    assert_eq!(render_json(&JsonValue::Number("1.5".to_string()), 0, false), "1.5");
    assert_eq!(
        render_json(&JsonValue::Text("hi".to_string()), 0, false),
        "\"hi\""
    );
}

#[test]
fn empty_containers_render_inline() {
    assert_eq!(render_json(&JsonValue::Array(vec![]), 0, false), "[]");
    assert_eq!(render_json(&JsonValue::Object(vec![]), 0, false), "{}");
    assert_eq!(render_json(&JsonValue::Array(vec![]), 3, false), "[]");
}

#[test]
fn nested_render_is_exactly_indented() {
    assert_eq!(
        render_json(&sample(), 0, false),
        "{\n  \"a\": [\n    1,\n    2\n  ],\n  \"b\": null\n}"
    );
}

#[test]
fn depth_shifts_inner_lines_two_spaces_each() {
    let v = JsonValue::Array(vec![JsonValue::Number("7".to_string())]);
    assert_eq!(render_json(&v, 0, false), "[\n  7\n]");
    assert_eq!(render_json(&v, 2, false), "[\n      7\n    ]");
}

#[test]
fn render_is_deterministic() {
    assert_eq!(render_json(&sample(), 0, true), render_json(&sample(), 0, true));
    assert_eq!(render_json(&sample(), 0, false), render_json(&sample(), 0, false));
}

#[test]
fn colorized_render_differs_only_in_escapes() {
    let colored = render_json(&sample(), 0, true);
    let plain = render_json(&sample(), 0, false);
    assert_ne!(colored, plain);
    assert_eq!(strip_ansi(&colored), plain);
}

#[test]
fn leaf_kinds_each_render_in_their_own_color() {
    assert_eq!(
        render_json(&JsonValue::Null, 0, true),
        "\u{1b}[95mnull\u{1b}[0m"
    );
    assert_eq!(
        render_json(&JsonValue::Bool(true), 0, true),
        "\u{1b}[94mtrue\u{1b}[0m"
    );
    assert_eq!(
        render_json(&JsonValue::Number("7".to_string()), 0, true),
        "\u{1b}[96m7\u{1b}[0m"
    );
    assert_eq!(
        render_json(&JsonValue::Text("x".to_string()), 0, true),
        "\u{1b}[92m\"x\"\u{1b}[0m"
    );
}

#[test]
fn render_round_trips_structurally() {
    // Decoding the pretty output gives back the structure of the input.
    let source = "{\"a\":[1,2],\"b\":null}";
    let parsed: serde_json::Value = serde_json5::from_str(source).unwrap();
    let rendered = render_json(&sample(), 0, true);
    let reparsed: serde_json::Value = serde_json5::from_str(&strip_ansi(&rendered)).unwrap();
    assert_eq!(parsed, reparsed);
}

#[test]
fn parse_json5_matches_structure() {
    assert_eq!(parse_json5("{\"a\":[1,2],\"b\":null}").unwrap(), sample());
    assert_eq!(
        parse_json5("\"text\"").unwrap(),
        JsonValue::Text("text".to_string())
    );
    assert_eq!(parse_json5("false").unwrap(), JsonValue::Bool(false));
}

#[test]
fn parse_json5_accepts_tolerant_syntax() {
    // Unquoted keys, trailing commas and comments are JSON5, not JSON.
    let v = parse_json5("{a: 1, /* note */ }").unwrap();
    assert_eq!(
        v,
        JsonValue::Object(vec![("a".to_string(), JsonValue::Number("1".to_string()))])
    );
}

#[test]
fn parse_json5_rejects_malformed_with_diagnostic() {
    let diagnostic = parse_json5("not json").unwrap_err();
    assert!(!diagnostic.is_empty());
}

#[test]
fn renderer_keeps_duplicate_keys_and_order() {
    let v = JsonValue::Object(vec![
        ("z".to_string(), JsonValue::Number("1".to_string())),
        ("a".to_string(), JsonValue::Number("2".to_string())),
        ("z".to_string(), JsonValue::Number("3".to_string())),
    ]);
    assert_eq!(
        render_json(&v, 0, false),
        "{\n  \"z\": 1,\n  \"a\": 2,\n  \"z\": 3\n}"
    );
}

#[test]
fn parse_keeps_key_order() {
    let v = parse_json5("{\"z\": 1, \"a\": 2}").unwrap();
    assert_eq!(
        v,
        JsonValue::Object(vec![
            ("z".to_string(), JsonValue::Number("1".to_string())),
            ("a".to_string(), JsonValue::Number("2".to_string())),
        ])
    );
}
