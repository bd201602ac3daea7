use reqcli::error::Error;
use reqcli::render::{
    render_body, render_header_line, render_header_lines, render_status_line, response_is_json,
    status_class, status_color, RenderedBody, StatusClass,
};

#[test]
fn status_classes_by_range() {
    assert_eq!(status_class(100), StatusClass::Informational);
    assert_eq!(status_class(200), StatusClass::Success);
    assert_eq!(status_class(301), StatusClass::Redirection);
    assert_eq!(status_class(404), StatusClass::ClientError);
    assert_eq!(status_class(500), StatusClass::ServerError);
    assert_eq!(status_class(99), StatusClass::Other);
    assert_eq!(status_class(600), StatusClass::Other);
}

#[test]
fn status_renders_in_the_class_color() {
    // Red for a client error, green for success, yellow for redirection,
    // blue for informational.
    assert_eq!(
        render_status_line("404 Not Found", 404, true),
        "\u{1b}[1m\u{1b}[31m404 Not Found\u{1b}[0m"
    );
    assert_eq!(
        render_status_line("200 OK", 200, true),
        "\u{1b}[1m\u{1b}[32m200 OK\u{1b}[0m"
    );
    assert_eq!(
        render_status_line("301 Moved Permanently", 301, true),
        "\u{1b}[1m\u{1b}[33m301 Moved Permanently\u{1b}[0m"
    );
    assert_eq!(
        render_status_line("100 Continue", 100, true),
        "\u{1b}[1m\u{1b}[34m100 Continue\u{1b}[0m"
    );
    assert_eq!(render_status_line("502 Bad Gateway", 502, true), "\u{1b}[1m\u{1b}[31m502 Bad Gateway\u{1b}[0m");
}

#[test]
fn unknown_status_stays_uncolored() {
    assert_eq!(render_status_line("999 Unknown", 999, true), "\u{1b}[1m999 Unknown\u{1b}[0m");
}

#[test]
fn status_line_is_bare_without_color() {
    assert_eq!(render_status_line("404 Not Found", 404, false), "404 Not Found");
}

#[test]
fn header_lines_colorize_name_and_separator() {
    assert_eq!(render_header_line("server", "nginx", false), "server=nginx");
    assert_eq!(
        render_header_line("server", "nginx", true),
        "\u{1b}[1m\u{1b}[33mserver\u{1b}[0m\u{1b}[2m=\u{1b}[0mnginx"
    );
    let headers = vec![
        ("a".to_string(), "1".to_string()),
        ("b".to_string(), "2".to_string()),
    ];
    assert_eq!(render_header_lines(&headers, false), vec!["a=1", "b=2"]);
}

#[test]
fn json_detection_is_case_insensitive_on_the_name() {
    let headers = vec![(
        "Content-Type".to_string(),
        "application/json; charset=utf-8".to_string(),
    )];
    assert!(response_is_json(&headers));
    let exact = vec![("content-type".to_string(), "application/json".to_string())];
    assert!(response_is_json(&exact));
}

#[test]
fn json_detection_needs_the_substring_in_the_value() {
    assert!(!response_is_json(&vec![(
        "content-type".to_string(),
        "text/html".to_string()
    )]));
    assert!(!response_is_json(&vec![(
        "x-content-type".to_string(),
        "application/json".to_string()
    )]));
    assert!(!response_is_json(&vec![]));
}

#[test]
fn non_json_body_passes_through_bytes() {
    let headers = vec![("content-type".to_string(), "text/plain".to_string())];
    let body = vec![0x00, 0xff, b'x'];
    assert_eq!(
        render_body(&headers, body.clone(), true).unwrap(),
        RenderedBody::Raw(body)
    );
}

#[test]
fn json_body_is_pretty_printed_with_final_newline() {
    let headers = vec![("content-type".to_string(), "application/json".to_string())];
    let body = b"{\"a\":1}".to_vec();
    assert_eq!(
        render_body(&headers, body, false).unwrap(),
        RenderedBody::Pretty("{\n  \"a\": 1\n}\n".to_string())
    );
}

#[test]
fn json_body_with_invalid_utf8_fails_decode() {
    let headers = vec![("content-type".to_string(), "application/json".to_string())];
    assert_eq!(
        render_body(&headers, vec![0xff, 0xfe], false),
        Err(Error::Utf8DecodeError)
    );
}

#[test]
fn json_body_with_bad_syntax_fails_with_diagnostic() {
    let headers = vec![("content-type".to_string(), "application/json".to_string())];
    assert!(matches!(
        render_body(&headers, b"{{nope".to_vec(), false),
        Err(Error::InvalidJson(_))
    ));
}

#[test]
fn status_color_table() {
    assert_eq!(status_color(StatusClass::Informational), "\u{1b}[34m");
    assert_eq!(status_color(StatusClass::Success), "\u{1b}[32m");
    assert_eq!(status_color(StatusClass::Redirection), "\u{1b}[33m");
    assert_eq!(status_color(StatusClass::ClientError), "\u{1b}[31m");
    assert_eq!(status_color(StatusClass::ServerError), "\u{1b}[31m");
    assert_eq!(status_color(StatusClass::Other), "");
}
