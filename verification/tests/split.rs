use reqcli::error::Error;
use reqcli::request::parse_headers;
use reqcli::text::split_key_value;

#[test]
fn split_extracts_around_first_eq() {
    let r = split_key_value("key=value").unwrap();
    assert_eq!(r.0, "key");
    assert_eq!(r.1, "value");
}

#[test]
fn split_keeps_later_eq_in_value() {
    let r = split_key_value("a=b=c=d").unwrap();
    assert_eq!(r.0, "a");
    assert_eq!(r.1, "b=c=d");
}

#[test]
fn split_allows_empty_key_and_value() {
    assert_eq!(split_key_value("=v").unwrap(), (String::new(), "v".to_string()));
    assert_eq!(split_key_value("k=").unwrap(), ("k".to_string(), String::new()));
    assert_eq!(split_key_value("=").unwrap(), (String::new(), String::new()));
}

#[test]
fn split_fails_without_eq() {
    assert_eq!(split_key_value("no separator"), None);
    assert_eq!(split_key_value(""), None);
}

#[test]
fn split_handles_non_ascii() {
    let r = split_key_value("schlüssel=wért").unwrap();
    assert_eq!(r.0, "schlüssel");
    assert_eq!(r.1, "wért");
}

#[test]
fn headers_parse_in_order() {
    let headers = vec!["a=1".to_string(), "b=2=3".to_string()];
    let pairs = parse_headers(&headers).unwrap();
    assert_eq!(
        pairs,
        vec![("a".to_string(), "1".to_string()), ("b".to_string(), "2=3".to_string())]
    );
}

#[test]
fn headers_fail_naming_first_malformed() {
    let headers = vec!["good=1".to_string(), "bad".to_string(), "also bad".to_string()];
    assert_eq!(parse_headers(&headers), Err(Error::InvalidHeader("bad".to_string())));
}

#[test]
fn error_messages_name_the_original() {
    assert_eq!(
        Error::InvalidHeader("bad".to_string()).message(),
        "Invalid header: \"bad\""
    );
    assert_eq!(
        Error::InvalidQueryParam("q".to_string()).message(),
        "Invalid query parameter: \"q\""
    );
    assert_eq!(
        Error::InvalidFormField("f".to_string()).message(),
        "Invalid form field: \"f\""
    );
    assert_eq!(Error::InvalidJson("oops".to_string()).message(), "Invalid JSON: oops");
    assert_eq!(Error::InvalidUrl.message(), "Invalid URL");
    assert_eq!(Error::IoError.message(), "I/O error");
    assert_eq!(Error::NetworkError.message(), "Network error");
    assert_eq!(Error::Utf8DecodeError.message(), "Invalid UTF-8");
}
