use reqcli::body::{
    assemble_body, classify_fragment, content_type_for, parse_form_fields, path_source,
    plan_from_source, BodyContent, BodyFlags, FragmentSource,
};
use reqcli::cli::BodySource;
use reqcli::error::Error;

fn plain_flags() -> BodyFlags {
    BodyFlags::new(false, false, false).unwrap()
}

fn json_flags() -> BodyFlags {
    BodyFlags::new(true, false, false).unwrap()
}

fn url_encoded_flags() -> BodyFlags {
    BodyFlags::new(false, true, false).unwrap()
}

#[test]
fn flags_refuse_two_kinds() {
    assert_eq!(BodyFlags::new(true, true, false), None);
    assert_eq!(BodyFlags::new(true, false, true), None);
    assert_eq!(BodyFlags::new(false, true, true), None);
    assert!(BodyFlags::new(false, false, true).is_some());
}

#[test]
fn json_body_assembles_when_valid() {
    let contents = vec![BodyContent::Text("{\"a\":1}".to_string())];
    let bytes = assemble_body(&contents, &json_flags()).unwrap();
    assert_eq!(bytes, b"{\"a\":1}".to_vec());
}

#[test]
fn json_body_rejects_malformed_text() {
    let contents = vec![BodyContent::Text("not json".to_string())];
    match assemble_body(&contents, &json_flags()) {
        Err(Error::InvalidJson(diagnostic)) => assert!(!diagnostic.is_empty()),
        other => panic!("expected InvalidJson, got {:?}", other),
    }
}

#[test]
fn json_body_accepts_json5_tolerant_text() {
    let contents = vec![BodyContent::Text("{a: 1, /* note */ }".to_string())];
    assert!(assemble_body(&contents, &json_flags()).is_ok());
}

#[test]
fn json_body_rejects_invalid_utf8_bytes() {
    let contents = vec![BodyContent::Binary(vec![0xff, 0xfe])];
    assert_eq!(assemble_body(&contents, &json_flags()), Err(Error::Utf8DecodeError));
}

#[test]
fn json_validation_stops_at_first_bad_fragment() {
    let contents = vec![
        BodyContent::Text("{}".to_string()),
        BodyContent::Text("nope".to_string()),
        BodyContent::Binary(vec![0xff]),
    ];
    assert!(matches!(
        assemble_body(&contents, &json_flags()),
        Err(Error::InvalidJson(_))
    ));
}

#[test]
fn fragments_concatenate_in_order() {
    let contents = vec![
        BodyContent::Text("ab".to_string()),
        BodyContent::Binary(vec![0x00, 0xff]),
        BodyContent::Text("c".to_string()),
    ];
    let bytes = assemble_body(&contents, &plain_flags()).unwrap();
    assert_eq!(bytes, vec![b'a', b'b', 0x00, 0xff, b'c']);
}

#[test]
fn url_encoded_body_prefixes_every_fragment() {
    // The separator comes before each fragment, the first included: the
    // assembled body deliberately starts with `&`.
    let contents = vec![
        BodyContent::Text("a=1".to_string()),
        BodyContent::Text("b=2".to_string()),
    ];
    let bytes = assemble_body(&contents, &url_encoded_flags()).unwrap();
    assert_eq!(bytes, b"&a=1&b=2".to_vec());
}

#[test]
fn empty_fragment_list_gives_empty_body() {
    assert_eq!(assemble_body(&vec![], &plain_flags()).unwrap(), Vec::<u8>::new());
    assert_eq!(assemble_body(&vec![], &url_encoded_flags()).unwrap(), Vec::<u8>::new());
    assert_eq!(assemble_body(&vec![], &json_flags()).unwrap(), Vec::<u8>::new());
}

#[test]
fn content_to_text_and_bytes() {
    assert_eq!(
        BodyContent::Text("hé".to_string()).to_bytes(),
        "hé".as_bytes().to_vec()
    );
    assert_eq!(BodyContent::Binary(vec![1, 2]).to_bytes(), vec![1, 2]);
    assert_eq!(
        BodyContent::Binary("ok".as_bytes().to_vec()).to_text().unwrap(),
        "ok"
    );
    assert_eq!(
        BodyContent::Binary(vec![0xff]).to_text(),
        Err(Error::Utf8DecodeError)
    );
}

#[test]
fn form_fields_split_in_order() {
    let fields = vec!["a=1".to_string(), "b=2".to_string()];
    let pairs = parse_form_fields(&fields).unwrap();
    assert_eq!(
        pairs,
        vec![("a".to_string(), "1".to_string()), ("b".to_string(), "2".to_string())]
    );
}

#[test]
fn form_field_without_eq_fails_naming_it() {
    let fields = vec!["bad".to_string()];
    assert_eq!(
        parse_form_fields(&fields),
        Err(Error::InvalidFormField("bad".to_string()))
    );
}

#[test]
fn fragment_classification() {
    assert_eq!(
        classify_fragment("plain text"),
        FragmentSource::Literal("plain text".to_string())
    );
    assert_eq!(
        classify_fragment("@notes.txt"),
        FragmentSource::FilePath("notes.txt".to_string())
    );
    assert_eq!(classify_fragment("@-"), FragmentSource::StandardInput);
    // A bare `-` fragment is literal text; only a `-` path means stdin.
    assert_eq!(classify_fragment("-"), FragmentSource::Literal("-".to_string()));
}

#[test]
fn stdin_path_reads_standard_input() {
    assert_eq!(path_source("-"), FragmentSource::StandardInput);
    assert_eq!(path_source("-x"), FragmentSource::FilePath("-x".to_string()));
}

#[test]
fn plan_prefers_inline_then_path() {
    let inline = BodySource {
        string: Some("body".to_string()),
        path: None,
        form_fields: None,
    };
    assert_eq!(
        plan_from_source(&inline),
        vec![FragmentSource::Literal("body".to_string())]
    );
    let stdin = BodySource {
        string: None,
        path: Some("-".to_string()),
        form_fields: None,
    };
    assert_eq!(plan_from_source(&stdin), vec![FragmentSource::StandardInput]);
    let none = BodySource { string: None, path: None, form_fields: None };
    assert_eq!(plan_from_source(&none), Vec::<FragmentSource>::new());
}

#[test]
fn implied_content_types() {
    assert_eq!(content_type_for(&json_flags()), Some("application/json"));
    assert_eq!(
        content_type_for(&url_encoded_flags()),
        Some("application/x-www-form-urlencoded")
    );
    assert_eq!(content_type_for(&plain_flags()), None);
    assert_eq!(content_type_for(&BodyFlags::new(false, false, true).unwrap()), None);
}
