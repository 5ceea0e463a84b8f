use inline_mod::messages::message_bytes;
use inline_mod::model::DiagKind;

#[test]
fn fixed_message_texts() {
    assert_eq!(
        message_bytes(&DiagKind::AlreadyInline),
        b"This macro only accepts non-inlined modules".to_vec()
    );
    assert_eq!(
        message_bytes(&DiagKind::MissingPath),
        b"Path attribute is required".to_vec()
    );
    assert_eq!(
        message_bytes(&DiagKind::MissingBuildRoot),
        b"Missing `CARGO_MANIFEST_DIR` variable".to_vec()
    );
    assert_eq!(
        message_bytes(&DiagKind::DepthLimit),
        b"Module nesting exceeds the supported depth".to_vec()
    );
}

#[test]
fn read_error_message_format() {
    let k = DiagKind::FileRead {
        name: b"foo".to_vec(),
        path: b"/r/a.rs".to_vec(),
        cause: b"denied".to_vec(),
    };
    assert_eq!(
        String::from_utf8(message_bytes(&k)).unwrap(),
        "Error reading module `foo` (path = `\"/r/a.rs\"`): denied"
    );
}

#[test]
fn parse_message_passed_through() {
    let k = DiagKind::Parse { message: b"unexpected token".to_vec() };
    assert_eq!(message_bytes(&k), b"unexpected token".to_vec());
}
