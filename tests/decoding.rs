use nereond::{encoding_identity, parse_fileset, parse_mode, ContentError, Encoding, File, Node, ParseError};

fn file(content: Option<&str>, encoding: Encoding) -> File {
    File {
        path: "/tmp/f".to_string(),
        user: None,
        group: None,
        mode: None,
        content: content.map(|s| s.to_string()),
        encoding,
    }
}

fn text(s: &str) -> Node {
    Node::Text(s.to_string())
}

fn table(entries: Vec<(&str, Node)>) -> Node {
    Node::Table(entries.into_iter().map(|(k, v)| (k.to_string(), v)).collect())
}

fn doc(entries: Vec<(&str, Node)>) -> Node {
    table(vec![("file", table(entries))])
}

#[test]
fn mode_octal_values() {
    assert_eq!(parse_mode("644"), Some(0o644));
    assert_eq!(parse_mode("600"), Some(0o600));
    assert_eq!(parse_mode("7777"), Some(4095));
    assert_eq!(parse_mode("1"), Some(1));
    assert_eq!(parse_mode("+755"), Some(0o755));
    assert_eq!(parse_mode("0644"), Some(0o644));
}

#[test]
fn mode_rejects_invalid() {
    assert_eq!(parse_mode("10000"), None);
    assert_eq!(parse_mode("abc"), None);
    assert_eq!(parse_mode("0"), None);
    assert_eq!(parse_mode("000"), None);
    assert_eq!(parse_mode(""), None);
    assert_eq!(parse_mode("+"), None);
    assert_eq!(parse_mode("-1"), None);
    assert_eq!(parse_mode("8"), None);
    assert_eq!(parse_mode("64 4"), None);
    assert_eq!(parse_mode("77777777777777777777777"), None);
}

#[test]
fn encoding_names_ignore_case() {
    assert_eq!(Encoding::from_name("base64"), Some(Encoding::Base64));
    assert_eq!(Encoding::from_name("BASE64"), Some(Encoding::Base64));
    assert_eq!(Encoding::from_name("Identity"), Some(Encoding::Identity));
    assert_eq!(Encoding::from_name("hex"), None);
    assert_eq!(Encoding::from_name(""), None);
    assert_eq!(encoding_identity(), Encoding::Identity);
}

#[test]
fn decode_identity_is_utf8() {
    assert_eq!(file(Some("hi"), Encoding::Identity).decode(), Ok(b"hi".to_vec()));
    assert_eq!(file(Some("\u{e9}"), Encoding::Identity).decode(), Ok(vec![0xc3, 0xa9]));
    assert_eq!(file(Some(""), Encoding::Identity).decode(), Ok(vec![]));
}

#[test]
fn decode_base64() {
    assert_eq!(file(Some("AQ=="), Encoding::Base64).decode(), Ok(vec![1]));
    assert_eq!(file(Some("aGk="), Encoding::Base64).decode(), Ok(b"hi".to_vec()));
    assert_eq!(file(Some("!!"), Encoding::Base64).decode(), Err(ContentError::InvalidBase64));
    assert_eq!(file(Some("AQ="), Encoding::Base64).decode(), Err(ContentError::InvalidBase64));
}

#[test]
fn decode_without_content_is_empty() {
    assert_eq!(file(None, Encoding::Base64).decode(), Ok(vec![]));
}

#[test]
fn base64_round_trip() {
    let samples: Vec<Vec<u8>> = vec![vec![], vec![0], vec![255, 0, 1], (0..=255).collect()];
    for bytes in samples {
        #[allow(deprecated)]
        let encoded = base64::encode(&bytes);
        assert_eq!(file(Some(&encoded), Encoding::Base64).decode(), Ok(bytes));
    }
}

#[test]
fn fileset_without_file_table_is_empty() {
    assert!(parse_fileset(&table(vec![])).unwrap().is_empty());
    assert!(parse_fileset(&table(vec![("other", table(vec![]))])).unwrap().is_empty());
    assert!(parse_fileset(&table(vec![("file", text("x"))])).unwrap().is_empty());
}

#[test]
fn fileset_document_must_be_table() {
    assert!(matches!(parse_fileset(&text("x")), Err(ParseError::NotTable)));
}

#[test]
fn fileset_reads_entries_in_order() {
    let d = doc(vec![
        ("a", table(vec![("path", text("/tmp/x")), ("content", text("hi")), ("mode", text("600"))])),
        ("b", table(vec![("path", text("/tmp/y")), ("user", text("root")), ("group", text("wheel"))])),
        ("c", table(vec![("path", text("/tmp/z")), ("content", text("AQ==")), ("encoding", text("base64")), ("extra", text("ignored"))])),
    ]);
    let set = parse_fileset(&d).unwrap();
    assert_eq!(set.len(), 3);
    assert_eq!(set[0].0, "a");
    assert_eq!(set[0].1.path, "/tmp/x");
    assert_eq!(set[0].1.content.as_deref(), Some("hi"));
    assert_eq!(set[0].1.mode.as_deref(), Some("600"));
    assert_eq!(set[0].1.encoding, Encoding::Identity);
    assert_eq!(set[1].0, "b");
    assert_eq!(set[1].1.content, None);
    assert_eq!(set[1].1.user.as_deref(), Some("root"));
    assert_eq!(set[1].1.group.as_deref(), Some("wheel"));
    assert_eq!(set[2].0, "c");
    assert_eq!(set[2].1.encoding, Encoding::Base64);
}

#[test]
fn fileset_refuses_bad_entries() {
    let missing = doc(vec![("a", table(vec![("content", text("hi"))]))]);
    assert!(matches!(parse_fileset(&missing), Err(ParseError::MissingPath(id)) if id == "a"));
    let empty = doc(vec![("a", table(vec![("path", text(""))]))]);
    assert!(matches!(parse_fileset(&empty), Err(ParseError::MissingPath(_))));
    let not_table = doc(vec![("a", text("x"))]);
    assert!(matches!(parse_fileset(&not_table), Err(ParseError::EntryNotTable(_))));
    let list = doc(vec![("a", table(vec![("path", text("/p")), ("mode", Node::List(vec![]))]))]);
    assert!(matches!(parse_fileset(&list), Err(ParseError::FieldNotText(_))));
    let enc = doc(vec![("a", table(vec![("path", text("/p")), ("encoding", text("hex"))]))]);
    assert!(matches!(parse_fileset(&enc), Err(ParseError::UnknownEncoding(_))));
}

#[test]
fn fileset_keeps_undecodable_entries() {
    let d = doc(vec![
        ("bad", table(vec![("path", text("/p")), ("content", text("!!")), ("encoding", text("base64"))])),
        ("good", table(vec![("path", text("/q")), ("content", text("ok"))])),
    ]);
    assert_eq!(parse_fileset(&d).unwrap().len(), 2);
}
