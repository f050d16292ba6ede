use felix_config::{decode, parse_config, Fault, Field, FxError, Yaml};

#[test]
fn text_and_tree_give_the_same_settings() {
    let from_text = parse_config("default: hx\nignore_case: false\n").unwrap();
    let from_tree = decode(&Yaml::Mapping(vec![
        (Yaml::Text("default".to_string()), Yaml::Text("hx".to_string())),
        (Yaml::Text("ignore_case".to_string()), Yaml::Bool(false)),
    ]))
    .unwrap();
    assert_eq!(from_text.default, from_tree.default);
    assert_eq!(from_text.ignore_case, from_tree.ignore_case);
    assert_eq!(from_text.default, Some("hx".to_string()));
    assert_eq!(from_text.ignore_case, Some(false));
}

#[test]
fn quoted_scalars_are_strings() {
    let parsed = parse_config("default: '1'\nexec: {\"true\": ['~', \"2\"]}\n").unwrap();
    assert_eq!(parsed.default, Some("1".to_string()));
    assert_eq!(
        parsed.exec_table.unwrap().get("true"),
        Some(&vec!["~".to_string(), "2".to_string()])
    );
    assert_eq!(
        parse_config("ignore_case: 'true'").unwrap_err(),
        FxError::Deserialization(Fault::Mismatch(Field::IgnoreCase))
    );
}

#[test]
fn plain_scalars_keep_their_yaml_type() {
    assert_eq!(
        parse_config("default: 1").unwrap_err(),
        FxError::Deserialization(Fault::Mismatch(Field::Default))
    );
    assert_eq!(
        parse_config("default: true").unwrap_err(),
        FxError::Deserialization(Fault::Mismatch(Field::Default))
    );
    assert_eq!(parse_config("ignore_case: True").unwrap().ignore_case, Some(true));
    assert_eq!(parse_config("ignore_case: FALSE").unwrap().ignore_case, Some(false));
}

#[test]
fn aliases_are_resolved_by_the_parser() {
    let parsed = parse_config("exec:\n  mpv: &video [mp4, mkv]\n  vlc: *video\n").unwrap();
    let table = parsed.exec_table.unwrap();
    assert_eq!(table.get("mpv"), table.get("vlc"));
    assert_eq!(table.get("vlc"), Some(&vec!["mp4".to_string(), "mkv".to_string()]));
}

#[test]
fn malformed_text_gives_the_parsers_message() {
    match parse_config("a: [1, 2").unwrap_err() {
        FxError::Deserialization(Fault::Syntax(message)) => assert!(!message.is_empty()),
        other => panic!("expected a syntax fault, got {:?}", other),
    }
}

#[test]
fn two_documents_are_not_one() {
    assert!(matches!(
        parse_config("default: a\n---\ndefault: b\n").unwrap_err(),
        FxError::Deserialization(Fault::Syntax(_))
    ));
}
