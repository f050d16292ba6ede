use felix_config::{decode, interpret, Colorname, Fault, Field, FxError, Yaml};

fn text(value: &str) -> Yaml {
    Yaml::Text(value.to_string())
}

fn entry(key: &str, value: Yaml) -> (Yaml, Yaml) {
    (text(key), value)
}

fn scheme(dirty: Yaml) -> Yaml {
    Yaml::Mapping(vec![
        entry("dir_fg", text("LightCyan")),
        entry("file_fg", text("LightWhite")),
        entry("symlink_fg", text("LightYellow")),
        entry("dirty_fg", dirty),
    ])
}

#[test]
fn null_document_sets_nothing() {
    let config = decode(&Yaml::Null).unwrap();
    assert_eq!(config.default, None);
    assert_eq!(config.match_vim_exit_behavior, None);
    assert_eq!(config.exec_table, None);
    assert_eq!(config.ignore_case, None);
    assert_eq!(config.color, None);
}

#[test]
fn mapping_without_entries_sets_nothing() {
    let config = decode(&Yaml::Mapping(Vec::new())).unwrap();
    assert_eq!(config.default, None);
    assert_eq!(config.ignore_case, None);
    assert_eq!(config.color, None);
}

#[test]
fn other_documents_are_no_configuration() {
    for document in [
        Yaml::Bool(true),
        Yaml::Number(Some(1)),
        text("nvim"),
        Yaml::Sequence(Vec::new()),
        Yaml::Tagged("!Config".to_string(), Box::new(Yaml::Mapping(Vec::new()))),
    ] {
        assert_eq!(decode(&document).unwrap_err(), Fault::Mismatch(Field::Document));
    }
}

#[test]
fn repeated_key_is_a_fault() {
    let document = Yaml::Mapping(vec![
        entry("ignore_case", Yaml::Bool(true)),
        entry("default", text("vim")),
        entry("ignore_case", Yaml::Bool(true)),
    ]);
    assert_eq!(decode(&document).unwrap_err(), Fault::Duplicate(Field::IgnoreCase));
    let document = Yaml::Mapping(vec![entry(
        "color",
        Yaml::Mapping(vec![
            entry("dir_fg", text("Red")),
            entry("file_fg", text("Red")),
            entry("file_fg", text("Red")),
            entry("symlink_fg", text("Red")),
            entry("dirty_fg", text("Red")),
        ]),
    )]);
    assert_eq!(decode(&document).unwrap_err(), Fault::Duplicate(Field::FileFg));
}

#[test]
fn keys_that_are_not_strings_are_passed_over() {
    let document = Yaml::Mapping(vec![
        (Yaml::Number(Some(0)), text("zero")),
        (Yaml::Null, text("nothing")),
        (Yaml::Sequence(vec![text("default")]), text("list")),
        entry("default", text("vim")),
    ]);
    assert_eq!(decode(&document).unwrap().default, Some("vim".to_string()));
}

#[test]
fn later_entry_of_a_command_counts() {
    let document = Yaml::Mapping(vec![entry(
        "exec",
        Yaml::Mapping(vec![
            entry("mpv", Yaml::Sequence(vec![text("mp4")])),
            entry("feh", Yaml::Sequence(vec![text("png"), text("jpg")])),
            entry("mpv", Yaml::Sequence(vec![text("mkv")])),
        ]),
    )]);
    let table = decode(&document).unwrap().exec_table.unwrap();
    assert_eq!(table.get("mpv"), Some(&vec!["mkv".to_string()]));
    assert_eq!(table.get("feh"), Some(&vec!["png".to_string(), "jpg".to_string()]));
}

#[test]
fn commands_must_be_strings_with_lists_of_strings() {
    for routes in [
        vec![(Yaml::Number(Some(1)), Yaml::Sequence(vec![text("pdf")]))],
        vec![entry("zathura", Yaml::Null)],
        vec![entry("zathura", text("pdf"))],
        vec![entry("zathura", Yaml::Sequence(vec![text("pdf"), Yaml::Number(Some(1))]))],
        vec![
            entry("zathura", Yaml::Sequence(vec![text("pdf")])),
            entry("mpv", Yaml::Sequence(vec![Yaml::Bool(true)])),
        ],
    ] {
        let document = Yaml::Mapping(vec![entry("exec", Yaml::Mapping(routes))]);
        assert_eq!(decode(&document).unwrap_err(), Fault::Mismatch(Field::Exec));
    }
}

#[test]
fn tagged_colors() {
    let rgb = Yaml::Tagged(
        "!Rgb".to_string(),
        Box::new(Yaml::Sequence(vec![
            Yaml::Number(Some(0)),
            Yaml::Number(Some(128)),
            Yaml::Number(Some(255)),
        ])),
    );
    let document = Yaml::Mapping(vec![entry("color", scheme(rgb))]);
    assert_eq!(decode(&document).unwrap().color.unwrap().dirty_fg, Colorname::Rgb(0, 128, 255));

    let code = Yaml::Tagged("!AnsiValue".to_string(), Box::new(Yaml::Number(Some(255))));
    let document = Yaml::Mapping(vec![entry("color", scheme(code))]);
    assert_eq!(decode(&document).unwrap().color.unwrap().dirty_fg, Colorname::AnsiValue(255));

    let named = Yaml::Tagged("!LightMagenta".to_string(), Box::new(Yaml::Null));
    let document = Yaml::Mapping(vec![entry("color", scheme(named))]);
    assert_eq!(decode(&document).unwrap().color.unwrap().dirty_fg, Colorname::LightMagenta);
}

#[test]
fn tagged_nodes_that_are_no_color() {
    for node in [
        Yaml::Tagged("!Rgb".to_string(), Box::new(Yaml::Sequence(vec![Yaml::Number(Some(1))]))),
        Yaml::Tagged(
            "!Rgb".to_string(),
            Box::new(Yaml::Sequence(vec![
                Yaml::Number(Some(1)),
                Yaml::Number(Some(2)),
                Yaml::Number(Some(256)),
            ])),
        ),
        Yaml::Tagged(
            "!Rgb".to_string(),
            Box::new(Yaml::Sequence(vec![
                Yaml::Number(Some(1)),
                Yaml::Number(None),
                Yaml::Number(Some(3)),
            ])),
        ),
        Yaml::Tagged("!Rgb".to_string(), Box::new(Yaml::Null)),
        Yaml::Tagged("!AnsiValue".to_string(), Box::new(Yaml::Number(Some(256)))),
        Yaml::Tagged("!AnsiValue".to_string(), Box::new(text("7"))),
        Yaml::Tagged("!Red".to_string(), Box::new(text("Red"))),
        Yaml::Tagged("Red".to_string(), Box::new(Yaml::Null)),
        Yaml::Tagged("!Purple".to_string(), Box::new(Yaml::Null)),
        Yaml::Tagged("".to_string(), Box::new(Yaml::Null)),
        Yaml::Null,
        Yaml::Number(Some(1)),
        Yaml::Bool(false),
    ] {
        let document = Yaml::Mapping(vec![entry("color", scheme(node))]);
        assert_eq!(decode(&document).unwrap_err(), Fault::Mismatch(Field::DirtyFg));
    }
}

#[test]
fn parser_message_becomes_a_syntax_fault() {
    assert_eq!(
        interpret(Err("line 1: mapping values are not allowed".to_string())).unwrap_err(),
        FxError::Deserialization(Fault::Syntax(
            "line 1: mapping values are not allowed".to_string()
        ))
    );
}

#[test]
fn parsed_document_is_decoded() {
    let config = interpret(Ok(Yaml::Mapping(vec![entry("default", text("hx"))]))).unwrap();
    assert_eq!(config.default, Some("hx".to_string()));
    assert_eq!(
        interpret(Ok(text("hx"))).unwrap_err(),
        FxError::Deserialization(Fault::Mismatch(Field::Document))
    );
}

#[test]
fn field_keys() {
    assert_eq!(Field::Default.key(), "default");
    assert_eq!(Field::MatchVimExitBehavior.key(), "match_vim_exit_behavior");
    assert_eq!(Field::Exec.key(), "exec");
    assert_eq!(Field::IgnoreCase.key(), "ignore_case");
    assert_eq!(Field::Color.key(), "color");
    assert_eq!(Field::DirFg.key(), "dir_fg");
    assert_eq!(Field::FileFg.key(), "file_fg");
    assert_eq!(Field::SymlinkFg.key(), "symlink_fg");
    assert_eq!(Field::DirtyFg.key(), "dirty_fg");
    assert_eq!(Field::Document.key(), "");
}
