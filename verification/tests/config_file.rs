use felix_config::{parse_config, Colorname, Config, ConfigColor, Fault, Field, FxError};

#[test]
fn test_read_default_config() {
    let default_config: Config = parse_config("").unwrap();
    assert_eq!(default_config.default, None);
    assert_eq!(default_config.match_vim_exit_behavior, None);
    assert_eq!(default_config.exec_table, None);
    assert_eq!(default_config.ignore_case, None);
    assert_eq!(default_config.color, None);
}

#[test]
fn test_read_full_config() {
    let full_config: Config = parse_config(
        r#"
default: nvim
match_vim_exit_behavior: true
exec:
  zathura:
    [pdf]
  'feh -.':
    [jpg, jpeg, png, gif, svg, hdr]
ignore_case: true
color:
  dir_fg: LightCyan
  file_fg: LightWhite
  symlink_fg: LightYellow
  dirty_fg: Red
"#,
    )
    .unwrap();
    assert_eq!(full_config.default, Some("nvim".to_string()));
    assert_eq!(full_config.match_vim_exit_behavior, Some(true));
    assert_eq!(
        full_config.exec_table.clone().unwrap().get("zathura"),
        Some(&vec!["pdf".to_string()])
    );
    assert_eq!(
        full_config.exec_table.unwrap().get("feh -."),
        Some(&vec![
            "jpg".to_string(),
            "jpeg".to_string(),
            "png".to_string(),
            "gif".to_string(),
            "svg".to_string(),
            "hdr".to_string()
        ])
    );
    assert_eq!(full_config.ignore_case, Some(true));
    assert_eq!(
        full_config.color.clone().unwrap().dir_fg,
        Colorname::LightCyan
    );
    assert_eq!(
        full_config.color.clone().unwrap().file_fg,
        Colorname::LightWhite
    );
    assert_eq!(
        full_config.color.clone().unwrap().symlink_fg,
        Colorname::LightYellow
    );
    assert_eq!(full_config.color.unwrap().dirty_fg, Colorname::Red);
}

fn fault_of(text: &str) -> Fault {
    match parse_config(text) {
        Err(FxError::Deserialization(fault)) => fault,
        other => panic!("expected a failure of deserialization, got {:?}", other),
    }
}

#[test]
fn empty_document_differs_from_built_in_settings() {
    let parsed = parse_config("").unwrap();
    let built_in = Config::default();
    assert_eq!(parsed.ignore_case, None);
    assert_eq!(built_in.ignore_case, Some(false));
    assert_eq!(parsed.color, None);
    assert_eq!(built_in.color, Some(ConfigColor::default()));
}

#[test]
fn built_in_settings() {
    let built_in = Config::default();
    assert_eq!(built_in.default, None);
    assert_eq!(built_in.match_vim_exit_behavior, None);
    assert_eq!(built_in.exec_table, None);
    assert_eq!(built_in.ignore_case, Some(false));
    assert_eq!(
        built_in.color,
        Some(ConfigColor {
            dir_fg: Colorname::LightCyan,
            file_fg: Colorname::LightWhite,
            symlink_fg: Colorname::LightYellow,
            dirty_fg: Colorname::Red,
        })
    );
}

#[test]
fn comments_and_blank_lines_set_nothing() {
    let parsed = parse_config("# nothing here\n\n").unwrap();
    assert_eq!(parsed.default, None);
    assert_eq!(parsed.match_vim_exit_behavior, None);
    assert_eq!(parsed.exec_table, None);
    assert_eq!(parsed.ignore_case, None);
    assert_eq!(parsed.color, None);
}

#[test]
fn null_settings_are_absent() {
    let parsed = parse_config("default: ~\nexec:\ncolor: null\nignore_case: ~\n").unwrap();
    assert_eq!(parsed.default, None);
    assert_eq!(parsed.exec_table, None);
    assert_eq!(parsed.color, None);
    assert_eq!(parsed.ignore_case, None);
}

#[test]
fn unknown_keys_are_passed_over() {
    let parsed = parse_config("theme: dark\ndefault: vim\n7: seven\n").unwrap();
    assert_eq!(parsed.default, Some("vim".to_string()));
    assert_eq!(parsed.ignore_case, None);
}

#[test]
fn each_named_color_is_read_by_its_name() {
    let parsed = parse_config(
        "color: {dir_fg: LightCyan, file_fg: LightWhite, symlink_fg: LightYellow, dirty_fg: Red}",
    )
    .unwrap();
    assert_eq!(
        parsed.color,
        Some(ConfigColor {
            dir_fg: Colorname::LightCyan,
            file_fg: Colorname::LightWhite,
            symlink_fg: Colorname::LightYellow,
            dirty_fg: Colorname::Red,
        })
    );
}

#[test]
fn colors_with_a_payload_are_written_under_a_tag() {
    let parsed = parse_config(
        "color:\n  dir_fg: !Rgb [255, 0, 17]\n  file_fg: !AnsiValue 33\n  symlink_fg: !Green\n  dirty_fg: 'Blue'\n",
    )
    .unwrap();
    assert_eq!(
        parsed.color,
        Some(ConfigColor {
            dir_fg: Colorname::Rgb(255, 0, 17),
            file_fg: Colorname::AnsiValue(33),
            symlink_fg: Colorname::Green,
            dirty_fg: Colorname::Blue,
        })
    );
}

#[test]
fn unrecognized_color_name_is_a_deserialization_error() {
    let fault = fault_of(
        "color: {dir_fg: LightCyan, file_fg: LightWhite, symlink_fg: LightYellow, dirty_fg: Purple}",
    );
    assert_eq!(fault, Fault::Mismatch(Field::DirtyFg));
}

#[test]
fn color_names_are_case_sensitive() {
    let fault = fault_of(
        "color: {dir_fg: lightcyan, file_fg: LightWhite, symlink_fg: LightYellow, dirty_fg: Red}",
    );
    assert_eq!(fault, Fault::Mismatch(Field::DirFg));
}

#[test]
fn channel_out_of_range_is_no_color() {
    assert_eq!(
        fault_of("color: {dir_fg: !Rgb [256, 0, 0], file_fg: Red, symlink_fg: Red, dirty_fg: Red}"),
        Fault::Mismatch(Field::DirFg)
    );
    assert_eq!(
        fault_of("color: {dir_fg: Red, file_fg: !AnsiValue -1, symlink_fg: Red, dirty_fg: Red}"),
        Fault::Mismatch(Field::FileFg)
    );
    assert_eq!(
        fault_of("color: {dir_fg: Red, file_fg: Red, symlink_fg: !Rgb [1, 2], dirty_fg: Red}"),
        Fault::Mismatch(Field::SymlinkFg)
    );
    assert_eq!(
        fault_of("color: {dir_fg: Red, file_fg: Red, symlink_fg: Red, dirty_fg: Rgb}"),
        Fault::Mismatch(Field::DirtyFg)
    );
}

#[test]
fn missing_slot_is_reported() {
    assert_eq!(
        fault_of("color: {dir_fg: Red, file_fg: Red, dirty_fg: Red}"),
        Fault::Missing(Field::SymlinkFg)
    );
    assert_eq!(fault_of("color: {}"), Fault::Missing(Field::DirFg));
}

#[test]
fn wrong_types_are_reported_by_field() {
    assert_eq!(fault_of("match_vim_exit_behavior: maybe"), Fault::Mismatch(Field::MatchVimExitBehavior));
    assert_eq!(fault_of("ignore_case: 1"), Fault::Mismatch(Field::IgnoreCase));
    assert_eq!(fault_of("default: [nvim]"), Fault::Mismatch(Field::Default));
    assert_eq!(fault_of("exec: nvim"), Fault::Mismatch(Field::Exec));
    assert_eq!(fault_of("exec: {zathura: pdf}"), Fault::Mismatch(Field::Exec));
    assert_eq!(fault_of("exec: {zathura: [pdf, [x]]}"), Fault::Mismatch(Field::Exec));
    assert_eq!(fault_of("color: red"), Fault::Mismatch(Field::Color));
    assert_eq!(fault_of("- nvim\n- true\n"), Fault::Mismatch(Field::Document));
    assert_eq!(fault_of("nvim"), Fault::Mismatch(Field::Document));
}

#[test]
fn earliest_setting_with_a_fault_is_reported() {
    assert_eq!(
        fault_of("color: red\nignore_case: 3\ndefault: []\n"),
        Fault::Mismatch(Field::Default)
    );
}

#[test]
fn malformed_yaml_is_a_syntax_fault() {
    match fault_of("default: [nvim") {
        Fault::Syntax(message) => assert!(!message.is_empty()),
        other => panic!("expected a syntax fault, got {:?}", other),
    }
    match fault_of("default: a\ndefault: b\n") {
        Fault::Syntax(message) => assert!(message.contains("duplicate")),
        other => panic!("expected a syntax fault, got {:?}", other),
    }
}

#[test]
fn empty_exec_table_is_a_table() {
    let parsed = parse_config("exec: {}").unwrap();
    let table = parsed.exec_table.unwrap();
    assert_eq!(table.get("zathura"), None);
}

#[test]
fn commands_are_found_by_exact_text() {
    let parsed = parse_config("exec:\n  'feh -.': [jpg]\n  feh: [png]\n").unwrap();
    let table = parsed.exec_table.unwrap();
    assert_eq!(table.get("feh -."), Some(&vec!["jpg".to_string()]));
    assert_eq!(table.get("feh"), Some(&vec!["png".to_string()]));
    assert_eq!(table.get("feh -"), None);
    assert_eq!(table.get("Feh"), None);
}
