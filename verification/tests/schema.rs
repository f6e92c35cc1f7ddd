use up_config::schema::ConfigToml;
use up_config::schema::LoadError;

#[test]
fn empty_document_yields_all_absent_settings() {
    let settings = ConfigToml::from_toml_str("").unwrap();
    assert_eq!(settings.link, None);
    assert_eq!(settings.tasks_path, None);
    assert_eq!(settings, ConfigToml::default());
}

#[test]
fn recognized_keys_are_extracted() {
    let text = "tasks_path = \"my/tasks\"\n[link]\nfrom_dir = \"a\"\nto_dir = \"b\"\nbackup_dir = \"c\"\n";
    let settings = ConfigToml::from_toml_str(text).unwrap();
    assert_eq!(settings.tasks_path, Some(String::from("my/tasks")));
    let link = settings.link.expect("link table should be present");
    assert_eq!(link.from_dir, Some(String::from("a")));
    assert_eq!(link.to_dir, Some(String::from("b")));
    assert_eq!(link.backup_dir, Some(String::from("c")));
}

#[test]
fn unknown_top_level_key_is_fatal() {
    let r = ConfigToml::from_toml_str("tasks_path = \"t\"\nbogus = \"x\"\n");
    match r {
        Err(LoadError::UnknownKey(k)) => assert_eq!(k, "bogus"),
        _ => panic!("an unknown top-level key must fail the parse"),
    }
}

#[test]
fn nested_unknown_key_is_fatal() {
    // Strictness must hold below the top level too.
    let r = ConfigToml::from_toml_str("[link]\nfrom_dir = \"a\"\nlink_dir = \"b\"\n");
    match r {
        Err(LoadError::UnknownKey(k)) => assert_eq!(k, "link_dir"),
        _ => panic!("an unknown nested key must fail the parse"),
    }
}

#[test]
fn wrong_value_type_is_fatal() {
    let r = ConfigToml::from_toml_str("tasks_path = 3\n");
    match r {
        Err(LoadError::WrongType(k)) => assert_eq!(k, "tasks_path"),
        _ => panic!("a non-string tasks_path must fail the parse"),
    }
    let r = ConfigToml::from_toml_str("link = \"not a table\"\n");
    match r {
        Err(LoadError::WrongType(k)) => assert_eq!(k, "link"),
        _ => panic!("a non-table link must fail the parse"),
    }
}

#[test]
fn malformed_toml_is_fatal() {
    let r = ConfigToml::from_toml_str("this is not = = toml");
    assert!(matches!(r, Err(LoadError::Syntax(_))));
}

#[test]
fn duplicate_key_is_fatal() {
    let r = ConfigToml::from_toml_str("tasks_path = \"a\"\ntasks_path = \"b\"\n");
    assert!(matches!(r, Err(LoadError::Syntax(_))));
}

#[test]
fn parsing_is_deterministic() {
    let text = "tasks_path = \"t\"\n[link]\nfrom_dir = \"a\"\n";
    let first = ConfigToml::from_toml_str(text).unwrap();
    let second = ConfigToml::from_toml_str(text).unwrap();
    assert_eq!(first, second);
}

#[test]
fn invalid_utf8_decodes_lossily() {
    // An invalid byte inside a string value becomes U+FFFD; the document
    // still parses.
    let bytes: Vec<u8> = b"tasks_path = \"a\xFFb\"\n".to_vec();
    let settings = ConfigToml::from_toml_bytes(&bytes).unwrap();
    assert_eq!(settings.tasks_path, Some(String::from("a\u{FFFD}b")));
}

#[test]
fn load_error_messages_name_the_key() {
    let e = LoadError::UnknownKey(String::from("bogus"));
    assert_eq!(e.message(), "unknown key in config file: bogus");
    let e = LoadError::WrongType(String::from("link"));
    assert_eq!(e.message(), "wrong value type for config key: link");
    let e = LoadError::Syntax(String::from("boom"));
    assert_eq!(e.message(), "invalid TOML in config file: boom");
}
