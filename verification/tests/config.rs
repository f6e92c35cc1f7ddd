use up_config::config::Config;
use up_config::config::ConfigError;
use up_config::resolve::ConfigArg;
use up_config::resolve::ResolutionError;
use up_config::schema::ConfigToml;
use up_config::snapshot::EnvSnapshot;
use up_config::snapshot::FsEntry;
use up_config::snapshot::FsView;

fn env(
    up_config: Option<&str>,
    xdg_config_home: Option<&str>,
    home: Option<&str>,
) -> EnvSnapshot {
    EnvSnapshot {
        up_config: up_config.map(String::from),
        xdg_config_home: xdg_config_home.map(String::from),
        home: home.map(String::from),
    }
}

fn fs_with(paths: &[(&str, Option<&[u8]>)]) -> FsView {
    FsView {
        entries: paths
            .iter()
            .map(|(p, c)| FsEntry {
                path: String::from(*p),
                content: c.map(|b| b.to_vec()),
            })
            .collect(),
    }
}

/// Possible options for locating the up.toml, one precedence scenario at a
/// time, each against its own isolated snapshot.
#[test]
fn get_toml_paths() {
    let default_path = "$XDG_CONFIG_HOME/up/up.toml";
    let fake_home_1 = "fake_home_dir_with_upconfig";
    let config_toml_1 = "fake_home_dir_with_upconfig/.config/up/up.toml";
    let fake_home_2 = "fake_home_dir_without_upconfig";
    let args_config_path = "explicit/dir/up.toml";

    // With all options set, we should pick the one passed as command-line arg.
    let fs = fs_with(&[(args_config_path, Some(b"")), (config_toml_1, Some(b""))]);
    let arg = ConfigArg::from_cli(String::from(args_config_path));
    let e = env(
        Some(args_config_path),
        Some("fake_home_dir_with_upconfig/.config"),
        Some(fake_home_1),
    );
    let config_path = Config::get_up_toml_path(&arg, &e, &fs);
    assert_eq!(config_path.unwrap(), args_config_path);

    // If nothing is passed as an arg but UP_CONFIG exists, we should use it.
    let arg = ConfigArg::from_cli(String::from(default_path));
    let e = env(
        Some(args_config_path),
        Some("fake_home_dir_with_upconfig/.config"),
        Some(fake_home_1),
    );
    let config_path = Config::get_up_toml_path(&arg, &e, &fs);
    assert_eq!(config_path.unwrap(), args_config_path);

    // If nothing is passed as an arg, we should use XDG_CONFIG_HOME/up/up.toml.
    let e = env(None, Some("fake_home_dir_with_upconfig/.config"), Some(fake_home_1));
    let config_path = Config::get_up_toml_path(&arg, &e, &fs);
    assert_eq!(config_path.unwrap(), config_toml_1);

    // If XDG_CONFIG_HOME is set we should use it even when the path it
    // yields does not exist.
    let e = env(None, Some("fake_home_dir_with_upconfig/.badconfig"), Some(fake_home_1));
    let config_path = Config::get_up_toml_path(&arg, &e, &fs);
    assert_eq!(
        config_path.unwrap(),
        "fake_home_dir_with_upconfig/.badconfig/up/up.toml"
    );

    // If XDG_CONFIG_HOME is missing we should use ~/.config/up/up.toml.
    let e = env(None, None, Some(fake_home_1));
    let config_path = Config::get_up_toml_path(&arg, &e, &fs);
    assert_eq!(config_path.unwrap(), config_toml_1);

    // If XDG_CONFIG_HOME is missing and ~/.config doesn't exist we should
    // still use it.
    let e = env(None, None, Some(fake_home_2));
    let config_path = Config::get_up_toml_path(&arg, &e, &fs);
    assert_eq!(
        config_path.unwrap(),
        "fake_home_dir_without_upconfig/.config/up/up.toml"
    );

    // If none of the options are present and there is no ~ we should error.
    let e = env(None, None, None);
    let config_path = Config::get_up_toml_path(&arg, &e, &fs);
    assert!(config_path.is_err(), "Config path: {:?}", config_path.is_ok());
    assert!(matches!(config_path, Err(ResolutionError::NoHome)));
}

#[test]
fn empty_toml() {
    let path = "blank_config/up.toml";
    let fs = fs_with(&[(path, Some(b""))]);
    let arg = ConfigArg::Provided(String::from(path));
    let e = env(None, None, None);
    let config = Config::from(&arg, &e, &fs);
    assert!(
        config.is_ok(),
        "\n Update command should pass with empty toml as there are no required options.",
    );
    let config = config.unwrap();
    assert_eq!(config.up_toml_path, Some(String::from(path)));
    assert_eq!(config.config_toml, ConfigToml::default());
}

#[test]
fn basic_toml() {
    let path = "basic_config/up.toml";
    let content: &[u8] = b"tasks_path = \"tasks\"\n\n[link]\nfrom_dir = \"dotfiles\"\nto_dir = \"home\"\n";
    let fs = fs_with(&[(path, Some(content))]);
    let arg = ConfigArg::Provided(String::from(path));
    let e = env(None, None, None);
    let config = Config::from(&arg, &e, &fs);
    assert!(config.is_ok(), "\n Update command should pass with basic toml.");
    let config = config.unwrap();
    assert_eq!(config.up_toml_path, Some(String::from(path)));
    let settings = config.config_toml;
    assert_eq!(settings.tasks_path, Some(String::from("tasks")));
    let link = settings.link.expect("link table should be present");
    assert_eq!(link.from_dir, Some(String::from("dotfiles")));
    assert_eq!(link.to_dir, Some(String::from("home")));
    assert_eq!(link.backup_dir, None);
}

#[test]
fn explicit_path_missing_is_fatal() {
    // Even though the override variable and the XDG default both point at
    // existing files, a missing explicit path fails resolution.
    let fs = fs_with(&[
        ("override/up.toml", Some(b"")),
        ("base/.config/up/up.toml", Some(b"")),
    ]);
    let arg = ConfigArg::Provided(String::from("nowhere/up.toml"));
    let e = env(Some("override/up.toml"), Some("base/.config"), Some("base"));
    let r = Config::get_up_toml_path(&arg, &e, &fs);
    match r {
        Err(ResolutionError::ExplicitPathMissing(p)) => assert_eq!(p, "nowhere/up.toml"),
        _ => panic!("expected the explicit-path error"),
    }
}

#[test]
fn env_override_missing_is_fatal() {
    let fs = fs_with(&[("base/.config/up/up.toml", Some(b""))]);
    let arg = ConfigArg::NotProvided;
    let e = env(Some("gone/up.toml"), Some("base/.config"), Some("base"));
    let r = Config::get_up_toml_path(&arg, &e, &fs);
    match r {
        Err(ResolutionError::EnvPathMissing(p)) => assert_eq!(p, "gone/up.toml"),
        _ => panic!("expected the override-variable error"),
    }
}

#[test]
fn env_override_wins_over_defaults() {
    let fs = fs_with(&[
        ("override/up.toml", Some(b"tasks_path = \"from_override\"\n")),
        ("base/up/up.toml", Some(b"tasks_path = \"from_xdg\"\n")),
    ]);
    let arg = ConfigArg::NotProvided;
    let e = env(Some("override/up.toml"), Some("base"), Some("home"));
    let config = Config::from(&arg, &e, &fs).unwrap();
    assert_eq!(config.up_toml_path, Some(String::from("override/up.toml")));
    assert_eq!(config.config_toml.tasks_path, Some(String::from("from_override")));
}

#[test]
fn missing_default_is_not_an_error() {
    // XDG set to a base with no file underneath: resolution finds no file
    // and the configuration degrades to the all-absent default.
    let fs = fs_with(&[]);
    let arg = ConfigArg::NotProvided;
    let e = env(None, Some("base/.badconfig"), Some("base"));
    let config = Config::from(&arg, &e, &fs).unwrap();
    assert_eq!(config.up_toml_path, None);
    assert_eq!(config.config_toml, ConfigToml::default());
}

#[test]
fn home_fallback_file_is_loaded() {
    let fs = fs_with(&[(
        "home/.config/up/up.toml",
        Some(b"tasks_path = \"from_home\"\n"),
    )]);
    let arg = ConfigArg::NotProvided;
    let e = env(None, None, Some("home"));
    let config = Config::from(&arg, &e, &fs).unwrap();
    assert_eq!(config.up_toml_path, Some(String::from("home/.config/up/up.toml")));
    assert_eq!(config.config_toml.tasks_path, Some(String::from("from_home")));
}

#[test]
fn no_home_fails_construction() {
    let fs = fs_with(&[]);
    let arg = ConfigArg::NotProvided;
    let e = env(None, None, None);
    let r = Config::from(&arg, &e, &fs);
    assert!(matches!(r, Err(ConfigError::Resolution(ResolutionError::NoHome))));
}

#[test]
fn unreadable_file_degrades_to_defaults() {
    // The file exists but its read failed: the path is kept and the
    // configuration stays at the default; this is not an error.
    let path = "racy/up.toml";
    let fs = fs_with(&[(path, None)]);
    let arg = ConfigArg::Provided(String::from(path));
    let e = env(None, None, None);
    let config = Config::from(&arg, &e, &fs).unwrap();
    assert_eq!(config.up_toml_path, Some(String::from(path)));
    assert_eq!(config.config_toml, ConfigToml::default());
}

#[test]
fn resolution_error_messages_name_the_path() {
    let e = ResolutionError::ExplicitPathMissing(String::from("gone.toml"));
    assert_eq!(
        e.message(),
        "Config path specified in -c/--config arg doesn't exist.\n  config_path: gone.toml"
    );
    let e = ResolutionError::EnvPathMissing(String::from("gone.toml"));
    assert_eq!(
        e.message(),
        "Config path specified in UP_CONFIG env var doesn't exist.\n  config_path: gone.toml"
    );
    assert_eq!(ResolutionError::NoHome.message(), "HOME environment variable not set.");
}
