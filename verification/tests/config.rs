use basin_admin::{
    config_path, config_path_in, create_config, create_config_outcome, load_config, S2Config,
    S2ConfigError, CONFIG_FILE, CONFIG_FOLDER, TOKEN_KEY,
};
use std::path::PathBuf;

const PATH: Option<&str> = Some("/home/alice/.config/s2/config.toml");

#[test]
fn load_reads_the_token() {
    let loaded = load_config(PATH, Some("token = \"secret-token\"\n"));
    assert_eq!(loaded, Ok(S2Config::new("secret-token".to_string())));
    assert_eq!(loaded.unwrap().token(), "secret-token");
}

#[test]
fn load_ignores_other_entries() {
    let text = "# a comment\nname = \"alice\"\ntoken = 'abc'\n\n[section]\ntoken = \"inner\"\n";
    assert_eq!(load_config(PATH, Some(text)).unwrap().token(), "abc");
}

#[test]
fn load_without_a_path_as_text_is_a_path_error() {
    assert_eq!(load_config(None, Some("token = \"x\"")), Err(S2ConfigError::ConfigPathError));
    assert_eq!(load_config(None, None), Err(S2ConfigError::ConfigPathError));
}

#[test]
fn load_of_an_unread_file_is_a_load_error() {
    assert_eq!(load_config(PATH, None), Err(S2ConfigError::ConfigLoadError));
}

#[test]
fn load_of_text_that_is_no_toml_is_a_load_error() {
    assert_eq!(load_config(PATH, Some("token = ")), Err(S2ConfigError::ConfigLoadError));
    assert_eq!(load_config(PATH, Some("token secret")), Err(S2ConfigError::ConfigLoadError));
    assert_eq!(
        load_config(PATH, Some("token = \"a\"\ntoken = \"b\"\n")),
        Err(S2ConfigError::ConfigLoadError)
    );
}

#[test]
fn load_without_a_token_is_a_load_error() {
    assert_eq!(load_config(PATH, Some("")), Err(S2ConfigError::ConfigLoadError));
    assert_eq!(load_config(PATH, Some("other = \"x\"\n")), Err(S2ConfigError::ConfigLoadError));
    assert_eq!(
        load_config(PATH, Some("[nested]\ntoken = \"x\"\n")),
        Err(S2ConfigError::ConfigLoadError)
    );
}

#[test]
fn load_of_a_token_that_is_no_string_is_a_load_error() {
    assert_eq!(load_config(PATH, Some("token = 42\n")), Err(S2ConfigError::ConfigLoadError));
    assert_eq!(load_config(PATH, Some("token = true\n")), Err(S2ConfigError::ConfigLoadError));
    assert_eq!(load_config(PATH, Some("token = [\"x\"]\n")), Err(S2ConfigError::ConfigLoadError));
}

#[test]
fn from_entry_wants_a_token() {
    assert_eq!(S2Config::from_entry(Some("t".to_string())), Ok(S2Config::new("t".to_string())));
    assert_eq!(S2Config::from_entry(None), Err(S2ConfigError::ConfigLoadError));
}

#[test]
fn create_writes_one_entry() {
    assert_eq!(create_config("secret-token"), Ok("token = \"secret-token\"\n".to_string()));
}

#[test]
fn a_failed_step_on_disk_is_a_write_error() {
    let denied = std::io::Error::new(std::io::ErrorKind::PermissionDenied, "read-only");
    assert_eq!(create_config_outcome(Err(denied)), Err(S2ConfigError::ConfigWriteError));
    assert_eq!(create_config_outcome(Err("disk full")), Err(S2ConfigError::ConfigWriteError));
    assert_eq!(create_config_outcome::<std::io::Error>(Ok(())), Ok(()));
}

#[test]
fn created_text_loads_to_the_same_token() {
    let tokens = [
        "secret-token",
        "",
        "with \"quotes\" and \\ backslash",
        "multi\nline",
        "brackets [0] = {x}",
        "ünïcödé ✓",
        "  spaced  ",
        "token = \"nested\"",
    ];
    for token in tokens {
        let text = create_config(token).unwrap();
        assert_ne!(text, token);
        let loaded = load_config(PATH, Some(&text)).unwrap();
        assert_eq!(loaded.token(), token);
    }
}

#[test]
fn config_path_is_under_the_given_directory() {
    let base = PathBuf::from("/home/alice/.config");
    let path = config_path_in(Some(base.clone())).unwrap();
    assert_eq!(path.base, base);
    assert_eq!(path.folder, "s2");
    assert_eq!(path.file, "config.toml");
    assert_eq!(
        path.base.join(path.folder).join(path.file),
        PathBuf::from("/home/alice/.config/s2/config.toml")
    );
}

#[test]
fn config_path_without_a_directory_is_an_error() {
    assert_eq!(config_path_in(None).err(), Some(S2ConfigError::ConfigDirNotFound));
}

#[test]
fn config_path_on_this_machine() {
    match config_path() {
        Ok(path) => {
            assert_eq!(path.folder, CONFIG_FOLDER);
            assert_eq!(path.file, CONFIG_FILE);
        }
        Err(error) => assert_eq!(error, S2ConfigError::ConfigDirNotFound),
    }
}

#[test]
fn config_names() {
    assert_eq!(CONFIG_FOLDER, "s2");
    assert_eq!(CONFIG_FILE, "config.toml");
    assert_eq!(TOKEN_KEY, "token");
}
