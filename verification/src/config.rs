//! The access token kept in a configuration file: where the file lives, what
//! it holds, and how its text is read and written.

use crate::outside::{
    entry_text, parse_table, parsed_table, table_string, user_config_dir, write_entry,
};
use std::path::PathBuf;
use vstd::prelude::*;

verus! {

/// Folder under the user's configuration directory that holds the file.
pub const CONFIG_FOLDER: &'static str = "s2";

/// Name of the configuration file.
pub const CONFIG_FILE: &'static str = "config.toml";

/// Key of the access token in the configuration file.
pub const TOKEN_KEY: &'static str = "token";

/// What the configuration file holds: the access token.
#[derive(Debug, PartialEq, Eq)]
pub struct S2Config {
    token: String,
}

/// Why the configuration could not be found, read or written.
#[derive(Debug, Clone, Copy, PartialEq, Eq)]
pub enum S2ConfigError {
    /// Failed to find config directory
    ConfigDirNotFound,
    /// Failed to find config file
    ConfigPathError,
    /// Failed to load config file
    ConfigLoadError,
    /// Failed to write config file
    ConfigWriteError,
}

/// Where the configuration file lives: as `file`, in `folder`, under the
/// directory `base`.
#[derive(Debug)]
pub struct ConfigPath {
    pub base: PathBuf,
    pub folder: &'static str,
    pub file: &'static str,
}

impl View for S2Config {
    type V = Seq<char>;

    closed spec fn view(&self) -> Seq<char> {
        self.token@
    }
}

impl S2Config {
    /// A configuration that holds `token`.
    pub fn new(token: String) -> (config: S2Config)
        ensures
            config@ == token@,
    {
        S2Config { token }
    }

    /// The access token.
    pub fn token(&self) -> (token: &str)
        ensures
            token@ == self@,
    {
        self.token.as_str()
    }

    /// The configuration for what stands at the token's key of a file: the
    /// token where there is one, a load error where there is none.
    pub fn from_entry(entry: Option<String>) -> (loaded: Result<S2Config, S2ConfigError>)
        ensures
            entry matches Some(token) ==> loaded matches Ok(config) && config@ == token@,
            entry is None ==> loaded == Err::<S2Config, S2ConfigError>(
                S2ConfigError::ConfigLoadError,
            ),
    {
        match entry {
            Some(token) => Ok(S2Config::new(token)),
            None => Err(S2ConfigError::ConfigLoadError),
        }
    }
}

/// The place of the configuration file under a configuration directory, or
/// `ConfigDirNotFound` where the user has no such directory.
pub fn config_path_in(config_dir: Option<PathBuf>) -> (path: Result<ConfigPath, S2ConfigError>)
    ensures
        config_dir matches Some(base) ==> path matches Ok(p) && p.base == base && p.folder@
            == CONFIG_FOLDER@ && p.file@ == CONFIG_FILE@,
        config_dir is None ==> path == Err::<ConfigPath, S2ConfigError>(
            S2ConfigError::ConfigDirNotFound,
        ),
{
    match config_dir {
        Some(base) => Ok(ConfigPath { base, folder: CONFIG_FOLDER, file: CONFIG_FILE }),
        None => Err(S2ConfigError::ConfigDirNotFound),
    }
}

/// Path to the configuration file, under the configuration directory that
/// this user has on this machine.
pub fn config_path() -> (path: Result<ConfigPath, S2ConfigError>)
    ensures
        path matches Ok(p) ==> p.folder@ == CONFIG_FOLDER@ && p.file@ == CONFIG_FILE@,
        path matches Err(e) ==> e == S2ConfigError::ConfigDirNotFound,
{
    config_path_in(user_config_dir())
}

/// What loading makes of a configuration file, given whether its path could
/// be written as text and the text read from it, if any: the token, or the
/// error that says which step failed.
pub open spec fn load_outcome(
    has_path: bool,
    contents: Option<Seq<char>>,
) -> Result<Seq<char>, S2ConfigError> {
    if !has_path {
        Err(S2ConfigError::ConfigPathError)
    } else {
        match contents {
            None => Err(S2ConfigError::ConfigLoadError),
            Some(text) => match parsed_table(text) {
                None => Err(S2ConfigError::ConfigLoadError),
                Some(entries) => if entries.contains_key(TOKEN_KEY@) {
                    Ok(entries[TOKEN_KEY@])
                } else {
                    Err(S2ConfigError::ConfigLoadError)
                },
            },
        }
    }
}

/// The characters of a text that may be missing.
pub open spec fn text_of(text: Option<&str>) -> Option<Seq<char>> {
    match text {
        Some(text) => Some(text@),
        None => None,
    }
}

/// Loads the configuration from what was found at its path. `path` is the
/// path as text, `None` where it cannot be written as text; `contents` is
/// the text of the file, `None` where it could not be read.
pub fn load_config(
    path: Option<&str>,
    contents: Option<&str>,
) -> (config: Result<S2Config, S2ConfigError>)
    ensures
        load_outcome(path is Some, text_of(contents)) matches Ok(token) ==> config matches Ok(c)
            && c@ == token,
        load_outcome(path is Some, text_of(contents)) matches Err(e) ==> config == Err::<
            S2Config,
            S2ConfigError,
        >(e),
{
    if path.is_none() {
        return Err(S2ConfigError::ConfigPathError);
    }
    let text = match contents {
        Some(text) => text,
        None => {
            return Err(S2ConfigError::ConfigLoadError);
        },
    };
    match parse_table(text) {
        Some(table) => S2Config::from_entry(table_string(&table, TOKEN_KEY)),
        None => Err(S2ConfigError::ConfigLoadError),
    }
}

/// What creating the configuration file came to, given how a step of it on
/// disk ended, the making of the directory or the writing of the file: a
/// failure of either is a `ConfigWriteError`, whatever its cause.
pub fn create_config_outcome<E>(step: Result<(), E>) -> (outcome: Result<(), S2ConfigError>)
    ensures
        step is Ok ==> outcome == Ok::<(), S2ConfigError>(()),
        step is Err ==> outcome == Err::<(), S2ConfigError>(S2ConfigError::ConfigWriteError),
{
    match step {
        Ok(_) => Ok(()),
        Err(_) => Err(S2ConfigError::ConfigWriteError),
    }
}

/// The text of a configuration file that holds `token`, or
/// `ConfigWriteError` where the token cannot be written down.
pub fn create_config(token: &str) -> (contents: Result<String, S2ConfigError>)
    ensures
        entry_text(TOKEN_KEY@, token@) matches Some(text) ==> contents matches Ok(c) && c@ == text,
        entry_text(TOKEN_KEY@, token@) is None ==> contents == Err::<String, S2ConfigError>(
            S2ConfigError::ConfigWriteError,
        ),
{
    match write_entry(TOKEN_KEY, token) {
        Some(text) => Ok(text),
        None => Err(S2ConfigError::ConfigWriteError),
    }
}

} // verus!
