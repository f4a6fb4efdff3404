//! The configuration record and where it is stored.
use vstd::prelude::*;
use crate::names::joined;
use crate::paths::join_path;

verus! {

/// The file name of the configuration, inside the user's home directory.
pub const CONFIG_FILE_NAME: &'static str = ".typst-templatr.yaml";

/// The characters of [`CONFIG_FILE_NAME`].
pub open spec fn config_file_name() -> Seq<char> {
    seq!['.', 't', 'y', 'p', 's', 't', '-', 't', 'e', 'm', 'p', 'l', 'a', 't', 'r', '.', 'y', 'a', 'm', 'l']
}

/// Why the configuration could not be read or written.
#[derive(PartialEq, Eq, Structural, Debug, Clone, Copy)]
pub enum ConfigError {
    /// The user's home directory could not be determined.
    NoHomeDirectory,
    /// No configuration file exists.
    NotFound,
    /// The configuration file could not be opened or read.
    Unreadable,
    /// The configuration file's content is not a configuration.
    Malformed,
    /// The configuration file could not be written.
    WriteFailed,
}

/// The configuration: where the template library lives.
pub struct Config {
    pub templates_path: String,
}

impl Config {
    /// A configuration for the library at `templates_path`; the path is not checked.
    pub fn new(templates_path: String) -> (r: Config)
        ensures
            r.templates_path == templates_path,
    {
        Config { templates_path }
    }
}

/// Whether `path` is the configuration file inside some home directory.
pub open spec fn is_config_path(path: Seq<char>) -> bool {
    exists|home: Seq<char>| path == #[trigger] joined(home, config_file_name())
}

/// Relies on `directories::BaseDirs::new` and `BaseDirs::home_dir`: the running user's
/// home directory (on Linux `$HOME`, else the password database), when the platform
/// can tell it and it is valid UTF-8.
#[verifier::external_body]
fn home_directory() -> (r: Option<String>) {
    match directories::BaseDirs::new() {
        None => None,
        Some(dirs) => dirs.home_dir().to_str().map(String::from),
    }
}

/// The configuration file inside the home directory `home`.
pub fn config_path_in(home: &str) -> (r: String)
    ensures
        r@ == joined(home@, config_file_name()),
{
    let r = join_path(home, CONFIG_FILE_NAME);
    proof {
        reveal_strlit(".typst-templatr.yaml");
    }
    r
}

/// The configuration file of the running user, or `NoHomeDirectory`.
pub fn get_config_path() -> (r: Result<String, ConfigError>)
    ensures
        match r {
            Ok(p) => is_config_path(p@),
            Err(e) => e == ConfigError::NoHomeDirectory,
        },
{
    match home_directory() {
        None => Err(ConfigError::NoHomeDirectory),
        Some(home) => {
            let p = config_path_in(home.as_str());
            assert(p@ == joined(home@, config_file_name()));
            Ok(p)
        },
    }
}

} // verus!
