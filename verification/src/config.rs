use vstd::prelude::*;

verus! {

/// Name of the configuration file.
pub const FILE_NAME: &'static str = "config.yml";

/// Directory of the configuration file, below the home directory, where no
/// other is given.
pub const DEFAULT_DIRECTORY_PATH: &'static str = ".config/asana-tui";

/// Oversees management of configuration file.
pub struct Config {
    pub access_token: Option<String>,
    pub file_path: Option<String>,
}

impl Config {
    /// Return a new empty instance.
    pub fn new() -> (res: Config)
        ensures
            res.access_token is None,
            res.file_path is None,
    {
        Config { file_path: None, access_token: None }
    }
}

} // verus!
