//! The user's configuration and where it is kept.

use vstd::prelude::*;
use crate::paths::{join_path, spec_join};

verus! {

broadcast use vstd::string::group_string_axioms;

/// The user's settings: the email last used to log in to the store.
#[derive(Debug, Clone, PartialEq, Eq)]
pub struct Config {
    pub user: Option<String>,
}

impl Config {
    /// The configuration that is in force: the one read from the
    /// configuration file, or an empty one when there is no such file.
    pub fn from_file(read: Option<Config>) -> (r: Config)
        ensures
            r.user == match read {
                Some(c) => c.user,
                None => None,
            },
    {
        match read {
            Some(c) => c,
            None => Config { user: None },
        }
    }
}

/// The directory that holds the configuration.
pub struct ConfigDir {
    dir: String,
}

/// The name of the configuration directory inside the home directory.
pub const CONFIG_DIR_NAME: &'static str = ".plugin-cli";

/// The name of the configuration file inside the configuration directory.
pub const CONFIG_FILE_NAME: &'static str = "config.json";

impl ConfigDir {
    pub closed spec fn spec_dir(&self) -> Seq<char> {
        self.dir@
    }

    /// The configuration directory of the user whose home directory is
    /// `home`.
    pub fn new(home: &str) -> (r: ConfigDir)
        ensures
            r.spec_dir() == spec_join(home@, CONFIG_DIR_NAME@),
    {
        ConfigDir { dir: join_path(home, CONFIG_DIR_NAME) }
    }

    /// The directory's path.
    pub fn path(&self) -> (r: &str)
        ensures
            r@ == self.spec_dir(),
    {
        self.dir.as_str()
    }

    /// The configuration file: both read and written there.
    pub fn config_file(&self) -> (r: String)
        ensures
            r@ == spec_join(self.spec_dir(), CONFIG_FILE_NAME@),
    {
        join_path(self.dir.as_str(), CONFIG_FILE_NAME)
    }
}

} // verus!
