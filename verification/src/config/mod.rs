//! Where the agent keeps its files, and the settings that need no file.

use crate::text::{join_path, path_join};
use vstd::prelude::*;
use vstd::string::*;

verus! {

/// Whether answers are streamed.
#[derive(Debug, Clone, Copy, PartialEq, Eq, Structural)]
pub struct StreamConfig {
    pub enabled: bool,
}

impl Default for StreamConfig {
    /// Streaming is on unless it is switched off.
    fn default() -> (r: Self)
        ensures
            r.enabled,
    {
        StreamConfig { enabled: true }
    }
}

/// The directory that stands for the home directory where none is known.
pub open spec fn home_or_here(home: Option<Seq<char>>) -> Seq<char> {
    match home {
        Some(h) => h,
        None => "."@,
    }
}

/// The agent's directory below the home directory `home`.
pub open spec fn dinoe_dir_of(home: Seq<char>) -> Seq<char> {
    path_join(home, ".dinoe"@)
}

/// The settings file below the home directory `home`.
pub open spec fn config_path_of(home: Seq<char>) -> Seq<char> {
    path_join(dinoe_dir_of(home), "config.toml"@)
}

/// The workspace below the home directory `home`.
pub open spec fn workspace_dir_of(home: Seq<char>) -> Seq<char> {
    path_join(dinoe_dir_of(home), "workspace"@)
}

/// The home directory to go by: `home`, or the current directory where
/// none is known.
pub fn home_dir(home: Option<String>) -> (r: String)
    ensures
        r@ == home_or_here(home.deep_view()),
{
    match home {
        Some(h) => h,
        None => ".".to_owned(),
    }
}

/// The agent's directory below the home directory `home`.
pub fn get_dinoe_dir(home: &str) -> (r: String)
    ensures
        r@ == dinoe_dir_of(home@),
{
    join_path(home, ".dinoe")
}

/// The settings file below the home directory `home`.
pub fn get_config_path(home: &str) -> (r: String)
    ensures
        r@ == config_path_of(home@),
{
    let dir = get_dinoe_dir(home);
    join_path(dir.as_str(), "config.toml")
}

/// The workspace below the home directory `home`.
pub fn get_workspace_dir(home: &str) -> (r: String)
    ensures
        r@ == workspace_dir_of(home@),
{
    let dir = get_dinoe_dir(home);
    join_path(dir.as_str(), "workspace")
}

} // verus!
