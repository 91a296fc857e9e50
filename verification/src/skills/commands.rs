//! What the skill commands decide before they touch the disk.

use crate::text::{begins_with, chars_of, contains, contains_char, has_char, has_substring, starts_with};
use vstd::prelude::*;
use vstd::string::*;

verus! {

/// A command on the skills of a workspace.
#[derive(Debug)]
pub enum SkillsCommands {
    /// Show the skills that are installed.
    List,
    /// Install a skill from a URL or a directory.
    Install { source: String },
    /// Remove the skill of this name.
    Remove { name: String },
}

impl Clone for SkillsCommands {
    fn clone(&self) -> (r: Self)
        ensures
            r == *self,
    {
        match self {
            SkillsCommands::List => SkillsCommands::List,
            SkillsCommands::Install { source } => SkillsCommands::Install { source: source.clone() },
            SkillsCommands::Remove { name } => SkillsCommands::Remove { name: name.clone() },
        }
    }
}

/// Whether a skill is fetched over the network: its source begins with
/// `https://` or `http://`.
pub open spec fn is_remote(source: Seq<char>) -> bool {
    starts_with(source, "https://"@) || starts_with(source, "http://"@)
}

/// Whether a skill of this name may not be removed, because the name
/// steps out of the skills directory or holds a separator.
pub open spec fn is_invalid_name(name: Seq<char>) -> bool {
    contains(name, ".."@) || contains_char(name, '/') || contains_char(name, '\\')
}

/// What is reported of a name that may not be removed, or nothing where
/// the name is in order.
pub open spec fn removal_error_of(name: Seq<char>) -> Option<Seq<char>> {
    if is_invalid_name(name) {
        Some("Invalid skill name: "@ + name)
    } else {
        None
    }
}

/// Whether a skill with the source `source` is fetched over the network.
pub fn is_remote_source(source: &str) -> (r: bool)
    ensures
        r == is_remote(source@),
{
    let s = chars_of(source);
    begins_with(&s, &chars_of("https://")) || begins_with(&s, &chars_of("http://"))
}

/// What is reported of the name `name` where it may not be removed.
pub fn removal_error(name: &str) -> (r: Option<String>)
    ensures
        r.deep_view() == removal_error_of(name@),
{
    if has_substring(name, "..") || has_char(name, '/') || has_char(name, '\\') {
        let mut message = "Invalid skill name: ".to_owned();
        message.append(name);
        Some(message)
    } else {
        None
    }
}

} // verus!
