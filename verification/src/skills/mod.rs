//! Skills: what a skill file says of itself, and the set of skills loaded.

pub mod commands;
pub mod manifest;
pub mod registry;

pub use commands::SkillsCommands;
pub use manifest::{load_skill, Skill};
pub use registry::SkillRegistry;

use crate::text::{join_path, path_join};
use vstd::prelude::*;
use vstd::string::*;

verus! {

/// Where the skills of a workspace lie.
pub open spec fn skills_dir_of(workspace_dir: Seq<char>) -> Seq<char> {
    path_join(workspace_dir, "skills"@)
}

/// Where the file of the skill in `skill_dir` lies.
pub open spec fn skill_file_of(skill_dir: Seq<char>) -> Seq<char> {
    path_join(skill_dir, "SKILL.md"@)
}

/// Where the file of the skill `name` lies in `workspace_dir` by default.
pub open spec fn default_skill_location(workspace_dir: Seq<char>, name: Seq<char>) -> Seq<char> {
    skill_file_of(path_join(skills_dir_of(workspace_dir), name))
}

/// Where the skills of the workspace `workspace_dir` lie.
pub fn skills_dir(workspace_dir: &str) -> (r: String)
    ensures
        r@ == skills_dir_of(workspace_dir@),
{
    join_path(workspace_dir, "skills")
}

/// Where the file of the skill in `skill_dir` lies.
pub fn skill_file(skill_dir: &str) -> (r: String)
    ensures
        r@ == skill_file_of(skill_dir@),
{
    join_path(skill_dir, "SKILL.md")
}

/// Where the file of the skill `name` lies in `workspace_dir` by default.
pub fn skill_location(workspace_dir: &str, name: &str) -> (r: String)
    ensures
        r@ == default_skill_location(workspace_dir@, name@),
{
    let dir = skills_dir(workspace_dir);
    let skill_dir = join_path(dir.as_str(), name);
    skill_file(skill_dir.as_str())
}

} // verus!
