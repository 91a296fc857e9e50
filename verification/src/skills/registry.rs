//! The skills that were loaded, by name.

use crate::skills::manifest::{
    load_skill,
    loaded_skill,
    FrontMatter,
    FrontMatterView,
    Skill,
    SkillView,
};
use crate::text::{
    contains,
    contains_char,
    has_char,
    has_substring,
    str_eq,
    trim,
    trimmed,
};
use vstd::prelude::*;
use vstd::string::*;

verus! {

/// Whether a directory of this name may not hold a skill: the name steps
/// out of the skills directory, holds a separator or a NUL, or is blank.
pub open spec fn unsafe_skill_name(name: Seq<char>) -> bool {
    ||| contains(name, ".."@)
    ||| contains_char(name, '/')
    ||| contains_char(name, '\\')
    ||| contains_char(name, '\0')
    ||| trim(name).len() == 0
}

/// Whether a directory of this name may not hold a skill.
pub fn is_unsafe_skill_name(name: &str) -> (r: bool)
    ensures
        r == unsafe_skill_name(name@),
{
    has_substring(name, "..") || has_char(name, '/') || has_char(name, '\\') || has_char(name, '\0')
        || trimmed(name).as_str().is_empty()
}

/// A directory found among the skills of a workspace.
#[derive(Debug)]
pub struct SkillDir {
    /// The name of the directory.
    pub name: String,
    /// The path of the directory.
    pub path: String,
    /// The text of the skill file in it, or `None` where there is none.
    pub content: Option<String>,
    /// The file's front matter as a YAML reader read it, or `None` where
    /// it has none or the reader refused it.
    pub front_matter: Option<FrontMatter>,
}

/// A `SkillDir` as plain values.
pub struct SkillDirView {
    pub name: Seq<char>,
    pub path: Seq<char>,
    pub content: Option<Seq<char>>,
    pub front_matter: Option<FrontMatterView>,
}

impl View for SkillDir {
    type V = SkillDirView;

    open spec fn view(&self) -> SkillDirView {
        SkillDirView {
            name: self.name@,
            path: self.path@,
            content: self.content.deep_view(),
            front_matter: self.front_matter.deep_view(),
        }
    }
}

impl DeepView for SkillDir {
    type V = SkillDirView;

    open spec fn deep_view(&self) -> SkillDirView {
        self@
    }
}

/// Whether the skill at `i` is the first of `skills` with the name `name`.
pub open spec fn is_first_named(skills: Seq<SkillView>, name: Seq<char>, i: int) -> bool {
    &&& 0 <= i < skills.len()
    &&& skills[i].name == name
    &&& forall|j: int| 0 <= j < i ==> (#[trigger] skills[j]).name != name
}

/// Whether a skill of `skills` has the name `name`.
pub open spec fn has_skill(skills: Seq<SkillView>, name: Seq<char>) -> bool {
    exists|i: int| 0 <= i < skills.len() && (#[trigger] skills[i]).name == name
}

/// Where the first skill named `name` stands in `skills`, if there is one.
pub open spec fn position_of(skills: Seq<SkillView>, name: Seq<char>) -> int {
    choose|i: int| is_first_named(skills, name, i)
}

/// The skills after `skill` was put in: it takes the place of the skill
/// that had its name, or stands last where none had.
pub open spec fn inserted(skills: Seq<SkillView>, skill: SkillView) -> Seq<SkillView> {
    if has_skill(skills, skill.name) {
        skills.update(position_of(skills, skill.name), skill)
    } else {
        skills.push(skill)
    }
}

/// The skill that the directory `dir` gives, or nothing where its name is
/// unsafe or it holds no skill file.
pub open spec fn skill_in(dir: SkillDirView) -> Option<SkillView> {
    if unsafe_skill_name(dir.name) {
        None
    } else {
        match loaded_skill(dir.path, dir.content, dir.front_matter) {
            Ok(skill) => Some(skill),
            Err(_) => None,
        }
    }
}

/// The skills after the directories `dirs` were loaded, in order.
pub open spec fn loaded(skills: Seq<SkillView>, dirs: Seq<SkillDirView>) -> Seq<SkillView>
    decreases dirs.len(),
{
    if dirs.len() == 0 {
        skills
    } else {
        let before = loaded(skills, dirs.drop_last());
        match skill_in(dirs.last()) {
            Some(skill) => inserted(before, skill),
            None => before,
        }
    }
}

/// How many of the directories `dirs` give a skill.
pub open spec fn loaded_count(dirs: Seq<SkillDirView>) -> nat
    decreases dirs.len(),
{
    if dirs.len() == 0 {
        0
    } else {
        loaded_count(dirs.drop_last()) + if skill_in(dirs.last()) is Some {
            1nat
        } else {
            0nat
        }
    }
}

/// The first skill with a name is where `position_of` says.
pub proof fn lemma_position_of(skills: Seq<SkillView>, name: Seq<char>, i: int)
    requires
        is_first_named(skills, name, i),
    ensures
        has_skill(skills, name),
        position_of(skills, name) == i,
{
    let p = position_of(skills, name);
    assert(is_first_named(skills, name, p));
    if p < i {
        assert(skills[p].name != name);
    } else if i < p {
        assert(skills[i].name != name);
    }
}

/// Whether no two skills of `skills` have one name.
pub open spec fn names_distinct(skills: Seq<SkillView>) -> bool {
    forall|i: int, j: int|
        0 <= i < j < skills.len() ==> (#[trigger] skills[i]).name != (#[trigger] skills[j]).name
}

/// Putting a skill in makes it the one that its name finds, and keeps the
/// names apart where they were.
pub proof fn inserting_replaces_by_name(skills: Seq<SkillView>, skill: SkillView)
    requires
        names_distinct(skills),
    ensures
        names_distinct(inserted(skills, skill)),
        has_skill(inserted(skills, skill), skill.name),
        inserted(skills, skill)[position_of(inserted(skills, skill), skill.name)] == skill,
        inserted(skills, skill).len() == if has_skill(skills, skill.name) {
            skills.len()
        } else {
            skills.len() + 1
        },
{
    let after = inserted(skills, skill);
    let name = skill.name;
    if has_skill(skills, name) {
        let w = choose|i: int| 0 <= i < skills.len() && (#[trigger] skills[i]).name == name;
        assert forall|j: int| 0 <= j < w implies (#[trigger] skills[j]).name != name by {
            assert(skills[j].name != skills[w].name);
        }
        lemma_position_of(skills, name, w);
    }
    let at = if has_skill(skills, name) {
        position_of(skills, name)
    } else {
        skills.len() as int
    };
    assert(0 <= at < after.len() && after[at] == skill);
    assert forall|i: int, j: int| 0 <= i < j < after.len() implies (#[trigger] after[i]).name != (
    #[trigger] after[j]).name by {
        if i != at && j != at {
            assert(after[i] == skills[i] && after[j] == skills[j]);
        } else if i == at {
            if has_skill(skills, name) {
                assert(after[j] == skills[j]);
                assert(skills[at].name == name);
            }
        } else {
            assert(after[i] == skills[i]);
            if has_skill(skills, name) {
                assert(skills[at].name == name);
            }
        }
    }
    assert forall|j: int| 0 <= j < at implies (#[trigger] after[j]).name != name by {
        assert(after[j].name != after[at].name);
    }
    lemma_position_of(after, name, at);
}

/// Where the skill named `name` stands among `skills`, if it is there.
fn position_in(skills: &Vec<Skill>, name: &str) -> (r: Option<usize>)
    ensures
        match r {
            Some(i) => has_skill(skills.deep_view(), name@) && i == position_of(
                skills.deep_view(),
                name@,
            ) && i < skills.len(),
            None => !has_skill(skills.deep_view(), name@),
        },
{
    let ghost sv = skills.deep_view();
    let mut i: usize = 0;
    while i < skills.len()
        invariant
            i <= skills.len(),
            sv == skills.deep_view(),
            forall|k: int| 0 <= k < i ==> (#[trigger] sv[k]).name != name@,
        decreases skills.len() - i,
    {
        assert(sv[i as int] == skills[i as int]@);
        if str_eq(skills[i].name.as_str(), name) {
            proof {
                lemma_position_of(sv, name@, i as int);
            }
            return Some(i);
        }
        i += 1;
    }
    None
}

/// The skills that were loaded, each under its name. No two of them have
/// one name.
pub struct SkillRegistry {
    skills: Vec<Skill>,
}

impl View for SkillRegistry {
    type V = Seq<SkillView>;

    /// The skills, in the order in which their names were first put in.
    closed spec fn view(&self) -> Seq<SkillView> {
        self.skills.deep_view()
    }
}

impl SkillRegistry {
    #[verifier::type_invariant]
    spec fn names_apart(self) -> bool {
        names_distinct(self.skills.deep_view())
    }

    /// A registry without skills.
    pub fn new() -> (r: Self)
        ensures
            r@ == Seq::<SkillView>::empty(),
    {
        let skills: Vec<Skill> = Vec::new();
        assert(skills.deep_view() =~= Seq::<SkillView>::empty());
        SkillRegistry { skills }
    }

    /// Puts `skill` in under its name. A skill that had the name gives
    /// way to it.
    pub fn insert(&mut self, skill: Skill)
        ensures
            final(self)@ == inserted(old(self)@, skill@),
            names_distinct(final(self)@),
    {
        proof {
            use_type_invariant(&*self);
            inserting_replaces_by_name(self@, skill@);
        }
        let ghost before = self@;
        let mut skills: Vec<Skill> = Vec::new();
        core::mem::swap(&mut self.skills, &mut skills);
        match position_in(&skills, skill.name.as_str()) {
            Some(i) => {
                skills.set(i, skill);
                assert(skills.deep_view() =~= before.update(i as int, skill@));
            },
            None => {
                skills.push(skill);
                assert(skills.deep_view() =~= before.push(skill@));
            },
        }
        core::mem::swap(&mut self.skills, &mut skills);
    }

    /// Loads the skills of the directories `dirs`, in order. A directory
    /// with an unsafe name or without a skill file is passed over.
    /// Returns how many skills were loaded and how many directories were
    /// passed over.
    pub fn load_skills(&mut self, dirs: Vec<SkillDir>) -> (r: (usize, usize))
        ensures
            final(self)@ == loaded(old(self)@, dirs.deep_view()),
            r.0 == loaded_count(dirs.deep_view()),
            r.0 + r.1 == dirs.len(),
    {
        let ghost all = dirs.deep_view();
        let ghost start = self@;
        let mut dirs = dirs;
        let mut n_loaded: usize = 0;
        let mut n_skipped: usize = 0;
        let total = dirs.len();
        let mut rest: Vec<SkillDir> = Vec::new();
        // The directories are taken from the back, so they are turned round first.
        while dirs.len() > 0
            invariant
                dirs.len() + rest.len() == total,
                total == all.len(),
                forall|k: int| 0 <= k < dirs.len() ==> (#[trigger] dirs[k])@ == all[k],
                forall|k: int|
                    0 <= k < rest.len() ==> (#[trigger] rest[k])@ == all[total - 1 - k],
            decreases dirs.len(),
        {
            let d = dirs.pop().unwrap();
            rest.push(d);
        }
        assert(all.take(0) =~= Seq::<SkillDirView>::empty());
        while rest.len() > 0
            invariant
                rest.len() <= total,
                total == all.len(),
                forall|k: int|
                    0 <= k < rest.len() ==> (#[trigger] rest[k])@ == all[total - 1 - k],
                self@ == loaded(start, all.take(total - rest.len())),
                n_loaded == loaded_count(all.take(total - rest.len())),
                n_loaded + n_skipped == total - rest.len(),
            decreases rest.len(),
        {
            let ghost done = all.take(total - rest.len());
            let ghost at = total - rest.len();
            let dir = rest.pop().unwrap();
            proof {
                assert(dir@ == all[at]);
                let next = all.take(at + 1);
                assert(next.drop_last() =~= done);
                assert(next.last() == dir@);
            }
            if is_unsafe_skill_name(dir.name.as_str()) {
                n_skipped += 1;
            } else {
                match load_skill(dir.path.as_str(), dir.content, dir.front_matter) {
                    Ok(skill) => {
                        self.insert(skill);
                        n_loaded += 1;
                    },
                    Err(_) => {
                        n_skipped += 1;
                    },
                }
            }
        }
        assert(all.take(total as int) =~= all);
        (n_loaded, n_skipped)
    }

    /// A registry with the skills of the directories `dirs`.
    pub fn load_from_workspace(dirs: Vec<SkillDir>) -> (r: Self)
        ensures
            r@ == loaded(Seq::empty(), dirs.deep_view()),
    {
        let mut registry = Self::new();
        let _ = registry.load_skills(dirs);
        registry
    }

    /// Every skill, in the order of the registry.
    pub fn list(&self) -> (r: Vec<Skill>)
        ensures
            r.deep_view() == self@,
            names_distinct(r.deep_view()),
    {
        proof {
            use_type_invariant(self);
        }
        let copy = self.skills.clone();
        assert(copy@.len() == self.skills@.len());
        assert(copy.deep_view() =~= self.skills.deep_view());
        copy
    }

    /// The skill named `name`.
    pub fn get(&self, name: &str) -> (r: Option<Skill>)
        ensures
            r.deep_view() == if has_skill(self@, name@) {
                Some(self@[position_of(self@, name@)])
            } else {
                None
            },
    {
        match position_in(&self.skills, name) {
            Some(i) => Some(self.skills[i].clone()),
            None => None,
        }
    }

    /// Whether a skill is named `name`.
    pub fn contains(&self, name: &str) -> (r: bool)
        ensures
            r == has_skill(self@, name@),
    {
        position_in(&self.skills, name).is_some()
    }

    /// How many skills there are, which is how many names there are.
    pub fn count(&self) -> (r: usize)
        ensures
            r == self@.len(),
            names_distinct(self@),
    {
        proof {
            use_type_invariant(self);
        }
        self.skills.len()
    }
}

impl Default for SkillRegistry {
    /// A registry without skills.
    fn default() -> (r: Self)
        ensures
            r@ == Seq::<SkillView>::empty(),
    {
        Self::new()
    }
}

} // verus!
