//! What a skill file says of the skill.
//!
//! A skill file may begin with front matter between two lines of three
//! dashes. Without it, the first line names the skill and the first line
//! of plain text describes it.

use crate::skills::{skill_file, skill_file_of};
use crate::text::{
    chars_of,
    join,
    join_strings,
    lines,
    split_lines,
    str_eq,
    string_of_range,
    trim,
    trim_bounds,
    trim_start_char,
    trimmed,
};
use vstd::prelude::*;
use vstd::string::*;

verus! {

/// A skill, as its file describes it.
#[derive(Debug)]
pub struct Skill {
    pub name: String,
    pub description: String,
    pub version: String,
    pub author: Option<String>,
    pub tags: Vec<String>,
    /// The path of the skill's file, where it is known.
    pub location: Option<String>,
}

/// A `Skill` as plain values.
pub struct SkillView {
    pub name: Seq<char>,
    pub description: Seq<char>,
    pub version: Seq<char>,
    pub author: Option<Seq<char>>,
    pub tags: Seq<Seq<char>>,
    pub location: Option<Seq<char>>,
}

impl View for Skill {
    type V = SkillView;

    open spec fn view(&self) -> SkillView {
        SkillView {
            name: self.name@,
            description: self.description@,
            version: self.version@,
            author: self.author.deep_view(),
            tags: self.tags.deep_view(),
            location: self.location.deep_view(),
        }
    }
}

impl DeepView for Skill {
    type V = SkillView;

    open spec fn deep_view(&self) -> SkillView {
        self@
    }
}

impl Clone for Skill {
    fn clone(&self) -> (r: Self)
        ensures
            r@ == self@,
    {
        let tags = self.tags.clone();
        assert(tags@ =~= self.tags@);
        assert(tags.deep_view() =~= self.tags.deep_view());
        Skill {
            name: self.name.clone(),
            description: self.description.clone(),
            version: self.version.clone(),
            author: match &self.author {
                Some(a) => Some(a.clone()),
                None => None,
            },
            tags,
            location: match &self.location {
                Some(l) => Some(l.clone()),
                None => None,
            },
        }
    }
}

/// What the front matter of a skill file says, once it has been read as
/// YAML. A version that the front matter leaves out is `default_version`.
#[derive(Debug)]
pub struct FrontMatter {
    pub name: String,
    pub description: String,
    pub version: String,
    pub author: Option<String>,
    pub tags: Vec<String>,
}

/// A `FrontMatter` as plain values.
pub struct FrontMatterView {
    pub name: Seq<char>,
    pub description: Seq<char>,
    pub version: Seq<char>,
    pub author: Option<Seq<char>>,
    pub tags: Seq<Seq<char>>,
}

impl View for FrontMatter {
    type V = FrontMatterView;

    open spec fn view(&self) -> FrontMatterView {
        FrontMatterView {
            name: self.name@,
            description: self.description@,
            version: self.version@,
            author: self.author.deep_view(),
            tags: self.tags.deep_view(),
        }
    }
}

impl DeepView for FrontMatter {
    type V = FrontMatterView;

    open spec fn deep_view(&self) -> FrontMatterView {
        self@
    }
}

/// Whether `line` is a line of three dashes.
pub open spec fn is_marker(line: Seq<char>) -> bool {
    trim(line) == "---"@
}

/// The first line at or after `from` that is a marker.
pub open spec fn first_marker(ls: Seq<Seq<char>>, from: int) -> Option<int>
    decreases ls.len() + 1 - from,
{
    if from < 0 || from >= ls.len() {
        None
    } else if is_marker(ls[from]) {
        Some(from)
    } else {
        first_marker(ls, from + 1)
    }
}

/// The front matter of a skill file: the lines between the marker on the
/// first line and the next marker. There is none where the file has fewer
/// than three lines, does not begin with a marker, or has no second one.
pub open spec fn front_matter_of(content: Seq<char>) -> Option<Seq<char>> {
    let ls = lines(content);
    if ls.len() >= 3 && is_marker(ls[0]) {
        match first_marker(ls, 1) {
            Some(end) => Some(join(ls.subrange(1, end), "\n"@)),
            None => None,
        }
    } else {
        None
    }
}

/// Whether `line` is a heading or blank, and so describes nothing.
pub open spec fn is_heading_or_blank(line: Seq<char>) -> bool {
    (line.len() > 0 && line[0] == '#') || trim(line).len() == 0
}

/// The first line at or after `from` that is neither heading nor blank.
pub open spec fn first_text_line(ls: Seq<Seq<char>>, from: int) -> Option<Seq<char>>
    decreases ls.len() + 1 - from,
{
    if from < 0 || from >= ls.len() {
        None
    } else if !is_heading_or_blank(ls[from]) {
        Some(ls[from])
    } else {
        first_text_line(ls, from + 1)
    }
}

/// The name that the first line gives: the line without its leading hash
/// signs, trimmed, or `unnamed` where nothing is left.
pub open spec fn heading_name(content: Seq<char>) -> Seq<char> {
    let ls = lines(content);
    let first = if ls.len() > 0 {
        ls[0]
    } else {
        Seq::empty()
    };
    let name = trim(trim_start_char(first, '#'));
    if name.len() == 0 {
        "unnamed"@
    } else {
        name
    }
}

/// The description that the text gives: its first line that is neither
/// heading nor blank, trimmed.
pub open spec fn heading_description(content: Seq<char>) -> Seq<char> {
    match first_text_line(lines(content), 0) {
        Some(line) => trim(line),
        None => "No description"@,
    }
}

/// The version of a skill that names none.
pub open spec fn default_version_text() -> Seq<char> {
    "0.1.0"@
}

/// The skill that the file at `path` with the text `content` describes.
/// Where the file has front matter and it was read as `front`, the front
/// matter says everything; else the headings and the text do.
pub open spec fn skill_of(path: Seq<char>, content: Seq<char>, front: Option<FrontMatterView>)
    -> SkillView {
    match (front_matter_of(content), front) {
        (Some(_), Some(f)) => SkillView {
            name: f.name,
            description: f.description,
            version: f.version,
            author: f.author,
            tags: f.tags,
            location: Some(path),
        },
        _ => SkillView {
            name: heading_name(content),
            description: heading_description(content),
            version: default_version_text(),
            author: None,
            tags: Seq::empty(),
            location: Some(path),
        },
    }
}

/// What loading the skill in `skill_dir` gives: the skill of its file, or
/// an error where there is no file.
pub open spec fn loaded_skill(
    skill_dir: Seq<char>,
    content: Option<Seq<char>>,
    front: Option<FrontMatterView>,
) -> Result<SkillView, Seq<char>> {
    match content {
        Some(text) => Ok(skill_of(skill_file_of(skill_dir), text, front)),
        None => Err("No SKILL.md found in "@ + skill_dir),
    }
}

/// `trim_start_char` drops exactly the leading run of `c`.
pub proof fn lemma_trim_start_char(s: Seq<char>, c: char, n: int)
    requires
        0 <= n <= s.len(),
        forall|k: int| 0 <= k < n ==> s[k] == c,
        n < s.len() ==> s[n] != c,
    ensures
        trim_start_char(s, c) == s.skip(n),
    decreases n,
{
    if n > 0 {
        let t = s.drop_first();
        assert forall|k: int| 0 <= k < n - 1 implies t[k] == c by {
            assert(t[k] == s[k + 1]);
        }
        if n - 1 < t.len() {
            assert(t[n - 1] == s[n]);
        }
        lemma_trim_start_char(t, c, n - 1);
        assert(t.skip(n - 1) =~= s.skip(n));
    } else {
        assert(s.skip(0) =~= s);
    }
}

/// The version of a skill that names none.
pub fn default_version() -> (r: String)
    ensures
        r@ == default_version_text(),
{
    "0.1.0".to_owned()
}

/// Whether `line` is a line of three dashes.
fn line_is_marker(line: &str) -> (r: bool)
    ensures
        r == is_marker(line@),
{
    str_eq(trimmed(line).as_str(), "---")
}

/// Whether `line` is a heading or blank.
fn line_is_heading_or_blank(line: &str) -> (r: bool)
    ensures
        r == is_heading_or_blank(line@),
{
    let v = chars_of(line);
    if v.len() > 0 && v[0] == '#' {
        return true;
    }
    trimmed(line).as_str().is_empty()
}

/// The front matter of a skill file with the text `content`, for a YAML
/// reader to read.
pub fn front_matter(content: &str) -> (r: Option<String>)
    ensures
        r.deep_view() == front_matter_of(content@),
{
    let ls = split_lines(content);
    if ls.len() < 3 || !line_is_marker(ls[0].as_str()) {
        return None;
    }
    let ghost lv = ls.deep_view();
    let mut end: usize = 1;
    let mut body: Vec<String> = Vec::new();
    assert(body.deep_view() =~= lv.subrange(1, 1));
    while end < ls.len()
        invariant
            1 <= end <= ls.len(),
            ls.len() >= 3,
            lv == ls.deep_view(),
            lv == lines(content@),
            is_marker(lv[0]),
            first_marker(lv, 1) == first_marker(lv, end as int),
            body.deep_view() == lv.subrange(1, end as int),
        decreases ls.len() - end,
    {
        if line_is_marker(ls[end].as_str()) {
            return Some(join_strings(&body, "\n"));
        }
        let ghost before = body.deep_view();
        let copy = ls[end].clone();
        body.push(copy);
        assert(body.deep_view() =~= before.push(copy@));
        assert(lv.subrange(1, end + 1) =~= lv.subrange(1, end as int).push(lv[end as int]));
        end += 1;
    }
    None
}

/// The first of the lines `ls` that is neither heading nor blank.
fn first_text(ls: &Vec<String>) -> (r: Option<String>)
    ensures
        r.deep_view() == first_text_line(ls.deep_view(), 0),
{
    let ghost lv = ls.deep_view();
    let mut i: usize = 0;
    while i < ls.len()
        invariant
            i <= ls.len(),
            lv == ls.deep_view(),
            first_text_line(lv, 0) == first_text_line(lv, i as int),
        decreases ls.len() - i,
    {
        if !line_is_heading_or_blank(ls[i].as_str()) {
            return Some(ls[i].clone());
        }
        i += 1;
    }
    None
}

/// The skill that the file at `path` with the text `content` describes,
/// by its headings and text alone.
fn skill_by_headings(path: &str, content: &str) -> (r: Skill)
    ensures
        r@ == skill_of(path@, content@, None),
{
    let ls = split_lines(content);
    let ghost lv = ls.deep_view();
    let first: Vec<char> = if ls.len() > 0 {
        chars_of(ls[0].as_str())
    } else {
        Vec::new()
    };
    let mut n: usize = 0;
    while n < first.len() && first[n] == '#'
        invariant
            n <= first.len(),
            forall|k: int| 0 <= k < n ==> first@[k] == '#',
        decreases first.len() - n,
    {
        n += 1;
    }
    proof {
        lemma_trim_start_char(first@, '#', n as int);
        assert(first@.skip(n as int) =~= first@.subrange(n as int, first@.len() as int));
    }
    let (a, b) = trim_bounds(&first, n, first.len());
    let name = if a < b {
        string_of_range(&first, a, b)
    } else {
        "unnamed".to_owned()
    };
    let description = match first_text(&ls) {
        Some(line) => trimmed(line.as_str()),
        None => "No description".to_owned(),
    };
    let r = Skill {
        name,
        description,
        version: default_version(),
        author: None,
        tags: Vec::new(),
        location: Some(path.to_owned()),
    };
    assert(r.tags.deep_view() =~= Seq::<Seq<char>>::empty());
    r
}

/// The skill that the file at `path` with the text `content` describes.
/// `front` is the file's front matter as a YAML reader read it, or `None`
/// where it has none or the reader refused it.
pub fn load_skill_md(path: &str, content: &str, front: Option<FrontMatter>) -> (r: Skill)
    ensures
        r@ == skill_of(path@, content@, front.deep_view()),
{
    match front {
        Some(f) => {
            if front_matter(content).is_some() {
                Skill {
                    name: f.name,
                    description: f.description,
                    version: f.version,
                    author: f.author,
                    tags: f.tags,
                    location: Some(path.to_owned()),
                }
            } else {
                skill_by_headings(path, content)
            }
        },
        None => skill_by_headings(path, content),
    }
}

/// Loads the skill in the directory `skill_dir`. `content` is the text of
/// its file, or `None` where there is no file, which is an error.
pub fn load_skill(skill_dir: &str, content: Option<String>, front: Option<FrontMatter>) -> (r:
    Result<Skill, String>)
    ensures
        match r {
            Ok(skill) => loaded_skill(skill_dir@, content.deep_view(), front.deep_view()) == Ok::<
                SkillView,
                Seq<char>,
            >(skill@),
            Err(message) => loaded_skill(skill_dir@, content.deep_view(), front.deep_view())
                == Err::<SkillView, Seq<char>>(message@),
        },
{
    match content {
        Some(text) => {
            let path = skill_file(skill_dir);
            Ok(load_skill_md(path.as_str(), text.as_str(), front))
        },
        None => {
            let mut message = "No SKILL.md found in ".to_owned();
            message.append(skill_dir);
            Err(message)
        },
    }
}

} // verus!
