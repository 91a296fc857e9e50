//! The tools that the loop may run, by name.
//!
//! A tool is registered under the name that it gives at that moment. A
//! name is registered once: a tool registered under a name that is taken
//! replaces the tool that had it. An unknown name and a failed run are
//! answered with a result that says so, never with an error, so that the
//! model sees what happened and can go on.

use crate::text::str_eq;
use crate::traits::tool::{is_spec_of, tool_spec, Tool, ToolResult, ToolResultView, ToolSpec};
use vstd::prelude::*;
use vstd::string::*;

verus! {

/// Whether the entry at `i` is the first of `entries` under `name`.
pub open spec fn is_first_named<T>(entries: Seq<(Seq<char>, T)>, name: Seq<char>, i: int) -> bool {
    &&& 0 <= i < entries.len()
    &&& entries[i].0 == name
    &&& forall|j: int| 0 <= j < i ==> (#[trigger] entries[j]).0 != name
}

/// Whether a tool is registered under `name`.
pub open spec fn has_tool<T>(entries: Seq<(Seq<char>, T)>, name: Seq<char>) -> bool {
    exists|i: int| 0 <= i < entries.len() && (#[trigger] entries[i]).0 == name
}

/// Where the first entry under `name` stands, if there is one.
pub open spec fn position_of<T>(entries: Seq<(Seq<char>, T)>, name: Seq<char>) -> int {
    choose|i: int| is_first_named(entries, name, i)
}

/// The tool registered under `name`, if there is one.
pub open spec fn tool_named<T>(entries: Seq<(Seq<char>, T)>, name: Seq<char>) -> Option<T> {
    if has_tool(entries, name) {
        Some(entries[position_of(entries, name)].1)
    } else {
        None
    }
}

/// Whether no two entries stand under one name.
pub open spec fn names_distinct<T>(entries: Seq<(Seq<char>, T)>) -> bool {
    forall|i: int, j: int|
        0 <= i < j < entries.len() ==> (#[trigger] entries[i]).0 != (#[trigger] entries[j]).0
}

/// The entries after `tool` was registered under `name`: it takes the
/// place of the tool that had the name, or stands last where none had.
pub open spec fn registered<T>(entries: Seq<(Seq<char>, T)>, name: Seq<char>, tool: T) -> Seq<
    (Seq<char>, T),
> {
    if has_tool(entries, name) {
        entries.update(position_of(entries, name), (name, tool))
    } else {
        entries.push((name, tool))
    }
}

/// The result that answers a call of the unknown tool `name`.
pub open spec fn not_found(name: Seq<char>) -> ToolResultView {
    ToolResultView {
        success: false,
        output: Seq::empty(),
        error: Some("Tool '"@ + name + "' not found"@),
    }
}

/// The result that answers a run that failed with `message`.
pub open spec fn execution_failed(message: Seq<char>) -> ToolResultView {
    ToolResultView {
        success: false,
        output: Seq::empty(),
        error: Some("Execution failed: "@ + message),
    }
}

/// What the registry makes of the outcome of a run: a result stays as it
/// is, a failure becomes a result that reports it.
pub open spec fn settled(outcome: Result<ToolResult, String>) -> ToolResultView {
    match outcome {
        Ok(result) => result@,
        Err(message) => execution_failed(message@),
    }
}

/// The first entry under a name is where `position_of` says.
pub proof fn lemma_position_of<T>(entries: Seq<(Seq<char>, T)>, name: Seq<char>, i: int)
    requires
        is_first_named(entries, name, i),
    ensures
        has_tool(entries, name),
        position_of(entries, name) == i,
{
    let p = position_of(entries, name);
    assert(is_first_named(entries, name, p));
    if p < i {
        assert(entries[p].0 != name);
    } else if i < p {
        assert(entries[i].0 != name);
    }
}

/// Registering makes the tool the one that its name finds, leaves every
/// other name with the tool that it had, and keeps the names apart where
/// they were.
pub proof fn registering_replaces_by_name<T>(
    entries: Seq<(Seq<char>, T)>,
    name: Seq<char>,
    tool: T,
)
    requires
        names_distinct(entries),
    ensures
        names_distinct(registered(entries, name, tool)),
        tool_named(registered(entries, name, tool), name) == Some(tool),
        forall|other: Seq<char>|
            other != name ==> tool_named(registered(entries, name, tool), other) == tool_named(
                entries,
                other,
            ),
        registered(entries, name, tool).len() == if has_tool(entries, name) {
            entries.len()
        } else {
            entries.len() + 1
        },
{
    let after = registered(entries, name, tool);
    if has_tool(entries, name) {
        let w = choose|i: int| 0 <= i < entries.len() && (#[trigger] entries[i]).0 == name;
        assert forall|j: int| 0 <= j < w implies (#[trigger] entries[j]).0 != name by {
            assert(entries[j].0 != entries[w].0);
        }
        lemma_position_of(entries, name, w);
    }
    let at = if has_tool(entries, name) {
        position_of(entries, name)
    } else {
        entries.len() as int
    };
    assert(0 <= at < after.len() && after[at] == (name, tool));
    assert forall|i: int, j: int| 0 <= i < j < after.len() implies (#[trigger] after[i]).0 != (
    #[trigger] after[j]).0 by {
        if i != at && j != at {
            assert(after[i] == entries[i] && after[j] == entries[j]);
        } else if i == at {
            if has_tool(entries, name) {
                assert(after[j] == entries[j]);
                assert(entries[at].0 == name);
            }
        } else {
            assert(after[i] == entries[i]);
            if has_tool(entries, name) {
                assert(entries[at].0 == name);
            }
        }
    }
    assert forall|j: int| 0 <= j < at implies (#[trigger] after[j]).0 != name by {
        assert(after[j].0 != after[at].0);
    }
    lemma_position_of(after, name, at);
    assert forall|other: Seq<char>| other != name implies tool_named(after, other) == tool_named(
        entries,
        other,
    ) by {
        if has_tool(after, other) {
            let i = choose|i: int| 0 <= i < after.len() && (#[trigger] after[i]).0 == other;
            assert(i != at);
            assert(after[i] == entries[i]);
            assert(entries[i].0 == other);
            assert forall|j: int| 0 <= j < i implies (#[trigger] entries[j]).0 != other by {
                assert(entries[j].0 != entries[i].0);
            }
            lemma_position_of(entries, other, i);
            assert forall|j: int| 0 <= j < i implies (#[trigger] after[j]).0 != other by {
                assert(after[j].0 != after[i].0);
            }
            lemma_position_of(after, other, i);
        }
        if has_tool(entries, other) {
            let i = choose|i: int| 0 <= i < entries.len() && (#[trigger] entries[i]).0 == other;
            assert(after[i] == entries[i]);
            assert(after[i].0 == other);
        }
    }
}

/// The names and the tools of `entries`, as plain values.
pub open spec fn entries_view<T>(entries: Seq<(String, T)>) -> Seq<(Seq<char>, T)> {
    Seq::new(entries.len(), |i: int| (entries[i].0@, entries[i].1))
}

/// Where the tool named `name` stands among `entries`, if it is there.
fn position_in<T>(entries: &Vec<(String, T)>, name: &str) -> (r: Option<usize>)
    ensures
        match r {
            Some(i) => has_tool(entries_view(entries@), name@) && i == position_of(
                entries_view(entries@),
                name@,
            ) && i < entries.len(),
            None => !has_tool(entries_view(entries@), name@),
        },
{
    let ghost view = entries_view(entries@);
    let mut i: usize = 0;
    while i < entries.len()
        invariant
            i <= entries.len(),
            view == entries_view(entries@),
            forall|k: int| 0 <= k < i ==> (#[trigger] view[k]).0 != name@,
        decreases entries.len() - i,
    {
        if str_eq(entries[i].0.as_str(), name) {
            proof {
                lemma_position_of(view, name@, i as int);
            }
            return Some(i);
        }
        i += 1;
    }
    None
}

/// The tools that may be run, each under its name. No two of them stand
/// under one name.
pub struct ToolRegistry<T: Tool> {
    entries: Vec<(String, T)>,
}

impl<T: Tool> View for ToolRegistry<T> {
    type V = Seq<(Seq<char>, T)>;

    /// The names and their tools, in the order in which the names were
    /// first registered.
    closed spec fn view(&self) -> Seq<(Seq<char>, T)> {
        entries_view(self.entries@)
    }
}

impl<T: Tool> ToolRegistry<T> {
    #[verifier::type_invariant]
    spec fn names_apart(self) -> bool {
        names_distinct(entries_view(self.entries@))
    }

    /// A registry without tools.
    pub fn new() -> (r: Self)
        ensures
            r@ == Seq::<(Seq<char>, T)>::empty(),
            names_distinct(r@),
    {
        let r = ToolRegistry { entries: Vec::new() };
        assert(r@ =~= Seq::<(Seq<char>, T)>::empty());
        r
    }

    /// Registers `tool` under `name`. A tool that had the name gives way
    /// to it, and every other name keeps its tool.
    pub fn insert(&mut self, name: String, tool: T)
        ensures
            final(self)@ == registered(old(self)@, name@, tool),
            names_distinct(old(self)@),
            names_distinct(final(self)@),
    {
        proof {
            use_type_invariant(&*self);
            registering_replaces_by_name(self@, name@, tool);
        }
        let ghost before = self@;
        let mut entries: Vec<(String, T)> = Vec::new();
        core::mem::swap(&mut self.entries, &mut entries);
        match position_in(&entries, name.as_str()) {
            Some(i) => {
                entries.set(i, (name, tool));
                assert(entries_view(entries@) =~= before.update(i as int, (name@, tool)));
            },
            None => {
                entries.push((name, tool));
                assert(entries_view(entries@) =~= before.push((name@, tool)));
            },
        }
        core::mem::swap(&mut self.entries, &mut entries);
    }

    /// Registers `tool` under the name that it gives. A tool that had the
    /// name gives way to it.
    pub fn register(&mut self, tool: T)
        ensures
            exists|name: String|
                call_ensures(T::name, (&tool,), name) && final(self)@ == #[trigger] registered(
                    old(self)@,
                    name@,
                    tool,
                ),
            names_distinct(old(self)@),
            names_distinct(final(self)@),
    {
        let name = tool.name();
        let ghost before = self@;
        let ghost given = name;
        self.insert(name, tool);
        assert(call_ensures(T::name, (&tool,), given) && self@ == registered(
            before,
            given@,
            tool,
        ));
    }

    /// The tool registered under `name`. There is at most one.
    pub fn get(&self, name: &str) -> (r: Option<&T>)
        ensures
            match r {
                Some(tool) => tool_named(self@, name@) == Some(*tool),
                None => tool_named(self@, name@) is None,
            },
            names_distinct(self@),
    {
        proof {
            use_type_invariant(self);
        }
        match position_in(&self.entries, name) {
            Some(i) => Some(&self.entries[i].1),
            None => None,
        }
    }

    /// The spec of every registered tool, in the order of the tools, as
    /// the tools give them now: one for each name.
    pub fn get_specs(&self) -> (r: Vec<ToolSpec>)
        ensures
            r.len() == self@.len(),
            forall|i: int| 0 <= i < r.len() ==> is_spec_of(&(#[trigger] self@[i]).1, r[i]),
            names_distinct(self@),
    {
        proof {
            use_type_invariant(self);
        }
        let mut specs: Vec<ToolSpec> = Vec::new();
        let mut i: usize = 0;
        while i < self.entries.len()
            invariant
                i <= self.entries.len(),
                specs.len() == i,
                forall|k: int| 0 <= k < i ==> is_spec_of(&(#[trigger] self@[k]).1, specs[k]),
            decreases self.entries.len() - i,
        {
            let spec = tool_spec(&self.entries[i].1);
            assert(self@[i as int].1 == self.entries@[i as int].1);
            specs.push(spec);
            i += 1;
        }
        specs
    }

    /// How many tools are registered, which is how many names are.
    pub fn len(&self) -> (n: usize)
        ensures
            n == self@.len(),
            names_distinct(self@),
    {
        proof {
            use_type_invariant(self);
        }
        self.entries.len()
    }

    /// The result that answers a call of the unknown tool `name`.
    pub fn missing(name: &str) -> (r: ToolResult)
        ensures
            r@ == not_found(name@),
    {
        let mut message = "Tool '".to_owned();
        message.append(name);
        message.append("' not found");
        ToolResult::error(message.as_str())
    }

    /// What the registry makes of the outcome of a run.
    pub fn settle(outcome: Result<ToolResult, String>) -> (r: ToolResult)
        ensures
            r@ == settled(outcome),
    {
        match outcome {
            Ok(result) => result,
            Err(message) => {
                let mut text = "Execution failed: ".to_owned();
                text.append(message.as_str());
                ToolResult::error(text.as_str())
            },
        }
    }

    /// The tool to run for a call of `name`, or, where no tool has the name,
    /// the result that answers the call.
    pub fn resolve(&self, name: &str) -> (r: Result<&T, ToolResult>)
        ensures
            match r {
                Ok(tool) => tool_named(self@, name@) == Some(*tool),
                Err(answer) => tool_named(self@, name@) is None && answer@ == not_found(name@),
            },
    {
        match self.get(name) {
            Some(tool) => Ok(tool),
            None => Err(Self::missing(name)),
        }
    }

    /// Runs the tool `name` on the arguments `args`, given as JSON text,
    /// with `run` as the way to run a tool. An unknown name is answered
    /// without a run; a run that fails is answered with its message.
    pub fn execute<F: FnOnce(&T, &str) -> Result<ToolResult, String>>(
        &self,
        name: &str,
        args: &str,
        run: F,
    ) -> (r: ToolResult)
        requires
            forall|tool: &T| call_requires(run, (tool, args)),
        ensures
            match tool_named(self@, name@) {
                Some(tool) => exists|outcome: Result<ToolResult, String>|
                    call_ensures(run, (&tool, args), outcome) && r@ == #[trigger] settled(outcome),
                None => r@ == not_found(name@),
            },
    {
        match self.resolve(name) {
            Ok(tool) => {
                let outcome = run(tool, args);
                let r = Self::settle(outcome);
                assert(call_ensures(run, (tool, args), outcome) && r@ == settled(outcome));
                r
            },
            Err(answer) => answer,
        }
    }
}

impl<T: Tool> Default for ToolRegistry<T> {
    /// A registry without tools.
    fn default() -> (r: Self)
        ensures
            r@ == Seq::<(Seq<char>, T)>::empty(),
    {
        Self::new()
    }
}

} // verus!
