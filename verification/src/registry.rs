//! The registry of tools: every tool under its name.
//!
//! A registry is filled before the first message is read and only read from
//! then on. Names are unique: registering a tool under a name that is taken
//! replaces the tool that had it.

use vstd::prelude::*;
use vstd::string::*;
use crate::json::{items_view, lookup, Json, JsonValue};
use crate::text::{appended, same_text};
use crate::tools::{outcome_view, Invocation, InvocationView, Tool, ToolError};

verus! {

/// The names of a list of tools, in order.
pub open spec fn names<T: Tool>(tools: Seq<T>) -> Seq<Seq<char>> {
    Seq::new(tools.len(), |i: int| tools[i].spec_name())
}

/// Where the first tool called `name` stands in `tools`.
pub open spec fn position<T: Tool>(tools: Seq<T>, name: Seq<char>) -> Option<int>
    decreases tools.len(),
{
    if tools.len() == 0 {
        None
    } else if tools[0].spec_name() == name {
        Some(0)
    } else {
        match position(tools.skip(1), name) {
            Some(i) => Some(i + 1),
            None => None,
        }
    }
}

/// The tool called `name`, if `tools` holds one.
pub open spec fn find<T: Tool>(tools: Seq<T>, name: Seq<char>) -> Option<T> {
    match position(tools, name) {
        Some(i) => Some(tools[i]),
        None => None,
    }
}

/// The tools once `tool` is registered: it takes the place of the tool that
/// had its name, or stands at the end where the name is new.
pub open spec fn registered<T: Tool>(tools: Seq<T>, tool: T) -> Seq<T> {
    match position(tools, tool.spec_name()) {
        Some(i) => tools.update(i, tool),
        None => tools.push(tool),
    }
}

/// What a tool tells about itself when the tools are listed.
pub open spec fn descriptor<T: Tool>(tool: T) -> JsonValue {
    JsonValue::object().with_str("name"@, tool.spec_name()).with_str(
        "description"@,
        tool.spec_description(),
    ).with("inputSchema"@, tool.spec_input_schema())
}

/// The descriptors of a list of tools, in order.
pub open spec fn descriptors<T: Tool>(tools: Seq<T>) -> Seq<JsonValue> {
    Seq::new(tools.len(), |i: int| descriptor(tools[i]))
}

/// The name that a descriptor shows; the empty name where it shows none.
pub open spec fn shown_name(descriptor: JsonValue) -> Seq<char> {
    descriptor.str_or("name"@, Seq::empty())
}

/// The names that a listing shows, in order.
pub open spec fn shown_names(listing: Seq<JsonValue>) -> Seq<Seq<char>> {
    Seq::new(listing.len(), |i: int| shown_name(listing[i]))
}

/// Why a call by name gave no invocation.
#[derive(Debug, Clone, PartialEq, Eq)]
pub enum CallError {
    /// No tool is registered under the name.
    UnknownTool(String),
    /// The tool was found and could not be executed.
    Failed(ToolError),
}

/// The content of a [`CallError`].
pub enum CallErrorView {
    UnknownTool(Seq<char>),
    Failed(Seq<char>),
}

impl View for CallError {
    type V = CallErrorView;

    open spec fn view(&self) -> CallErrorView {
        match self {
            CallError::UnknownTool(name) => CallErrorView::UnknownTool(name@),
            CallError::Failed(error) => CallErrorView::Failed(error.message@),
        }
    }
}

impl CallErrorView {
    /// What the error says.
    pub open spec fn message(self) -> Seq<char> {
        match self {
            CallErrorView::UnknownTool(name) => "Unknown tool: "@ + name,
            CallErrorView::Failed(message) => message,
        }
    }
}

impl CallError {
    /// What the error says.
    pub fn message(&self) -> (message: String)
        ensures
            message@ == self@.message(),
    {
        match self {
            CallError::UnknownTool(name) => appended("Unknown tool: ", name.as_str()),
            CallError::Failed(error) => error.message.clone(),
        }
    }
}

/// The content of what a call by name gives.
pub open spec fn call_view(outcome: Result<Invocation, CallError>) -> Result<
    InvocationView,
    CallErrorView,
> {
    match outcome {
        Ok(invocation) => Ok(invocation@),
        Err(error) => Err(error@),
    }
}

/// What calling `name` on `input` gives among `tools`.
pub open spec fn call_result<T: Tool>(tools: Seq<T>, name: Seq<char>, input: JsonValue) -> Result<
    InvocationView,
    CallErrorView,
> {
    match find(tools, name) {
        Some(tool) => match tool.spec_execute(input) {
            Ok(invocation) => Ok(invocation),
            Err(message) => Err(CallErrorView::Failed(message)),
        },
        None => Err(CallErrorView::UnknownTool(name)),
    }
}

/// The tools of a gateway, each under its name.
pub struct ToolRegistry<T: Tool> {
    tools: Vec<T>,
}

impl<T: Tool> View for ToolRegistry<T> {
    type V = Seq<T>;

    closed spec fn view(&self) -> Seq<T> {
        self.tools@
    }
}

impl<T: Tool> ToolRegistry<T> {
    /// No two tools of a registry share a name.
    #[verifier::type_invariant]
    spec fn distinct_names(&self) -> bool {
        names(self.tools@).no_duplicates()
    }

    /// No two tools of the registry share a name. This holds of every
    /// registry; the operations that make or change one say so.
    pub open spec fn wf(&self) -> bool {
        names(self@).no_duplicates()
    }

    /// The registry without tools.
    pub fn new() -> (registry: Self)
        ensures
            registry@ == Seq::<T>::empty(),
            registry.wf(),
    {
        ToolRegistry { tools: Vec::new() }
    }

    /// How many tools are registered.
    pub fn len(&self) -> (count: usize)
        ensures
            count == self@.len(),
    {
        self.tools.len()
    }

    /// Where the tool called `name` stands, if there is one.
    fn index_of(&self, name: &str) -> (index: Option<usize>)
        ensures
            match index {
                Some(i) => position(self@, name@) == Some(i as int) && i < self@.len(),
                None => position(self@, name@) is None,
            },
    {
        let mut i: usize = 0;
        assert(self@.skip(0) =~= self@);
        while i < self.tools.len()
            invariant
                i <= self.tools.len(),
                position(self@, name@) == match position(self@.skip(i as int), name@) {
                    Some(k) => Some(k + i),
                    None => None,
                },
            decreases self.tools.len() - i,
        {
            proof {
                assert(self@.skip(i as int)[0] == self@[i as int]);
                assert(self@.skip(i as int).skip(1) =~= self@.skip(i + 1));
            }
            if same_text(self.tools[i].name(), name) {
                return Some(i);
            }
            i += 1;
        }
        None
    }

    /// Registers `tool` under its name. A tool that had the name is
    /// replaced.
    pub fn register(&mut self, tool: T)
        ensures
            final(self)@ == registered(old(self)@, tool),
            final(self).wf(),
    {
        proof {
            use_type_invariant(&*self);
            lemma_registered_names(self@, tool);
        }
        let found = self.index_of(tool.name());
        let mut tools: Vec<T> = Vec::new();
        core::mem::swap(&mut self.tools, &mut tools);
        match found {
            Some(i) => {
                tools[i] = tool;
            },
            None => {
                tools.push(tool);
            },
        }
        core::mem::swap(&mut self.tools, &mut tools);
    }

    /// Whether a tool is registered under `name`.
    pub fn contains(&self, name: &str) -> (held: bool)
        ensures
            held == find(self@, name@).is_some(),
            held == names(self@).contains(name@),
    {
        proof {
            lemma_find_iff_named(self@, name@);
        }
        self.index_of(name).is_some()
    }

    /// The descriptors of the tools, in the order in which their names
    /// were first registered.
    pub fn list(&self) -> (listing: Vec<Json>)
        ensures
            items_view(listing@) == descriptors(self@),
            shown_names(items_view(listing@)) == names(self@),
            shown_names(items_view(listing@)).no_duplicates(),
    {
        proof {
            use_type_invariant(self);
            lemma_listing_shows_the_names(self@);
        }
        let mut listing: Vec<Json> = Vec::new();
        let mut i: usize = 0;
        while i < self.tools.len()
            invariant
                i <= self.tools.len(),
                listing@.len() == i,
                forall|k: int| 0 <= k < i ==> listing@[k]@ == descriptor(self@[k]),
            decreases self.tools.len() - i,
        {
            let tool = &self.tools[i];
            let entry = Json::object().with_str("name", tool.name()).with_str(
                "description",
                tool.description(),
            ).with("inputSchema", tool.input_schema());
            listing.push(entry);
            i += 1;
        }
        assert(items_view(listing@) =~= descriptors(self@));
        listing
    }

    /// Decides what calling the tool `name` on `input` amounts to. That no
    /// tool has the name and that the tool cannot be executed on the input
    /// are told apart.
    pub fn call(&self, name: &str, input: Json) -> (outcome: Result<Invocation, CallError>)
        ensures
            call_view(outcome) == call_result(self@, name@, input@),
    {
        match self.index_of(name) {
            Some(i) => match self.tools[i].execute(input) {
                Ok(invocation) => Ok(invocation),
                Err(error) => Err(CallError::Failed(error)),
            },
            None => Err(CallError::UnknownTool(name.to_owned())),
        }
    }
}

/// A position that is found is in range, holds the name, and is the first
/// that does.
pub proof fn lemma_position_is_first<T: Tool>(tools: Seq<T>, name: Seq<char>)
    ensures
        match position(tools, name) {
            Some(i) => 0 <= i < tools.len() && tools[i].spec_name() == name && forall|k: int|
                0 <= k < i ==> tools[k].spec_name() != name,
            None => forall|k: int| 0 <= k < tools.len() ==> tools[k].spec_name() != name,
        },
    decreases tools.len(),
{
    if tools.len() > 0 && tools[0].spec_name() != name {
        let rest = tools.skip(1);
        lemma_position_is_first(rest, name);
        match position(rest, name) {
            Some(i) => {
                assert(rest[i] == tools[i + 1]);
                assert forall|k: int| 0 <= k < i + 1 implies tools[k].spec_name() != name by {
                    if k > 0 {
                        assert(rest[k - 1] == tools[k]);
                    }
                }
            },
            None => {
                assert forall|k: int| 0 <= k < tools.len() implies tools[k].spec_name() != name by {
                    if k > 0 {
                        assert(rest[k - 1] == tools[k]);
                    }
                }
            },
        }
    }
}

/// A tool is found under a name exactly if the name is among the names of
/// the tools.
pub proof fn lemma_find_iff_named<T: Tool>(tools: Seq<T>, name: Seq<char>)
    ensures
        find(tools, name).is_some() == names(tools).contains(name),
        find(tools, name) matches Some(tool) ==> tool.spec_name() == name && tools.contains(tool),
{
    lemma_position_is_first(tools, name);
    match position(tools, name) {
        Some(i) => {
            assert(names(tools)[i] == name);
        },
        None => {
            if names(tools).contains(name) {
                let k = choose|k: int| 0 <= k < names(tools).len() && names(tools)[k] == name;
                assert(tools[k].spec_name() == name);
            }
        },
    }
}

/// Registering a tool adds its name to the names, keeps every other name,
/// and keeps the names distinct.
pub proof fn lemma_registered_names<T: Tool>(tools: Seq<T>, tool: T)
    ensures
        names(registered(tools, tool)).to_set() == names(tools).to_set().insert(tool.spec_name()),
        names(tools).no_duplicates() ==> names(registered(tools, tool)).no_duplicates(),
{
    let name = tool.spec_name();
    let after = registered(tools, tool);
    lemma_position_is_first(tools, name);
    match position(tools, name) {
        Some(i) => {
            assert(names(after) =~= names(tools));
            assert(names(tools)[i] == name);
            assert(names(tools).to_set().contains(name));
            assert(names(tools).to_set().insert(name) =~= names(tools).to_set());
        },
        None => {
            assert(names(after) =~= names(tools).push(name));
            assert forall|n: Seq<char>| names(after).to_set().contains(n) == names(
                tools,
            ).to_set().insert(name).contains(n) by {
                if names(after).contains(n) {
                    let k = choose|k: int| 0 <= k < names(after).len() && names(after)[k] == n;
                    if k < tools.len() {
                        assert(names(tools)[k] == n);
                    }
                }
                if names(tools).contains(n) {
                    let k = choose|k: int| 0 <= k < names(tools).len() && names(tools)[k] == n;
                    assert(names(after)[k] == n);
                }
                if n == name {
                    assert(names(after)[tools.len() as int] == n);
                }
            }
            assert(names(after).to_set() =~= names(tools).to_set().insert(name));
        },
    }
}

/// The descriptor of a tool shows the name of the tool.
pub proof fn lemma_descriptor_shows_name<T: Tool>(tool: T)
    ensures
        shown_name(descriptor(tool)) == tool.spec_name(),
{
    reveal_strlit("name");
    reveal_strlit("description");
    reveal_strlit("inputSchema");
    reveal_with_fuel(lookup, 4);
    let members = descriptor(tool)->Object_0;
    assert(members.len() == 3);
    assert(members.last().0 == "inputSchema"@);
    assert("inputSchema"@.len() != "name"@.len());
    assert(members.drop_last().last().0 == "description"@);
    assert("description"@.len() != "name"@.len());
    assert(members.drop_last().drop_last().last() == ("name"@, JsonValue::Str(tool.spec_name())));
}

/// The names that the listing of the tools shows are exactly the names of
/// the tools, each once where no two tools share a name.
pub proof fn lemma_listing_shows_the_names<T: Tool>(tools: Seq<T>)
    ensures
        shown_names(descriptors(tools)) == names(tools),
        shown_names(descriptors(tools)).to_set() == names(tools).to_set(),
        names(tools).no_duplicates() ==> shown_names(descriptors(tools)).no_duplicates(),
{
    assert forall|i: int| 0 <= i < tools.len() implies shown_names(descriptors(tools))[i] == names(
        tools,
    )[i] by {
        lemma_descriptor_shows_name(tools[i]);
    }
    assert(shown_names(descriptors(tools)) =~= names(tools));
}

/// Calling a name under which no tool is registered fails, and the error
/// says that the tool is unknown.
pub proof fn lemma_unregistered_name_is_unknown<T: Tool>(
    tools: Seq<T>,
    name: Seq<char>,
    input: JsonValue,
)
    requires
        !names(tools).contains(name),
    ensures
        call_result(tools, name, input) == Err::<InvocationView, CallErrorView>(
            CallErrorView::UnknownTool(name),
        ),
{
    lemma_find_iff_named(tools, name);
}

/// Registering, one after the other, tools whose names all differ puts each
/// at the end: the tool at place `k` joins those before it.
pub proof fn lemma_registering_next_of_distinct<T: Tool>(all: Seq<T>, k: int)
    requires
        names(all).no_duplicates(),
        0 <= k < all.len(),
    ensures
        registered(all.take(k), all[k]) == all.take(k + 1),
{
    let before = all.take(k);
    lemma_position_is_first(before, all[k].spec_name());
    match position(before, all[k].spec_name()) {
        Some(i) => {
            assert(before[i] == all[i]);
            assert(names(all)[i] == names(all)[k]);
        },
        None => {},
    }
    assert(before.push(all[k]) =~= all.take(k + 1));
}

/// A tool that was just registered is the one found under its name.
pub proof fn lemma_registered_is_found<T: Tool>(tools: Seq<T>, tool: T)
    ensures
        find(registered(tools, tool), tool.spec_name()) == Some(tool),
{
    let name = tool.spec_name();
    let after = registered(tools, tool);
    lemma_position_is_first(tools, name);
    lemma_position_is_first(after, name);
    match position(tools, name) {
        Some(i) => {
            assert(after[i].spec_name() == name);
            assert(forall|k: int| 0 <= k < i ==> after[k] == tools[k]);
        },
        None => {
            assert(after[tools.len() as int].spec_name() == name);
            assert(forall|k: int| 0 <= k < tools.len() ==> after[k] == tools[k]);
        },
    }
}

/// Registering a tool changes nothing under any other name.
pub proof fn lemma_registered_keeps_others<T: Tool>(tools: Seq<T>, tool: T, other: Seq<char>)
    requires
        other != tool.spec_name(),
    ensures
        find(registered(tools, tool), other) == find(tools, other),
{
    let name = tool.spec_name();
    let after = registered(tools, tool);
    lemma_position_is_first(tools, name);
    lemma_position_is_first(tools, other);
    lemma_position_is_first(after, other);
    match position(tools, name) {
        Some(i) => {
            assert(forall|k: int| 0 <= k < tools.len() && k != i ==> after[k] == tools[k]);
        },
        None => {
            assert(forall|k: int| 0 <= k < tools.len() ==> after[k] == tools[k]);
        },
    }
}

} // verus!
