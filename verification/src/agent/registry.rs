//! The tools an agent can call, by name.

use crate::api::deepseek::{Tool, ToolFunction, ToolFunctionView, ToolView};
use crate::text::same_text;
use vstd::prelude::*;

verus! {

/// What a tool hands back: its output, or the reason it failed.
pub type ToolResult = Result<String, String>;

/// Index of the first entry of `tools` named `name`, or the length of
/// `tools` if there is none.
pub open spec fn position(tools: Seq<ToolFunctionView>, name: Seq<char>) -> int
    decreases tools.len(),
{
    if tools.len() == 0 || tools[0].name == name {
        0
    } else {
        1 + position(tools.drop_first(), name)
    }
}

/// Whether `tools` has an entry named `name`.
pub open spec fn has_tool(tools: Seq<ToolFunctionView>, name: Seq<char>) -> bool {
    position(tools, name) < tools.len()
}

/// No two entries of `tools` share a name.
pub open spec fn distinct_names(tools: Seq<ToolFunctionView>) -> bool {
    forall|i: int, j: int|
        0 <= i < j < tools.len() ==> (#[trigger] tools[i]).name != (#[trigger] tools[j]).name
}

/// `tools` after `function` is registered: it takes the place of the entry
/// with its name, or goes to the end if there is no such entry.
pub open spec fn with_tool(
    tools: Seq<ToolFunctionView>,
    function: ToolFunctionView,
) -> Seq<ToolFunctionView> {
    if has_tool(tools, function.name) {
        tools.update(position(tools, function.name), function)
    } else {
        tools.push(function)
    }
}

/// `handlers` after a tool is registered at `at`.
pub open spec fn with_handler<H>(handlers: Seq<H>, at: int, handler: H) -> Seq<H> {
    if at < handlers.len() {
        handlers.update(at, handler)
    } else {
        handlers.push(handler)
    }
}

/// The list that advertises `tools` to the model, in the same order.
pub open spec fn advertised(tools: Seq<ToolFunctionView>) -> Seq<ToolView> {
    Seq::new(tools.len(), |i: int| ToolView::of(tools[i]))
}

/// `position` is within bounds, names the entry it points at, and no earlier
/// entry has that name.
pub proof fn lemma_position(tools: Seq<ToolFunctionView>, name: Seq<char>)
    ensures
        0 <= position(tools, name) <= tools.len(),
        has_tool(tools, name) ==> tools[position(tools, name)].name == name,
        forall|k: int| 0 <= k < position(tools, name) ==> (#[trigger] tools[k]).name != name,
    decreases tools.len(),
{
    if tools.len() == 0 || tools[0].name == name {
    } else {
        let rest = tools.drop_first();
        lemma_position(rest, name);
        assert forall|k: int| 0 <= k < position(tools, name) implies (#[trigger] tools[k]).name
            != name by {
            if k > 0 {
                assert(tools[k] == rest[k - 1]);
            }
        }
    }
}

/// The first index at which `name` occurs is its position.
pub proof fn lemma_position_is(tools: Seq<ToolFunctionView>, name: Seq<char>, at: int)
    requires
        0 <= at <= tools.len(),
        forall|k: int| 0 <= k < at ==> (#[trigger] tools[k]).name != name,
        at < tools.len() ==> tools[at].name == name,
    ensures
        position(tools, name) == at,
    decreases tools.len(),
{
    if tools.len() == 0 || at == 0 {
    } else {
        assert(tools[0].name != name);
        let rest = tools.drop_first();
        assert forall|k: int| 0 <= k < at - 1 implies (#[trigger] rest[k]).name != name by {
            assert(rest[k] == tools[k + 1]);
        }
        lemma_position_is(rest, name, at - 1);
    }
}

/// A table of tools keyed by name. Each entry pairs what the tool is
/// advertised as with a handler of type `H`, the means to run it, which the
/// registry stores and hands out but never uses.
pub struct ToolRegistry<H> {
    functions: Vec<ToolFunction>,
    handlers: Vec<H>,
}

impl<H> ToolRegistry<H> {
    /// Every tool has its handler, and no name is registered twice.
    pub closed spec fn wf(&self) -> bool {
        &&& self.functions.len() == self.handlers.len()
        &&& distinct_names(self.functions.deep_view())
    }

    /// What well-formedness says of the two lists.
    pub proof fn lemma_wf(&self)
        requires
            self.wf(),
        ensures
            self.functions().len() == self.handlers().len(),
            distinct_names(self.functions()),
    {
    }

    /// The registered tools, in the order in which their names first came.
    pub closed spec fn functions(&self) -> Seq<ToolFunctionView> {
        self.functions.deep_view()
    }

    /// The handlers, each at the index of its tool.
    pub closed spec fn handlers(&self) -> Seq<H> {
        self.handlers@
    }

    /// An empty registry.
    pub fn new() -> (registry: Self)
        ensures
            registry.wf(),
            registry.functions() == Seq::<ToolFunctionView>::empty(),
            registry.handlers() == Seq::<H>::empty(),
    {
        let registry = Self { functions: Vec::new(), handlers: Vec::new() };
        assert(registry.functions.deep_view() =~= Seq::<ToolFunctionView>::empty());
        registry
    }

    fn locate(&self, name: &str) -> (at: usize)
        ensures
            at == position(self.functions(), name@),
            at <= self.functions.len(),
    {
        let mut at: usize = 0;
        while at < self.functions.len()
            invariant
                at <= self.functions.len(),
                forall|k: int|
                    0 <= k < at ==> (#[trigger] self.functions.deep_view()[k]).name != name@,
            ensures
                at <= self.functions.len(),
                forall|k: int|
                    0 <= k < at ==> (#[trigger] self.functions.deep_view()[k]).name != name@,
                at < self.functions.len() ==> self.functions.deep_view()[at as int].name == name@,
            decreases self.functions.len() - at,
        {
            if same_text(self.functions[at].name.as_str(), name) {
                break;
            }
            at += 1;
        }
        proof {
            lemma_position_is(self.functions.deep_view(), name@, at as int);
        }
        at
    }

    /// Registers a tool under `function.name`. A tool registered earlier
    /// under that name is replaced, and keeps its place in the order.
    pub fn register(&mut self, function: ToolFunction, handler: H)
        requires
            old(self).wf(),
        ensures
            final(self).wf(),
            final(self).functions() == with_tool(old(self).functions(), function@),
            final(self).handlers() == with_handler(
                old(self).handlers(),
                position(old(self).functions(), function@.name),
                handler,
            ),
    {
        let at = self.locate(function.name.as_str());
        proof {
            lemma_position(self.functions.deep_view(), function@.name);
        }
        let ghost before = self.functions.deep_view();
        if at < self.functions.len() {
            self.functions.set(at, function);
            self.handlers.set(at, handler);
            assert(self.functions.deep_view() =~= before.update(at as int, function@));
        } else {
            self.functions.push(function);
            self.handlers.push(handler);
            assert(self.functions.deep_view() =~= before.push(function@));
        }
    }

    /// Whether a tool is registered under `name`.
    pub fn contains(&self, name: &str) -> (yes: bool)
        ensures
            yes == has_tool(self.functions(), name@),
    {
        let at = self.locate(name);
        at < self.functions.len()
    }

    /// The handler of the tool registered under `name`, if there is one.
    pub fn get(&self, name: &str) -> (handler: Option<&H>)
        requires
            self.wf(),
        ensures
            match handler {
                Some(h) => has_tool(self.functions(), name@) && *h == self.handlers()[position(
                    self.functions(),
                    name@,
                )],
                None => !has_tool(self.functions(), name@),
            },
    {
        let at = self.locate(name);
        if at < self.handlers.len() {
            Some(&self.handlers[at])
        } else {
            None
        }
    }

    /// The registered tools as a request advertises them, in registry order.
    pub fn to_api_tools(&self) -> (tools: Vec<Tool>)
        ensures
            tools.deep_view() == advertised(self.functions()),
    {
        let mut tools: Vec<Tool> = Vec::new();
        let mut i: usize = 0;
        while i < self.functions.len()
            invariant
                i <= self.functions.len(),
                tools.len() == i,
                forall|k: int|
                    0 <= k < i ==> (#[trigger] tools[k])@ == ToolView::of(
                        self.functions.deep_view()[k],
                    ),
            decreases self.functions.len() - i,
        {
            let tool = Tool { kind: "function".to_owned(), function: self.functions[i].clone() };
            tools.push(tool);
            i += 1;
        }
        assert(tools.deep_view() =~= advertised(self.functions.deep_view()));
        tools
    }
}

/// Registering keeps names distinct.
pub proof fn lemma_register_keeps_names_distinct(
    tools: Seq<ToolFunctionView>,
    function: ToolFunctionView,
)
    requires
        distinct_names(tools),
    ensures
        distinct_names(with_tool(tools, function)),
{
    lemma_position(tools, function.name);
}

/// The last registration under a name wins: after `function` is
/// registered, its name leads to it, whatever was registered under that
/// name before; and the registry grows by one entry exactly if the name is
/// new.
pub proof fn lemma_last_registration_wins(
    tools: Seq<ToolFunctionView>,
    function: ToolFunctionView,
)
    ensures
        has_tool(with_tool(tools, function), function.name),
        with_tool(tools, function)[position(with_tool(tools, function), function.name)]
            == function,
        position(with_tool(tools, function), function.name) == position(tools, function.name),
        with_tool(tools, function).len() == if has_tool(tools, function.name) {
            tools.len()
        } else {
            tools.len() + 1
        },
{
    let at = position(tools, function.name);
    let after = with_tool(tools, function);
    lemma_position(tools, function.name);
    assert forall|k: int| 0 <= k < at implies (#[trigger] after[k]).name != function.name by {
        assert(after[k] == tools[k]);
    }
    lemma_position_is(after, function.name, at);
}

/// Registering a tool leaves every other name as it was: registered or not,
/// and leading to the same entry.
pub proof fn lemma_register_keeps_others(
    tools: Seq<ToolFunctionView>,
    function: ToolFunctionView,
    name: Seq<char>,
)
    requires
        name != function.name,
    ensures
        has_tool(with_tool(tools, function), name) == has_tool(tools, name),
        has_tool(tools, name) ==> position(with_tool(tools, function), name) == position(
            tools,
            name,
        ) && with_tool(tools, function)[position(tools, name)] == tools[position(tools, name)],
{
    let at = position(tools, function.name);
    let here = position(tools, name);
    let after = with_tool(tools, function);
    lemma_position(tools, function.name);
    lemma_position(tools, name);
    if has_tool(tools, name) {
        assert forall|k: int| 0 <= k < here implies (#[trigger] after[k]).name != name by {
            if k != at {
                assert(after[k] == tools[k]);
            }
        }
        assert(after[here] == tools[here]);
        lemma_position_is(after, name, here);
    } else {
        assert forall|k: int| 0 <= k < after.len() implies (#[trigger] after[k]).name != name by {
            if k < tools.len() && k != at {
                assert(after[k] == tools[k]);
            }
        }
        lemma_position_is(after, name, after.len() as int);
    }
}

/// After a tool is registered, its name leads to the handler it was
/// registered with.
pub proof fn lemma_registered_handler_is_found<H>(
    tools: Seq<ToolFunctionView>,
    handlers: Seq<H>,
    function: ToolFunctionView,
    handler: H,
)
    requires
        tools.len() == handlers.len(),
    ensures
        with_handler(handlers, position(tools, function.name), handler)[position(
            with_tool(tools, function),
            function.name,
        )] == handler,
{
    lemma_position(tools, function.name);
    lemma_last_registration_wins(tools, function);
}

} // verus!
