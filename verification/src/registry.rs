//! The tool registry: named tools with their descriptors and handlers, in
//! the order in which they were registered.

use vstd::prelude::*;
use vstd::string::*;
use crate::schema::{FieldView, Schema};
use crate::text::same_text;

verus! {

/// Why a descriptor could not be made.
#[derive(Clone, Copy, PartialEq, Eq, Debug, Structural)]
pub enum DescriptorError {
    /// A tool must say what it does.
    EmptyDescription,
}

/// What a caller may know of a tool: its name, what it does, and what
/// parameters it takes. The description is never empty.
#[derive(Debug)]
pub struct ToolDescriptor {
    name: String,
    description: String,
    schema: Schema,
}

/// The mathematical content of a [`ToolDescriptor`].
pub struct DescriptorView {
    pub name: Seq<char>,
    pub description: Seq<char>,
    pub schema: Seq<FieldView>,
}

impl View for ToolDescriptor {
    type V = DescriptorView;

    closed spec fn view(&self) -> DescriptorView {
        DescriptorView { name: self.name@, description: self.description@, schema: self.schema@ }
    }
}

impl ToolDescriptor {
    #[verifier::type_invariant]
    spec fn well_formed(self) -> bool {
        self.description@.len() > 0
    }

    /// Makes a descriptor, unless the description is empty.
    pub fn new(name: String, description: String, schema: Schema) -> (made: Result<
        ToolDescriptor,
        DescriptorError,
    >)
        ensures
            match made {
                Ok(d) => description@.len() > 0 && d@ == (DescriptorView {
                    name: name@,
                    description: description@,
                    schema: schema@,
                }),
                Err(DescriptorError::EmptyDescription) => description@.len() == 0,
            },
    {
        if description.as_str().is_empty() {
            Err(DescriptorError::EmptyDescription)
        } else {
            Ok(ToolDescriptor { name, description, schema })
        }
    }

    /// The tool's name.
    pub fn name(&self) -> (name: &String)
        ensures
            name@ == self@.name,
    {
        &self.name
    }

    /// What the tool does. This is never empty.
    pub fn description(&self) -> (description: &String)
        ensures
            description@ == self@.description,
            description@.len() > 0,
    {
        proof {
            use_type_invariant(self);
        }
        &self.description
    }

    /// The parameters that the tool takes.
    pub fn parameter_schema(&self) -> (schema: &Schema)
        ensures
            schema@ == self@.schema,
    {
        &self.schema
    }
}

/// Why the registry refused.
#[derive(Clone, Debug, PartialEq, Eq)]
pub enum RegistryError {
    /// A tool of that name is registered already.
    DuplicateName(String),
    /// No tool of that name is registered.
    NotFound(String),
}

/// No two descriptors have the same name.
pub open spec fn tool_names_distinct(descs: Seq<DescriptorView>) -> bool {
    forall|i: int, j: int|
        0 <= i < j < descs.len() ==> (#[trigger] descs[i]).name != (#[trigger] descs[j]).name
}

/// Whether one of the descriptors has the given name.
pub open spec fn has_tool(descs: Seq<DescriptorView>, name: Seq<char>) -> bool {
    exists|i: int| 0 <= i < descs.len() && (#[trigger] descs[i]).name == name
}

/// The position of the first descriptor at or after `from` that has the
/// given name; the number of descriptors where there is none.
pub open spec fn position_from(descs: Seq<DescriptorView>, name: Seq<char>, from: int) -> int
    decreases descs.len() - from,
{
    if from < 0 || from >= descs.len() {
        descs.len() as int
    } else if descs[from].name == name {
        from
    } else {
        position_from(descs, name, from + 1)
    }
}

/// The position of the descriptor of the given name; the number of
/// descriptors where there is none.
pub open spec fn position(descs: Seq<DescriptorView>, name: Seq<char>) -> int {
    position_from(descs, name, 0)
}

/// How many of the descriptors have the given name.
pub open spec fn occurrences(descs: Seq<DescriptorView>, name: Seq<char>) -> nat {
    descs.filter(|d: DescriptorView| d.name == name).len()
}

/// The views of the descriptors, in order.
pub open spec fn descriptor_views(descs: Seq<ToolDescriptor>) -> Seq<DescriptorView> {
    descs.map_values(|d: ToolDescriptor| d@)
}

/// The position of a name is that of a descriptor of that name, if there is
/// one, and then of the first.
pub proof fn lemma_position(descs: Seq<DescriptorView>, name: Seq<char>, from: int)
    requires
        0 <= from <= descs.len(),
    ensures
        from <= position_from(descs, name, from) <= descs.len(),
        position_from(descs, name, from) < descs.len() ==> descs[position_from(
            descs,
            name,
            from,
        )].name == name,
        forall|k: int|
            from <= k < position_from(descs, name, from) ==> (#[trigger] descs[k]).name != name,
    decreases descs.len() - from,
{
    if from < descs.len() && descs[from].name != name {
        lemma_position(descs, name, from + 1);
    }
}

/// A name is that of some descriptor exactly if it has a position among
/// them.
pub proof fn lemma_has_tool_position(descs: Seq<DescriptorView>, name: Seq<char>)
    ensures
        0 <= position(descs, name) <= descs.len(),
        has_tool(descs, name) <==> position(descs, name) < descs.len(),
{
    lemma_position(descs, name, 0);
}

/// A name that no descriptor has occurs zero times.
pub proof fn lemma_absent_name_never_occurs(descs: Seq<DescriptorView>, name: Seq<char>)
    requires
        !has_tool(descs, name),
    ensures
        occurrences(descs, name) == 0,
    decreases descs.len(),
{
    let pred = |d: DescriptorView| d.name == name;
    if descs.len() == 0 {
        assert(descs.filter(pred) =~= Seq::<DescriptorView>::empty());
    } else {
        let front = descs.drop_last();
        assert(descs =~= front.push(descs.last()));
        assert forall|i: int| 0 <= i < front.len() implies (#[trigger] front[i]).name != name by {
            assert(front[i] == descs[i]);
        }
        lemma_absent_name_never_occurs(front, name);
        Seq::lemma_filter_push(front, descs.last(), pred);
        assert(descs[descs.len() - 1].name != name);
    }
}

/// Among descriptors with distinct names, every name that occurs occurs
/// exactly once.
pub proof fn lemma_distinct_names_occur_once(descs: Seq<DescriptorView>, name: Seq<char>)
    requires
        tool_names_distinct(descs),
        has_tool(descs, name),
    ensures
        occurrences(descs, name) == 1,
    decreases descs.len(),
{
    let pred = |d: DescriptorView| d.name == name;
    let front = descs.drop_last();
    let last = descs.last();
    assert(descs =~= front.push(last));
    Seq::lemma_filter_push(front, last, pred);
    assert forall|i: int, j: int| 0 <= i < j < front.len() implies (#[trigger] front[i]).name != (
    #[trigger] front[j]).name by {
        assert(front[i] == descs[i]);
        assert(front[j] == descs[j]);
    }
    if last.name == name {
        assert forall|i: int| 0 <= i < front.len() implies (#[trigger] front[i]).name != name by {
            assert(front[i] == descs[i]);
            assert(descs[descs.len() - 1].name == name);
        }
        lemma_absent_name_never_occurs(front, name);
    } else {
        let k = choose|k: int| 0 <= k < descs.len() && (#[trigger] descs[k]).name == name;
        assert(k < front.len());
        assert(front[k] == descs[k]);
        lemma_distinct_names_occur_once(front, name);
    }
}

/// A mapping from tool names to tools: each tool a descriptor and a
/// handler, kept in the order of registration. Names are unique.
#[derive(Debug)]
pub struct Registry<H> {
    entries: Vec<(ToolDescriptor, H)>,
}

impl<H> Registry<H> {
    #[verifier::type_invariant]
    spec fn well_formed(self) -> bool {
        tool_names_distinct(self.descriptors())
    }

    /// The descriptors of the registered tools, in the order of
    /// registration.
    pub closed spec fn descriptors(&self) -> Seq<DescriptorView> {
        self.entries@.map_values(|e: (ToolDescriptor, H)| e.0@)
    }

    /// The handlers of the registered tools, in the order of registration.
    pub closed spec fn handlers(&self) -> Seq<H> {
        self.entries@.map_values(|e: (ToolDescriptor, H)| e.1)
    }

    /// The registry without tools.
    pub fn new() -> (registry: Registry<H>)
        ensures
            registry.descriptors() == Seq::<DescriptorView>::empty(),
            registry.handlers() == Seq::<H>::empty(),
    {
        let registry = Registry { entries: Vec::new() };
        assert(registry.descriptors() =~= Seq::<DescriptorView>::empty());
        assert(registry.handlers() =~= Seq::<H>::empty());
        registry
    }

    /// How many tools are registered. Every tool has a handler, and no two
    /// tools have the same name.
    pub fn len(&self) -> (n: usize)
        ensures
            n == self.descriptors().len(),
            n == self.handlers().len(),
            tool_names_distinct(self.descriptors()),
    {
        proof {
            use_type_invariant(self);
        }
        self.entries.len()
    }

    #[verifier::loop_isolation(false)]
    fn find(&self, name: &str) -> (at: usize)
        ensures
            at == position(self.descriptors(), name@),
            at <= self.descriptors().len(),
            self.descriptors().len() == self.handlers().len(),
            at < self.descriptors().len() <==> has_tool(self.descriptors(), name@),
    {
        proof {
            lemma_has_tool_position(self.descriptors(), name@);
        }
        let mut i: usize = 0;
        while i < self.entries.len()
            invariant
                i <= self.entries.len(),
                position(self.descriptors(), name@) == position_from(
                    self.descriptors(),
                    name@,
                    i as int,
                ),
            decreases self.entries.len() - i,
        {
            assert(self.descriptors()[i as int] == self.entries@[i as int].0@);
            if same_text(self.entries[i].0.name.as_str(), name) {
                return i;
            }
            i += 1;
        }
        i
    }

    /// Whether a tool of the given name is registered.
    pub fn contains(&self, name: &str) -> (found: bool)
        ensures
            found == has_tool(self.descriptors(), name@),
    {
        self.find(name) < self.entries.len()
    }

    /// Registers a tool, unless one of that name is registered already; the
    /// registry is then left as it was.
    pub fn register(&mut self, descriptor: ToolDescriptor, handler: H) -> (done: Result<
        (),
        RegistryError,
    >)
        ensures
            match done {
                Ok(()) => !has_tool(old(self).descriptors(), descriptor@.name)
                    && final(self).descriptors() == old(self).descriptors().push(descriptor@)
                    && final(self).handlers() == old(self).handlers().push(handler),
                Err(RegistryError::DuplicateName(name)) => has_tool(
                    old(self).descriptors(),
                    descriptor@.name,
                ) && name@ == descriptor@.name && final(self).descriptors() == old(self).descriptors()
                    && final(self).handlers() == old(self).handlers(),
                Err(RegistryError::NotFound(_)) => false,
            },
    {
        if self.contains(descriptor.name.as_str()) {
            return Err(RegistryError::DuplicateName(descriptor.name.clone()));
        }
        proof {
            use_type_invariant(&*self);
        }
        let ghost descs_before = self.descriptors();
        let ghost handlers_before = self.handlers();
        let mut entries: Vec<(ToolDescriptor, H)> = Vec::new();
        std::mem::swap(&mut self.entries, &mut entries);
        entries.push((descriptor, handler));
        proof {
            let descs = entries@.map_values(|e: (ToolDescriptor, H)| e.0@);
            assert(descs =~= descs_before.push(descriptor@));
            assert(entries@.map_values(|e: (ToolDescriptor, H)| e.1) =~= handlers_before.push(
                handler,
            ));
            assert forall|i: int, j: int| 0 <= i < j < descs.len() implies (#[trigger] descs[i]).name
                != (#[trigger] descs[j]).name by {
                if j < descs_before.len() {
                    assert(descs[i] == descs_before[i]);
                    assert(descs[j] == descs_before[j]);
                } else {
                    assert(descs[i] == descs_before[i]);
                }
            }
        }
        self.entries = entries;
        Ok(())
    }

    /// The descriptors of all registered tools, in the order of
    /// registration. No two of them have the same name: the name of every
    /// registered tool is that of exactly one of them.
    pub fn list(&self) -> (listed: Vec<&ToolDescriptor>)
        ensures
            listed@.len() == self.descriptors().len(),
            forall|i: int| 0 <= i < listed@.len() ==> (#[trigger] listed@[i])@ == self.descriptors()[i],
            tool_names_distinct(self.descriptors()),
            forall|name: Seq<char>|
                has_tool(self.descriptors(), name) ==> #[trigger] occurrences(
                    self.descriptors(),
                    name,
                ) == 1,
    {
        proof {
            use_type_invariant(self);
            assert forall|name: Seq<char>| has_tool(self.descriptors(), name) implies #[trigger] occurrences(
                self.descriptors(),
                name,
            ) == 1 by {
                lemma_distinct_names_occur_once(self.descriptors(), name);
            }
        }
        let mut listed: Vec<&ToolDescriptor> = Vec::new();
        let mut i: usize = 0;
        while i < self.entries.len()
            invariant
                i <= self.entries.len(),
                listed@.len() == i,
                forall|k: int| 0 <= k < i ==> (#[trigger] listed@[k])@ == self.descriptors()[k],
            decreases self.entries.len() - i,
        {
            assert(self.descriptors()[i as int] == self.entries@[i as int].0@);
            listed.push(&self.entries[i].0);
            i += 1;
        }
        listed
    }

    /// The tool of the given name: its descriptor and its handler.
    pub fn get(&self, name: &str) -> (found: Result<(&ToolDescriptor, &H), RegistryError>)
        ensures
            match found {
                Ok((descriptor, handler)) => {
                    let at = position(self.descriptors(), name@);
                    &&& has_tool(self.descriptors(), name@)
                    &&& at < self.descriptors().len() == self.handlers().len()
                    &&& descriptor@ == self.descriptors()[at]
                    &&& descriptor@.name == name@
                    &&& *handler == self.handlers()[at]
                },
                Err(RegistryError::NotFound(missing)) => !has_tool(self.descriptors(), name@)
                    && missing@ == name@,
                Err(RegistryError::DuplicateName(_)) => false,
            },
    {
        let at = self.find(name);
        if at < self.entries.len() {
            proof {
                lemma_position(self.descriptors(), name@, 0);
                assert(self.descriptors()[at as int] == self.entries@[at as int].0@);
                assert(self.handlers()[at as int] == self.entries@[at as int].1);
            }
            Ok((&self.entries[at].0, &self.entries[at].1))
        } else {
            Err(RegistryError::NotFound(String::from_str(name)))
        }
    }
}

} // verus!
