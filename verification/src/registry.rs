//! The central tool registry.
//!
//! Every tool Noema knows about is registered here, keyed by its metadata
//! name and kept in name order. The registry owns the three views of a
//! tool: the Gemma-facing summaries and tool section (schema-free), the
//! complete engine-form schemas for the tool-specific Needle agents, and
//! validation of calls against the registered schema.

use vstd::prelude::*;
use crate::json::{json_text, lemma_items_model_all, items_model, JsonModel, JsonValue};
use crate::text::{lemma_seq_lt_asymmetric, lemma_seq_lt_irreflexive, lemma_seq_lt_total,
    lemma_seq_lt_transitive, push_str, seq_lt, str_eq, str_lt, string_of};
use crate::tools::{argument_problem_text, 
    arguments_valid, schema_object, ToolCall, ToolError, ToolMetadata, ToolSchema, ToolSummary,
};

verus! {

/// One registered tool: its execution-facing metadata, its full schema,
/// and any extra instructions for its logical Needle agent.
#[derive(Debug)]
pub struct RegisteredTool {
    /// Name, crate, description, risk.
    pub metadata: ToolMetadata,
    /// The complete Needle-facing schema.
    pub schema: ToolSchema,
    /// Extra instructions for the tool's Needle agent, if any.
    pub instructions: Option<String>,
}

impl RegisteredTool {
    /// A registered tool with no extra Needle instructions.
    pub fn new(metadata: ToolMetadata, schema: ToolSchema) -> (t: RegisteredTool)
        ensures
            t.metadata == metadata,
            t.schema == schema,
            t.instructions is None,
    {
        RegisteredTool { metadata, schema, instructions: None }
    }

    /// A copy of this tool.
    pub fn duplicate(&self) -> (t: RegisteredTool)
        ensures
            t.metadata == self.metadata,
            t.schema.name == self.schema.name,
            t.schema.description == self.schema.description,
            t.schema.parameters@ == self.schema.parameters@,
            t.instructions == self.instructions,
    {
        RegisteredTool {
            metadata: self.metadata.duplicate(),
            schema: self.schema.duplicate(),
            instructions: match &self.instructions {
                Some(s) => Some(s.clone()),
                None => None,
            },
        }
    }
}

/// The name a tool is registered under.
pub open spec fn tool_name(t: RegisteredTool) -> Seq<char> {
    t.metadata.name@
}

/// The names of a sequence of tools, in order.
pub open spec fn names_of(s: Seq<RegisteredTool>) -> Seq<Seq<char>> {
    s.map_values(|t: RegisteredTool| tool_name(t))
}

/// Tools in strictly increasing name order (so names are unique).
pub open spec fn sorted_by_name(s: Seq<RegisteredTool>) -> bool {
    forall|i: int, j: int| 0 <= i < j < s.len() ==> seq_lt(#[trigger] tool_name(s[i]), #[trigger] tool_name(s[j]))
}

/// Whether a tool with this name is in the sequence.
pub open spec fn has_name(s: Seq<RegisteredTool>, name: Seq<char>) -> bool {
    exists|i: int| 0 <= i < s.len() && #[trigger] tool_name(s[i]) == name
}

/// How many tools order strictly before `name`: where a tool named `name`
/// belongs.
pub open spec fn rank_of(s: Seq<RegisteredTool>, name: Seq<char>) -> nat
    decreases s.len(),
{
    if s.len() == 0 {
        0
    } else {
        rank_of(s.drop_last(), name) + if seq_lt(tool_name(s.last()), name) { 1nat } else { 0nat }
    }
}

/// The section of the Gemma system prompt that lists one tool.
pub open spec fn summary_lines(t: RegisteredTool) -> Seq<char> {
    "  "@ + t.metadata.name@ + "\n    crate: "@ + t.metadata.crate_name@ + "\n    description: "@
        + t.metadata.description@ + "\n"@
}

/// The lines of every tool's summary, in order.
pub open spec fn all_summary_lines(s: Seq<RegisteredTool>) -> Seq<char>
    decreases s.len(),
{
    if s.len() == 0 {
        Seq::empty()
    } else {
        all_summary_lines(s.drop_last()) + summary_lines(s.last())
    }
}

/// The "available tools" section for the Gemma system prompt: empty for an
/// empty registry, otherwise a header line followed by each tool's name,
/// crate, and description. It is built from metadata alone, so no schema
/// ever reaches the reasoning model.
pub open spec fn gemma_section(s: Seq<RegisteredTool>) -> Seq<char> {
    if s.len() == 0 {
        Seq::empty()
    } else {
        "Available tools:\n"@ + all_summary_lines(s)
    }
}

/// The engine-form schema objects of every tool, in order.
pub open spec fn engine_objects(s: Seq<RegisteredTool>) -> Seq<JsonModel> {
    s.map_values(
        |t: RegisteredTool| schema_object(t.schema.name@, t.schema.description@, t.schema.parameters@),
    )
}

/// A registry of tools, in name order with unique names.
#[derive(Debug)]
pub struct ToolRegistry {
    entries: Vec<RegisteredTool>,
}

impl Default for ToolRegistry {
    /// An empty registry.
    fn default() -> (r: Self)
        ensures
            r.tools().len() == 0,
    {
        ToolRegistry::new()
    }
}

impl ToolRegistry {
    /// Names strictly increase along the registry.
    #[verifier::type_invariant]
    spec fn sorted(&self) -> bool {
        sorted_by_name(self.entries@)
    }

    /// The registered tools, in name order.
    pub closed spec fn tools(&self) -> Seq<RegisteredTool> {
        self.entries@
    }

    /// An empty registry.
    pub fn new() -> (r: ToolRegistry)
        ensures
            r.tools().len() == 0,
    {
        ToolRegistry { entries: Vec::new() }
    }

    /// The registered tools in name order (iterate the slice).
    pub fn iter(&self) -> (r: &[RegisteredTool])
        ensures
            r@ == self.tools(),
    {
        self.entries.as_slice()
    }

    /// How many tools are registered.
    pub fn len(&self) -> (n: usize)
        ensures
            n == self.tools().len(),
    {
        self.entries.len()
    }

    /// Whether the registry is empty.
    pub fn is_empty(&self) -> (b: bool)
        ensures
            b == (self.tools().len() == 0),
    {
        self.entries.len() == 0
    }

    /// Where a tool with this name is, or belongs: the number of tools
    /// ordering before it, and whether the tool at that spot has the name.
    fn locate(&self, name: &str) -> (r: (usize, bool))
        ensures
            r.0 == rank_of(self.tools(), name@),
            r.0 <= self.tools().len(),
            forall|j: int| 0 <= j < r.0 ==> seq_lt(#[trigger] tool_name(self.tools()[j]), name@),
            forall|j: int| r.0 <= j < self.tools().len() && !(r.1 && j == r.0) ==> seq_lt(
                name@,
                #[trigger] tool_name(self.tools()[j]),
            ),
            r.1 == has_name(self.tools(), name@),
            r.1 ==> r.0 < self.tools().len() && tool_name(self.tools()[r.0 as int]) == name@,
    {
        proof { use_type_invariant(self); }
        let ghost s = self.entries@;
        let mut i: usize = 0;
        while i < self.entries.len()
            invariant
                s == self.entries@,
                sorted_by_name(s),
                i <= s.len(),
                forall|j: int| 0 <= j < i ==> seq_lt(#[trigger] tool_name(s[j]), name@),
            decreases self.entries.len() - i,
        {
            let here = self.entries[i].metadata.name.as_str();
            if str_eq(here, name) {
                proof {
                    lemma_seq_lt_irreflexive(name@);
                    lemma_rank_prefix(s, name@, i as int);
                    assert forall|j: int| i < j < s.len() implies seq_lt(name@, #[trigger] tool_name(s[j])) by {
                        assert(seq_lt(tool_name(s[i as int]), tool_name(s[j])));
                    }
                }
                return (i, true);
            }
            if str_lt(name, here) {
                proof {
                    lemma_seq_lt_asymmetric(name@, here@);
                    lemma_rank_prefix(s, name@, i as int);
                    assert forall|j: int| i <= j < s.len() implies seq_lt(name@, #[trigger] tool_name(s[j])) by {
                        if j > i {
                            assert(seq_lt(tool_name(s[i as int]), tool_name(s[j])));
                            lemma_seq_lt_transitive(name@, tool_name(s[i as int]), tool_name(s[j]));
                        }
                    }
                    assert forall|j: int| 0 <= j < s.len() implies #[trigger] tool_name(s[j]) != name@ by {
                        if j >= i {
                            lemma_seq_lt_irreflexive(name@);
                        } else {
                            lemma_seq_lt_irreflexive(name@);
                        }
                    }
                }
                return (i, false);
            }
            proof { lemma_seq_lt_total(here@, name@); }
            i += 1;
        }
        proof {
            lemma_rank_prefix(s, name@, s.len() as int);
            assert forall|j: int| 0 <= j < s.len() implies #[trigger] tool_name(s[j]) != name@ by {
                lemma_seq_lt_irreflexive(name@);
            }
        }
        (i, false)
    }

    /// Looks up a tool by name.
    pub fn get(&self, name: &str) -> (r: Option<&RegisteredTool>)
        ensures
            r is None <==> !has_name(self.tools(), name@),
            r matches Some(t) ==> exists|i: int|
                0 <= i < self.tools().len() && self.tools()[i] == *t && tool_name(*t) == name@,
    {
        let (i, found) = self.locate(name);
        if found {
            Some(&self.entries[i])
        } else {
            None
        }
    }

    /// Registers a tool.
    ///
    /// Fails with [`ToolError::Duplicate`] if a tool with the same name is
    /// already registered, leaving the registry unchanged. Otherwise the
    /// tool takes its place in name order.
    pub fn register(&mut self, tool: RegisteredTool) -> (r: Result<(), ToolError>)
        ensures
            r is Err <==> has_name(old(self).tools(), tool_name(tool)),
            r matches Err(e) ==> e matches ToolError::Duplicate(n) && n@ == tool_name(tool),
            r is Err ==> final(self).tools() == old(self).tools(),
            r is Ok ==> final(self).tools() == old(self).tools().insert(
                rank_of(old(self).tools(), tool_name(tool)) as int,
                tool,
            ),
    {
        let (i, found) = self.locate(tool.metadata.name.as_str());
        if found {
            return Err(ToolError::Duplicate(tool.metadata.name.clone()));
        }
        proof {
            use_type_invariant(&*self);
            let s = self.entries@;
            let t = s.insert(i as int, tool);
            assert forall|a: int, b: int| 0 <= a < b < t.len() implies seq_lt(
                #[trigger] tool_name(t[a]),
                #[trigger] tool_name(t[b]),
            ) by {
                if b < i {
                } else if a < i && b == i {
                } else if a < i && b > i {
                    assert(t[b] == s[b - 1]);
                    lemma_seq_lt_transitive(tool_name(s[a]), tool_name(tool), tool_name(s[b - 1]));
                } else if a == i {
                    assert(t[b] == s[b - 1]);
                } else {
                    assert(t[a] == s[a - 1]);
                    assert(t[b] == s[b - 1]);
                }
            }
        }
        let mut entries: Vec<RegisteredTool> = Vec::new();
        std::mem::swap(&mut entries, &mut self.entries);
        entries.insert(i, tool);
        self.entries = entries;
        Ok(())
    }

    /// Merges every tool from `other` into this registry.
    ///
    /// Fails on the first name collision (in `other`'s order), leaving this
    /// registry unchanged; otherwise every tool of `other` is added.
    pub fn extend(&mut self, other: &ToolRegistry) -> (r: Result<(), ToolError>)
        ensures
            r is Err <==> exists|i: int|
                0 <= i < other.tools().len() && has_name(old(self).tools(), tool_name(#[trigger] other.tools()[i])),
            r is Err ==> final(self).tools() == old(self).tools(),
            r matches Err(e) ==> exists|i: int|
                0 <= i < other.tools().len() && has_name(old(self).tools(), tool_name(#[trigger] other.tools()[i]))
                    && (forall|j: int| 0 <= j < i ==> !has_name(old(self).tools(), tool_name(#[trigger] other.tools()[j])))
                    && (e matches ToolError::Duplicate(n) && n@ == tool_name(other.tools()[i])),
            r is Ok ==> final(self).tools().len() == old(self).tools().len() + other.tools().len(),
            r is Ok ==> forall|n: Seq<char>|
                has_name(final(self).tools(), n) <==> (has_name(old(self).tools(), n) || has_name(other.tools(), n)),
    {
        proof {
            use_type_invariant(other);
        }
        let mut i: usize = 0;
        while i < other.entries.len()
            invariant
                i <= other.tools().len(),
                other.tools() == other.entries@,
                forall|j: int| 0 <= j < i ==> !has_name(self.tools(), tool_name(#[trigger] other.tools()[j])),
            decreases other.entries.len() - i,
        {
            let (_, found) = self.locate(other.entries[i].metadata.name.as_str());
            if found {
                return Err(ToolError::Duplicate(other.entries[i].metadata.name.clone()));
            }
            i += 1;
        }
        let ghost start = self.tools();
        let mut k: usize = 0;
        while k < other.entries.len()
            invariant
                k <= other.tools().len(),
                other.tools() == other.entries@,
                sorted_by_name(other.tools()),
                forall|j: int| 0 <= j < other.tools().len() ==> !has_name(start, tool_name(#[trigger] other.tools()[j])),
                self.tools().len() == start.len() + k,
                forall|n: Seq<char>| has_name(self.tools(), n) <==> (has_name(start, n) || has_name(
                    other.tools().subrange(0, k as int),
                    n,
                )),
            decreases other.entries.len() - k,
        {
            let t = other.entries[k].duplicate();
            let ghost name = tool_name(other.tools()[k as int]);
            proof {
                if has_name(self.tools(), name) {
                    if !has_name(start, name) {
                        let sub = other.tools().subrange(0, k as int);
                        let w = choose|w: int| 0 <= w < sub.len() && #[trigger] tool_name(sub[w]) == name;
                        assert(sub[w] == other.tools()[w]);
                        assert(seq_lt(tool_name(other.tools()[w]), tool_name(other.tools()[k as int])));
                        lemma_seq_lt_irreflexive(name);
                    }
                }
            }
            let ghost before = self.tools();
            let res = self.register(t);
            proof {
                assert(res is Ok);
                let p = rank_of(before, name) as int;
                lemma_rank_bound(before, name);
                assert forall|n: Seq<char>| has_name(self.tools(), n) <==> (has_name(before, n) || n == name) by {
                    if has_name(self.tools(), n) {
                        let w = choose|w: int| 0 <= w < self.tools().len() && #[trigger] tool_name(self.tools()[w]) == n;
                        if w < p {
                            assert(self.tools()[w] == before[w]);
                        } else if w > p {
                            assert(self.tools()[w] == before[w - 1]);
                        }
                    }
                    if has_name(before, n) {
                        let w = choose|w: int| 0 <= w < before.len() && #[trigger] tool_name(before[w]) == n;
                        if w < p {
                            assert(self.tools()[w] == before[w]);
                        } else {
                            assert(self.tools()[w + 1] == before[w]);
                        }
                    }
                    if n == name {
                        assert(self.tools()[p] == t);
                    }
                }
                let sub = other.tools().subrange(0, k as int);
                let sub2 = other.tools().subrange(0, k + 1);
                assert forall|n: Seq<char>| has_name(sub2, n) <==> (has_name(sub, n) || n == name) by {
                    if has_name(sub2, n) {
                        let w = choose|w: int| 0 <= w < sub2.len() && #[trigger] tool_name(sub2[w]) == n;
                        if w < k {
                            assert(sub2[w] == sub[w]);
                        }
                    }
                    if has_name(sub, n) {
                        let w = choose|w: int| 0 <= w < sub.len() && #[trigger] tool_name(sub[w]) == n;
                        assert(sub2[w] == sub[w]);
                    }
                    if n == name {
                        assert(sub2[k as int] == other.tools()[k as int]);
                    }
                }
            }
            k += 1;
        }
        proof {
            assert(other.tools().subrange(0, other.tools().len() as int) =~= other.tools());
        }
        Ok(())
    }

    /// The registered tool names, in sorted order.
    pub fn names(&self) -> (r: Vec<String>)
        ensures
            r@.map_values(|s: String| s@) == names_of(self.tools()),
            sorted_by_name(self.tools()),
    {
        proof { use_type_invariant(self); }
        let mut out: Vec<String> = Vec::new();
        let mut i: usize = 0;
        while i < self.entries.len()
            invariant
                i <= self.entries@.len(),
                out@.len() == i,
                forall|j: int| 0 <= j < i ==> #[trigger] out@[j]@ == tool_name(self.entries@[j]),
            decreases self.entries.len() - i,
        {
            out.push(self.entries[i].metadata.name.clone());
            i += 1;
        }
        assert(out@.map_values(|s: String| s@) =~= names_of(self.tools()));
        out
    }

    /// The lightweight summaries Gemma sees, in name order: name, owning
    /// crate, and description — never the schema.
    pub fn gemma_summaries(&self) -> (r: Vec<ToolSummary>)
        ensures
            r@.len() == self.tools().len(),
            forall|j: int|
                0 <= j < r@.len() ==> (#[trigger] r@[j]).name@ == self.tools()[j].metadata.name@
                    && r@[j].crate_name@ == self.tools()[j].metadata.crate_name@
                    && r@[j].description@ == self.tools()[j].metadata.description@,
    {
        let mut out: Vec<ToolSummary> = Vec::new();
        let mut i: usize = 0;
        while i < self.entries.len()
            invariant
                i <= self.entries@.len(),
                out@.len() == i,
                forall|j: int|
                    0 <= j < i ==> (#[trigger] out@[j]).name@ == self.entries@[j].metadata.name@
                        && out@[j].crate_name@ == self.entries@[j].metadata.crate_name@
                        && out@[j].description@ == self.entries@[j].metadata.description@,
            decreases self.entries.len() - i,
        {
            out.push(self.entries[i].metadata.summary());
            i += 1;
        }
        out
    }

    /// The dynamic "available tools" section for the Gemma system prompt.
    ///
    /// ```text
    /// Available tools:
    ///   search_files
    ///     crate: noema-filesearch
    ///     description: Search for files on the local system
    /// ```
    ///
    /// Empty when no tool is registered. Schema-free by construction.
    pub fn gemma_tool_section(&self) -> (s: String)
        ensures
            s@ == gemma_section(self.tools()),
    {
        if self.entries.len() == 0 {
            return String::new();
        }
        let mut section = string_of("Available tools:\n");
        let ghost head = section@;
        let mut i: usize = 0;
        while i < self.entries.len()
            invariant
                i <= self.entries@.len(),
                section@ == head + all_summary_lines(self.entries@.subrange(0, i as int)),
            decreases self.entries.len() - i,
        {
            let m = &self.entries[i].metadata;
            push_str(&mut section, "  ");
            push_str(&mut section, m.name.as_str());
            push_str(&mut section, "\n    crate: ");
            push_str(&mut section, m.crate_name.as_str());
            push_str(&mut section, "\n    description: ");
            push_str(&mut section, m.description.as_str());
            push_str(&mut section, "\n");
            proof {
                let sub = self.entries@.subrange(0, i + 1);
                assert(sub.drop_last() =~= self.entries@.subrange(0, i as int));
                assert(sub.last() == self.entries@[i as int]);
            }
            i += 1;
            assert(section@ =~= head + all_summary_lines(self.entries@.subrange(0, i as int)));
        }
        assert(self.entries@.subrange(0, self.entries@.len() as int) =~= self.entries@);
        section
    }

    /// The complete engine-form schema JSON array of every registered tool,
    /// in name order. Each schema writes `name` before `description`.
    pub fn needle_tools_json(&self) -> (s: String)
        ensures
            s@ == json_text(JsonModel::Array(engine_objects(self.tools()))),
    {
        let mut items: Vec<JsonValue> = Vec::new();
        let mut i: usize = 0;
        while i < self.entries.len()
            invariant
                i <= self.entries@.len(),
                items@.len() == i,
                forall|j: int|
                    0 <= j < i ==> (#[trigger] items@[j])@ == schema_object(
                        self.entries@[j].schema.name@,
                        self.entries@[j].schema.description@,
                        self.entries@[j].schema.parameters@,
                    ),
            decreases self.entries.len() - i,
        {
            items.push(self.entries[i].schema.engine_object());
            i += 1;
        }
        proof {
            lemma_items_model_all(items@);
            assert(items_model(items@) =~= engine_objects(self.tools()));
        }
        JsonValue::Array(items).to_json_text()
    }

    /// The engine-form schema JSON of one tool.
    pub fn tool_needle_json(&self, name: &str) -> (r: Result<String, ToolError>)
        ensures
            r is Err <==> !has_name(self.tools(), name@),
            r matches Err(e) ==> e matches ToolError::NotFound(n) && n@ == name@,
            r matches Ok(s) ==> exists|i: int|
                0 <= i < self.tools().len() && tool_name(#[trigger] self.tools()[i]) == name@ && s@
                    == json_text(
                    schema_object(
                        self.tools()[i].schema.name@,
                        self.tools()[i].schema.description@,
                        self.tools()[i].schema.parameters@,
                    ),
                ),
    {
        match self.get(name) {
            Some(t) => Ok(t.schema.needle_json()),
            None => Err(ToolError::NotFound(string_of(name))),
        }
    }

    /// Validates a call against its tool's schema without executing it:
    /// the tool must be registered and the arguments must satisfy the
    /// schema's `required` list.
    pub fn validate_call(&self, call: &ToolCall) -> (r: Result<(), ToolError>)
        ensures
            !has_name(self.tools(), call.tool@) ==> (r matches Err(ToolError::NotFound(n)) && n@
                == call.tool@),
            has_name(self.tools(), call.tool@) ==> (r is Ok <==> exists|i: int|
                0 <= i < self.tools().len() && tool_name(#[trigger] self.tools()[i]) == call.tool@
                    && arguments_valid(self.tools()[i].schema.parameters@, call.arguments@)),
            has_name(self.tools(), call.tool@) && r is Err ==> exists|i: int|
                0 <= i < self.tools().len() && tool_name(#[trigger] self.tools()[i]) == call.tool@ && (r matches Err(
                    ToolError::InvalidCall(m),
                ) && m@ == argument_problem_text(
                    self.tools()[i].schema.parameters@,
                    self.tools()[i].schema.name@,
                    call.arguments@,
                )),
    {
        match self.get(call.tool.as_str()) {
            Some(t) => {
                proof {
                    use_type_invariant(self);
                    let w = choose|i: int| 0 <= i < self.tools().len() && self.tools()[i] == *t && tool_name(*t) == call.tool@;
                    assert forall|i: int| 0 <= i < self.tools().len() && tool_name(#[trigger] self.tools()[i]) == call.tool@ implies i == w by {
                        if i < w {
                            assert(seq_lt(tool_name(self.tools()[i]), tool_name(self.tools()[w])));
                            lemma_seq_lt_irreflexive(call.tool@);
                        } else if i > w {
                            assert(seq_lt(tool_name(self.tools()[w]), tool_name(self.tools()[i])));
                            lemma_seq_lt_irreflexive(call.tool@);
                        }
                    }
                }
                t.schema.validate_arguments(&call.arguments)
            },
            None => Err(ToolError::NotFound(call.tool.clone())),
        }
    }
}

/// The rank of a name counts the tools before it; in a sorted sequence it
/// is the first position whose tool does not order before the name.
pub proof fn lemma_rank_prefix(s: Seq<RegisteredTool>, name: Seq<char>, i: int)
    requires
        sorted_by_name(s),
        0 <= i <= s.len(),
        forall|j: int| 0 <= j < i ==> seq_lt(#[trigger] tool_name(s[j]), name),
        i < s.len() ==> !seq_lt(tool_name(s[i]), name),
    ensures
        rank_of(s, name) == i,
    decreases s.len(),
{
    if s.len() > 0 {
        let t = s.drop_last();
        assert forall|a: int, b: int| 0 <= a < b < t.len() implies seq_lt(
            #[trigger] tool_name(t[a]),
            #[trigger] tool_name(t[b]),
        ) by {
            assert(t[a] == s[a] && t[b] == s[b]);
        }
        if i == s.len() {
            assert forall|j: int| 0 <= j < i - 1 implies seq_lt(#[trigger] tool_name(t[j]), name) by {
                assert(t[j] == s[j]);
            }
            lemma_rank_prefix(t, name, i - 1);
        } else {
            assert forall|j: int| 0 <= j < i implies seq_lt(#[trigger] tool_name(t[j]), name) by {
                assert(t[j] == s[j]);
            }
            if i < t.len() {
                assert(t[i] == s[i]);
            }
            let last = s.len() - 1;
            if seq_lt(tool_name(s[last]), name) {
                if last > i {
                    assert(seq_lt(tool_name(s[i]), tool_name(s[last])));
                    lemma_seq_lt_transitive(tool_name(s[i]), tool_name(s[last]), name);
                }
            }
            lemma_rank_prefix(t, name, i);
        }
    }
}

/// A registration is never lost: after a tool is registered (inserted at
/// its rank), its name is found in the registry, and so is every name that
/// was found before.
pub proof fn law_registered_tool_is_found(s: Seq<RegisteredTool>, tool: RegisteredTool, other: Seq<char>)
    ensures
        has_name(s.insert(rank_of(s, tool_name(tool)) as int, tool), tool_name(tool)),
        has_name(s, other) ==> has_name(s.insert(rank_of(s, tool_name(tool)) as int, tool), other),
{
    lemma_rank_bound(s, tool_name(tool));
    let r = rank_of(s, tool_name(tool)) as int;
    let t = s.insert(r, tool);
    assert(tool_name(t[r]) == tool_name(tool));
    if has_name(s, other) {
        let i = choose|i: int| 0 <= i < s.len() && #[trigger] tool_name(s[i]) == other;
        if i < r {
            assert(t[i] == s[i]);
            assert(tool_name(t[i]) == other);
        } else {
            assert(t[i + 1] == s[i]);
            assert(tool_name(t[i + 1]) == other);
        }
    }
}

/// A rank never exceeds the length.
pub proof fn lemma_rank_bound(s: Seq<RegisteredTool>, name: Seq<char>)
    ensures
        rank_of(s, name) <= s.len(),
    decreases s.len(),
{
    if s.len() > 0 {
        lemma_rank_bound(s.drop_last(), name);
    }
}

} // verus!
