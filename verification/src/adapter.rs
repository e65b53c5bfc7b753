use vstd::prelude::*;

use std::collections::HashMap;

use crate::error::MCPError;
use crate::schema::{
    infer_block_signature, inferred_signature, BlockSignature, MCPToolSchema, ToolModel,
};

verus! {

broadcast use vstd::seq::group_seq_axioms, vstd::map::group_map_axioms;

// ------------------------------------------------------------------
// The outside value type
// ------------------------------------------------------------------

/// Declares serde_json's dynamic value type, so that adapter signatures can
/// carry a tool's raw arguments and its raw result through unchanged. The
/// inference core never looks inside such a value.
#[verifier::external_type_specification]
#[verifier::external_body]
pub struct ExValue(serde_json::Value);

/// Relies on serde_json::Map::new for the empty JSON object value that the
/// in-memory backend returns for every invocation, having no real transport.
#[verifier::external_body]
fn empty_object_value() -> serde_json::Value {
    serde_json::Value::Object(serde_json::Map::new())
}

// ------------------------------------------------------------------
// The adapter capability interface
// ------------------------------------------------------------------

/// The capability interface over tool backends.
///
/// A backend exposes three primitives — enumeration, schema retrieval and
/// invocation — and inherits the one derived operation, signature inference,
/// which is implemented once here against the primitives and never
/// re-implemented per backend. `spec_tools` is the backend's registry
/// abstraction: the map from tool name to the tool's description. Of the
/// operations only `invoke_tool`, `get_tool_schema` and the derived
/// `infer_block_signature` are fallible, and a `ToolNotFound` answer is owed
/// exactly on the names outside the registry.
pub trait MCPAdapter {
    /// The registry of tools this adapter currently knows, keyed by tool
    /// name.
    spec fn spec_tools(&self) -> Map<Seq<char>, ToolModel>;

    /// Invokes a tool with the given arguments and hands its raw result back
    /// unmodified. The call semantics and side effects are backend-specific;
    /// what every backend owes is the `ToolNotFound` answer on unknown names,
    /// and only there.
    fn invoke_tool(&self, tool_name: &str, arguments: HashMap<String, serde_json::Value>) -> (r:
        Result<serde_json::Value, MCPError>)
        ensures
            !self.spec_tools().dom().contains(tool_name@) ==> (r matches Err(
                MCPError::ToolNotFound(n),
            ) && n@ == tool_name@),
            r matches Err(MCPError::ToolNotFound(n)) ==> n@ == tool_name@
                && !self.spec_tools().dom().contains(tool_name@),
    ;

    /// Lists the tools this adapter knows: every listed description is in the
    /// registry under its own name, each registered name appears exactly
    /// once, and nothing else is listed. An empty registry yields the empty
    /// list, not an error.
    fn list_tools(&self) -> (r: Result<Vec<MCPToolSchema>, MCPError>)
        ensures
            r matches Ok(ts) && {
                &&& forall|i: int|
                    0 <= i < ts@.len() ==> self.spec_tools().contains_pair(
                        (#[trigger] ts@[i]).name@,
                        ts@[i]@,
                    )
                &&& forall|i: int, j: int|
                    0 <= i < j < ts@.len() ==> (#[trigger] ts@[i]).name@ != (#[trigger] ts@[j]).name@
                &&& forall|n: Seq<char>|
                    #[trigger] self.spec_tools().dom().contains(n) ==> exists|i: int|
                        0 <= i < ts@.len() && (#[trigger] ts@[i]).name@ == n
            },
    ;

    /// Retrieves the description of one tool: the registered description for
    /// a known name, `ToolNotFound` with the offending name otherwise.
    fn get_tool_schema(&self, tool_name: &str) -> (r: Result<MCPToolSchema, MCPError>)
        ensures
            self.spec_tools().dom().contains(tool_name@) ==> (r matches Ok(t) && t@
                == self.spec_tools()[tool_name@]),
            !self.spec_tools().dom().contains(tool_name@) ==> (r matches Err(
                MCPError::ToolNotFound(n),
            ) && n@ == tool_name@),
    ;

    /// The derived operation: looks the tool up and runs signature inference
    /// on its description. A known name yields exactly the inferred
    /// signature; an unknown one the same `ToolNotFound` as retrieval.
    fn infer_block_signature(&self, tool_name: &str) -> (r: Result<BlockSignature, MCPError>)
        ensures
            self.spec_tools().dom().contains(tool_name@) ==> (r matches Ok(b) && b@
                == inferred_signature(self.spec_tools()[tool_name@])),
            !self.spec_tools().dom().contains(tool_name@) ==> (r matches Err(
                MCPError::ToolNotFound(n),
            ) && n@ == tool_name@),
    {
        let schema = match self.get_tool_schema(tool_name) {
            Ok(s) => s,
            Err(e) => {
                return Err(e);
            },
        };
        infer_block_signature(&schema)
    }
}

// ------------------------------------------------------------------
// The in-memory backend
// ------------------------------------------------------------------

/// Whether a tool sequence holds no two entries under the same name.
pub open spec fn unique_names(s: Seq<MCPToolSchema>) -> bool {
    forall|i: int, j: int|
        0 <= i < j < s.len() ==> (#[trigger] s[i]).name@ != (#[trigger] s[j]).name@
}

/// The registry map a tool sequence denotes: each entry inserted in order, so
/// a later entry under the same name wins.
pub open spec fn tools_map(s: Seq<MCPToolSchema>) -> Map<Seq<char>, ToolModel>
    decreases s.len(),
{
    if s.len() == 0 {
        Map::empty()
    } else {
        tools_map(s.drop_last()).insert(s.last().name@, s.last()@)
    }
}

/// With unique names, the registry map holds exactly the entries of the
/// sequence: each entry is in the map under its name, and every name in the
/// map names some entry.
proof fn lemma_tools_map_entries(s: Seq<MCPToolSchema>)
    requires
        unique_names(s),
    ensures
        forall|i: int|
            0 <= i < s.len() ==> tools_map(s).contains_pair((#[trigger] s[i]).name@, s[i]@),
        forall|n: Seq<char>|
            #[trigger] tools_map(s).dom().contains(n) ==> exists|i: int|
                0 <= i < s.len() && (#[trigger] s[i]).name@ == n,
    decreases s.len(),
{
    if s.len() > 0 {
        let prefix = s.drop_last();
        assert(unique_names(prefix));
        lemma_tools_map_entries(prefix);
        assert forall|i: int| 0 <= i < s.len() implies tools_map(s).contains_pair(
            (#[trigger] s[i]).name@,
            s[i]@,
        ) by {
            if i < s.len() - 1 {
                assert(prefix[i] == s[i]);
                assert(tools_map(prefix).contains_pair(s[i].name@, s[i]@));
                assert(s[i].name@ != s.last().name@);
            }
        }
        assert forall|n: Seq<char>| #[trigger] tools_map(s).dom().contains(n) implies exists|i: int|
            0 <= i < s.len() && (#[trigger] s[i]).name@ == n by {
            if n == s.last().name@ {
                assert(s[s.len() - 1].name@ == n);
            } else {
                assert(tools_map(prefix).dom().contains(n));
                let i = choose|i: int| 0 <= i < prefix.len() && (#[trigger] prefix[i]).name@ == n;
                assert(s[i].name@ == n);
            }
        }
    }
}

/// The in-memory backend: a registry of tool descriptions, kept with one
/// entry per tool name. It answers schema retrieval from the registry and,
/// having no transport of its own, answers every invocation of a known tool
/// with the empty JSON object.
pub struct BasicMCPAdapter {
    tools: Vec<MCPToolSchema>,
}

impl BasicMCPAdapter {
    /// Registry entries carry distinct names, so a name identifies one entry.
    #[verifier::type_invariant]
    spec fn wf(self) -> bool {
        unique_names(self.tools@)
    }

    /// An adapter with an empty registry.
    pub fn new() -> (r: Self)
        ensures
            r.spec_tools() == Map::<Seq<char>, ToolModel>::empty(),
    {
        let r = BasicMCPAdapter { tools: Vec::new() };
        proof {
            assert(r.tools@.len() == 0);
        }
        r
    }

    /// Puts one tool description into the registry under its name, replacing
    /// whatever the registry held under that name.
    pub fn register_tool(&mut self, tool: MCPToolSchema)
        ensures
            final(self).spec_tools() == old(self).spec_tools().insert(tool.name@, tool@),
    {
        proof {
            use_type_invariant(&*self);
        }
        let mut tools: Vec<MCPToolSchema> = Vec::new();
        std::mem::swap(&mut tools, &mut self.tools);
        let ghost s0 = tools@;

        let found = find_by_name(&tools, tool.name.as_str());
        match found {
            Some(i) => {
                tools.remove(i);
            },
            None => {},
        }
        let ghost s1 = tools@;
        tools.push(tool);

        proof {
            assert(unique_names(s1)) by {
                match found {
                    Some(i) => {
                        assert forall|x: int, y: int| 0 <= x < y < s1.len() implies (
                        #[trigger] s1[x]).name@ != (#[trigger] s1[y]).name@ by {
                            let x0 = if x < i as int {
                                x
                            } else {
                                x + 1
                            };
                            let y0 = if y < i as int {
                                y
                            } else {
                                y + 1
                            };
                            assert(s1[x] == s0[x0] && s1[y] == s0[y0]);
                        }
                    },
                    None => {},
                }
            }
            assert(unique_names(tools@)) by {
                assert forall|x: int| 0 <= x < s1.len() implies (#[trigger] s1[x]).name@
                    != tool.name@ by {
                    match found {
                        Some(i) => {
                            let x0 = if x < i as int {
                                x
                            } else {
                                x + 1
                            };
                            assert(s1[x] == s0[x0]);
                            assert(s0[i as int].name@ == tool.name@);
                        },
                        None => {},
                    }
                }
            }
            lemma_tools_map_entries(s0);
            lemma_tools_map_entries(s1);
            lemma_tools_map_entries(tools@);
            assert(tools@.drop_last() =~= s1);
            assert(tools_map(tools@) == tools_map(s1).insert(tool.name@, tool@));
            assert(tools_map(tools@) =~= tools_map(s0).insert(tool.name@, tool@)) by {
                let m1 = tools_map(tools@);
                let m2 = tools_map(s0).insert(tool.name@, tool@);
                assert forall|n: Seq<char>| #[trigger] m1.dom().contains(n) implies m2.dom().contains(
                    n,
                ) && m1[n] == m2[n] by {
                    lemma_register_entry(s0, s1, tools@, tool, found, n);
                }
                assert forall|n: Seq<char>| #[trigger] m2.dom().contains(n) implies m1.dom().contains(
                    n,
                ) by {
                    lemma_register_entry_back(s0, s1, tools@, tool, found, n);
                }
            }
        }
        self.tools = tools;
    }
}

/// One direction of the registry-update equation: every entry of the new map
/// is what insertion into the old map gives.
proof fn lemma_register_entry(
    s0: Seq<MCPToolSchema>,
    s1: Seq<MCPToolSchema>,
    s2: Seq<MCPToolSchema>,
    tool: MCPToolSchema,
    found: Option<usize>,
    n: Seq<char>,
)
    requires
        unique_names(s0),
        unique_names(s1),
        unique_names(s2),
        match found {
            Some(i) => 0 <= i < s0.len() && s0[i as int].name@ == tool.name@ && s1 == s0.remove(
                i as int,
            ),
            None => s1 == s0 && (forall|i: int|
                0 <= i < s0.len() ==> (#[trigger] s0[i]).name@ != tool.name@),
        },
        s2 == s1.push(tool),
        tools_map(s2).dom().contains(n),
    ensures
        tools_map(s0).insert(tool.name@, tool@).dom().contains(n),
        tools_map(s2)[n] == tools_map(s0).insert(tool.name@, tool@)[n],
{
    lemma_tools_map_entries(s0);
    lemma_tools_map_entries(s2);
    let m2 = tools_map(s2);
    let target = tools_map(s0).insert(tool.name@, tool@);
    let i = choose|i: int| 0 <= i < s2.len() && (#[trigger] s2[i]).name@ == n;
    assert(m2.contains_pair(s2[i].name@, s2[i]@));
    assert(m2[n] == s2[i]@);
    if n == tool.name@ {
        assert(s2[s2.len() - 1] == tool);
        assert(i == s2.len() - 1);
        assert(m2[n] == tool@);
        assert(target[n] == tool@);
    } else {
        assert(i < s2.len() - 1);
        let i0 = match found {
            Some(f) => if i < f as int {
                i
            } else {
                i + 1
            },
            None => i,
        };
        assert(s2[i] == s0[i0]);
        assert(tools_map(s0).contains_pair(s0[i0].name@, s0[i0]@));
        assert(target[n] == s0[i0]@);
    }
}

/// The other direction: every name in the inserted old map is in the new map.
proof fn lemma_register_entry_back(
    s0: Seq<MCPToolSchema>,
    s1: Seq<MCPToolSchema>,
    s2: Seq<MCPToolSchema>,
    tool: MCPToolSchema,
    found: Option<usize>,
    n: Seq<char>,
)
    requires
        unique_names(s0),
        unique_names(s1),
        unique_names(s2),
        match found {
            Some(i) => 0 <= i < s0.len() && s0[i as int].name@ == tool.name@ && s1 == s0.remove(
                i as int,
            ),
            None => s1 == s0 && (forall|i: int|
                0 <= i < s0.len() ==> (#[trigger] s0[i]).name@ != tool.name@),
        },
        s2 == s1.push(tool),
        tools_map(s0).insert(tool.name@, tool@).dom().contains(n),
    ensures
        tools_map(s2).dom().contains(n),
{
    lemma_tools_map_entries(s0);
    lemma_tools_map_entries(s2);
    if n == tool.name@ {
        assert(s2[s2.len() - 1] == tool);
        assert(tools_map(s2).contains_pair(tool.name@, tool@));
    } else {
        assert(tools_map(s0).dom().contains(n));
        let i = choose|i: int| 0 <= i < s0.len() && (#[trigger] s0[i]).name@ == n;
        let i1 = match found {
            Some(f) => if i < f as int {
                i
            } else {
                i - 1
            },
            None => i,
        };
        assert(s2[i1] == s0[i]);
        assert(tools_map(s2).contains_pair(s2[i1].name@, s2[i1]@));
    }
}

/// The index of the first registry entry carrying a name, if any.
fn find_by_name(tools: &Vec<MCPToolSchema>, tool_name: &str) -> (r: Option<usize>)
    ensures
        match r {
            Some(i) => 0 <= i < tools@.len() && tools@[i as int].name@ == tool_name@,
            None => forall|i: int| 0 <= i < tools@.len() ==> (#[trigger] tools@[i]).name@ != tool_name@,
        },
{
    let want = tool_name.to_owned();
    let n = tools.len();
    let mut i: usize = 0;
    while i < n
        invariant
            n == tools@.len(),
            i <= n,
            want@ == tool_name@,
            forall|j: int| 0 <= j < i as int ==> (#[trigger] tools@[j]).name@ != tool_name@,
        decreases n - i,
    {
        if tools[i].name == want {
            return Some(i);
        }
        i = i + 1;
    }
    None
}

impl MCPAdapter for BasicMCPAdapter {
    closed spec fn spec_tools(&self) -> Map<Seq<char>, ToolModel> {
        tools_map(self.tools@)
    }

    fn invoke_tool(&self, tool_name: &str, arguments: HashMap<String, serde_json::Value>) -> (r:
        Result<serde_json::Value, MCPError>)
        ensures
            self.spec_tools().dom().contains(tool_name@) ==> r is Ok,
    {
        proof {
            use_type_invariant(&*self);
            lemma_tools_map_entries(self.tools@);
        }
        match find_by_name(&self.tools, tool_name) {
            Some(_) => Ok(empty_object_value()),
            None => Err(MCPError::ToolNotFound(tool_name.to_owned())),
        }
    }

    fn list_tools(&self) -> (r: Result<Vec<MCPToolSchema>, MCPError>) {
        proof {
            use_type_invariant(&*self);
            lemma_tools_map_entries(self.tools@);
        }
        let n = self.tools.len();
        let mut out: Vec<MCPToolSchema> = Vec::new();
        let mut i: usize = 0;
        while i < n
            invariant
                n == self.tools@.len(),
                i <= n,
                out@.len() == i as int,
                forall|j: int| 0 <= j < i as int ==> (#[trigger] out@[j])@ == self.tools@[j]@,
                forall|j: int| 0 <= j < i as int ==> (#[trigger] out@[j]).name@
                    == self.tools@[j].name@,
            decreases n - i,
        {
            out.push(self.tools[i].clone());
            i = i + 1;
        }
        proof {
            assert forall|m: Seq<char>| #[trigger] self.spec_tools().dom().contains(m) implies exists|j: int|
                0 <= j < out@.len() && (#[trigger] out@[j]).name@ == m by {
                let j = choose|j: int|
                    0 <= j < self.tools@.len() && (#[trigger] self.tools@[j]).name@ == m;
                assert(out@[j].name@ == m);
            }
        }
        Ok(out)
    }

    fn get_tool_schema(&self, tool_name: &str) -> (r: Result<MCPToolSchema, MCPError>) {
        proof {
            use_type_invariant(&*self);
            lemma_tools_map_entries(self.tools@);
        }
        match find_by_name(&self.tools, tool_name) {
            Some(i) => Ok(self.tools[i].clone()),
            None => Err(MCPError::ToolNotFound(tool_name.to_owned())),
        }
    }
}

impl Default for BasicMCPAdapter {
    /// An adapter with an empty registry.
    fn default() -> (r: Self)
        ensures
            r.spec_tools() == Map::<Seq<char>, ToolModel>::empty(),
    {
        BasicMCPAdapter::new()
    }
}

} // verus!
