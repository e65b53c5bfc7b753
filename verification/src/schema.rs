use vstd::prelude::*;
use vstd::string::StringExecFns;

use crate::error::MCPError;

verus! {

broadcast use vstd::seq::group_seq_axioms;

// ------------------------------------------------------------------
// Semantic types
// ------------------------------------------------------------------

/// The semantic type tag assigned to a port: four scalar tags, `List` with an
/// element type (nesting unbounded), and `Any`, the universal fallback for
/// absent, unknown or unrecognized type descriptors.
#[derive(Debug, PartialEq)]
pub enum SemanticType {
    Text,
    Float,
    Int,
    Bool,
    List(Box<SemanticType>),
    Any,
}

/// The canonical textual rendering of a semantic type: the tag's own name for
/// scalars and `Any`, and `list[...]` wrapped around the element's rendering,
/// applied recursively.
pub open spec fn type_text(t: SemanticType) -> Seq<char>
    decreases t,
{
    match t {
        SemanticType::Text => "Text"@,
        SemanticType::Float => "Float"@,
        SemanticType::Int => "Int"@,
        SemanticType::Bool => "Bool"@,
        SemanticType::List(e) => "list["@ + type_text(*e) + "]"@,
        SemanticType::Any => "Any"@,
    }
}

impl SemanticType {
    /// Renders this type in its canonical textual notation.
    pub fn render(&self) -> (r: String)
        ensures
            r@ == type_text(*self),
        decreases *self,
    {
        match self {
            SemanticType::Text => "Text".to_owned(),
            SemanticType::Float => "Float".to_owned(),
            SemanticType::Int => "Int".to_owned(),
            SemanticType::Bool => "Bool".to_owned(),
            SemanticType::List(e) => {
                let inner = e.render();
                let mut r = "list[".to_owned();
                r.append(inner.as_str());
                r.append("]");
                proof {
                    assert(r@ =~= type_text(*self));
                }
                r
            },
            SemanticType::Any => "Any".to_owned(),
        }
    }
}

impl Clone for SemanticType {
    fn clone(&self) -> (r: Self)
        ensures
            r == *self,
        decreases *self,
    {
        match self {
            SemanticType::Text => SemanticType::Text,
            SemanticType::Float => SemanticType::Float,
            SemanticType::Int => SemanticType::Int,
            SemanticType::Bool => SemanticType::Bool,
            SemanticType::List(e) => SemanticType::List(Box::new((**e).clone())),
            SemanticType::Any => SemanticType::Any,
        }
    }
}

// ------------------------------------------------------------------
// Schema fragments and tool descriptions
// ------------------------------------------------------------------

/// One JSON-Schema-style fragment, reduced to the two fields the type mapper
/// reads: the `type` keyword, when present and a string, and the `items`
/// fragment of an array type. Everything else a fragment may carry (nested
/// `properties` of object types included) is deliberately opaque to the
/// inference engine and therefore not represented. A field holds `None` both
/// when it is absent from the source document and when it has the wrong shape
/// there: the two degrade to the same fallback.
#[derive(Debug, PartialEq)]
pub struct SchemaFragment {
    pub keyword: Option<String>,
    pub items: Option<Box<SchemaFragment>>,
}

/// One entry of an input schema's `properties` mapping: the property name and
/// its schema fragment.
#[derive(Debug, PartialEq)]
pub struct SchemaProperty {
    pub name: String,
    pub schema: SchemaFragment,
}

/// The top level of a tool's `input_schema` document: an optional `type`
/// keyword and an optional `properties` mapping. The properties are kept in
/// declaration order, and the engine derives the input-port order from that
/// order, so a given value always yields the same signature.
#[derive(Debug, PartialEq)]
pub struct InputSchema {
    pub keyword: Option<String>,
    pub properties: Option<Vec<SchemaProperty>>,
}

/// A tool description as a provider hands it out: a non-empty `name` that is
/// the tool's stable identifier, an optional human-readable description, and
/// an optional input schema. Absence of the schema, or of any recognized
/// field inside it, is valid input, never an error.
#[derive(Debug, PartialEq)]
pub struct MCPToolSchema {
    pub name: String,
    pub description: Option<String>,
    pub input_schema: Option<InputSchema>,
}

// ------------------------------------------------------------------
// Mathematical models
// ------------------------------------------------------------------

/// The mathematical value of a [`SchemaFragment`].
pub ghost struct FragmentModel {
    pub keyword: Option<Seq<char>>,
    pub items: Option<Box<FragmentModel>>,
}

/// The mathematical value of a [`SchemaProperty`].
pub ghost struct PropertyModel {
    pub name: Seq<char>,
    pub schema: FragmentModel,
}

/// The mathematical value of an [`InputSchema`].
pub ghost struct InputSchemaModel {
    pub keyword: Option<Seq<char>>,
    pub properties: Option<Seq<PropertyModel>>,
}

/// The mathematical value of an [`MCPToolSchema`].
pub ghost struct ToolModel {
    pub name: Seq<char>,
    pub description: Option<Seq<char>>,
    pub input_schema: Option<InputSchemaModel>,
}

pub open spec fn fragment_model(f: SchemaFragment) -> FragmentModel
    decreases f,
{
    FragmentModel {
        keyword: match f.keyword {
            Some(s) => Some(s@),
            None => None,
        },
        items: match f.items {
            Some(b) => Some(Box::new(fragment_model(*b))),
            None => None,
        },
    }
}

impl View for SchemaFragment {
    type V = FragmentModel;

    open spec fn view(&self) -> FragmentModel {
        fragment_model(*self)
    }
}

impl View for SchemaProperty {
    type V = PropertyModel;

    open spec fn view(&self) -> PropertyModel {
        PropertyModel { name: self.name@, schema: self.schema@ }
    }
}

impl View for InputSchema {
    type V = InputSchemaModel;

    open spec fn view(&self) -> InputSchemaModel {
        InputSchemaModel {
            keyword: match self.keyword {
                Some(s) => Some(s@),
                None => None,
            },
            properties: match self.properties {
                Some(props) => Some(props@.map(|i: int, p: SchemaProperty| p@)),
                None => None,
            },
        }
    }
}

impl View for MCPToolSchema {
    type V = ToolModel;

    open spec fn view(&self) -> ToolModel {
        ToolModel {
            name: self.name@,
            description: match self.description {
                Some(d) => Some(d@),
                None => None,
            },
            input_schema: match self.input_schema {
                Some(s) => Some(s@),
                None => None,
            },
        }
    }
}

impl Clone for SchemaFragment {
    fn clone(&self) -> (r: Self)
        ensures
            r@ == self@,
        decreases *self,
    {
        SchemaFragment {
            keyword: match &self.keyword {
                Some(s) => Some(s.clone()),
                None => None,
            },
            items: match &self.items {
                Some(b) => Some(Box::new((**b).clone())),
                None => None,
            },
        }
    }
}

impl Clone for SchemaProperty {
    fn clone(&self) -> (r: Self)
        ensures
            r@ == self@,
    {
        SchemaProperty { name: self.name.clone(), schema: self.schema.clone() }
    }
}

impl Clone for InputSchema {
    fn clone(&self) -> (r: Self)
        ensures
            r@ == self@,
    {
        let keyword = match &self.keyword {
            Some(s) => Some(s.clone()),
            None => None,
        };
        let properties = match &self.properties {
            Some(props) => {
                let mut out: Vec<SchemaProperty> = Vec::new();
                let n = props.len();
                let mut i: usize = 0;
                while i < n
                    invariant
                        n == props@.len(),
                        i <= n,
                        out@.len() == i as int,
                        forall|j: int| 0 <= j < i as int ==> out@[j]@ == props@[j]@,
                    decreases n - i,
                {
                    out.push(props[i].clone());
                    i = i + 1;
                }
                Some(out)
            },
            None => None,
        };
        let r = InputSchema { keyword, properties };
        proof {
            match (self@.properties, r@.properties) {
                (Some(a), Some(b)) => {
                    assert(a =~= b);
                },
                _ => {},
            }
        }
        r
    }
}

impl Clone for MCPToolSchema {
    fn clone(&self) -> (r: Self)
        ensures
            r@ == self@,
    {
        MCPToolSchema {
            name: self.name.clone(),
            description: match &self.description {
                Some(d) => Some(d.clone()),
                None => None,
            },
            input_schema: match &self.input_schema {
                Some(s) => Some(s.clone()),
                None => None,
            },
        }
    }
}

// ------------------------------------------------------------------
// The type mapper
// ------------------------------------------------------------------

/// What the type mapper assigns to a fragment: `None` when the fragment has no
/// `type` keyword (callers substitute `Any`); otherwise exactly one semantic
/// type. The four scalar keywords map to their tags; `"array"` maps to a list
/// whose element type is inferred from `items`, falling back to `Any` when
/// `items` is absent or itself yields no type; `"object"` and every other
/// keyword map to `Any`. Inference is total: no fragment is ever rejected.
pub open spec fn spec_infer_type(f: FragmentModel) -> Option<SemanticType>
    decreases f,
{
    match f.keyword {
        None => None,
        Some(t) => if t == "string"@ {
            Some(SemanticType::Text)
        } else if t == "number"@ {
            Some(SemanticType::Float)
        } else if t == "integer"@ {
            Some(SemanticType::Int)
        } else if t == "boolean"@ {
            Some(SemanticType::Bool)
        } else if t == "array"@ {
            match f.items {
                Some(e) => match spec_infer_type(*e) {
                    Some(elem) => Some(SemanticType::List(Box::new(elem))),
                    None => Some(SemanticType::List(Box::new(SemanticType::Any))),
                },
                None => Some(SemanticType::List(Box::new(SemanticType::Any))),
            }
        } else {
            Some(SemanticType::Any)
        },
    }
}

/// The type a port gets for a fragment: the mapped type, or `Any` when the
/// mapper recognizes nothing.
pub open spec fn port_type_of(f: FragmentModel) -> SemanticType {
    match spec_infer_type(f) {
        Some(t) => t,
        None => SemanticType::Any,
    }
}

/// Maps one schema fragment to a semantic type, `None` when the fragment
/// carries no `type` keyword.
pub fn infer_type(fragment: &SchemaFragment) -> (r: Option<SemanticType>)
    ensures
        r == spec_infer_type(fragment@),
    decreases *fragment,
{
    match &fragment.keyword {
        None => None,
        Some(t) => {
            if string_eq_lit(t, "string") {
                Some(SemanticType::Text)
            } else if string_eq_lit(t, "number") {
                Some(SemanticType::Float)
            } else if string_eq_lit(t, "integer") {
                Some(SemanticType::Int)
            } else if string_eq_lit(t, "boolean") {
                Some(SemanticType::Bool)
            } else if string_eq_lit(t, "array") {
                match &fragment.items {
                    Some(e) => match infer_type(e) {
                        Some(elem) => Some(SemanticType::List(Box::new(elem))),
                        None => Some(SemanticType::List(Box::new(SemanticType::Any))),
                    },
                    None => Some(SemanticType::List(Box::new(SemanticType::Any))),
                }
            } else {
                Some(SemanticType::Any)
            }
        },
    }
}

// ------------------------------------------------------------------
// Ports and block signatures
// ------------------------------------------------------------------

/// One typed port of a block signature. Within a signature's input list the
/// names are exactly the property names of the tool's input schema, in the
/// schema's declaration order.
#[derive(Debug, PartialEq)]
pub struct PortSignature {
    pub name: String,
    pub type_: SemanticType,
}

/// The block signature inferred for a tool: a block name derived from the
/// tool name, the ordered input ports, exactly one output port (named
/// `result`, typed `Any`), and the effect tag naming the invocation
/// side-channel.
#[derive(Debug, PartialEq)]
pub struct BlockSignature {
    pub name: String,
    pub inputs: Vec<PortSignature>,
    pub outputs: Vec<PortSignature>,
    pub effect: String,
}

/// The mathematical value of a [`PortSignature`].
pub ghost struct PortModel {
    pub name: Seq<char>,
    pub type_: SemanticType,
}

/// The mathematical value of a [`BlockSignature`].
pub ghost struct BlockModel {
    pub name: Seq<char>,
    pub inputs: Seq<PortModel>,
    pub outputs: Seq<PortModel>,
    pub effect: Seq<char>,
}

impl View for PortSignature {
    type V = PortModel;

    open spec fn view(&self) -> PortModel {
        PortModel { name: self.name@, type_: self.type_ }
    }
}

impl View for BlockSignature {
    type V = BlockModel;

    open spec fn view(&self) -> BlockModel {
        BlockModel {
            name: self.name@,
            inputs: self.inputs@.map(|i: int, p: PortSignature| p@),
            outputs: self.outputs@.map(|i: int, p: PortSignature| p@),
            effect: self.effect@,
        }
    }
}

impl Clone for PortSignature {
    fn clone(&self) -> (r: Self)
        ensures
            r@ == self@,
    {
        PortSignature { name: self.name.clone(), type_: self.type_.clone() }
    }
}

impl Clone for BlockSignature {
    fn clone(&self) -> (r: Self)
        ensures
            r@ == self@,
    {
        let mut inputs: Vec<PortSignature> = Vec::new();
        let mut outputs: Vec<PortSignature> = Vec::new();
        clone_ports(&self.inputs, &mut inputs);
        clone_ports(&self.outputs, &mut outputs);
        let r = BlockSignature {
            name: self.name.clone(),
            inputs,
            outputs,
            effect: self.effect.clone(),
        };
        proof {
            assert(r@.inputs =~= self@.inputs);
            assert(r@.outputs =~= self@.outputs);
        }
        r
    }
}

/// Empties `dst` and refills it with a copy of every port in `src`, in order.
fn clone_ports(src: &Vec<PortSignature>, dst: &mut Vec<PortSignature>)
    ensures
        final(dst)@.len() == src@.len(),
        forall|j: int| 0 <= j < src@.len() ==> final(dst)@[j]@ == src@[j]@,
{
    dst.clear();
    let n = src.len();
    let mut i: usize = 0;
    while i < n
        invariant
            n == src@.len(),
            i <= n,
            dst@.len() == i as int,
            forall|j: int| 0 <= j < i as int ==> dst@[j]@ == src@[j]@,
        decreases n - i,
    {
        dst.push(src[i].clone());
        i = i + 1;
    }
}

// ------------------------------------------------------------------
// The signature inference engine
// ------------------------------------------------------------------

/// The block name derived from a tool name: a fixed namespace prefix followed
/// by the tool name verbatim. The prefix has a fixed length, so the
/// derivation is injective over tool names.
pub open spec fn block_name_of(tool_name: Seq<char>) -> Seq<char> {
    "MCP_"@ + tool_name
}

/// The effect tag derived from a tool name: the namespace tag with the tool
/// name quoted inside it, so the tag pins down exactly which tool a block
/// invokes.
pub open spec fn effect_of(tool_name: Seq<char>) -> Seq<char> {
    "MCP[\""@ + tool_name + "\"]"@
}

/// The single output port every inferred signature carries: the tool's
/// untyped return value.
pub open spec fn result_port() -> PortModel {
    PortModel { name: "result"@, type_: SemanticType::Any }
}

/// The input ports a list of schema properties yields: one port per property,
/// in declaration order, each typed by the type mapper with the `Any`
/// fallback.
pub open spec fn ports_of_properties(props: Seq<PropertyModel>) -> Seq<PortModel> {
    props.map(|i: int, p: PropertyModel| PortModel { name: p.name, type_: port_type_of(p.schema) })
}

/// The input ports of a tool: one per property of its input schema's
/// `properties` mapping; none when the schema or the mapping is absent.
pub open spec fn input_ports_of(t: ToolModel) -> Seq<PortModel> {
    match t.input_schema {
        Some(s) => match s.properties {
            Some(props) => ports_of_properties(props),
            None => Seq::empty(),
        },
        None => Seq::empty(),
    }
}

/// The signature the engine infers for a tool description: derived block
/// name, the tool's input ports, exactly the `result` output port, and the
/// tool's effect tag. A pure function of the tool description, so inference
/// is deterministic.
pub open spec fn inferred_signature(t: ToolModel) -> BlockModel {
    BlockModel {
        name: block_name_of(t.name),
        inputs: input_ports_of(t),
        outputs: seq![result_port()],
        effect: effect_of(t.name),
    }
}

/// Infers the block signature of one tool description.
///
/// Total: every well-formed tool description yields `Ok`, a missing or
/// property-less input schema yields a signature with zero input ports, and
/// every unrecognized type descriptor degrades to `Any` — never an error.
pub fn infer_block_signature(tool: &MCPToolSchema) -> (r: Result<BlockSignature, MCPError>)
    ensures
        r matches Ok(b) && b@ == inferred_signature(tool@),
{
    let mut inputs: Vec<PortSignature> = Vec::new();
    if let Some(schema) = &tool.input_schema {
        if let Some(props) = &schema.properties {
            let n = props.len();
            let mut i: usize = 0;
            while i < n
                invariant
                    n == props@.len(),
                    i <= n,
                    inputs@.len() == i as int,
                    forall|j: int| 0 <= j < i as int ==> inputs@[j]@ == ports_of_properties(
                        props@.map(|k: int, p: SchemaProperty| p@),
                    )[j],
                decreases n - i,
            {
                let type_ = match infer_type(&props[i].schema) {
                    Some(t) => t,
                    None => SemanticType::Any,
                };
                inputs.push(PortSignature { name: props[i].name.clone(), type_ });
                i = i + 1;
            }
        }
    }

    let mut outputs: Vec<PortSignature> = Vec::new();
    outputs.push(PortSignature { name: "result".to_owned(), type_: SemanticType::Any });

    let mut name = "MCP_".to_owned();
    name.append(tool.name.as_str());

    let mut effect = "MCP[\"".to_owned();
    effect.append(tool.name.as_str());
    effect.append("\"]");

    let b = BlockSignature { name, inputs, outputs, effect };
    proof {
        assert(b@.name =~= block_name_of(tool@.name));
        assert(b@.effect =~= effect_of(tool@.name));
        assert(b@.inputs =~= input_ports_of(tool@));
        assert(b@.outputs =~= seq![result_port()]);
    }
    Ok(b)
}

// ------------------------------------------------------------------
// Laws of the engine
// ------------------------------------------------------------------

/// Determinism: inference is a pure function of the tool description, so two
/// calls on identical input yield identical output, input-port order
/// included.
pub proof fn lemma_inference_deterministic(
    t1: MCPToolSchema,
    t2: MCPToolSchema,
    b1: BlockSignature,
    b2: BlockSignature,
)
    requires
        t1@ == t2@,
        b1@ == inferred_signature(t1@),
        b2@ == inferred_signature(t2@),
    ensures
        b1@ == b2@,
{
}

/// Name injectivity: two distinct tool names never collide, neither in the
/// derived block name nor in the effect tag.
pub proof fn lemma_identity_injective(a: Seq<char>, b: Seq<char>)
    requires
        a != b,
    ensures
        block_name_of(a) != block_name_of(b),
        effect_of(a) != effect_of(b),
{
    let p = "MCP_"@;
    if block_name_of(a) == block_name_of(b) {
        assert(block_name_of(a) == p + a);
        assert((p + a).len() == p.len() + a.len());
        assert((p + b).len() == p.len() + b.len());
        assert(a.len() == b.len());
        assert forall|k: int| 0 <= k < a.len() implies a[k] == b[k] by {
            assert((p + a)[p.len() + k] == a[k]);
            assert((p + b)[p.len() + k] == b[k]);
        }
        assert(a =~= b);
    }
    let q = "MCP[\""@;
    let s = "\"]"@;
    if effect_of(a) == effect_of(b) {
        assert(effect_of(a) == q + a + s);
        assert(effect_of(b) == q + b + s);
        assert((q + a + s).len() == q.len() + a.len() + s.len());
        assert((q + b + s).len() == q.len() + b.len() + s.len());
        assert(a.len() == b.len());
        assert forall|k: int| 0 <= k < a.len() implies a[k] == b[k] by {
            assert((q + a + s)[q.len() + k] == (q + a)[q.len() + k]);
            assert((q + a)[q.len() + k] == a[k]);
            assert((q + b + s)[q.len() + k] == (q + b)[q.len() + k]);
            assert((q + b)[q.len() + k] == b[k]);
        }
        assert(a =~= b);
    }
}

/// Whether a string's characters are exactly those of a literal.
fn string_eq_lit(s: &String, lit: &str) -> (r: bool)
    ensures
        r == (s@ == lit@),
{
    let owned = lit.to_owned();
    *s == owned
}

} // verus!
