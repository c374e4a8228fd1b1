//! The data that every tool shares: calls, results, declared capabilities and
//! parameters, and the check that runs before any tool is invoked.

use vstd::prelude::*;
use crate::capability::{ClaimManager, ToolCapability, capability_name};
use crate::json::{json_keys, object_keys, views};

verus! {

/// Diagnostic key/value pairs attached to a result; never needed for
/// correctness.
pub type Metadata = Vec<(String, String)>;

/// The outcome of one tool call.
#[derive(Clone, Debug)]
pub enum ToolResult {
    Success { output: String, metadata: Metadata },
    Error { error: String, metadata: Metadata },
}

impl ToolResult {
    pub fn success(output: String) -> (r: ToolResult)
        ensures
            r matches ToolResult::Success { output: o, metadata: m } && o@ == output@ && m@.len() == 0,
    {
        ToolResult::Success { output, metadata: Vec::new() }
    }

    pub fn error(error: String) -> (r: ToolResult)
        ensures
            r matches ToolResult::Error { error: e, metadata: m } && e@ == error@ && m@.len() == 0,
    {
        ToolResult::Error { error, metadata: Vec::new() }
    }

    pub fn is_success(&self) -> (r: bool)
        ensures
            r == (self is Success),
    {
        match self {
            ToolResult::Success { .. } => true,
            ToolResult::Error { .. } => false,
        }
    }

    /// The output of a success, or the message of an error.
    pub open spec fn text(&self) -> Seq<char> {
        match self {
            ToolResult::Success { output, .. } => output@,
            ToolResult::Error { error, .. } => error@,
        }
    }

    /// The metadata of either variant.
    pub open spec fn meta(&self) -> Seq<(String, String)> {
        match self {
            ToolResult::Success { metadata, .. } => metadata@,
            ToolResult::Error { metadata, .. } => metadata@,
        }
    }

    pub fn message(&self) -> (r: &str)
        ensures
            r@ == self.text(),
    {
        match self {
            ToolResult::Success { output, .. } => output.as_str(),
            ToolResult::Error { error, .. } => error.as_str(),
        }
    }
}

/// One proposed invocation of a tool. The id is unique per call.
#[derive(Clone, Debug)]
pub struct ToolCall {
    pub tool_call_id: String,
    pub tool_name: String,
    pub parameters: serde_json::Value,
}

impl ToolCall {
    /// The same call.
    pub fn copy(&self) -> (r: ToolCall)
        ensures
            r == *self,
    {
        ToolCall {
            tool_call_id: self.tool_call_id.clone(),
            tool_name: self.tool_name.clone(),
            parameters: self.parameters.clone(),
        }
    }
}

/// What the framework knows of a tool before running it: its name, the
/// capabilities it may exercise and the parameters its schema requires.
#[derive(Clone, Debug)]
pub struct ToolSpec {
    pub name: String,
    pub capabilities: Vec<ToolCapability>,
    pub required: Vec<String>,
}

/// The `type` of one property in a parameter schema.
#[derive(Clone, Debug)]
pub enum TypeDecl {
    Absent,
    Single(String),
    Union(Vec<String>),
}

/// A union of exactly two types, one of them `null`.
pub open spec fn nullable_pair(types: Seq<String>) -> bool {
    types.len() == 2 && (types[0]@ == "null"@ || types[1]@ == "null"@)
        && (types[0]@ != "null"@ || types[1]@ != "null"@)
}

/// The type other than `null` in such a pair.
pub open spec fn non_null_of(types: Seq<String>) -> String {
    if types[0]@ != "null"@ { types[0] } else { types[1] }
}

/// A property is required unless its type is nullable; a property without a
/// type is not listed as required.
pub open spec fn field_required(t: TypeDecl) -> bool {
    match t {
        TypeDecl::Absent => false,
        TypeDecl::Single(_) => true,
        TypeDecl::Union(types) => !nullable_pair(types@),
    }
}

fn is_null_name(s: &String) -> (r: bool)
    ensures
        r == (s@ == "null"@),
{
    *s == String::from_str("null")
}

fn copy_texts(v: &Vec<String>) -> (r: Vec<String>)
    ensures
        views(r@) == views(v@),
{
    let mut r: Vec<String> = Vec::new();
    let mut i: usize = 0;
    while i < v.len()
        invariant
            i <= v@.len(),
            r@.len() == i,
            views(r@) == views(v@).subrange(0, i as int),
        decreases v@.len() - i,
    {
        let ghost before = r@;
        r.push(v[i].clone());
        proof {
            assert forall|j: int| 0 <= j < i + 1 implies views(r@)[j] == views(v@).subrange(0, i + 1)[j] by {
                if j < i {
                    assert(r@[j] == before[j]);
                    assert(views(before)[j] == views(v@).subrange(0, i as int)[j]);
                }
            }
            assert(views(r@) =~= views(v@).subrange(0, i + 1));
        }
        i += 1;
    }
    proof {
        assert(views(v@).subrange(0, v@.len() as int) =~= views(v@));
    }
    r
}

/// The type a schema exposes for a property: a nullable pair becomes its
/// other type; anything else stays as it is. Also whether it is required.
pub fn normalize_field(t: &TypeDecl) -> (r: (TypeDecl, bool))
    ensures
        r.1 == field_required(*t),
        match *t {
            TypeDecl::Union(types) => if nullable_pair(types@) {
                r.0 matches TypeDecl::Single(s) && s@ == non_null_of(types@)@
            } else {
                r.0 matches TypeDecl::Union(u) && views(u@) == views(types@)
            },
            TypeDecl::Single(s) => r.0 matches TypeDecl::Single(u) && u@ == s@,
            TypeDecl::Absent => r.0 is Absent,
        },
{
    match t {
        TypeDecl::Absent => (TypeDecl::Absent, false),
        TypeDecl::Single(s) => (TypeDecl::Single(s.clone()), true),
        TypeDecl::Union(types) => {
            if types.len() == 2 {
                let first_null = is_null_name(&types[0]);
                let second_null = is_null_name(&types[1]);
                if first_null != second_null {
                    let keep = if first_null { types[1].clone() } else { types[0].clone() };
                    return (TypeDecl::Single(keep), false);
                }
            }
            (TypeDecl::Union(copy_texts(types)), true)
        }
    }
}

/// The names of the required properties, in the schema's order.
pub open spec fn required_names(fields: Seq<(String, TypeDecl)>) -> Seq<Seq<char>>
    decreases fields.len(),
{
    if fields.len() == 0 {
        Seq::empty()
    } else if field_required(fields.last().1) {
        required_names(fields.drop_last()).push(fields.last().0@)
    } else {
        required_names(fields.drop_last())
    }
}

/// The names of the required properties, in order.
pub fn required_fields(fields: &Vec<(String, TypeDecl)>) -> (r: Vec<String>)
    ensures
        views(r@) == required_names(fields@),
{
    let mut r: Vec<String> = Vec::new();
    let mut k: usize = 0;
    while k < fields.len()
        invariant
            k <= fields@.len(),
            views(r@) == required_names(fields@.subrange(0, k as int)),
        decreases fields@.len() - k,
    {
        proof {
            let pre = fields@.subrange(0, k + 1);
            assert(pre.drop_last() =~= fields@.subrange(0, k as int));
            assert(pre.last() == fields@[k as int]);
        }
        let (_, required) = normalize_field(&fields[k].1);
        if required {
            let ghost before = r@;
            r.push(fields[k].0.clone());
            proof {
                assert forall|j: int| 0 <= j < before.len() implies views(r@)[j] == views(before)[j] by {
                    assert(r@[j] == before[j]);
                }
                assert(views(r@) =~= required_names(fields@.subrange(0, k as int)).push(fields@[k as int].0@));
            }
        }
        k += 1;
    }
    proof {
        assert(fields@.subrange(0, fields@.len() as int) =~= fields@);
    }
    r
}

/// Why a call was refused before the tool ran.
#[derive(Clone, Debug)]
pub enum Rejection {
    NotAnObject,
    MissingParameter(String),
    Unauthorized(ToolCapability),
}

/// `names` holds the text `n`.
pub open spec fn names_hold(names: Seq<Seq<char>>, n: Seq<char>) -> bool {
    exists|i: int| 0 <= i < names.len() && names[i] == n
}

/// Every required parameter before index `k` is provided.
pub open spec fn required_present_upto(required: Seq<String>, provided: Seq<Seq<char>>, k: int) -> bool {
    forall|j: int| 0 <= j < k ==> names_hold(provided, #[trigger] required[j]@)
}

/// The decision that precedes a tool call, as a relation between its inputs
/// and the outcome: parameters are checked against the schema first, then
/// each declared capability against the claims; the first failure is reported.
pub open spec fn authorization(
    spec: ToolSpec,
    claims: ClaimManager,
    provided: Option<Seq<Seq<char>>>,
    r: Result<(), Rejection>,
) -> bool {
    match provided {
        None => r matches Err(Rejection::NotAnObject),
        Some(p) => {
            if !required_present_upto(spec.required@, p, spec.required@.len() as int) {
                match r {
                    Err(Rejection::MissingParameter(name)) => exists|i: int|
                        0 <= i < spec.required@.len() && #[trigger] spec.required@[i]@ == name@
                        && !names_hold(p, name@) && required_present_upto(spec.required@, p, i),
                    _ => false,
                }
            } else if exists|i: int| 0 <= i < spec.capabilities@.len()
                && !claims.permits(#[trigger] spec.capabilities@[i]) {
                match r {
                    Err(Rejection::Unauthorized(c)) => exists|i: int|
                        0 <= i < spec.capabilities@.len() && #[trigger] spec.capabilities@[i] == c
                        && !claims.permits(c)
                        && forall|j: int| 0 <= j < i ==> claims.permits(#[trigger] spec.capabilities@[j]),
                    _ => false,
                }
            } else {
                r is Ok
            }
        }
    }
}

/// Whether `names` holds a string equal to `n`.
pub fn holds_name(names: &Vec<String>, n: &String) -> (r: bool)
    ensures
        r == names_hold(views(names@), n@),
{
    let mut i: usize = 0;
    while i < names.len()
        invariant
            i <= names@.len(),
            forall|j: int| 0 <= j < i ==> views(names@)[j] != n@,
        decreases names@.len() - i,
    {
        if names[i] == *n {
            assert(views(names@)[i as int] == n@);
            return true;
        }
        i += 1;
    }
    false
}

/// Checks a call whose parameters are an object with the keys `provided`
/// against the tool's schema and the session's claims.
pub fn authorize(spec: &ToolSpec, claims: &ClaimManager, provided: &Vec<String>) -> (r: Result<(), Rejection>)
    ensures
        authorization(*spec, *claims, Some(views(provided@)), r),
{
    let mut i: usize = 0;
    while i < spec.required.len()
        invariant
            i <= spec.required@.len(),
            required_present_upto(spec.required@, views(provided@), i as int),
        decreases spec.required@.len() - i,
    {
        if !holds_name(provided, &spec.required[i]) {
            let name = spec.required[i].clone();
            assert(!required_present_upto(spec.required@, views(provided@), spec.required@.len() as int)) by {
                assert(!names_hold(views(provided@), spec.required@[i as int]@));
            }
            assert(spec.required@[i as int]@ == name@);
            return Err(Rejection::MissingParameter(name));
        }
        i += 1;
    }
    match claims.first_denied(&spec.capabilities) {
        Some(c) => Err(Rejection::Unauthorized(c)),
        None => Ok(()),
    }
}

/// Checks a call whose parameters are a JSON value: a value that is not an
/// object is refused, else its member names are checked.
pub fn authorize_value(spec: &ToolSpec, claims: &ClaimManager, parameters: &serde_json::Value) -> (r: Result<(), Rejection>)
    ensures
        authorization(*spec, *claims, json_keys(*parameters), r),
{
    match object_keys(parameters) {
        Some(keys) => authorize(spec, claims, &keys),
        None => Err(Rejection::NotAnObject),
    }
}

/// `i` is the first tool named `name`.
pub open spec fn first_named(tools: Seq<ToolSpec>, name: Seq<char>, i: int) -> bool {
    0 <= i < tools.len() && tools[i].name@ == name && forall|j: int| 0 <= j < i ==> (#[trigger] tools[j]).name@ != name
}

/// The call names a tool, and the first tool of that name accepts its
/// parameters and is allowed every capability it declares.
pub open spec fn admitted(tools: Seq<ToolSpec>, claims: ClaimManager, call: ToolCall) -> bool {
    exists|i: int| first_named(tools, call.tool_name@, i)
        && authorization(tools[i], claims, json_keys(call.parameters), Ok(()))
}

/// The index of the first tool named `name`.
pub fn find_tool(tools: &Vec<ToolSpec>, name: &String) -> (r: Option<usize>)
    ensures
        match r {
            Some(i) => i < tools@.len() && tools@[i as int].name@ == name@
                && forall|j: int| 0 <= j < i ==> (#[trigger] tools@[j]).name@ != name@,
            None => forall|j: int| 0 <= j < tools@.len() ==> (#[trigger] tools@[j]).name@ != name@,
        },
{
    let mut i: usize = 0;
    while i < tools.len()
        invariant
            i <= tools@.len(),
            forall|j: int| 0 <= j < i ==> (#[trigger] tools@[j]).name@ != name@,
        decreases tools@.len() - i,
    {
        if tools[i].name == *name {
            return Some(i);
        }
        i += 1;
    }
    None
}

/// Resolves a call before anything runs: the first tool it names, once its
/// parameters and capabilities pass; otherwise the error result to record,
/// and the tool is not invoked.
pub fn prepare_call(tools: &Vec<ToolSpec>, claims: &ClaimManager, call: &ToolCall) -> (r: Result<usize, ToolResult>)
    ensures
        r is Ok <==> admitted(tools@, *claims, *call),
        r matches Err(e) ==> e is Error,
        forall|i: int| #[trigger] first_named(tools@, call.tool_name@, i) ==> match r {
            Ok(j) => j == i && authorization(tools@[i], *claims, json_keys(call.parameters), Ok(())),
            Err(e) => e is Error && exists|rej: Rejection| #[trigger] authorization(tools@[i], *claims, json_keys(call.parameters), Err(rej))
                && e.text() == rejection_text(rej),
        },
        (forall|j: int| 0 <= j < tools@.len() ==> (#[trigger] tools@[j]).name@ != call.tool_name@) ==>
            (r matches Err(e) && e is Error && e.text() == "Unknown tool: "@ + call.tool_name@),
{
    match find_tool(tools, &call.tool_name) {
        None => {
            let mut s = String::from_str("Unknown tool: ");
            s.append(call.tool_name.as_str());
            proof {
                assert forall|i: int| !first_named(tools@, call.tool_name@, i) by {}
            }
            Err(ToolResult::error(s))
        }
        Some(i) => {
            proof {
                assert(first_named(tools@, call.tool_name@, i as int));
                assert forall|k: int| #[trigger] first_named(tools@, call.tool_name@, k) implies k == i by {
                    if k < i { assert(tools@[k].name@ != call.tool_name@); }
                    if k > i { assert(tools@[i as int].name@ != call.tool_name@); }
                }
            }
            match authorize_value(&tools[i], claims, &call.parameters) {
                Ok(()) => Ok(i),
                Err(rejection) => {
                    let e = rejection.to_result();
                    proof {
                        assert(authorization(tools@[i as int], *claims, json_keys(call.parameters), Err(rejection)));
                    }
                    Err(e)
                }
            }
        }
    }
}

/// The text of a refusal, as the tool's error message.
pub open spec fn rejection_text(r: Rejection) -> Seq<char> {
    match r {
        Rejection::NotAnObject => "Invalid parameters: expected an object"@,
        Rejection::MissingParameter(name) => "Invalid parameters: missing required field "@ + name@,
        Rejection::Unauthorized(c) => "Permission denied: the tool requires the "@ + capability_name(c)
            + " capability"@,
    }
}

impl Rejection {
    /// The refusal as an error result.
    pub fn to_result(&self) -> (r: ToolResult)
        ensures
            r is Error,
            r.text() == rejection_text(*self),
    {
        let mut s: String;
        match self {
            Rejection::NotAnObject => {
                s = String::from_str("Invalid parameters: expected an object");
            }
            Rejection::MissingParameter(name) => {
                s = String::from_str("Invalid parameters: missing required field ");
                s.append(name.as_str());
            }
            Rejection::Unauthorized(c) => {
                s = String::from_str("Permission denied: the tool requires the ");
                s.append(c.name());
                s.append(" capability");
            }
        }
        ToolResult::error(s)
    }
}

/// A tool declared with capabilities `spec.capabilities` is refused, whatever
/// its parameters, under claims outside sudo mode that leave out one of them.
pub proof fn lemma_capability_enforcement(
    spec: ToolSpec,
    claims: ClaimManager,
    provided: Option<Seq<Seq<char>>>,
    c: ToolCapability,
    r: Result<(), Rejection>,
)
    requires
        spec.capabilities@.contains(c),
        !claims.in_sudo(),
        !claims.granted(c),
        authorization(spec, claims, provided, r),
    ensures
        r is Err,
{
    let i = choose|i: int| 0 <= i < spec.capabilities@.len() && spec.capabilities@[i] == c;
    assert(!claims.permits(spec.capabilities@[i]));
}

/// A call of a tool that declares a capability the claims leave out, outside
/// sudo mode, is not admitted: `prepare_call` refuses it with an error
/// result and hands out no tool to run.
pub proof fn lemma_denied_call_not_admitted(
    tools: Seq<ToolSpec>,
    claims: ClaimManager,
    call: ToolCall,
    i: int,
    c: ToolCapability,
)
    requires
        first_named(tools, call.tool_name@, i),
        tools[i].capabilities@.contains(c),
        !claims.in_sudo(),
        !claims.granted(c),
    ensures
        !admitted(tools, claims, call),
{
    if admitted(tools, claims, call) {
        let k = choose|k: int| first_named(tools, call.tool_name@, k)
            && authorization(tools[k], claims, json_keys(call.parameters), Ok(()));
        if k < i { assert(tools[k].name@ != call.tool_name@); }
        if k > i { assert(tools[i].name@ != call.tool_name@); }
        lemma_capability_enforcement(tools[i], claims, json_keys(call.parameters), c, Ok(()));
    }
}

} // verus!
