use vstd::prelude::*;

use crate::naming::{camel_of, resolve_tool_name, resolved_name, to_upper_camel_case};

verus! {

/// Why a tool declaration is rejected at build time.
#[derive(Debug, PartialEq, Eq, Structural)]
pub enum CompileError {
    /// The attribute has no `description = "..."` entry.
    MissingDescription,
    /// The function declares this many parameters; only 0, 1 or 2 are accepted.
    UnsupportedArity(usize),
    /// A parameter is a receiver (`self`) or a destructuring pattern.
    UnsupportedParameter,
    /// The return type is not `Result<T, ..>` with a success type `T`.
    NotAResult,
}

impl CompileError {
    /// The text reported to the author of the declaration.
    pub fn message(&self) -> (r: String)
        ensures
            r@ == match self {
                CompileError::MissingDescription => "rig_tool requires a description attribute"@,
                CompileError::UnsupportedArity(_) => "rig_tool expects 0-2 arguments (context and/or args)"@,
                CompileError::UnsupportedParameter => "Expected typed arguments"@,
                CompileError::NotAResult => "rig_tool function must return Result<T, E>"@,
            },
    {
        match self {
            CompileError::MissingDescription => String::from_str(
                "rig_tool requires a description attribute",
            ),
            CompileError::UnsupportedArity(_) => String::from_str(
                "rig_tool expects 0-2 arguments (context and/or args)",
            ),
            CompileError::UnsupportedParameter => String::from_str("Expected typed arguments"),
            CompileError::NotAResult => String::from_str("rig_tool function must return Result<T, E>"),
        }
    }
}

/// One entry of the attribute's comma-separated list.
pub enum AttrMeta {
    /// `key = value`: `key` is present when the path is a single identifier,
    /// `literal` when the value is a string literal.
    NameValue { key: Option<String>, literal: Option<String> },
    /// Any other form (a bare path, a list), which carries nothing read here.
    Other,
}

pub open spec fn opt_view(o: Option<String>) -> Option<Seq<char>> {
    match o {
        Some(s) => Some(s@),
        None => None,
    }
}

/// The string that `m` assigns to `key`, if it is `key = "..."`.
pub open spec fn literal_for(m: AttrMeta, key: Seq<char>) -> Option<Seq<char>> {
    match m {
        AttrMeta::NameValue { key: Some(k), literal: Some(v) } => if k@ == key {
            Some(v@)
        } else {
            None
        },
        _ => None,
    }
}

/// The string of the last `key = "..."` entry of `metas`: later entries override earlier ones.
pub open spec fn last_literal(metas: Seq<AttrMeta>, key: Seq<char>) -> Option<Seq<char>>
    decreases metas.len(),
{
    if metas.len() == 0 {
        None
    } else {
        match literal_for(metas.last(), key) {
            Some(v) => Some(v),
            None => last_literal(metas.drop_last(), key),
        }
    }
}

/// The attribute's arguments: a required description and an optional name.
pub struct MacroArgs {
    pub description: String,
    pub name: Option<String>,
}

impl MacroArgs {
    /// Reads `description` and `name` from the attribute entries; the last
    /// string-valued entry of each key counts, other entries are ignored.
    pub fn parse(metas: &Vec<AttrMeta>) -> (r: Result<MacroArgs, CompileError>)
        ensures
            match last_literal(metas@, "description"@) {
                Some(d) => r is Ok && r->Ok_0.description@ == d && opt_view(r->Ok_0.name)
                    == last_literal(metas@, "name"@),
                None => r == Err::<MacroArgs, CompileError>(CompileError::MissingDescription),
            },
    {
        let desc_key = String::from_str("description");
        let name_key = String::from_str("name");
        proof {
            reveal_strlit("description");
            reveal_strlit("name");
            assert("description"@.len() != "name"@.len());
        }
        let mut description: Option<String> = None;
        let mut name: Option<String> = None;
        let mut i: usize = 0;
        while i < metas.len()
            invariant
                i <= metas@.len(),
                desc_key@ == "description"@,
                name_key@ == "name"@,
                "description"@ != "name"@,
                opt_view(description) == last_literal(metas@.subrange(0, i as int), "description"@),
                opt_view(name) == last_literal(metas@.subrange(0, i as int), "name"@),
            decreases metas.len() - i,
        {
            match &metas[i] {
                AttrMeta::NameValue { key: Some(k), literal: Some(v) } => {
                    if k.eq(&desc_key) {
                        description = Some(v.clone());
                    } else if k.eq(&name_key) {
                        name = Some(v.clone());
                    }
                },
                _ => {},
            }
            proof {
                assert(metas@.subrange(0, i + 1).drop_last() =~= metas@.subrange(0, i as int));
            }
            i = i + 1;
        }
        proof {
            assert(metas@.subrange(0, metas@.len() as int) =~= metas@);
        }
        match description {
            Some(d) => Ok(MacroArgs { description: d, name }),
            None => Err(CompileError::MissingDescription),
        }
    }
}

/// One declared parameter of the tool function, as the arity rule reads it.
pub enum Param<Ty> {
    /// `ident: Type`.
    Typed(Ty),
    /// A receiver: `self`, `&self`, `&mut self`.
    Receiver,
    /// A typed parameter whose pattern destructures, such as `(a, b): (u8, u8)`.
    Destructured,
}

/// How a tool's logic is called, chosen from the position of its parameters
/// alone: no parameter, arguments only, or a shared context then arguments.
pub enum CallShape<Ty> {
    NoArgs,
    ArgsOnly(Ty),
    ContextAndArgs(Ty, Ty),
}

impl<Ty> CallShape<Ty> {
    /// The type of the shared context the tool holds, if any.
    pub open spec fn context(self) -> Option<Ty> {
        match self {
            CallShape::ContextAndArgs(c, _) => Some(c),
            _ => None,
        }
    }

    /// The type of the call arguments, if any (absent means the unit type).
    pub open spec fn args(self) -> Option<Ty> {
        match self {
            CallShape::NoArgs => None,
            CallShape::ArgsOnly(a) => Some(a),
            CallShape::ContextAndArgs(_, a) => Some(a),
        }
    }
}

/// The arity rule: 0 parameters give no context and no arguments, 1 gives the
/// arguments, 2 give the context then the arguments; each must be `ident: Type`.
pub open spec fn shape_rule<Ty>(params: Seq<Param<Ty>>) -> Result<CallShape<Ty>, CompileError> {
    if params.len() == 0 {
        Ok(CallShape::NoArgs)
    } else if params.len() == 1 {
        match params[0] {
            Param::Typed(a) => Ok(CallShape::ArgsOnly(a)),
            _ => Err(CompileError::UnsupportedParameter),
        }
    } else if params.len() == 2 {
        match (params[0], params[1]) {
            (Param::Typed(c), Param::Typed(a)) => Ok(CallShape::ContextAndArgs(c, a)),
            _ => Err(CompileError::UnsupportedParameter),
        }
    } else {
        Err(CompileError::UnsupportedArity(params.len() as usize))
    }
}

/// Decides the call shape from the declared parameters.
pub fn call_shape<Ty>(params: Vec<Param<Ty>>) -> (r: Result<CallShape<Ty>, CompileError>)
    ensures
        r == shape_rule(params@),
{
    let mut params = params;
    let n = params.len();
    if n == 0 {
        Ok(CallShape::NoArgs)
    } else if n == 1 {
        match params.remove(0) {
            Param::Typed(a) => Ok(CallShape::ArgsOnly(a)),
            _ => Err(CompileError::UnsupportedParameter),
        }
    } else if n == 2 {
        let first = params.remove(0);
        let second = params.remove(0);
        match (first, second) {
            (Param::Typed(c), Param::Typed(a)) => Ok(CallShape::ContextAndArgs(c, a)),
            _ => Err(CompileError::UnsupportedParameter),
        }
    } else {
        Err(CompileError::UnsupportedArity(n))
    }
}

/// A generic argument of the return type's last path segment.
pub enum GenericArg<Ty> {
    Type(Ty),
    /// A lifetime, a constant or an associated-type binding.
    Other,
}

/// The declared return type of the tool function.
pub enum ReturnDecl<Ty> {
    /// No `-> Type` at all.
    Unit,
    /// A type that is not a path (a tuple, a reference, ...).
    NotPath,
    /// A path type: the identifier of its last segment, and that segment's
    /// arguments when written in angle brackets.
    Path { last_ident: Option<String>, generics: Option<Vec<GenericArg<Ty>>> },
}

/// The success type of a fallible result: the first argument of a path type
/// whose last segment is `Result<..>`.
pub open spec fn success_rule<Ty>(ret: ReturnDecl<Ty>) -> Result<Ty, CompileError> {
    match ret {
        ReturnDecl::Path { last_ident: Some(id), generics: Some(g) } => if id@ == "Result"@
            && g@.len() > 0 {
            match g@[0] {
                GenericArg::Type(t) => Ok(t),
                _ => Err(CompileError::NotAResult),
            }
        } else {
            Err(CompileError::NotAResult)
        },
        _ => Err(CompileError::NotAResult),
    }
}

/// Unwraps the success type from the declared return type.
pub fn success_type<Ty>(ret: ReturnDecl<Ty>) -> (r: Result<Ty, CompileError>)
    ensures
        r == success_rule(ret),
{
    match ret {
        ReturnDecl::Path { last_ident: Some(id), generics: Some(g) } => {
            let result_ident = String::from_str("Result");
            let mut g = g;
            if id.eq(&result_ident) && g.len() > 0 {
                match g.remove(0) {
                    GenericArg::Type(t) => Ok(t),
                    _ => Err(CompileError::NotAResult),
                }
            } else {
                Err(CompileError::NotAResult)
            }
        },
        _ => Err(CompileError::NotAResult),
    }
}

/// What the compiler generates a tool from: the names, the description, the
/// call shape and the success type.
pub struct ToolPlan<Ty> {
    /// The identifier of the generated type, in UpperCamelCase.
    pub struct_name: String,
    /// The name the tool is published under.
    pub tool_name: String,
    pub description: String,
    pub shape: CallShape<Ty>,
    /// The success type of the declared result.
    pub success: Ty,
}

/// The first fault of a declaration, in the order the compiler checks them:
/// the attribute, then the parameters, then the return type.
pub open spec fn declaration_fault<Ty>(
    metas: Seq<AttrMeta>,
    params: Seq<Param<Ty>>,
    ret: ReturnDecl<Ty>,
) -> Option<CompileError> {
    if last_literal(metas, "description"@) is None {
        Some(CompileError::MissingDescription)
    } else if shape_rule(params) is Err {
        Some(shape_rule(params)->Err_0)
    } else if success_rule(ret) is Err {
        Some(success_rule(ret)->Err_0)
    } else {
        None
    }
}

/// `p` is the plan of a valid declaration of function `ident`.
pub open spec fn plan_of<Ty>(
    p: ToolPlan<Ty>,
    metas: Seq<AttrMeta>,
    ident: Seq<char>,
    params: Seq<Param<Ty>>,
    ret: ReturnDecl<Ty>,
) -> bool {
    &&& p.struct_name@ == camel_of(ident)
    &&& p.tool_name@ == resolved_name(last_literal(metas, "name"@), ident)
    &&& Some(p.description@) == last_literal(metas, "description"@)
    &&& p.shape == shape_rule(params)->Ok_0
    &&& p.success == success_rule(ret)->Ok_0
}

/// Checks a tool declaration (attribute entries, function identifier,
/// parameters, return type) and decides what to generate from it.
pub fn plan_tool<Ty>(
    metas: &Vec<AttrMeta>,
    ident: &str,
    params: Vec<Param<Ty>>,
    ret: ReturnDecl<Ty>,
) -> (r: Result<ToolPlan<Ty>, CompileError>)
    ensures
        match declaration_fault(metas@, params@, ret) {
            Some(e) => r == Err::<ToolPlan<Ty>, CompileError>(e),
            None => r is Ok && plan_of(r->Ok_0, metas@, ident@, params@, ret),
        },
{
    let args = match MacroArgs::parse(metas) {
        Ok(a) => a,
        Err(e) => return Err(e),
    };
    let shape = match call_shape(params) {
        Ok(s) => s,
        Err(e) => return Err(e),
    };
    let success = match success_type(ret) {
        Ok(t) => t,
        Err(e) => return Err(e),
    };
    Ok(
        ToolPlan {
            struct_name: to_upper_camel_case(ident),
            tool_name: resolve_tool_name(args.name, ident),
            description: args.description,
            shape,
            success,
        },
    )
}

/// The arity mapping: with every parameter of the form `ident: Type`, no
/// parameter gives neither context nor arguments, one gives the arguments'
/// type, and two give the context's type then the arguments' type.
pub proof fn lemma_arity_mapping<Ty>(params: Seq<Param<Ty>>)
    requires
        params.len() <= 2,
        forall|i: int| 0 <= i < params.len() ==> #[trigger] params[i] is Typed,
    ensures
        shape_rule(params) is Ok,
        params.len() == 0 ==> shape_rule(params)->Ok_0.context() == None::<Ty>
            && shape_rule(params)->Ok_0.args() == None::<Ty>,
        params.len() == 1 ==> shape_rule(params)->Ok_0.context() == None::<Ty>
            && shape_rule(params)->Ok_0.args() == Some(params[0]->Typed_0),
        params.len() == 2 ==> shape_rule(params)->Ok_0.context() == Some(params[0]->Typed_0)
            && shape_rule(params)->Ok_0.args() == Some(params[1]->Typed_0),
{
    if params.len() >= 1 {
        assert(params[0] is Typed);
    }
    if params.len() == 2 {
        assert(params[1] is Typed);
    }
}

/// Name resolution: the tool name of a plan is the explicit `name` entry when
/// the attribute has one, and otherwise the function's identifier unchanged.
pub proof fn lemma_name_resolution<Ty>(
    p: ToolPlan<Ty>,
    metas: Seq<AttrMeta>,
    ident: Seq<char>,
    params: Seq<Param<Ty>>,
    ret: ReturnDecl<Ty>,
)
    requires
        plan_of(p, metas, ident, params, ret),
    ensures
        last_literal(metas, "name"@) is Some ==> p.tool_name@ == last_literal(metas, "name"@)->Some_0,
        last_literal(metas, "name"@) is None ==> p.tool_name@ == ident,
{
}

} // verus!
