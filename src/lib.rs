//! Decisions and runtime envelopes of a tool-definition compiler: it turns an
//! annotated function into a named tool with a parameter schema and a uniform
//! call entry point.
mod compiler;
mod error;
mod naming;
mod runtime;

pub use compiler::{
    call_shape, declaration_fault, last_literal, lemma_arity_mapping, lemma_name_resolution,
    literal_for, opt_view, plan_of,
    plan_tool, shape_rule, success_rule, success_type, AttrMeta, CallShape, CompileError,
    GenericArg, MacroArgs, Param, ReturnDecl, ToolPlan,
};
pub use error::{ToolError, ToolOutput};
pub use naming::{
    camel_from, camel_of, lemma_camel_segment, lemma_camel_split, resolve_tool_name, resolved_name,
    to_upper_camel_case, upper_of,
};
pub use runtime::{call_output, lemma_call_preserves_results, outcome_of, output_of, receive_outcome};
