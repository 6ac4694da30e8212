use vstd::prelude::*;

use crate::error::{ToolError, ToolOutput};

verus! {

/// The outcome a caller observes from the isolated task: what the task sent,
/// or a failure saying the channel closed when the task ended without sending.
pub open spec fn outcome_of<T>(received: Option<Result<T, ToolError>>, r: Result<T, ToolError>) -> bool {
    match received {
        Some(sent) => r == sent,
        None => r is Err && r->Err_0.0@ == "Channel closed"@,
    }
}

/// Settles an isolated run from what its single-slot channel delivered:
/// `Some` holds the task's own result, `None` means the task ended abnormally
/// (aborted or panicked) before it could send one.
pub fn receive_outcome<T>(received: Option<Result<T, ToolError>>) -> (r: Result<T, ToolError>)
    ensures
        outcome_of(received, r),
{
    match received {
        Some(sent) => sent,
        None => Err(ToolError::new("Channel closed")),
    }
}

/// The envelope a call returns once its success value was serialized: the
/// JSON value itself, or a failure naming the serialization error's text.
pub open spec fn output_of(serialized: Result<serde_json::Value, String>, r: Result<ToolOutput, ToolError>) -> bool {
    match serialized {
        Ok(v) => r is Ok && r->Ok_0.result == v,
        Err(cause) => r is Err && r->Err_0.0@ == "Serialization error: "@ + cause@,
    }
}

/// Wraps the serialized success value of a call, or reports why it could not
/// be serialized.
pub fn call_output(serialized: Result<serde_json::Value, String>) -> (r: Result<ToolOutput, ToolError>)
    ensures
        output_of(serialized, r),
{
    match serialized {
        Ok(v) => Ok(ToolOutput { result: v }),
        Err(cause) => {
            let mut message = String::from_str("Serialization error: ");
            message.append(cause.as_str());
            Err(ToolError(message))
        },
    }
}

/// A success value crosses the isolation boundary unchanged, a failure of the
/// tool's logic keeps its message exactly, and the serialized form of the
/// success value is what the output envelope carries.
pub proof fn lemma_call_preserves_results<T>(
    x: T,
    e: ToolError,
    v: serde_json::Value,
    r1: Result<T, ToolError>,
    r2: Result<T, ToolError>,
    r3: Result<ToolOutput, ToolError>,
)
    requires
        outcome_of(Some(Ok::<T, ToolError>(x)), r1),
        outcome_of(Some(Err::<T, ToolError>(e)), r2),
        output_of(Ok::<serde_json::Value, String>(v), r3),
    ensures
        r1 == Ok::<T, ToolError>(x),
        r2 is Err && r2->Err_0.0@ == e.0@,
        r3 is Ok && r3->Ok_0.result == v,
{
}

} // verus!
