use vstd::prelude::*;

verus! {

#[verifier::external_type_specification]
#[verifier::external_body]
pub struct ExJsonValue(serde_json::Value);

#[verifier::external_type_specification]
#[verifier::external_body]
pub struct ExAnyhowError(anyhow::Error);

/// The failure every tool call reports: one human-readable message.
#[derive(Debug)]
pub struct ToolError(pub String);

impl ToolError {
    /// An error carrying `s` as its message.
    pub fn new(s: &str) -> (r: ToolError)
        ensures
            r.0@ == s@,
    {
        ToolError(String::from_str(s))
    }

    /// The message text.
    pub fn to_string(&self) -> (r: String)
        ensures
            r@ == self.0@,
    {
        self.0.clone()
    }
}

impl From<anyhow::Error> for ToolError {
    /// Relies on anyhow::Error's `Display`: the text of the outermost message.
    #[verifier::external_body]
    fn from(e: anyhow::Error) -> (r: ToolError) {
        ToolError(e.to_string())
    }
}

/// The success envelope of a tool call: the serialized result value.
pub struct ToolOutput {
    pub result: serde_json::Value,
}

} // verus!
