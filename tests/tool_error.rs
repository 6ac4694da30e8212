use yart::ToolError;

#[test]
fn test_tool_error_new() {
    let error = ToolError::new("Custom error");
    assert_eq!(error.0, "Custom error");
    assert_eq!(error.to_string(), "Custom error");
}

#[test]
fn test_tool_error_from_anyhow() {
    let anyhow_error = anyhow::Error::msg("Anyhow error");
    let tool_error = ToolError::from(anyhow_error);
    assert_eq!(tool_error.0, "Anyhow error");
    assert_eq!(tool_error.to_string(), "Anyhow error");
}

#[test]
fn tool_error_new_keeps_empty_message() {
    let error = ToolError::new("");
    assert_eq!(error.0, "");
    assert_eq!(error.to_string(), "");
}
