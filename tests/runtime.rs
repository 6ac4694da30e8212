use yart::{call_output, receive_outcome, ToolError};

#[test]
fn test_rig_tool_error_propagation() {
    let sent: Result<String, ToolError> = Err(ToolError::new("Forced error"));
    let result = receive_outcome(Some(sent));
    assert!(result.is_err());
    let err = result.unwrap_err();
    assert_eq!(err.to_string(), "Forced error");
}

#[test]
fn isolation_success_passes_through() {
    let result = receive_outcome(Some(Ok::<String, ToolError>("Success".to_string())));
    assert_eq!(result.ok(), Some("Success".to_string()));
}

#[test]
fn isolation_failure_keeps_message() {
    let result = receive_outcome(Some(Err::<String, ToolError>(ToolError::new("Test error"))));
    assert_eq!(result.unwrap_err().0, "Test error");
}

#[test]
fn isolation_abnormal_end_reports_closed_channel() {
    let result = receive_outcome::<String>(None);
    assert_eq!(result.unwrap_err().0, "Channel closed");
}

#[test]
fn output_carries_serialized_value() {
    let value = serde_json::to_value(vec!["a", "b"]).unwrap();
    let output = call_output(Ok(value.clone())).ok().unwrap();
    assert_eq!(output.result, value);
}

#[test]
fn output_reports_serialization_error() {
    let err = call_output(Err("key must be a string".to_string())).err().unwrap();
    assert_eq!(err.0, "Serialization error: key must be a string");
    let empty = call_output(Err(String::new())).err().unwrap();
    assert_eq!(empty.0, "Serialization error: ");
}

#[test]
fn call_round_trip_reproduces_success_value() {
    let success = "test_ctx: hello".to_string();
    let received = receive_outcome(Some(Ok::<String, ToolError>(success.clone()))).ok().unwrap();
    let output = call_output(serde_json::to_value(&received).map_err(|e| e.to_string()))
        .ok()
        .unwrap();
    let back: String = serde_json::from_value(output.result).unwrap();
    assert_eq!(back, success);
}
