use canvas_contracts::error::{CanvasError, ErrorContext};

#[test]
fn test_error_creation() {
    let comp_error = CanvasError::compilation("test compilation error".to_string());
    assert!(matches!(comp_error, CanvasError::Compilation(_)));

    let wasm_error = CanvasError::wasm("test WASM error".to_string());
    assert!(matches!(wasm_error, CanvasError::Wasm(_)));
}

#[test]
fn test_error_context() {
    let context = ErrorContext::new("test operation".to_string())
        .with_details("test details".to_string())
        .with_location("test location".to_string());

    assert_eq!(context.operation, "test operation");
    assert_eq!(context.details, "test details");
    assert_eq!(context.location, Some("test location".to_string()));
}

#[test]
fn test_fatal_error_detection() {
    let fatal_error = CanvasError::compilation("fatal".to_string());
    assert!(fatal_error.is_fatal());

    let recoverable_error = CanvasError::validation("recoverable".to_string());
    assert!(recoverable_error.is_recoverable());
}
