use canvas_contracts::monitoring::{CircuitBreaker, CircuitState};

#[test]
fn test_circuit_breaker() {
    let mut breaker = CircuitBreaker::new("test", 3, 60);

    let result = breaker.execute(|| Ok::<i32, String>(42));
    assert!(result.is_ok());
    assert_eq!(result.unwrap(), 42);

    let result = breaker.execute(|| Err::<i32, String>("test error".to_string()));
    assert!(result.is_err());
}

#[test]
fn test_circuit_breaker_state() {
    let breaker = CircuitBreaker::new("probe", 1, 10);
    assert_eq!(breaker.get_state(), CircuitState::Closed);
}
