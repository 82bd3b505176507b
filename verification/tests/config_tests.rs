use canvas_contracts::config::Config;

#[test]
fn test_config_default() {
    let config = Config::default();
    assert_eq!(config.app.name, "Canvas Contracts");
    assert_eq!(config.compiler.optimization_level, 2);
    assert!(config.runtime.gas_metering);
}

#[test]
fn test_config_validation() {
    let mut config = Config::default();
    assert!(config.validate().is_ok());

    config.app.name = String::new();
    assert!(config.validate().is_err());
}
