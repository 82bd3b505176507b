use canvas_contracts::config::Config;
use canvas_contracts::wasm::WasmRuntime;

#[test]
fn test_wasm_runtime_creation() {
    let config = Config::default();
    let runtime = WasmRuntime::new(&config);
    assert!(runtime.is_ok());
}

#[test]
fn test_wasm_validation() {
    let config = Config::default();
    let runtime = WasmRuntime::new(&config).unwrap();

    let valid_wasm = b"\x00asm\x01\x00\x00\x00";
    assert!(runtime.validate_module(valid_wasm).is_ok());

    let invalid_wasm = b"invalid";
    assert!(runtime.validate_module(invalid_wasm).is_err());
}
