use canvas_contracts::info;

#[test]
fn test_info() {
    let info = info();
    assert_eq!(info.name, "canvas-contracts");
    assert!(!info.version.is_empty());
    assert!(!info.description.is_empty());
}
