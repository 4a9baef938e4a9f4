use terminal_core::VERSION;

#[test]
fn test_version() {
    assert!(!VERSION.is_empty());
    assert_eq!(VERSION, "0.1.0");
}
