use bootchain::test_registry::{TestRegistry, MAX_TESTS};

fn addition() -> bool {
    1 + 1 == 2
}

fn multiply() -> bool {
    2 * 3 == 6
}

#[test]
fn tests_run_in_registration_order() {
    let mut r: TestRegistry<fn() -> bool> = TestRegistry::new();
    assert!(r.register_test("addition", addition));
    assert!(r.register_test("multiply", multiply));
    assert_eq!(r.len(), 2);
    assert_eq!(r.get(0).name, "addition");
    assert_eq!(r.get(1).name, "multiply");
    for i in 0..r.len() {
        assert!((r.get(i).func)());
    }
}

#[test]
fn full_registry_refuses_more() {
    let mut r: TestRegistry<u32> = TestRegistry::new();
    for i in 0..MAX_TESTS {
        assert!(r.register_test("t", i as u32));
    }
    assert!(!r.register_test("extra", 999));
    assert_eq!(r.len(), 128);
    assert_eq!(r.get(127).func, 127);
}
