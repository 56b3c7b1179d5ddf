use fractal::lindenmayer::{LindenmayerSystem, LindenmayerSystemCachingDecorator};

#[derive(Clone, Copy, PartialEq, Eq, Debug)]
enum TestABC {
    A,
    B,
    C,
    Foo,
}

struct TestLS;

impl LindenmayerSystem<TestABC> for TestLS {
    fn initial(&self) -> Vec<TestABC> {
        vec![TestABC::A, TestABC::B, TestABC::C]
    }

    fn apply_rule(&self, l: TestABC) -> Vec<TestABC> {
        match l {
            TestABC::A => vec![TestABC::A, TestABC::Foo, TestABC::B, TestABC::C],
            TestABC::B => vec![TestABC::Foo],
            TestABC::C => vec![TestABC::Foo, TestABC::B],
            TestABC::Foo => vec![TestABC::Foo],
        }
    }
}

/// Test a sample TestLS system
#[test]
fn test_lsystem() {
    assert_eq!(TestLS.generate(0), [TestABC::A, TestABC::B, TestABC::C]);
    assert_eq!(
        TestLS.generate(1),
        [TestABC::A, TestABC::Foo, TestABC::B, TestABC::C, TestABC::Foo, TestABC::Foo, TestABC::B]
    );
    assert_eq!(
        TestLS.generate(2),
        [
            TestABC::A,
            TestABC::Foo,
            TestABC::B,
            TestABC::C,
            TestABC::Foo,
            TestABC::Foo,
            TestABC::Foo,
            TestABC::B,
            TestABC::Foo,
            TestABC::Foo,
            TestABC::Foo
        ]
    );
    assert_eq!(
        TestLS.generate(3),
        [
            TestABC::A,
            TestABC::Foo,
            TestABC::B,
            TestABC::C,
            TestABC::Foo,
            TestABC::Foo,
            TestABC::Foo,
            TestABC::B,
            TestABC::Foo,
            TestABC::Foo,
            TestABC::Foo,
            TestABC::Foo,
            TestABC::Foo,
            TestABC::Foo,
            TestABC::Foo
        ]
    );
}

/// Test the caching decorator
#[test]
fn test_caching() {
    // All this can really test is verify that multiple calls for the same
    // generation come out the same.
    let orig_system = TestLS;
    let system = LindenmayerSystemCachingDecorator::new(orig_system);
    // baseline
    assert_eq!(system.generate(0), [TestABC::A, TestABC::B, TestABC::C]);
    // again
    assert_eq!(system.generate(0), [TestABC::A, TestABC::B, TestABC::C]);
    // something that will require caching 1 and 2 and use 0's cache
    assert_eq!(
        system.generate(3),
        [
            TestABC::A,
            TestABC::Foo,
            TestABC::B,
            TestABC::C,
            TestABC::Foo,
            TestABC::Foo,
            TestABC::Foo,
            TestABC::B,
            TestABC::Foo,
            TestABC::Foo,
            TestABC::Foo,
            TestABC::Foo,
            TestABC::Foo,
            TestABC::Foo,
            TestABC::Foo
        ]
    );
    // use cache
    assert_eq!(
        system.generate(3),
        [
            TestABC::A,
            TestABC::Foo,
            TestABC::B,
            TestABC::C,
            TestABC::Foo,
            TestABC::Foo,
            TestABC::Foo,
            TestABC::B,
            TestABC::Foo,
            TestABC::Foo,
            TestABC::Foo,
            TestABC::Foo,
            TestABC::Foo,
            TestABC::Foo,
            TestABC::Foo
        ]
    );
    // use cache
    assert_eq!(
        system.generate(1),
        [TestABC::A, TestABC::Foo, TestABC::B, TestABC::C, TestABC::Foo, TestABC::Foo, TestABC::B]
    );
}

#[test]
fn generate_next_iteration_rewrites_every_symbol() {
    let next = TestLS.generate_next_iteration(&vec![TestABC::C, TestABC::A]);
    assert_eq!(next, [TestABC::Foo, TestABC::B, TestABC::A, TestABC::Foo, TestABC::B, TestABC::C]);
    assert_eq!(TestLS.generate_next_iteration(&vec![]), []);
}

#[test]
fn caching_decorator_matches_wrapped_system() {
    let system = LindenmayerSystemCachingDecorator::new(TestLS);
    // ask for a later generation first, then an earlier one from the cache
    for n in [5u64, 2, 0, 6, 6, 4] {
        assert_eq!(system.generate(n), TestLS.generate(n));
    }
    assert_eq!(system.initial(), TestLS.initial());
    assert_eq!(system.apply_rule(TestABC::A), TestLS.apply_rule(TestABC::A));
}

#[test]
fn next_generation_of_generation_is_following_generation() {
    for n in 0u64..5 {
        assert_eq!(TestLS.generate_next_iteration(&TestLS.generate(n)), TestLS.generate(n + 1));
    }
}
