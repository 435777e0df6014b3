use libinitia::{
    aggregate_results, unit_test_build_config, unit_test_extensions, Capability, Extension,
    ExtensionError, ExtensionSet, TestRecord, TestStatus, UnitTestResult, DEFAULT_GAS_LIMIT,
};

const CAPABILITIES: [Capability; 10] = [
    Capability::Account,
    Capability::Table,
    Capability::Block,
    Capability::Code,
    Capability::Staking,
    Capability::Cosmos,
    Capability::Transaction,
    Capability::Event,
    Capability::Oracle,
    Capability::Query,
];

fn record(module: &str, function: &str, status: TestStatus) -> TestRecord {
    TestRecord { module: module.to_string(), function: function.to_string(), status }
}

#[test]
fn hook_sets_are_fresh_and_equal() {
    let mut first = unit_test_extensions();
    let second = unit_test_extensions();
    for c in CAPABILITIES {
        assert_eq!(first.get(c), second.get(c));
        assert_eq!(first.get(c).unwrap().capability(), c);
    }
    first.add(Extension::Block { height: 7, timestamp: 99 });
    first.add(Extension::Transaction { sender: [1; 32], hash: [2; 32] });
    assert_eq!(first.get(Capability::Block), Some(&Extension::Block { height: 7, timestamp: 99 }));
    assert_eq!(second.get(Capability::Block), Some(&Extension::Block { height: 0, timestamp: 0 }));
    assert_eq!(
        second.get(Capability::Transaction),
        Some(&Extension::Transaction { sender: [0; 32], hash: [0; 32] })
    );
    assert_eq!(second.get(Capability::Account), Some(&Extension::Account { caller_id: 1 }));
    assert_eq!(second.get(Capability::Table), Some(&Extension::Table { handle: [0; 32] }));
}

#[test]
fn missing_extension_fails_at_use() {
    let mut set = ExtensionSet::new();
    set.add(Extension::Code);
    assert_eq!(set.require(Capability::Code), Ok(&Extension::Code));
    assert_eq!(set.require(Capability::Oracle), Err(ExtensionError::Missing(Capability::Oracle)));
    assert_eq!(set.get(Capability::Account), None);
}

#[test]
fn adding_twice_replaces() {
    let mut set = ExtensionSet::new();
    set.add(Extension::Account { caller_id: 1 });
    set.add(Extension::Account { caller_id: 2 });
    assert_eq!(set.get(Capability::Account), Some(&Extension::Account { caller_id: 2 }));
}

#[test]
fn all_passing_tests_succeed() {
    let results = vec![
        record("0x1::coin", "test_mint", TestStatus::Passed),
        record("0x1::coin", "test_burn", TestStatus::Passed),
        record("0x1::vault", "test_deposit", TestStatus::Passed),
    ];
    assert_eq!(aggregate_results(&results), UnitTestResult::Success);
    assert_eq!(aggregate_results(&Vec::new()), UnitTestResult::Success);
}

#[test]
fn failing_test_is_named() {
    let results = vec![
        record("0x1::coin", "test_mint", TestStatus::Passed),
        record("0x1::vault", "test_false", TestStatus::Aborted { code: 1 }),
        record("0x1::vault", "test_ok", TestStatus::Passed),
    ];
    assert_eq!(
        aggregate_results(&results),
        UnitTestResult::Failure(vec![record("0x1::vault", "test_false", TestStatus::Aborted { code: 1 })])
    );
}

#[test]
fn out_of_gas_counts_as_failure() {
    let results = vec![
        record("0x1::loop", "spin", TestStatus::OutOfGas),
        record("0x1::coin", "test_mint", TestStatus::Passed),
        record("0x1::vm", "bad", TestStatus::ExecutionFailure),
    ];
    assert_eq!(
        aggregate_results(&results),
        UnitTestResult::Failure(vec![
            record("0x1::loop", "spin", TestStatus::OutOfGas),
            record("0x1::vm", "bad", TestStatus::ExecutionFailure),
        ])
    );
}

#[test]
fn unit_test_build_is_in_test_mode() {
    let b = unit_test_build_config("/tmp/build".to_string());
    assert!(b.test_mode);
    assert!(!b.dev_mode && !b.generate_docs && !b.generate_abis);
    assert_eq!(b.install_dir, Some("/tmp/build".to_string()));
    assert_eq!(b.bytecode_version, None);
    assert_eq!(DEFAULT_GAS_LIMIT, 1_000_000_000);
}

