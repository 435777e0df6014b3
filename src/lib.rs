//! The bridge between a foreign caller and the Move toolchain: the flat,
//! fixed-layout configuration records that the caller hands over are turned
//! into the toolchain's build, test and prover configuration, and the
//! toolchain's outcome into a reply the caller can read. For unit tests it
//! also provides the fixed set of host capability contexts that native
//! functions run against, and reduces the outcomes of a test run to one result.

mod byte_view;
mod compiler;
mod level;

pub use byte_view::{utf8_decoded, view_is_text, view_text, ByteSliceView};
pub use compiler::{
    acknowledgement, compile_result, failure_message, lemma_limit_setting, lemma_version_setting,
    limit_setting, text_of, verbosity_is_valid, verbosity_setting, version_setting, Architecture,
    BuildConfig, ConfigField, CoverageOption, Error, InitiaCompilerArgument,
    InitiaCompilerBuildConfig, InitiaCompilerProveOption, InitiaCompilerTestOption, MoveArgs,
    ProverOptions, TestConfig, ToolchainError,
};
pub use level::{level_named, name_matches, LogLevel};
pub use unit_test::{
    aggregate_results, blank_extension, failed_tests, lemma_blank_extension_unique,
    lemma_failed_tests, lemma_unit_test_extensions_identical, slot_of, unit_test_build_config,
    unit_test_extensions, zero_id, Capability, Extension, ExtensionError, ExtensionSet, TestRecord,
    TestStatus, UnitTestResult, CAPABILITY_COUNT, DEFAULT_GAS_LIMIT,
};
