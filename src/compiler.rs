use vstd::prelude::*;
use vstd::string::StringExecFns;

use crate::byte_view::{utf8_decoded, view_is_text, view_text, ByteSliceView};
use crate::level::{level_named, parse_level, LogLevel};

verus! {

/// How coverage is displayed.
#[derive(Debug, Clone, Copy, PartialEq, Eq, Structural)]
pub enum CoverageOption {
    /// A coverage summary for all modules in the package.
    Summary,
    /// Coverage of a module shown against its source code.
    Source,
    /// Coverage of a module shown against its disassembled bytecode.
    Bytecode,
}

/// The text fields of the configuration records, as named in errors.
#[derive(Debug, Clone, Copy, PartialEq, Eq, Structural)]
pub enum ConfigField {
    PackagePath,
    InstallDir,
    TestFilter,
    Verbosity,
    ProveFilter,
}

/// Why a request could not be served.
#[derive(Debug, PartialEq, Eq)]
pub enum Error {
    /// The bytes of a text field are not valid UTF-8.
    MalformedText(ConfigField),
    /// A verbosity field names no log level.
    UnknownLevel(ConfigField),
    /// The toolchain failed; the message says which action and why.
    BackendFailure(String),
}

/// The text held by an optional string.
pub open spec fn text_of(o: Option<String>) -> Option<Seq<char>> {
    match o {
        Some(s) => Some(s@),
        None => None,
    }
}

/// A bytecode version of zero means that none is set.
pub open spec fn version_setting(v: u32) -> Option<u32> {
    if v == 0 {
        None
    } else {
        Some(v)
    }
}

/// A count or a limit of zero means that none is set.
pub open spec fn limit_setting(v: u64) -> Option<u64> {
    if v == 0 {
        None
    } else {
        Some(v)
    }
}

/// The bytecode version setting keeps every nonzero version as it is and
/// leaves exactly the value zero unset.
pub proof fn lemma_version_setting(v: u32)
    ensures
        version_setting(v) is None <==> v == 0,
        v != 0 ==> version_setting(v) == Some(v),
{
}

/// A limit or count setting keeps every nonzero value as it is and leaves
/// exactly the value zero unset.
pub proof fn lemma_limit_setting(v: u64)
    ensures
        limit_setting(v) is None <==> v == 0,
        v != 0 ==> limit_setting(v) == Some(v),
{
}

fn version_of(v: u32) -> (r: Option<u32>)
    ensures
        r == version_setting(v),
{
    if v == 0 {
        None
    } else {
        Some(v)
    }
}

fn limit_of(v: u64) -> (r: Option<u64>)
    ensures
        r == limit_setting(v),
{
    if v == 0 {
        None
    } else {
        Some(v)
    }
}

/// Arguments of a toolchain call on a package.
pub struct InitiaCompilerArgument {
    /// Path to the package that the command runs on.
    pub package_path: ByteSliceView,
    /// Print additional diagnostics where available.
    pub verbose: bool,
    /// How the package is built.
    pub build_config: InitiaCompilerBuildConfig,
}

/// Package build options as the caller lays them out.
pub struct InitiaCompilerBuildConfig {
    /// Use the 'dev-addresses' and 'dev-dependencies' of the manifest.
    pub dev_mode: bool,
    /// Compile in test mode, with the code of the 'tests' directory.
    pub test_mode: bool,
    /// Generate documentation for the packages.
    pub generate_docs: bool,
    /// Generate ABIs for the packages.
    pub generate_abis: bool,
    /// Installation directory for compiled artifacts; empty for the current directory.
    pub install_dir: ByteSliceView,
    /// Recompile every package.
    pub force_recompilation: bool,
    /// Only fetch the dependency repositories.
    pub fetch_deps_only: bool,
    /// Do not fetch the latest git dependencies.
    pub skip_fetch_latest_git_deps: bool,
    /// Bytecode version; zero leaves the toolchain's default.
    pub bytecode_version: u32,
}

/// Unit test options as the caller lays them out.
pub struct InitiaCompilerTestOption {
    /// Gas bound for any one test; zero for no bound.
    pub gas_limit: u64,
    /// Only tests whose fully qualified name holds this text are run.
    pub filter: ByteSliceView,
    /// List the tests instead of running them.
    pub list: bool,
    /// Number of threads that run tests.
    pub num_threads: usize,
    /// Report test statistics at the end.
    pub report_statistics: bool,
    /// Show the storage state after a failing test.
    pub report_storage_on_error: bool,
    /// Run the tests despite compiler warnings.
    pub ignore_compile_warnings: bool,
    /// Cross-check the results with the stackless bytecode interpreter.
    pub check_stackless_vm: bool,
    /// Verbose output.
    pub verbose_mode: bool,
    /// Collect coverage information.
    pub compute_coverage: bool,
}

/// Prover options as the caller lays them out.
pub struct InitiaCompilerProveOption {
    /// Verbosity level by name; empty for the default.
    pub verbosity: ByteSliceView,
    /// Only modules whose file name matches are targets.
    pub filter: ByteSliceView,
    /// Add more information to error reports.
    pub trace: bool,
    /// Use cvc5 as the SMT solver.
    pub cvc5: bool,
    /// Depth to which stratified functions are expanded.
    pub stratification_depth: usize,
    /// Seed for the prover.
    pub random_seed: usize,
    /// Cores used for verification conditions in parallel.
    pub proc_cores: usize,
    /// Soft solver timeout per verification condition, in seconds.
    pub vc_timeout: usize,
    /// Check specs for consistency by injecting impossible assertions.
    pub check_inconsistency: bool,
    /// Hand loops to the solver as they are.
    pub keep_loops: bool,
    /// Iterations to unroll loops; zero leaves the default.
    pub loop_unroll: u64,
    /// Keep diagnostic output stable for use in tests.
    pub stable_test_output: bool,
    /// Dump intermediate results to files.
    pub dump: bool,
    /// This prover run is for a test.
    pub for_test: bool,
}

/// The target architecture of a build.
#[derive(Debug, Clone, Copy, PartialEq, Eq, Structural)]
pub enum Architecture {
    Move,
}

/// The toolchain's build configuration.
#[derive(Debug, PartialEq, Eq)]
pub struct BuildConfig {
    pub dev_mode: bool,
    pub test_mode: bool,
    pub generate_docs: bool,
    pub generate_abis: bool,
    pub install_dir: Option<String>,
    pub force_recompilation: bool,
    pub architecture: Option<Architecture>,
    pub fetch_deps_only: bool,
    pub skip_fetch_latest_git_deps: bool,
    pub bytecode_version: Option<u32>,
}

/// The toolchain's arguments for a package command.
#[derive(Debug, PartialEq, Eq)]
pub struct MoveArgs {
    pub package_path: Option<String>,
    pub verbose: bool,
    pub build_config: BuildConfig,
}

/// The toolchain's unit test configuration.
#[derive(Debug, PartialEq, Eq)]
pub struct TestConfig {
    pub gas_limit: Option<u64>,
    pub filter: Option<String>,
    pub list: bool,
    pub num_threads: usize,
    pub report_statistics: bool,
    pub report_storage_on_error: bool,
    pub ignore_compile_warnings: bool,
    pub check_stackless_vm: bool,
    pub verbose_mode: bool,
    pub compute_coverage: bool,
}

/// The toolchain's prover configuration.
#[derive(Debug, PartialEq, Eq)]
pub struct ProverOptions {
    pub verbosity: Option<LogLevel>,
    pub filter: Option<String>,
    pub trace: bool,
    pub cvc5: bool,
    pub stratification_depth: usize,
    pub random_seed: usize,
    pub proc_cores: usize,
    pub vc_timeout: usize,
    pub check_inconsistency: bool,
    pub keep_loops: bool,
    pub loop_unroll: Option<u64>,
    pub stable_test_output: bool,
    pub dump: bool,
    pub for_test: bool,
}

impl InitiaCompilerBuildConfig {
    /// `b` is this record converted, with `install_dir` as its directory.
    pub open spec fn converts_to(&self, install_dir: Option<Seq<char>>, b: BuildConfig) -> bool {
        &&& b.dev_mode == self.dev_mode
        &&& b.test_mode == self.test_mode
        &&& b.generate_docs == self.generate_docs
        &&& b.generate_abis == self.generate_abis
        &&& text_of(b.install_dir) == install_dir
        &&& b.force_recompilation == self.force_recompilation
        &&& b.architecture == Some(Architecture::Move)
        &&& b.fetch_deps_only == self.fetch_deps_only
        &&& b.skip_fetch_latest_git_deps == self.skip_fetch_latest_git_deps
        &&& b.bytecode_version == version_setting(self.bytecode_version)
    }

    /// The build configuration of this record, given its directory as text.
    pub fn to_build_config(&self, install_dir: Option<String>) -> (r: BuildConfig)
        ensures
            self.converts_to(text_of(install_dir), r),
    {
        BuildConfig {
            dev_mode: self.dev_mode,
            test_mode: self.test_mode,
            generate_docs: self.generate_docs,
            generate_abis: self.generate_abis,
            install_dir,
            force_recompilation: self.force_recompilation,
            architecture: Some(Architecture::Move),
            fetch_deps_only: self.fetch_deps_only,
            skip_fetch_latest_git_deps: self.skip_fetch_latest_git_deps,
            bytecode_version: version_of(self.bytecode_version),
        }
    }

    /// The build configuration of this record; fails only when the directory
    /// is not valid UTF-8.
    pub fn into_build_config(self) -> (r: Result<BuildConfig, Error>)
        ensures
            view_is_text(self.install_dir@) ==> (r matches Ok(b) && self.converts_to(
                view_text(self.install_dir@),
                b,
            )),
            !view_is_text(self.install_dir@) ==> r == Err::<BuildConfig, Error>(
                Error::MalformedText(ConfigField::InstallDir),
            ),
    {
        match self.install_dir.read_text(ConfigField::InstallDir) {
            Ok(dir) => Ok(self.to_build_config(dir)),
            Err(e) => Err(e),
        }
    }
}

impl InitiaCompilerArgument {
    /// The toolchain arguments of this record; fails when the package path or
    /// the install directory is not valid UTF-8, the path being read first.
    pub fn into_move_args(self) -> (r: Result<MoveArgs, Error>)
        ensures
            view_is_text(self.package_path@) && view_is_text(self.build_config.install_dir@) ==> (
            r matches Ok(m) && text_of(m.package_path) == view_text(self.package_path@)
                && m.verbose == self.verbose && self.build_config.converts_to(
                view_text(self.build_config.install_dir@),
                m.build_config,
            )),
            !view_is_text(self.package_path@) ==> r == Err::<MoveArgs, Error>(
                Error::MalformedText(ConfigField::PackagePath),
            ),
            view_is_text(self.package_path@) && !view_is_text(self.build_config.install_dir@)
                ==> r == Err::<MoveArgs, Error>(Error::MalformedText(ConfigField::InstallDir)),
    {
        let package_path = match self.package_path.read_text(ConfigField::PackagePath) {
            Ok(p) => p,
            Err(e) => {
                return Err(e);
            },
        };
        let verbose = self.verbose;
        match self.build_config.into_build_config() {
            Ok(build_config) => Ok(MoveArgs { package_path, verbose, build_config }),
            Err(e) => Err(e),
        }
    }
}

impl InitiaCompilerTestOption {
    /// `t` is this record converted, with `filter` as its filter.
    pub open spec fn converts_to(&self, filter: Option<Seq<char>>, t: TestConfig) -> bool {
        &&& t.gas_limit == limit_setting(self.gas_limit)
        &&& text_of(t.filter) == filter
        &&& t.list == self.list
        &&& t.num_threads == self.num_threads
        &&& t.report_statistics == self.report_statistics
        &&& t.report_storage_on_error == self.report_storage_on_error
        &&& t.ignore_compile_warnings == self.ignore_compile_warnings
        &&& t.check_stackless_vm == self.check_stackless_vm
        &&& t.verbose_mode == self.verbose_mode
        &&& t.compute_coverage == self.compute_coverage
    }

    /// The unit test configuration of this record, given its filter as text.
    pub fn to_test_config(&self, filter: Option<String>) -> (r: TestConfig)
        ensures
            self.converts_to(text_of(filter), r),
    {
        TestConfig {
            gas_limit: limit_of(self.gas_limit),
            filter,
            list: self.list,
            num_threads: self.num_threads,
            report_statistics: self.report_statistics,
            report_storage_on_error: self.report_storage_on_error,
            ignore_compile_warnings: self.ignore_compile_warnings,
            check_stackless_vm: self.check_stackless_vm,
            verbose_mode: self.verbose_mode,
            compute_coverage: self.compute_coverage,
        }
    }

    /// The unit test configuration of this record; fails only when the filter
    /// is not valid UTF-8.
    pub fn into_test_config(self) -> (r: Result<TestConfig, Error>)
        ensures
            view_is_text(self.filter@) ==> (r matches Ok(t) && self.converts_to(
                view_text(self.filter@),
                t,
            )),
            !view_is_text(self.filter@) ==> r == Err::<TestConfig, Error>(
                Error::MalformedText(ConfigField::TestFilter),
            ),
    {
        match self.filter.read_text(ConfigField::TestFilter) {
            Ok(filter) => Ok(self.to_test_config(filter)),
            Err(e) => Err(e),
        }
    }
}

/// The verbosity text names a level, or is absent.
pub open spec fn verbosity_is_valid(v: Seq<u8>) -> bool {
    v.len() == 0 || match utf8_decoded(v) {
        Some(t) => level_named(t) is Some,
        None => false,
    }
}

/// The level that a valid verbosity text gives: none when it is absent.
pub open spec fn verbosity_setting(v: Seq<u8>) -> Option<LogLevel> {
    if v.len() == 0 {
        None
    } else {
        match utf8_decoded(v) {
            Some(t) => level_named(t),
            None => None,
        }
    }
}

impl InitiaCompilerProveOption {
    /// `p` is this record converted, with `verbosity` and `filter` as its
    /// level and filter.
    pub open spec fn converts_to(
        &self,
        verbosity: Option<LogLevel>,
        filter: Option<Seq<char>>,
        p: ProverOptions,
    ) -> bool {
        &&& p.verbosity == verbosity
        &&& text_of(p.filter) == filter
        &&& p.trace == self.trace
        &&& p.cvc5 == self.cvc5
        &&& p.stratification_depth == self.stratification_depth
        &&& p.random_seed == self.random_seed
        &&& p.proc_cores == self.proc_cores
        &&& p.vc_timeout == self.vc_timeout
        &&& p.check_inconsistency == self.check_inconsistency
        &&& p.keep_loops == self.keep_loops
        &&& p.loop_unroll == limit_setting(self.loop_unroll)
        &&& p.stable_test_output == self.stable_test_output
        &&& p.dump == self.dump
        &&& p.for_test == self.for_test
    }

    /// The prover configuration of this record, given its level and filter.
    pub fn to_prover_options(&self, verbosity: Option<LogLevel>, filter: Option<String>) -> (r:
        ProverOptions)
        ensures
            self.converts_to(verbosity, text_of(filter), r),
    {
        ProverOptions {
            verbosity,
            filter,
            trace: self.trace,
            cvc5: self.cvc5,
            stratification_depth: self.stratification_depth,
            random_seed: self.random_seed,
            proc_cores: self.proc_cores,
            vc_timeout: self.vc_timeout,
            check_inconsistency: self.check_inconsistency,
            keep_loops: self.keep_loops,
            loop_unroll: limit_of(self.loop_unroll),
            stable_test_output: self.stable_test_output,
            dump: self.dump,
            for_test: self.for_test,
        }
    }

    /// The prover configuration of this record. The verbosity is read first:
    /// it fails when it is not valid UTF-8 or names no level; then the filter,
    /// which fails when it is not valid UTF-8.
    pub fn into_prover_options(self) -> (r: Result<ProverOptions, Error>)
        ensures
            !view_is_text(self.verbosity@) ==> r == Err::<ProverOptions, Error>(
                Error::MalformedText(ConfigField::Verbosity),
            ),
            view_is_text(self.verbosity@) && !verbosity_is_valid(self.verbosity@) ==> r == Err::<
                ProverOptions,
                Error,
            >(Error::UnknownLevel(ConfigField::Verbosity)),
            verbosity_is_valid(self.verbosity@) && !view_is_text(self.filter@) ==> r == Err::<
                ProverOptions,
                Error,
            >(Error::MalformedText(ConfigField::ProveFilter)),
            verbosity_is_valid(self.verbosity@) && view_is_text(self.filter@) ==> (r matches Ok(p)
                && self.converts_to(verbosity_setting(self.verbosity@), view_text(self.filter@), p)),
    {
        let verbosity = match self.verbosity.read_text(ConfigField::Verbosity) {
            Ok(None) => None,
            Ok(Some(text)) => match parse_level(text.as_str()) {
                Some(level) => Some(level),
                None => {
                    return Err(Error::UnknownLevel(ConfigField::Verbosity));
                },
            },
            Err(e) => {
                return Err(e);
            },
        };
        match self.filter.read_text(ConfigField::ProveFilter) {
            Ok(filter) => Ok(self.to_prover_options(verbosity, filter)),
            Err(e) => Err(e),
        }
    }
}

/// A failure of the toolchain, in its short and its detailed rendering.
#[derive(Debug, PartialEq, Eq)]
pub struct ToolchainError {
    pub summary: String,
    pub detail: String,
}

/// The reply to a command that succeeded: the bytes of "ok".
pub open spec fn acknowledgement() -> Seq<u8> {
    seq![0x6fu8, 0x6bu8]
}

/// The message for a failed action.
pub open spec fn failure_message(action: Seq<char>, reason: Seq<char>) -> Seq<char> {
    "failed to "@ + action + ": "@ + reason
}

/// The reply to a toolchain command named `action`, given what the toolchain
/// did: the acknowledgement on success, else a backend failure that names the
/// action and gives the detailed rendering of the failure when `verbose` is
/// set, the short one otherwise.
pub fn compile_result(action: &str, verbose: bool, outcome: Result<(), ToolchainError>) -> (r:
    Result<Vec<u8>, Error>)
    ensures
        outcome is Ok ==> (r matches Ok(v) && v@ == acknowledgement()),
        outcome matches Err(e) ==> (r matches Err(Error::BackendFailure(m)) && m@
            == failure_message(action@, if verbose { e.detail@ } else { e.summary@ })),
{
    match outcome {
        Ok(()) => Ok(vec![0x6fu8, 0x6bu8]),
        Err(e) => {
            let reason = if verbose { e.detail } else { e.summary };
            let mut m = <String as StringExecFns>::from_str("failed to ");
            m.append(action);
            m.append(": ");
            m.append(reason.as_str());
            Err(Error::BackendFailure(m))
        },
    }
}

} // verus!
