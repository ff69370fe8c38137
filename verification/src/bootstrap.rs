//! Decisions made when an execution context is constructed.
//!
//! The surrounding runtime builds the actual engine worker; this module
//! fixes every option that the harness decides: source mapping is always
//! applied, debugging is off, the inspector is attached exactly when one
//! of its consumers is configured, and the ambient permission set is
//! empty — a script reaches the outside world only through the host-call
//! bridge.

use vstd::prelude::*;

verus! {

/// The harness-level options an execution context is built from.
pub struct ProgramOptions {
    /// Unstable engine features are enabled for test code.
    pub unstable: bool,
    /// An interactive read-eval-print session is attached.
    pub repl: bool,
    /// An inspector server is configured.
    pub has_inspector_server: bool,
    /// A coverage collection directory is configured.
    pub has_coverage_dir: bool,
    /// Execution must pause on the first statement for a debugger.
    pub inspect_brk: bool,
    /// A fixed seed for the engine's random source, when reproducibility
    /// is asked for.
    pub seed: Option<u64>,
}

/// The options a single execution context is constructed with.
pub struct WorkerSettings {
    /// Stack frames of uncaught errors are rewritten to original source
    /// positions.
    pub apply_source_maps: bool,
    /// Engine-level debug logging.
    pub debug_flag: bool,
    /// Unstable engine features.
    pub unstable: bool,
    /// An inspector is attached to this context.
    pub attach_inspector: bool,
    /// Execution pauses on the first statement.
    pub should_break_on_first_statement: bool,
    /// The engine's random seed, if fixed.
    pub seed: Option<u64>,
    /// This context exposes the privileged engine namespace to scripts.
    pub use_engine_namespace: bool,
}

/// The ambient capabilities granted to a context.
pub struct PermissionSet {
    pub allow_read: bool,
    pub allow_write: bool,
    pub allow_net: bool,
    pub allow_env: bool,
    pub allow_run: bool,
}

/// The permission set every context is bootstrapped with: no ambient
/// access at all beyond the host-call bridge.
pub fn bridge_permissions() -> (p: PermissionSet)
    ensures
        !p.allow_read,
        !p.allow_write,
        !p.allow_net,
        !p.allow_env,
        !p.allow_run,
{
    PermissionSet {
        allow_read: false,
        allow_write: false,
        allow_net: false,
        allow_env: false,
        allow_run: false,
    }
}

/// The settings of the single top-level execution context. The inspector
/// is attached exactly when an inspector server, an interactive session
/// or coverage collection asks for it.
pub fn main_worker_settings(o: &ProgramOptions) -> (w: WorkerSettings)
    ensures
        w.apply_source_maps,
        !w.debug_flag,
        w.unstable == o.unstable,
        w.attach_inspector == (o.has_inspector_server || o.repl || o.has_coverage_dir),
        w.should_break_on_first_statement == o.inspect_brk,
        w.seed == o.seed,
        w.use_engine_namespace,
{
    WorkerSettings {
        apply_source_maps: true,
        debug_flag: false,
        unstable: o.unstable,
        attach_inspector: o.has_inspector_server || o.repl || o.has_coverage_dir,
        should_break_on_first_statement: o.inspect_brk,
        seed: o.seed,
        use_engine_namespace: true,
    }
}

/// The settings of a child execution context ("sub-worker"). A child never
/// pauses for a debugger, attaches the inspector exactly when an inspector
/// server or coverage collection asks for it, and exposes the privileged
/// namespace only when its spawner says so.
pub fn web_worker_settings(o: &ProgramOptions, use_engine_namespace: bool) -> (w: WorkerSettings)
    ensures
        w.apply_source_maps,
        !w.debug_flag,
        w.unstable == o.unstable,
        w.attach_inspector == (o.has_inspector_server || o.has_coverage_dir),
        !w.should_break_on_first_statement,
        w.seed == o.seed,
        w.use_engine_namespace == use_engine_namespace,
{
    WorkerSettings {
        apply_source_maps: true,
        debug_flag: false,
        unstable: o.unstable,
        attach_inspector: o.has_inspector_server || o.has_coverage_dir,
        should_break_on_first_statement: false,
        seed: o.seed,
        use_engine_namespace,
    }
}

} // verus!
