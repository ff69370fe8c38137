//! The test driver's decisions: which entry module to synthesize for a
//! set of discovered test modules, and when not to run at all.
//!
//! Discovery walks the filesystem and therefore stays with the caller; it
//! hands the discovered module specifiers here. The synthesized source is
//! registered by the caller under the synthetic specifier in the file
//! cache, so the module loader resolves it like any other module.

use vstd::prelude::*;
use vstd::string::StringExecFns;

verus! {

/// How an aggregate test run is to behave.
pub struct TestRunOptions {
    /// Stop scheduling further tests after the first failure.
    pub fail_fast: bool,
    /// Suppress per-test log output.
    pub quiet: bool,
    /// Run only the tests whose name matches this pattern.
    pub filter: Option<String>,
}

/// A planned run: one synthetic entry module driven through a single
/// top-level execution context.
pub struct TestPlan {
    /// The synthetic, non-filesystem specifier the entry module is
    /// registered under.
    pub specifier: String,
    /// The source text of the entry module.
    pub source: String,
}

/// The filter pattern as a mathematical value.
pub open spec fn filter_view(opts: &TestRunOptions) -> Option<Seq<char>> {
    match opts.filter {
        Some(f) => Some(f@),
        None => None,
    }
}

/// The text of a boolean inside the synthesized source.
pub open spec fn bool_text(b: bool) -> Seq<char> {
    if b {
        "true"@
    } else {
        "false"@
    }
}

/// One import statement of the synthesized entry module.
pub open spec fn import_line(m: Seq<char>) -> Seq<char> {
    "import \""@ + m + "\";\n"@
}

/// The import statements of the entry module, one per discovered test
/// module, in discovery order.
pub open spec fn import_section(mods: Seq<Seq<char>>) -> Seq<char>
    decreases mods.len(),
{
    if mods.len() == 0 {
        Seq::empty()
    } else {
        import_section(mods.drop_last()) + import_line(mods.last())
    }
}

/// The options literal handed to the runner.
pub open spec fn runner_options_text(fail_fast: bool, quiet: bool, filter: Option<Seq<char>>) -> Seq<
    char,
> {
    match filter {
        Some(f) => "{ \"failFast\": "@ + bool_text(fail_fast) + ", \"disableLog\": "@ + bool_text(
            quiet,
        ) + ", \"filter\": \""@ + f + "\" }"@,
        None => "{ \"failFast\": "@ + bool_text(fail_fast) + ", \"disableLog\": "@ + bool_text(
            quiet,
        ) + " }"@,
    }
}

/// The whole source text of the synthesized entry module: every discovered
/// module imported in order, then one call that hands the run options to
/// the engine's test runner.
pub open spec fn entry_module_source(
    mods: Seq<Seq<char>>,
    fail_fast: bool,
    quiet: bool,
    filter: Option<Seq<char>>,
) -> Seq<char> {
    import_section(mods) + "await Deno[Deno.internal].runTests("@ + runner_options_text(
        fail_fast,
        quiet,
        filter,
    ) + ");\n"@
}

/// Synthesizes the aggregate entry module for the discovered test modules.
pub fn render_entry_module(modules: &Vec<String>, opts: &TestRunOptions) -> (src: String)
    ensures
        src@ == entry_module_source(
            modules.deep_view(),
            opts.fail_fast,
            opts.quiet,
            filter_view(opts),
        ),
{
    let ghost mods = modules.deep_view();
    let mut src = String::new();
    assert(src@ =~= import_section(mods.take(0)));
    let mut i: usize = 0;
    while i < modules.len()
        invariant
            i <= modules.len(),
            mods == modules.deep_view(),
            src@ == import_section(mods.take(i as int)),
        decreases modules.len() - i,
    {
        src.append("import \"");
        src.append(modules[i].as_str());
        src.append("\";\n");
        proof {
            assert(mods[i as int] == modules@[i as int]@);
            assert(mods.take(i + 1).drop_last() =~= mods.take(i as int));
            assert(mods.take(i + 1).last() == mods[i as int]);
            assert(src@ =~= import_section(mods.take(i + 1)));
        }
        i += 1;
    }
    assert(mods.take(mods.len() as int) =~= mods);
    src.append("await Deno[Deno.internal].runTests(");
    src.append("{ \"failFast\": ");
    src.append(if opts.fail_fast { "true" } else { "false" });
    src.append(", \"disableLog\": ");
    src.append(if opts.quiet { "true" } else { "false" });
    match &opts.filter {
        Some(f) => {
            src.append(", \"filter\": \"");
            src.append(f.as_str());
            src.append("\" }");
        },
        None => {
            src.append(" }");
        },
    }
    src.append(");\n");
    proof {
        assert(src@ =~= entry_module_source(
            mods,
            opts.fail_fast,
            opts.quiet,
            filter_view(opts),
        ));
    }
    src
}

/// Plans a run over the discovered test modules: no modules, no run; else
/// one synthetic entry module under the fixed non-filesystem specifier.
pub fn plan_test_run(modules: &Vec<String>, opts: &TestRunOptions) -> (plan: Option<TestPlan>)
    ensures
        plan is Some <==> modules@.len() > 0,
        match plan {
            Some(p) => p.specifier@ == "$deno$test.ts"@ && p.source@ == entry_module_source(
                modules.deep_view(),
                opts.fail_fast,
                opts.quiet,
                filter_view(opts),
            ),
            None => true,
        },
{
    if modules.len() == 0 {
        None
    } else {
        let source = render_entry_module(modules, opts);
        Some(TestPlan { specifier: String::from_str("$deno$test.ts"), source })
    }
}

} // verus!
