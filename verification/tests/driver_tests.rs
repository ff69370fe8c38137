use chain_harness::bootstrap::{bridge_permissions, main_worker_settings, web_worker_settings, ProgramOptions};
use chain_harness::driver::{plan_test_run, render_entry_module, TestRunOptions};

#[test]
fn plan_is_skipped_when_no_test_modules_were_found() {
    let opts = TestRunOptions { fail_fast: true, quiet: false, filter: None };
    assert!(plan_test_run(&Vec::new(), &opts).is_none());
}

#[test]
fn plan_uses_the_synthetic_specifier() {
    let opts = TestRunOptions { fail_fast: true, quiet: false, filter: None };
    let plan = plan_test_run(&vec!["file:///tests/a_test.ts".to_string()], &opts).unwrap();
    assert_eq!(plan.specifier, "$deno$test.ts");
}

#[test]
fn rendered_entry_module_imports_and_runs() {
    let opts = TestRunOptions { fail_fast: true, quiet: false, filter: None };
    let modules = vec![
        "file:///tests/a_test.ts".to_string(),
        "file:///tests/b_test.ts".to_string(),
    ];
    let src = render_entry_module(&modules, &opts);
    assert_eq!(
        src,
        "import \"file:///tests/a_test.ts\";\n\
         import \"file:///tests/b_test.ts\";\n\
         await Deno[Deno.internal].runTests({ \"failFast\": true, \"disableLog\": false });\n"
    );
}

#[test]
fn rendered_entry_module_carries_the_filter() {
    let opts = TestRunOptions {
        fail_fast: false,
        quiet: true,
        filter: Some("transfer".to_string()),
    };
    let src = render_entry_module(&vec!["file:///t.ts".to_string()], &opts);
    assert_eq!(
        src,
        "import \"file:///t.ts\";\n\
         await Deno[Deno.internal].runTests({ \"failFast\": false, \"disableLog\": true, \"filter\": \"transfer\" });\n"
    );
}

#[test]
fn bridge_permissions_grant_no_ambient_access() {
    let p = bridge_permissions();
    assert!(!p.allow_read && !p.allow_write && !p.allow_net && !p.allow_env && !p.allow_run);
}

#[test]
fn main_worker_attaches_inspector_for_any_consumer() {
    let mut o = ProgramOptions {
        unstable: true,
        repl: false,
        has_inspector_server: false,
        has_coverage_dir: false,
        inspect_brk: false,
        seed: Some(7),
    };
    let w = main_worker_settings(&o);
    assert!(w.apply_source_maps && !w.debug_flag && w.unstable && !w.attach_inspector);
    assert_eq!(w.seed, Some(7));
    o.has_coverage_dir = true;
    assert!(main_worker_settings(&o).attach_inspector);
    o.has_coverage_dir = false;
    o.repl = true;
    assert!(main_worker_settings(&o).attach_inspector);
}

#[test]
fn child_worker_never_breaks_on_first_statement() {
    let o = ProgramOptions {
        unstable: false,
        repl: true,
        has_inspector_server: false,
        has_coverage_dir: false,
        inspect_brk: true,
        seed: None,
    };
    let w = web_worker_settings(&o, true);
    assert!(!w.should_break_on_first_statement);
    assert!(w.use_engine_namespace);
    // A child ignores the interactive session when deciding on the inspector.
    assert!(!w.attach_inspector);
}
