use pipeline_manager::gc::{gc_candidates, gc_deletions, gc_should_delete};
use pipeline_manager::layout::{join, project_manifest, workspace_manifest, CompilerPaths};
use pipeline_manager::naming::{binary_name_to_parts, crate_name, versioned_binary_name};
use pipeline_manager::orchestrator::{
    check_guard, failure_status, native_error_output, wait_error_status, CompilationJob,
    ExitDecision, ExitOutcome, GuardError, Orchestrator, ProgramView, Stage,
};
use pipeline_manager::reconcile::{
    binaries_contain, collect_binaries, reconcile_action, reconcile_plan, ProgramRecord,
    ReconcileAction,
};
use pipeline_manager::{ProgramStatus, SqlCompilerMessage};

const P1: u128 = 0x550e8400_e29b_41d4_a716_446655440000;
const P2: u128 = 0x0189_3f2a_7c1d_7e11_b0aa_00000000beef;

fn record(pid: u128, version: i64, status: ProgramStatus) -> ProgramRecord {
    ProgramRecord { tenant_id: 7, program_id: pid, version, status }
}

fn diagnostic() -> SqlCompilerMessage {
    SqlCompilerMessage {
        start_line_number: 14,
        start_column: 13,
        end_line_number: 14,
        end_column: 13,
        warning: false,
        error_type: "Error parsing SQL".to_string(),
        message: "Encountered \"<EOF>\" at line 14, column 13.".to_string(),
    }
}

#[test]
fn status_predicates() {
    assert!(ProgramStatus::Idle.is_not_yet_compiled());
    assert!(ProgramStatus::Pending.is_not_yet_compiled());
    assert!(!ProgramStatus::CompilingSql.is_not_yet_compiled());
    assert!(ProgramStatus::CompilingSql.is_compiling());
    assert!(ProgramStatus::CompilingRust.is_compiling());
    assert!(!ProgramStatus::Success.is_compiling());
    assert!(ProgramStatus::SqlError(vec![]).has_failed_to_compile());
    assert!(ProgramStatus::RustError("x".to_string()).has_failed_to_compile());
    assert!(ProgramStatus::SystemError("x".to_string()).has_failed_to_compile());
    assert!(!ProgramStatus::Success.has_failed_to_compile());
    assert!(!ProgramStatus::Pending.has_failed_to_compile());
}

#[test]
fn binary_names_are_canonical() {
    assert_eq!(crate_name(P1), "project_550e8400-e29b-41d4-a716-446655440000");
    assert_eq!(
        versioned_binary_name(P1, 1),
        "project_550e8400-e29b-41d4-a716-446655440000_v1"
    );
    assert_eq!(
        versioned_binary_name(P2, 1234),
        "project_01893f2a-7c1d-7e11-b0aa-00000000beef_v1234"
    );
    assert_eq!(
        versioned_binary_name(0, -3),
        "project_00000000-0000-0000-0000-000000000000_v-3"
    );
}

#[test]
fn binary_name_round_trip() {
    for (pid, v) in [(P1, 1), (P2, 1234), (0, 0), (u128::MAX, i64::MAX), (P1, i64::MIN), (P2, -1)] {
        let name = versioned_binary_name(pid, v);
        assert_eq!(binary_name_to_parts(&name), Some((pid, v)));
    }
}

#[test]
fn binary_names_not_formatted_are_rejected() {
    for name in [
        "",
        "project",
        "foo",
        "project_550e8400-e29b-41d4-a716-446655440000",
        "project_550e8400-e29b-41d4-a716-446655440000_v",
        "project_550e8400-e29b-41d4-a716-446655440000_1",
        "project_550E8400-E29B-41D4-A716-446655440000_v1",
        "project_550e8400e29b41d4a716446655440000_v1",
        "project_550e8400-e29b-41d4-a716-446655440000_v01",
        "project_550e8400-e29b-41d4-a716-446655440000_v+1",
        "project_550e8400-e29b-41d4-a716-446655440000_vx",
        "project_550e8400-e29b-41d4-a716-446655440000_v1_extra",
        "other_550e8400-e29b-41d4-a716-446655440000_v1",
        "project_550e8400-e29b-41d4-a716-446655440000_v99999999999999999999",
    ] {
        assert_eq!(binary_name_to_parts(name), None, "{name}");
    }
}

#[test]
fn gc_deletes_only_unused_well_named_files() {
    let names = vec![
        versioned_binary_name(P1, 1),
        versioned_binary_name(P1, 2),
        "README".to_string(),
        versioned_binary_name(P2, 5),
        versioned_binary_name(P2, 6),
    ];
    let candidates = gc_candidates(&names);
    assert_eq!(
        candidates,
        vec![Some((P1, 1)), Some((P1, 2)), None, Some((P2, 5)), Some((P2, 6))]
    );
    let answers = vec![Some(false), Some(true), Some(false), None, Some(false)];
    assert_eq!(
        gc_deletions(&candidates, &answers),
        vec![true, false, false, false, true]
    );
    assert!(!gc_should_delete(None, Some(false)));
    assert!(!gc_should_delete(Some((P1, 1)), None));
    assert!(!gc_should_delete(Some((P1, 1)), Some(true)));
    assert!(gc_should_delete(Some((P1, 1)), Some(false)));
}

#[test]
fn reconcile_stale_compiling_rust() {
    let found = collect_binaries(&vec![versioned_binary_name(P1, 1)]);
    assert_eq!(found, vec![(P1, 1)]);
    let programs = vec![record(P1, 1, ProgramStatus::CompilingRust)];
    assert_eq!(
        reconcile_plan(&found, &programs),
        vec![ReconcileAction::RemoveBinaryAndRequeue]
    );
}

#[test]
fn reconcile_missing_artifact() {
    let found = collect_binaries(&vec![]);
    assert!(found.is_empty());
    let programs = vec![record(P1, 1, ProgramStatus::Success)];
    assert_eq!(reconcile_plan(&found, &programs), vec![ReconcileAction::Requeue]);
}

#[test]
fn test_compiler_reconcile_no_local_binary() {
    let found: Vec<(u128, i64)> = vec![];
    assert!(reconcile_plan(&found, &vec![]).is_empty());
    for s in [ProgramStatus::Idle, ProgramStatus::Pending] {
        assert_eq!(reconcile_action(&s, false), ReconcileAction::Keep);
    }
    for s in [
        ProgramStatus::CompilingSql,
        ProgramStatus::CompilingRust,
        ProgramStatus::Success,
    ] {
        let programs = vec![record(P1, 1, s)];
        assert_eq!(reconcile_plan(&found, &programs), vec![ReconcileAction::Requeue]);
    }
}

#[test]
fn test_compiler_with_local_binaries() {
    let none: Vec<(u128, i64)> = vec![];
    for (s, a) in [
        (ProgramStatus::Pending, ReconcileAction::Keep),
        (ProgramStatus::CompilingSql, ReconcileAction::Requeue),
    ] {
        let programs = vec![record(P1, 1, s.clone()), record(P2, 1, s)];
        assert_eq!(reconcile_plan(&none, &programs), vec![a, a]);
    }
    let names = vec![versioned_binary_name(P1, 1), versioned_binary_name(P2, 1)];
    let found = collect_binaries(&names);
    assert!(binaries_contain(&found, P1, 1));
    assert!(binaries_contain(&found, P2, 1));
    assert!(!binaries_contain(&found, P2, 2));
    let programs = vec![
        record(P1, 1, ProgramStatus::CompilingRust),
        record(P2, 1, ProgramStatus::CompilingRust),
    ];
    assert_eq!(
        reconcile_plan(&found, &programs),
        vec![ReconcileAction::RemoveBinaryAndRequeue, ReconcileAction::RemoveBinaryAndRequeue]
    );
}

#[test]
fn reconcile_twice_changes_nothing_more() {
    let names = vec![versioned_binary_name(P1, 1), versioned_binary_name(P2, 3)];
    let found = collect_binaries(&names);
    let programs = vec![
        record(P1, 1, ProgramStatus::CompilingRust),
        record(P2, 3, ProgramStatus::Success),
        record(7, 2, ProgramStatus::CompilingSql),
        record(8, 2, ProgramStatus::Idle),
    ];
    let plan = reconcile_plan(&found, &programs);
    assert_eq!(
        plan,
        vec![
            ReconcileAction::RemoveBinaryAndRequeue,
            ReconcileAction::Keep,
            ReconcileAction::Requeue,
            ReconcileAction::Keep,
        ]
    );
    let mut after = programs.clone();
    let mut left = found.clone();
    for (i, a) in plan.iter().enumerate() {
        if *a != ReconcileAction::Keep {
            after[i].status = ProgramStatus::Pending;
        }
        if *a == ReconcileAction::RemoveBinaryAndRequeue {
            left.retain(|k| *k != (after[i].program_id, after[i].version));
        }
    }
    let again = reconcile_plan(&left, &after);
    assert!(again.iter().all(|a| *a == ReconcileAction::Keep));
    assert_eq!(left, vec![(P2, 3)]);
}

#[test]
fn happy_path_two_programs() {
    let mut o = Orchestrator::new();
    for pid in [P1, P2] {
        assert_eq!(o.start_job(7, pid, 1), ProgramStatus::CompilingSql);
        assert!(!o.on_tick(&Some(ProgramView { version: 1, status: ProgramStatus::CompilingSql })));
        assert!(matches!(o.on_exit(&ExitOutcome::Succeeded), ExitDecision::StartNative));
        assert_eq!(
            o.job,
            Some(CompilationJob { stage: Stage::Rust, tenant_id: 7, program_id: pid, version: 1 })
        );
        assert!(matches!(o.on_exit(&ExitOutcome::Succeeded), ExitDecision::PromoteBinary));
        assert_eq!(o.job, None);
        let paths = CompilerPaths {
            workspace_dir: "/w".to_string(),
            binaries_dir: "/b".to_string(),
            debug: false,
        };
        assert_eq!(
            paths.versioned_executable(pid, 1),
            format!("/b/{}_v1", crate_name(pid))
        );
    }
}

#[test]
fn sql_failure_with_json_diagnostics() {
    let mut o = Orchestrator::new();
    o.start_job(7, P1, 1);
    let d = o.on_exit(&ExitOutcome::Failed { exit_code: 1 });
    assert!(matches!(d, ExitDecision::ReportFailure { stage: Stage::Sql, exit_code: 1 }));
    let out = "[{\"startLineNumber\":14,\"startColumn\":13,\"endLineNumber\":14,\"endColumn\":13,\"warning\":false,\"errorType\":\"Error parsing SQL\",\"message\":\"Encountered \\\"<EOF>\\\" at line 14, column 13.\"}]";
    assert_eq!(
        failure_status(Stage::Sql, out, 1, Some(vec![diagnostic()])),
        ProgramStatus::SqlError(vec![diagnostic()])
    );
    assert_eq!(o.job, None);
}

#[test]
fn sql_failure_with_non_json_stderr() {
    assert_eq!(
        failure_status(Stage::Sql, "Segmentation fault", 139, None),
        ProgramStatus::SystemError("Segmentation fault\nexit code: 139".to_string())
    );
}

#[test]
fn native_failure_is_rust_error() {
    let out = native_error_output("built", "boom");
    assert_eq!(out, "stdout:\nbuilt\nstderr:\nboom");
    assert_eq!(
        failure_status(Stage::Rust, &out, 101, None),
        ProgramStatus::RustError("stdout:\nbuilt\nstderr:\nboom\nexit code: 101".to_string())
    );
}

#[test]
fn wait_errors_name_the_compiler() {
    assert_eq!(
        wait_error_status(Stage::Sql, "gone"),
        ProgramStatus::SystemError("I/O error with sql-to-dbsp: gone".to_string())
    );
    assert_eq!(
        wait_error_status(Stage::Rust, "gone"),
        ProgramStatus::SystemError("I/O error with rustc: gone".to_string())
    );
    let mut o = Orchestrator::new();
    o.start_job(7, P1, 1);
    match o.on_exit(&ExitOutcome::WaitError("gone".to_string())) {
        ExitDecision::Report(s) => assert_eq!(
            s,
            ProgramStatus::SystemError("I/O error with sql-to-dbsp: gone".to_string())
        ),
        _ => panic!("expected a status to report"),
    }
    o.start_job(7, P1, 1);
    assert_eq!(
        o.on_start_failure("cannot spawn"),
        ProgramStatus::SystemError("cannot spawn".to_string())
    );
    assert_eq!(o.job, None);
}

#[test]
fn supersession_cancels_and_guard_rejects() {
    let mut o = Orchestrator::new();
    o.start_job(7, P1, 1);
    o.on_exit(&ExitOutcome::Succeeded);
    assert!(!o.on_tick(&Some(ProgramView { version: 1, status: ProgramStatus::CompilingRust })));
    let newer = Some(ProgramView { version: 2, status: ProgramStatus::Pending });
    assert!(o.on_tick(&newer));
    assert_eq!(o.job, None);
    assert_eq!(check_guard(&newer, 1), Err(GuardError::OutdatedVersion));
    assert_eq!(check_guard(&None, 1), Err(GuardError::UnknownProgram));
    assert_eq!(check_guard(&newer, 2), Ok(()));
    assert_eq!(o.start_job(7, P1, 2), ProgramStatus::CompilingSql);
    assert!(o.on_tick(&None));
    o.start_job(7, P1, 2);
    assert!(o.on_tick(&Some(ProgramView { version: 2, status: ProgramStatus::Idle })));
    assert!(!o.on_tick(&None));
}

#[test]
fn paths_and_manifests() {
    let paths = CompilerPaths {
        workspace_dir: "/w".to_string(),
        binaries_dir: "/b".to_string(),
        debug: true,
    };
    let c = "project_550e8400-e29b-41d4-a716-446655440000";
    assert_eq!(join("a", "b"), "a/b");
    assert_eq!(paths.workspace_manifest_path(), "/w/Cargo.toml");
    assert_eq!(paths.project_dir(P1), format!("/w/{c}"));
    assert_eq!(paths.project_manifest_path(P1), format!("/w/{c}/Cargo.toml"));
    assert_eq!(paths.sql_file_path(P1), format!("/w/{c}/project.sql"));
    assert_eq!(paths.generated_source_path(P1), format!("/w/{c}/src/main.rs"));
    assert_eq!(paths.schema_path(P1), format!("/w/{c}/schema.json"));
    assert_eq!(paths.compiler_stdout_path(P1), format!("/w/{c}/out.log"));
    assert_eq!(paths.compiler_stderr_path(P1), format!("/w/{c}/err.log"));
    assert_eq!(paths.target_executable(P1), format!("/w/target/debug/{c}"));
    assert_eq!(paths.versioned_executable(P1, 3), format!("/b/{c}_v3"));
    assert_eq!(
        workspace_manifest(P1),
        format!("[workspace]\nmembers = [ \"{c}\" ]\n")
    );
    let template = "[package]\nname = \"temp\"\n\n[dependencies]\ndbsp = { path = \"../../crates/dbsp\", default-features = false }\nsqllib = { path = \"../lib/sqllib\" }\n\n[lib]\npath = \"src/lib.rs\"\n";
    assert_eq!(
        project_manifest(template, P1, &None),
        format!("[package]\nname = \"{c}\"\n\n[dependencies]\ndbsp = {{ path = \"../../crates/dbsp\" }}\nsqllib = {{ path = \"../lib/sqllib\" }}\n\n\n\n[[bin]]\nname = \"{c}\"\npath = \"src/main.rs\"\n")
    );
    let over = Some(("/src/dbsp".to_string(), "/src/sql/lib".to_string()));
    assert_eq!(
        project_manifest(template, P1, &over),
        format!("[package]\nname = \"{c}\"\n\n[dependencies]\ndbsp = {{ path = \"/src/dbsp/crates/dbsp\" }}\nsqllib = {{ path = \"/src/sql/lib/sqllib\" }}\n\n\n\n[[bin]]\nname = \"{c}\"\npath = \"src/main.rs\"\n")
    );
}
