use rust_learning::pipeline::{
    accepts_event, begin, step, Action, CompileResult, Event, ExecutionResult, ExecutionStatus, PipelineError,
    PipelineState, COMPILE_BUDGET_SECS, NO_EXIT_CODE, RUN_BUDGET_SECS,
};
use rust_learning::safety::is_safe_code;
use rust_learning::workspace::RustCodeExecutor;
use std::time::Duration;

fn executor() -> RustCodeExecutor {
    RustCodeExecutor::new("/tmp/rust-learning".to_string())
}

fn hello_source() -> &'static str {
    "\nfn main() {\n    println!(\"Hello, World!\");\n}\n"
}

#[test]
fn test_safety_check() {
    let safe_code = "fn main() { println!(\"Hello\"); }";
    let unsafe_code = "fn main() { std::process::Command::new(\"rm\"); }";

    assert!(is_safe_code(safe_code));
    assert!(!is_safe_code(unsafe_code));
}

#[test]
fn denylist_rejects_each_denied_substring() {
    for p in [
        "std::process",
        "std::fs",
        "std::net",
        "unsafe",
        "include!",
        "include_str!",
        "include_bytes!",
        "std::thread::spawn",
        "std::env",
        "libc::",
    ] {
        let code = format!("fn main() {{ let _ = {}; }}", p);
        assert!(!is_safe_code(&code), "{}", p);
    }
}

#[test]
fn denylist_accepts_plain_arithmetic() {
    assert!(is_safe_code("fn main() { let x = 2 + 3; println!(\"{}\", x * 7); }"));
    assert!(is_safe_code(""));
}

#[test]
fn denylist_false_positive_in_comment_and_string() {
    // A denied substring inside a comment or a string literal is still refused.
    assert!(!is_safe_code("fn main() { // no std::fs here\n}"));
    assert!(!is_safe_code("fn main() { println!(\"unsafe\"); }"));
}

#[test]
fn denylist_false_negative_for_disguised_paths() {
    // Lexically disguised access passes the denylist: it is a screen, not a sandbox.
    assert!(is_safe_code("use std::{process::Command}; fn main() { Command::new(\"ls\"); }"));
    assert!(is_safe_code("fn main() { std :: fs :: remove_file(\"x\").ok(); }"));
}

#[test]
fn entry_paths_follow_the_id() {
    let ex = executor();
    let e = ex.entry_for("abc");
    assert_eq!(e.id, "abc");
    assert_eq!(e.source_path, "/tmp/rust-learning/temp_abc.rs");
    assert_eq!(e.artifact_path, "/tmp/rust-learning/temp_abc");
    assert_eq!(ex.validation_path_for("abc"), "/tmp/rust-learning/validate_abc.rs");
    assert_eq!(ex.temp_dir(), "/tmp/rust-learning");
}

#[test]
fn allocated_entries_are_distinct() {
    let ex = executor();
    let mut seen: Vec<String> = Vec::new();
    for n in 0..32u8 {
        let mut random = [7u8; 16];
        random[0] = n;
        let e = ex.allocate(random);
        assert!(e.id.chars().all(|c| c.is_ascii_hexdigit() || c == '-'));
        assert_eq!(e.id, e.id.to_lowercase());
        assert_eq!(e.id.len(), 36);
        assert!(e.source_path.ends_with(".rs"));
        assert_eq!(format!("{}.rs", e.artifact_path), e.source_path);
        assert!(!seen.contains(&e.source_path));
        assert!(!seen.contains(&e.artifact_path));
        seen.push(e.source_path.clone());
        seen.push(e.artifact_path.clone());
    }
    let v = ex.allocate_validation_path([1u8; 16]);
    assert!(v.starts_with("/tmp/rust-learning/validate_"));
    assert_eq!(v.len(), "/tmp/rust-learning/validate_".len() + 36 + 3);
}

fn started(code: &str, id: &str) -> (PipelineState, Action) {
    let ex = executor();
    begin(code, ex.entry_for(id))
}

fn finish(state: PipelineState, action: Action, src: &str, art: &str) -> Action {
    match action {
        Action::Cleanup { source, artifact } => {
            assert_eq!(source, src);
            assert_eq!(artifact, art);
        }
        _ => panic!("expected a cleanup"),
    }
    assert!(accepts_event(&state, &Event::CleanedUp));
    let (state, action) = step(state, Event::CleanedUp);
    assert!(matches!(state, PipelineState::Finished));
    action
}

fn run_to_execution(id: &str, code: &str) -> PipelineState {
    let (state, action) = started(code, id);
    match action {
        Action::WriteSource { path, text } => {
            assert_eq!(path, format!("/tmp/rust-learning/temp_{}.rs", id));
            assert_eq!(text, code);
        }
        _ => panic!("expected a write"),
    }
    let (state, action) = step(state, Event::SourceWritten);
    match action {
        Action::Compile { source, artifact, budget_secs } => {
            assert_eq!(source, format!("/tmp/rust-learning/temp_{}.rs", id));
            assert_eq!(artifact, format!("/tmp/rust-learning/temp_{}", id));
            assert_eq!(budget_secs, COMPILE_BUDGET_SECS);
        }
        _ => panic!("expected a compile"),
    }
    let ok = CompileResult { success: true, stdout: String::new(), stderr: String::new(), exit_code: 0 };
    let (state, action) = step(state, Event::Compiled { outcome: ok, elapsed: Duration::from_millis(5) });
    match action {
        Action::Run { artifact, budget_secs } => {
            assert_eq!(artifact, format!("/tmp/rust-learning/temp_{}", id));
            assert_eq!(budget_secs, RUN_BUDGET_SECS);
        }
        _ => panic!("expected a run"),
    }
    state
}

#[test]
fn hello_world_passes_output_through() {
    let state = run_to_execution("h1", hello_source());
    let out = ExecutionResult { stdout: "Hello, World!\n".to_string(), stderr: String::new(), exit_code: 0, signaled: false };
    let (state, action) = step(state, Event::Ran { outcome: out, elapsed: Duration::from_millis(40) });
    match finish(state, action, "/tmp/rust-learning/temp_h1.rs", "/tmp/rust-learning/temp_h1") {
        Action::Finish { outcome: Ok(r) } => {
            assert_eq!(r.exit_code, 0);
            assert_eq!(r.stdout.trim(), "Hello, World!");
            assert_eq!(r.execution_time, Duration::from_millis(40));
            assert_eq!(r.status, ExecutionStatus::Completed);
        }
        _ => panic!("expected a result"),
    }
}

#[test]
fn nonzero_exit_is_not_a_failure() {
    let state = run_to_execution("x2", "fn main() { std_exit(3) }");
    let out = ExecutionResult { stdout: String::new(), stderr: "boom".to_string(), exit_code: 3, signaled: false };
    let (state, action) = step(state, Event::Ran { outcome: out, elapsed: Duration::from_millis(1) });
    match finish(state, action, "/tmp/rust-learning/temp_x2.rs", "/tmp/rust-learning/temp_x2") {
        Action::Finish { outcome: Ok(r) } => {
            assert_eq!(r.exit_code, 3);
            assert_eq!(r.stderr, "boom");
            assert_eq!(r.status, ExecutionStatus::Completed);
        }
        _ => panic!("expected a result"),
    }
}

#[test]
fn compile_failure_skips_execution() {
    let (state, _) = started("fn main( {", "bad");
    let (state, _) = step(state, Event::SourceWritten);
    let failed = CompileResult {
        success: false,
        stdout: String::new(),
        stderr: "error: expected one of".to_string(),
        exit_code: 1,
    };
    let (state, action) = step(state, Event::Compiled { outcome: failed, elapsed: Duration::from_millis(9) });
    assert!(!matches!(action, Action::Run { .. }));
    match finish(state, action, "/tmp/rust-learning/temp_bad.rs", "/tmp/rust-learning/temp_bad") {
        Action::Finish { outcome: Ok(r) } => {
            assert_ne!(r.exit_code, 0);
            assert!(!r.stderr.is_empty());
            assert!(r.stdout.is_empty());
            assert_eq!(r.status, ExecutionStatus::CompileFailed);
            assert_eq!(r.execution_time, Duration::from_millis(9));
        }
        _ => panic!("expected a result"),
    }
}

#[test]
fn run_timeout_is_a_result_and_cleans_up() {
    let state = run_to_execution("loop", "fn main() { loop {} }");
    let (state, action) = step(state, Event::RunTimedOut { elapsed: Duration::from_secs(10) });
    match finish(state, action, "/tmp/rust-learning/temp_loop.rs", "/tmp/rust-learning/temp_loop") {
        Action::Finish { outcome: Ok(r) } => {
            assert_eq!(r.status, ExecutionStatus::ExecuteTimedOut);
            assert_eq!(r.exit_code, NO_EXIT_CODE);
            assert_eq!(r.stderr, "execution timed out");
            assert!(r.stdout.is_empty());
        }
        _ => panic!("expected a result"),
    }
}

#[test]
fn compile_timeout_is_a_result_and_cleans_up() {
    let (state, _) = started("fn main() {}", "slow");
    let (state, _) = step(state, Event::SourceWritten);
    let (state, action) = step(state, Event::CompileTimedOut { elapsed: Duration::from_secs(30) });
    match finish(state, action, "/tmp/rust-learning/temp_slow.rs", "/tmp/rust-learning/temp_slow") {
        Action::Finish { outcome: Ok(r) } => {
            assert_eq!(r.status, ExecutionStatus::CompileTimedOut);
            assert_eq!(r.exit_code, -1);
            assert_eq!(r.stderr, "compilation timed out");
        }
        _ => panic!("expected a result"),
    }
}

#[test]
fn write_failure_is_fatal_and_cleans_up() {
    let (state, _) = started("fn main() {}", "w");
    assert!(!accepts_event(&state, &Event::CleanedUp));
    let (state, action) = step(state, Event::WriteFailed);
    match finish(state, action, "/tmp/rust-learning/temp_w.rs", "/tmp/rust-learning/temp_w") {
        Action::Finish { outcome: Err(e) } => assert_eq!(e, PipelineError::WorkspaceIo),
        _ => panic!("expected an error"),
    }
}

#[test]
fn spawn_failures_are_fatal_and_clean_up() {
    let (state, _) = started("fn main() {}", "s1");
    let (state, _) = step(state, Event::SourceWritten);
    let (state, action) = step(state, Event::CompileSpawnFailed);
    match finish(state, action, "/tmp/rust-learning/temp_s1.rs", "/tmp/rust-learning/temp_s1") {
        Action::Finish { outcome: Err(e) } => assert_eq!(e, PipelineError::SpawnFailure),
        _ => panic!("expected an error"),
    }
    let state = run_to_execution("s2", "fn main() {}");
    let (state, action) = step(state, Event::RunSpawnFailed);
    match finish(state, action, "/tmp/rust-learning/temp_s2.rs", "/tmp/rust-learning/temp_s2") {
        Action::Finish { outcome: Err(e) } => assert_eq!(e, PipelineError::SpawnFailure),
        _ => panic!("expected an error"),
    }
}

#[test]
fn rejected_source_never_compiles() {
    let (state, action) = started("fn main() { std::process::exit(0); }", "r");
    assert!(matches!(state, PipelineState::Finished));
    match action {
        Action::Finish { outcome: Err(e) } => assert_eq!(e, PipelineError::RejectedBySafetyGate),
        _ => panic!("expected a rejection"),
    }
    let (state, action) = executor().start("use std::env;", [0u8; 16]);
    assert!(matches!(state, PipelineState::Finished));
    assert!(matches!(action, Action::Finish { outcome: Err(PipelineError::RejectedBySafetyGate) }));
}

#[test]
fn concurrent_requests_do_not_mix() {
    let ex = executor();
    let mut states = Vec::new();
    let mut paths = Vec::new();
    for k in 0..4 {
        let code = format!("fn main() {{ println!(\"{}\"); }}", k);
        let (state, action) = ex.start(&code, [k as u8; 16]);
        match action {
            Action::WriteSource { path, text } => {
                assert_eq!(text, code);
                assert!(!paths.contains(&path));
                paths.push(path);
            }
            _ => panic!("expected a write"),
        }
        states.push(step(state, Event::SourceWritten).0);
    }
    let mut k = 0;
    for state in states {
        let ok = CompileResult { success: true, stdout: String::new(), stderr: String::new(), exit_code: 0 };
        let (state, _) = step(state, Event::Compiled { outcome: ok, elapsed: Duration::from_millis(1) });
        let out = ExecutionResult { stdout: format!("{}\n", k), stderr: String::new(), exit_code: 0, signaled: false };
        let (state, _) = step(state, Event::Ran { outcome: out, elapsed: Duration::from_millis(2) });
        let (_, action) = step(state, Event::CleanedUp);
        match action {
            Action::Finish { outcome: Ok(r) } => assert_eq!(r.stdout.trim(), format!("{}", k)),
            _ => panic!("expected a result"),
        }
        k += 1;
    }
}

#[test]
fn allocated_id_is_the_uuid_of_the_bytes() {
    let e = executor().allocate([0u8; 16]);
    assert_eq!(e.id, "00000000-0000-4000-8000-000000000000");
    assert_eq!(e.source_path, "/tmp/rust-learning/temp_00000000-0000-4000-8000-000000000000.rs");
}

#[test]
fn run_ended_by_signal_is_a_crash() {
    let state = run_to_execution("sig", "fn main() { panic!() }");
    let out = ExecutionResult { stdout: "partial".to_string(), stderr: String::new(), exit_code: NO_EXIT_CODE, signaled: true };
    let (state, action) = step(state, Event::Ran { outcome: out, elapsed: Duration::from_millis(3) });
    match finish(state, action, "/tmp/rust-learning/temp_sig.rs", "/tmp/rust-learning/temp_sig") {
        Action::Finish { outcome: Ok(r) } => {
            assert_eq!(r.status, ExecutionStatus::ExecuteCrashed);
            assert_eq!(r.exit_code, -1);
            assert_eq!(r.stdout, "partial");
        }
        _ => panic!("expected a result"),
    }
}
