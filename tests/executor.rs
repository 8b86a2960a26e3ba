use copilot_agent_util::error::AgentError;
use copilot_agent_util::executor::{exit_outcome, is_absolute_path, Action, Config, Executor, ExitReport};
use copilot_agent_util::paths::Platform;

fn strings(items: &[&str]) -> Vec<String> {
    items.iter().map(|s| s.to_string()).collect()
}

fn executor(dry_run: bool, working_directory: Option<&str>) -> Executor {
    Executor::new(
        Config { dry_run, working_directory: working_directory.map(|s| s.to_string()) },
        Platform::Unix,
    )
}

const MISSING: &str = "no-such-program-on-this-path-7f3a9c";

#[test]
fn empty_invocation_is_a_caller_error() {
    let ex = executor(false, None);
    assert!(matches!(ex.plan_raw(&Vec::new()), Err(AgentError::NoCommand)));
    assert!(matches!(ex.decide_raw(&Vec::new(), true), Err(AgentError::NoCommand)));
    assert!(matches!(ex.plan_secure("", &Vec::new()), Err(AgentError::NoCommand)));
}

#[test]
fn dry_run_previews_missing_program() {
    let ex = executor(true, Some("/tmp"));
    match ex.plan_raw(&strings(&[MISSING, "--flag", "value"])) {
        Ok(Action::Preview(inv)) => {
            assert_eq!(inv.program, MISSING);
            assert_eq!(inv.args, strings(&["--flag", "value"]));
        }
        other => panic!("expected a preview, got {:?}", other),
    }
}

#[test]
fn dry_run_previews_interpreter() {
    let ex = executor(true, None);
    match ex.plan_secure(MISSING, &strings(&["-m", "pip"])) {
        Ok(Action::Preview(inv)) => {
            assert_eq!(inv.program, MISSING);
            assert_eq!(inv.args, strings(&["-m", "pip"]));
        }
        other => panic!("expected a preview, got {:?}", other),
    }
}

#[test]
fn missing_program_is_not_found_before_spawn() {
    let ex = executor(false, None);
    match ex.plan_raw(&strings(&[MISSING, "x"])) {
        Err(AgentError::CommandNotFound(p)) => assert_eq!(p, MISSING),
        other => panic!("expected not-found, got {:?}", other),
    }
    match ex.plan_secure(MISSING, &strings(&["x"])) {
        Err(AgentError::CommandNotFound(p)) => assert_eq!(p, MISSING),
        other => panic!("expected not-found, got {:?}", other),
    }
}

#[test]
fn found_program_spawns_in_working_directory() {
    let ex = executor(false, Some("/work"));
    match ex.decide_raw(&strings(&["git", "status"]), true) {
        Ok(Action::Spawn { invocation, working_directory }) => {
            assert_eq!(invocation.program, "git");
            assert_eq!(invocation.args, strings(&["status"]));
            assert_eq!(working_directory, Some("/work".to_string()));
        }
        other => panic!("expected a spawn, got {:?}", other),
    }
    let inherit = executor(false, None);
    match inherit.decide_raw(&strings(&["ls"]), true) {
        Ok(Action::Spawn { invocation, working_directory }) => {
            assert_eq!(invocation.program, "ls");
            assert!(invocation.args.is_empty());
            assert_eq!(working_directory, None);
        }
        other => panic!("expected a spawn, got {:?}", other),
    }
}

#[test]
fn decide_raw_reports_lookup_failure() {
    let ex = executor(false, None);
    match ex.decide_raw(&strings(&["buf", "lint"]), false) {
        Err(AgentError::CommandNotFound(p)) => assert_eq!(p, "buf"),
        other => panic!("expected not-found, got {:?}", other),
    }
}

#[test]
fn absolute_interpreter_skips_lookup() {
    let ex = executor(false, None);
    let py = "/nonexistent/venv/bin/python";
    match ex.decide_secure(py, &strings(&["-m", "pytest"]), false) {
        Ok(Action::Spawn { invocation, .. }) => {
            assert_eq!(invocation.program, py);
            assert_eq!(invocation.args, strings(&["-m", "pytest"]));
        }
        other => panic!("expected a spawn, got {:?}", other),
    }
    match ex.plan_secure(py, &Vec::new()) {
        Ok(Action::Spawn { invocation, .. }) => assert_eq!(invocation.program, py),
        other => panic!("expected a spawn, got {:?}", other),
    }
    match ex.decide_secure("venv/bin/python", &Vec::new(), false) {
        Err(AgentError::CommandNotFound(p)) => assert_eq!(p, "venv/bin/python"),
        other => panic!("expected not-found, got {:?}", other),
    }
}

#[test]
fn absolute_paths_by_platform() {
    assert!(is_absolute_path("/usr/bin/python3", Platform::Unix));
    assert!(!is_absolute_path("bin/python3", Platform::Unix));
    assert!(!is_absolute_path("C:\\venv", Platform::Unix));
    assert!(!is_absolute_path("", Platform::Unix));
    assert!(is_absolute_path("C:\\venv\\Scripts\\python.exe", Platform::Windows));
    assert!(is_absolute_path("d:/venv", Platform::Windows));
    assert!(is_absolute_path("\\\\server\\share", Platform::Windows));
    assert!(!is_absolute_path("\\venv", Platform::Windows));
    assert!(!is_absolute_path("C:venv", Platform::Windows));
}

#[test]
fn exit_statuses_are_classified() {
    assert!(exit_outcome(ExitReport::Exited(0)).is_ok());
    assert!(matches!(exit_outcome(ExitReport::Exited(2)), Err(AgentError::CommandFailed(Some(2)))));
    assert!(matches!(exit_outcome(ExitReport::Exited(-1)), Err(AgentError::CommandFailed(Some(-1)))));
    assert!(matches!(exit_outcome(ExitReport::Terminated), Err(AgentError::CommandFailed(None))));
    match exit_outcome(ExitReport::NotStarted("permission denied".to_string())) {
        Err(AgentError::SpawnFailed(e)) => assert_eq!(e, "permission denied"),
        other => panic!("expected a spawn error, got {:?}", other),
    }
}
