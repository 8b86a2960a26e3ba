use copilot_agent_util::error::AgentError;
use copilot_agent_util::executor::{Config, Executor, Invocation};
use copilot_agent_util::paths::Platform;
use copilot_agent_util::venv::{
    choose_venv_python, decide_removal, default_python, ensure_venv, guard_remove_venv,
    is_standard_venv_dir, pick_default_python, pip_install, pip_install_plan, plan_ensure,
    pytest_plan, resolve_venv_python, run_pytest, venv_bin_dir, EnsurePlan, Removal,
};

fn strings(items: &[&str]) -> Vec<String> {
    items.iter().map(|s| s.to_string()).collect()
}

fn executor(dry_run: bool) -> Executor {
    Executor::new(Config { dry_run, working_directory: None }, Platform::Unix)
}

fn call(program: &str, args: &[&str]) -> (String, Vec<String>) {
    (program.to_string(), strings(args))
}

fn flat(plan: &[Invocation]) -> Vec<(String, Vec<String>)> {
    plan.iter().map(|i| (i.program.clone(), i.args.clone())).collect()
}

const NOWHERE: &str = "/nonexistent-venv-root-5d1e/.venv";

#[test]
fn bin_dir_by_platform() {
    assert_eq!(venv_bin_dir(".venv", Platform::Unix), ".venv/bin");
    assert_eq!(venv_bin_dir(".venv", Platform::Windows), ".venv\\Scripts");
    assert_eq!(venv_bin_dir("env/", Platform::Unix), "env/bin");
}

#[test]
fn interpreter_prefers_unversioned_name() {
    assert_eq!(choose_venv_python(".venv", Platform::Unix, true), ".venv/bin/python");
    assert_eq!(choose_venv_python(".venv", Platform::Unix, false), ".venv/bin/python3");
    assert_eq!(choose_venv_python(".venv", Platform::Windows, false), ".venv\\Scripts\\python3.exe");
    assert_eq!(choose_venv_python(".venv", Platform::Windows, true), ".venv\\Scripts\\python.exe");
}

#[test]
fn interpreter_falls_back_when_nothing_is_on_disk() {
    assert_eq!(resolve_venv_python(NOWHERE, Platform::Unix), format!("{}/bin/python3", NOWHERE));
    assert_eq!(resolve_venv_python("w", Platform::Windows), "w\\Scripts\\python3.exe");
}

#[test]
fn standard_venv_names() {
    assert!(is_standard_venv_dir(".venv", Platform::Unix));
    assert!(is_standard_venv_dir("proj/.venv/", Platform::Unix));
    assert!(!is_standard_venv_dir("build_cache", Platform::Unix));
    assert!(!is_standard_venv_dir("venv", Platform::Unix));
    assert!(!is_standard_venv_dir(".venv2", Platform::Unix));
    assert!(is_standard_venv_dir(".venv/.", Platform::Unix));
    assert!(is_standard_venv_dir("x/.venv/./", Platform::Unix));
    assert!(is_standard_venv_dir("C:.venv", Platform::Windows));
    assert!(!is_standard_venv_dir(".", Platform::Unix));
    assert!(!is_standard_venv_dir(".venv/..", Platform::Unix));
    assert!(!is_standard_venv_dir("/", Platform::Unix));
}

#[test]
fn removal_reads_name_through_trailing_dot_segments() {
    assert_eq!(decide_removal(&executor(false), ".venv/.", false, true).unwrap(), Removal::Delete);
    for path in ["/", ".", "a/.venv/..", "/."] {
        match decide_removal(&executor(false), path, false, true) {
            Err(AgentError::RemovalRefused(p)) => assert_eq!(p, path),
            other => panic!("expected a refusal for {}, got {:?}", path, other),
        }
    }
}

#[test]
fn removal_of_non_standard_directory_is_refused() {
    for dry in [false, true] {
        match decide_removal(&executor(dry), "build_cache", false, true) {
            Err(AgentError::RemovalRefused(p)) => assert_eq!(p, "build_cache"),
            other => panic!("expected a refusal, got {:?}", other),
        }
    }
    assert_eq!(decide_removal(&executor(false), "build_cache", true, true).unwrap(), Removal::Delete);
    assert_eq!(decide_removal(&executor(true), "build_cache", true, true).unwrap(), Removal::Preview);
}

#[test]
fn removal_of_absent_directory_is_a_no_op() {
    assert_eq!(
        decide_removal(&executor(false), "build_cache", false, false).unwrap(),
        Removal::NothingToRemove
    );
    assert_eq!(guard_remove_venv(&executor(false), NOWHERE, false).unwrap(), Removal::NothingToRemove);
    assert_eq!(
        guard_remove_venv(&executor(false), "/nonexistent-5d1e/build_cache", false).unwrap(),
        Removal::NothingToRemove
    );
}

#[test]
fn ensure_then_remove_standard_venv() {
    let ex = executor(false);
    match plan_ensure(&ex, ".venv", "python3", false, &None, false) {
        EnsurePlan::Create { removal, invocation } => {
            assert_eq!(removal, Removal::NothingToRemove);
            assert_eq!(invocation.program, "python3");
            assert_eq!(invocation.args, strings(&["-m", "venv", ".venv"]));
        }
        other => panic!("expected a creation, got {:?}", other),
    }
    assert_eq!(decide_removal(&ex, ".venv", false, true).unwrap(), Removal::Delete);
}

#[test]
fn ensure_keeps_present_venv() {
    for dry in [false, true] {
        let ex = executor(dry);
        for _ in 0..2 {
            assert!(matches!(
                plan_ensure(&ex, "build_cache", "python3", false, &Some("p".to_string()), true),
                EnsurePlan::AlreadyPresent
            ));
        }
    }
}

#[test]
fn ensure_recreate_bypasses_name_guard() {
    match plan_ensure(&executor(false), "build_cache", "python3.12", true, &Some("proj".to_string()), true) {
        EnsurePlan::Create { removal, invocation } => {
            assert_eq!(removal, Removal::Delete);
            assert_eq!(invocation.program, "python3.12");
            assert_eq!(invocation.args, strings(&["-m", "venv", "--prompt=proj", "build_cache"]));
        }
        other => panic!("expected a creation, got {:?}", other),
    }
    match plan_ensure(&executor(true), "build_cache", "python3", true, &None, true) {
        EnsurePlan::Create { removal, .. } => assert_eq!(removal, Removal::Preview),
        other => panic!("expected a creation, got {:?}", other),
    }
}

#[test]
fn ensure_on_disk_creates_missing_venv() {
    match ensure_venv(&executor(false), NOWHERE, "python3", false, &None) {
        EnsurePlan::Create { removal, invocation } => {
            assert_eq!(removal, Removal::NothingToRemove);
            assert_eq!(invocation.args, strings(&["-m", "venv", NOWHERE]));
        }
        other => panic!("expected a creation, got {:?}", other),
    }
}

#[test]
fn default_interpreter_names() {
    assert_eq!(pick_default_python(true), "python3");
    assert_eq!(pick_default_python(false), "python");
    let d = default_python();
    assert!(d == "python3" || d == "python");
}

#[test]
fn pip_without_venv_is_refused() {
    let r = pip_install_plan(".venv", false, true, &None, &strings(&["pytest"]), ".venv/bin/python3", false, "python3", true);
    match r {
        Err(AgentError::NoVenv(p)) => assert_eq!(p, ".venv"),
        other => panic!("expected no-venv, got {:?}", other),
    }
    match pip_install(Platform::Unix, NOWHERE, false, false, &None, &strings(&["pytest"])) {
        Err(AgentError::NoVenv(p)) => assert_eq!(p, NOWHERE),
        other => panic!("expected no-venv, got {:?}", other),
    }
}

#[test]
fn pip_requirements_file_must_exist() {
    let req = Some("requirements.txt".to_string());
    match pip_install_plan(".venv", false, true, &req, &Vec::new(), ".venv/bin/python", true, "python3", false) {
        Err(AgentError::RequirementsMissing(p)) => assert_eq!(p, "requirements.txt"),
        other => panic!("expected a missing file, got {:?}", other),
    }
}

#[test]
fn pip_runs_in_order_with_venv_interpreter() {
    let req = Some("requirements.txt".to_string());
    let py = ".venv/bin/python";
    let plan = pip_install_plan(".venv", false, true, &req, &strings(&["pytest", "black"]), py, true, "python3", true)
        .unwrap();
    assert_eq!(
        flat(&plan),
        vec![
            call(py, &["-m", "pip", "install", "--upgrade", "pip"]),
            call(py, &["-m", "pip", "install", "-r", "requirements.txt"]),
            call(py, &["-m", "pip", "install", "pytest", "black"]),
        ]
    );
    let none = pip_install_plan(".venv", false, false, &None, &Vec::new(), py, true, "python3", true).unwrap();
    assert!(none.is_empty());
}

#[test]
fn pip_global_override_uses_system_interpreter() {
    let plan = pip_install_plan(".venv", true, false, &None, &strings(&["requests"]), ".venv/bin/python3", false, "python", true)
        .unwrap();
    assert_eq!(flat(&plan), vec![call("python", &["-m", "pip", "install", "requests"])]);
    let on_disk = pip_install(Platform::Unix, NOWHERE, true, false, &None, &strings(&["requests"])).unwrap();
    assert_eq!(on_disk.len(), 1);
    assert!(on_disk[0].program == "python3" || on_disk[0].program == "python");
    assert_eq!(on_disk[0].args, strings(&["-m", "pip", "install", "requests"]));
}

#[test]
fn pytest_needs_venv_interpreter() {
    let py = "/nonexistent/venv/bin/python";
    match pytest_plan("/nonexistent/venv", py, false, &Vec::new(), &Vec::new()) {
        Err(AgentError::VenvPythonMissing { python, venv }) => {
            assert_eq!(python, py);
            assert_eq!(venv, "/nonexistent/venv");
        }
        other => panic!("expected a missing interpreter, got {:?}", other),
    }
    match run_pytest(Platform::Unix, NOWHERE, &Vec::new(), &Vec::new()) {
        Err(AgentError::VenvPythonMissing { python, venv }) => {
            assert_eq!(python, format!("{}/bin/python3", NOWHERE));
            assert_eq!(venv, NOWHERE);
        }
        other => panic!("expected a missing interpreter, got {:?}", other),
    }
}

#[test]
fn pytest_arguments() {
    let py = ".venv/bin/python";
    let default = pytest_plan(".venv", py, true, &Vec::new(), &Vec::new()).unwrap();
    assert_eq!(default.program, py);
    assert_eq!(default.args, strings(&["-m", "pytest", "tests/"]));
    let given = pytest_plan(".venv", py, true, &strings(&["-x", "-q"]), &strings(&["t/a.py", "t/b.py"])).unwrap();
    assert_eq!(given.args, strings(&["-m", "pytest", "-x", "-q", "t/a.py", "t/b.py"]));
}
