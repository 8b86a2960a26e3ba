use copilot_agent_util::buf::{breaking_args, build_args, format_args, generate_args, lint_args, push_args};

fn strings(items: &[&str]) -> Vec<String> {
    items.iter().map(|s| s.to_string()).collect()
}

fn some(s: &str) -> Option<String> {
    Some(s.to_string())
}

#[test]
fn generate_arguments() {
    assert_eq!(generate_args(&None, &None, &None), strings(&["buf", "generate"]));
    assert_eq!(
        generate_args(&some("auth"), &some("proto/x"), &some("gen")),
        strings(&["buf", "generate", "--path", "pkg/auth/proto", "--path", "proto/x", "--output", "gen"])
    );
    assert_eq!(generate_args(&None, &None, &some("out")), strings(&["buf", "generate", "--output", "out"]));
}

#[test]
fn lint_arguments() {
    assert_eq!(lint_args(".", &None), strings(&["buf", "lint", "."]));
    assert_eq!(lint_args("api", &some("buf.yaml")), strings(&["buf", "lint", "api", "--config", "buf.yaml"]));
}

#[test]
fn format_arguments() {
    assert_eq!(format_args(".", false), strings(&["buf", "format", "."]));
    assert_eq!(format_args("api", true), strings(&["buf", "format", "--write", "api"]));
}

#[test]
fn breaking_build_push_arguments() {
    assert_eq!(breaking_args("main"), strings(&["buf", "breaking", "--against", "main"]));
    assert_eq!(build_args("."), strings(&["buf", "build", "."]));
    assert_eq!(push_args(&None), strings(&["buf", "push"]));
    assert_eq!(push_args(&some("v1.2")), strings(&["buf", "push", "--tag", "v1.2"]));
}
