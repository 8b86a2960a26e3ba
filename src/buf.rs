//! Argument vectors for the protocol-buffer tool `buf`, one per subcommand. Each is a
//! raw invocation: the program name comes first.
use vstd::prelude::*;

use vstd::string::StringExecFns;

verus! {

/// `v` with `s` appended.
fn push_text(v: &mut Vec<String>, s: &str)
    ensures
        final(v).deep_view() == old(v).deep_view().push(s@),
{
    v.push(String::from_str(s));
    proof {
        assert(v.deep_view() =~= old(v).deep_view().push(s@));
    }
}

/// `v` with the pair `flag value` appended.
fn push_option(v: &mut Vec<String>, flag: &str, value: &str)
    ensures
        final(v).deep_view() == old(v).deep_view().push(flag@).push(value@),
{
    push_text(v, flag);
    push_text(v, value);
}

/// `flag value` when the value is given, nothing otherwise.
pub open spec fn option_args(flag: Seq<char>, value: Option<Seq<char>>) -> Seq<Seq<char>> {
    match value {
        Some(v) => seq![flag, v],
        None => Seq::empty(),
    }
}

/// The proto directory of a module: `pkg/<module>/proto`.
pub open spec fn module_proto_path(module: Seq<char>) -> Seq<char> {
    "pkg/"@ + module + "/proto"@
}

pub open spec fn generate_spec(
    module: Option<Seq<char>>,
    path: Option<Seq<char>>,
    output: Option<Seq<char>>,
) -> Seq<Seq<char>> {
    seq!["buf"@, "generate"@] + option_args(
        "--path"@,
        match module {
            Some(m) => Some(module_proto_path(m)),
            None => None,
        },
    ) + option_args("--path"@, path) + option_args("--output"@, output)
}

/// `buf generate`, limited to a module's proto directory and to a path when given,
/// writing to `output` when given.
pub fn generate_args(module: &Option<String>, path: &Option<String>, output: &Option<String>) -> (r:
    Vec<String>)
    ensures
        r.deep_view() == generate_spec(module.deep_view(), path.deep_view(), output.deep_view()),
{
    proof {
        reveal_strlit("buf");
        reveal_strlit("generate");
        reveal_strlit("--path");
        reveal_strlit("--output");
        reveal_strlit("pkg/");
        reveal_strlit("/proto");
    }
    let mut r: Vec<String> = Vec::new();
    push_text(&mut r, "buf");
    push_text(&mut r, "generate");
    let ghost base = r.deep_view();
    match module {
        Some(m) => {
            let p = String::from_str("pkg/").concat(m.as_str()).concat("/proto");
            push_option(&mut r, "--path", p.as_str());
        },
        None => {},
    }
    proof {
        let mv = match module.deep_view() {
            Some(m) => Some(module_proto_path(m)),
            None => None,
        };
        assert(r.deep_view() =~= base + option_args("--path"@, mv));
    }
    let ghost with_module = r.deep_view();
    match path {
        Some(p) => push_option(&mut r, "--path", p.as_str()),
        None => {},
    }
    proof {
        assert(r.deep_view() =~= with_module + option_args("--path"@, path.deep_view()));
    }
    let ghost with_path = r.deep_view();
    match output {
        Some(o) => push_option(&mut r, "--output", o.as_str()),
        None => {},
    }
    proof {
        assert(r.deep_view() =~= with_path + option_args("--output"@, output.deep_view()));
        assert(base =~= seq!["buf"@, "generate"@]);
        assert(r.deep_view() =~= generate_spec(
            module.deep_view(),
            path.deep_view(),
            output.deep_view(),
        ));
    }
    r
}

pub open spec fn lint_spec(path: Seq<char>, config: Option<Seq<char>>) -> Seq<Seq<char>> {
    seq!["buf"@, "lint"@, path] + option_args("--config"@, config)
}

/// `buf lint <path>`, with a configuration file when given.
pub fn lint_args(path: &str, config: &Option<String>) -> (r: Vec<String>)
    ensures
        r.deep_view() == lint_spec(path@, config.deep_view()),
{
    proof {
        reveal_strlit("buf");
        reveal_strlit("lint");
        reveal_strlit("--config");
    }
    let mut r: Vec<String> = Vec::new();
    push_text(&mut r, "buf");
    push_text(&mut r, "lint");
    push_text(&mut r, path);
    let ghost base = r.deep_view();
    match config {
        Some(c) => push_option(&mut r, "--config", c.as_str()),
        None => {},
    }
    proof {
        assert(r.deep_view() =~= base + option_args("--config"@, config.deep_view()));
        assert(base =~= seq!["buf"@, "lint"@, path@]);
    }
    r
}

pub open spec fn format_spec(path: Seq<char>, write: bool) -> Seq<Seq<char>> {
    if write {
        seq!["buf"@, "format"@, "--write"@, path]
    } else {
        seq!["buf"@, "format"@, path]
    }
}

/// `buf format`, rewriting the files in place when `write`, then the path.
pub fn format_args(path: &str, write: bool) -> (r: Vec<String>)
    ensures
        r.deep_view() == format_spec(path@, write),
{
    proof {
        reveal_strlit("buf");
        reveal_strlit("format");
        reveal_strlit("--write");
    }
    let mut r: Vec<String> = Vec::new();
    push_text(&mut r, "buf");
    push_text(&mut r, "format");
    if write {
        push_text(&mut r, "--write");
    }
    push_text(&mut r, path);
    proof {
        assert(r.deep_view() =~= format_spec(path@, write));
    }
    r
}

pub open spec fn breaking_spec(against: Seq<char>) -> Seq<Seq<char>> {
    seq!["buf"@, "breaking"@, "--against"@, against]
}

/// `buf breaking --against <reference>`.
pub fn breaking_args(against: &str) -> (r: Vec<String>)
    ensures
        r.deep_view() == breaking_spec(against@),
{
    proof {
        reveal_strlit("buf");
        reveal_strlit("breaking");
        reveal_strlit("--against");
    }
    let mut r: Vec<String> = Vec::new();
    push_text(&mut r, "buf");
    push_text(&mut r, "breaking");
    push_option(&mut r, "--against", against);
    proof {
        assert(r.deep_view() =~= breaking_spec(against@));
    }
    r
}

pub open spec fn build_spec(path: Seq<char>) -> Seq<Seq<char>> {
    seq!["buf"@, "build"@, path]
}

/// `buf build <path>`.
pub fn build_args(path: &str) -> (r: Vec<String>)
    ensures
        r.deep_view() == build_spec(path@),
{
    proof {
        reveal_strlit("buf");
        reveal_strlit("build");
    }
    let mut r: Vec<String> = Vec::new();
    push_text(&mut r, "buf");
    push_text(&mut r, "build");
    push_text(&mut r, path);
    proof {
        assert(r.deep_view() =~= build_spec(path@));
    }
    r
}

pub open spec fn push_spec(tag: Option<Seq<char>>) -> Seq<Seq<char>> {
    seq!["buf"@, "push"@] + option_args("--tag"@, tag)
}

/// `buf push`, with a tag when given.
pub fn push_args(tag: &Option<String>) -> (r: Vec<String>)
    ensures
        r.deep_view() == push_spec(tag.deep_view()),
{
    proof {
        reveal_strlit("buf");
        reveal_strlit("push");
        reveal_strlit("--tag");
    }
    let mut r: Vec<String> = Vec::new();
    push_text(&mut r, "buf");
    push_text(&mut r, "push");
    let ghost base = r.deep_view();
    match tag {
        Some(t) => push_option(&mut r, "--tag", t.as_str()),
        None => {},
    }
    proof {
        assert(r.deep_view() =~= base + option_args("--tag"@, tag.deep_view()));
        assert(base =~= seq!["buf"@, "push"@]);
    }
    r
}

} // verus!
