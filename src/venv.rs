//! Lifecycle of a Python virtual environment: where its interpreter lives, when it may
//! be removed, when it is created, and which interpreter invocations a package install
//! or a test run consists of. A venv is present exactly when its directory exists; that
//! is read from the disk on every call and never cached.
use vstd::prelude::*;

use crate::error::{AgentError, Failure};
use crate::executor::{Call, Executor, Invocation};
use crate::paths::{final_segment, final_segment_of, join_path, joined, Platform};
use vstd::string::StringExecFns;

verus! {

pub open spec fn venv_dir_name() -> Seq<char> {
    seq!['.', 'v', 'e', 'n', 'v']
}

pub open spec fn bin_dir_name(platform: Platform) -> Seq<char> {
    if platform == Platform::Windows {
        seq!['S', 'c', 'r', 'i', 'p', 't', 's']
    } else {
        seq!['b', 'i', 'n']
    }
}

pub open spec fn python_name() -> Seq<char> {
    seq!['p', 'y', 't', 'h', 'o', 'n']
}

pub open spec fn python3_name() -> Seq<char> {
    python_name().push('3')
}

/// The file name of the interpreter executable in a venv: `python`, or the
/// `3`-suffixed `python3`, with `.exe` on Windows.
pub open spec fn interpreter_file(platform: Platform, unversioned: bool) -> Seq<char> {
    let base = if unversioned {
        python_name()
    } else {
        python3_name()
    };
    if platform == Platform::Windows {
        base + seq!['.', 'e', 'x', 'e']
    } else {
        base
    }
}

/// The directory of a venv that holds its executables.
pub open spec fn bin_dir(venv: Seq<char>, platform: Platform) -> Seq<char> {
    joined(venv, bin_dir_name(platform), platform)
}

/// The interpreter path of the venv at `venv`, given whether the unversioned
/// `python` executable is present in its binary directory.
pub open spec fn venv_python_path(venv: Seq<char>, platform: Platform, unversioned_present: bool) -> Seq<char> {
    joined(bin_dir(venv, platform), interpreter_file(platform, unversioned_present), platform)
}

/// Relies on `std::path::Path::exists`: whether something is on disk at `path`. The
/// answer depends on the disk, so nothing is promised of it.
#[verifier::external_body]
fn path_exists(path: &str) -> (r: bool) {
    std::path::Path::new(path).exists()
}

/// The directory under `venv_path` that holds the venv's executables.
pub fn venv_bin_dir(venv_path: &str, platform: Platform) -> (r: String)
    ensures
        r@ == bin_dir(venv_path@, platform),
{
    if platform == Platform::Windows {
        proof {
            reveal_strlit("Scripts");
            assert("Scripts"@ =~= bin_dir_name(platform));
        }
        join_path(venv_path, "Scripts", platform)
    } else {
        proof {
            reveal_strlit("bin");
            assert("bin"@ =~= bin_dir_name(platform));
        }
        join_path(venv_path, "bin", platform)
    }
}

/// The interpreter path of the venv at `venv`, given whether the unversioned
/// executable was found: `python` (`python.exe` on Windows) when it was, else
/// `python3` (`python3.exe`).
pub fn choose_venv_python(venv: &str, platform: Platform, unversioned_present: bool) -> (r: String)
    ensures
        r@ == venv_python_path(venv@, platform, unversioned_present),
{
    let bin = venv_bin_dir(venv, platform);
    proof {
        reveal_strlit("python.exe");
        reveal_strlit("python3.exe");
        reveal_strlit("python");
        reveal_strlit("python3");
        assert("python.exe"@ =~= interpreter_file(Platform::Windows, true));
        assert("python3.exe"@ =~= interpreter_file(Platform::Windows, false));
        assert("python"@ =~= interpreter_file(Platform::Unix, true));
        assert("python3"@ =~= interpreter_file(Platform::Unix, false));
    }
    let file = if platform == Platform::Windows {
        if unversioned_present {
            "python.exe"
        } else {
            "python3.exe"
        }
    } else if unversioned_present {
        "python"
    } else {
        "python3"
    };
    join_path(bin.as_str(), file, platform)
}

/// The interpreter path of the venv at `venv`, checking the disk for the unversioned
/// executable. It never fails; the returned path may not exist.
pub fn resolve_venv_python(venv: &str, platform: Platform) -> (r: String)
    ensures
        r@ == venv_python_path(venv@, platform, true) || r@ == venv_python_path(
            venv@,
            platform,
            false,
        ),
{
    let candidate = choose_venv_python(venv, platform, true);
    let present = path_exists(candidate.as_str());
    if present {
        candidate
    } else {
        choose_venv_python(venv, platform, false)
    }
}

/// What the removal guard settled on for a venv directory.
#[derive(Clone, Copy, Debug, PartialEq, Eq, Structural)]
pub enum Removal {
    /// The directory is absent: nothing to do, and no error.
    NothingToRemove,
    /// Dry run: report the removal, delete nothing.
    Preview,
    /// Delete the directory tree.
    Delete,
}

/// The removal guard: an absent directory needs nothing; a present one whose final
/// segment is not `.venv` is refused unless `force`; otherwise it is deleted, or only
/// reported under dry run.
pub open spec fn removal_outcome(
    dry_run: bool,
    platform: Platform,
    path: Seq<char>,
    force: bool,
    present: bool,
) -> Result<Removal, Failure> {
    if !present {
        Ok(Removal::NothingToRemove)
    } else if !force && final_segment(path, platform) != venv_dir_name() {
        Err(Failure::RemovalRefused(path))
    } else if dry_run {
        Ok(Removal::Preview)
    } else {
        Ok(Removal::Delete)
    }
}

pub open spec fn removal_view(r: Result<Removal, AgentError>) -> Result<Removal, Failure> {
    match r {
        Ok(m) => Ok(m),
        Err(e) => Err(e@),
    }
}

/// Whether `path` ends in a segment named `.venv`.
pub fn is_standard_venv_dir(path: &str, platform: Platform) -> (r: bool)
    ensures
        r == (final_segment(path@, platform) == venv_dir_name()),
{
    let name = final_segment_of(path, platform);
    let standard = String::from_str(".venv");
    proof {
        reveal_strlit(".venv");
        assert(standard@ =~= venv_dir_name());
    }
    name == standard
}

/// The removal decision for the directory `venv_dir`, given whether it is present.
pub fn decide_removal(executor: &Executor, venv_dir: &str, force: bool, present: bool) -> (r: Result<
    Removal,
    AgentError,
>)
    ensures
        removal_view(r) == removal_outcome(
            executor.config.dry_run,
            executor.platform,
            venv_dir@,
            force,
            present,
        ),
{
    if !present {
        Ok(Removal::NothingToRemove)
    } else if !force && !is_standard_venv_dir(venv_dir, executor.platform) {
        Err(AgentError::RemovalRefused(String::from_str(venv_dir)))
    } else if executor.config.dry_run {
        Ok(Removal::Preview)
    } else {
        Ok(Removal::Delete)
    }
}

/// The removal decision for the directory `venv_dir`, checking the disk for it.
pub fn guard_remove_venv(executor: &Executor, venv_dir: &str, force: bool) -> (r: Result<
    Removal,
    AgentError,
>)
    ensures
        removal_view(r) == removal_outcome(
            executor.config.dry_run,
            executor.platform,
            venv_dir@,
            force,
            true,
        ) || removal_view(r) == removal_outcome(
            executor.config.dry_run,
            executor.platform,
            venv_dir@,
            force,
            false,
        ),
{
    let present = path_exists(venv_dir);
    decide_removal(executor, venv_dir, force, present)
}

/// What `ensure` settled on.
#[derive(Debug, Clone)]
pub enum EnsurePlan {
    /// The venv is present and is kept as it is: no removal, no interpreter run.
    AlreadyPresent,
    /// Apply `removal` to the directory, then run `invocation` to create the venv.
    Create { removal: Removal, invocation: Invocation },
}

/// The mathematical value of an [`EnsurePlan`].
pub enum EnsureStep {
    AlreadyPresent,
    Create { removal: Removal, call: Call },
}

impl View for EnsurePlan {
    type V = EnsureStep;

    open spec fn view(&self) -> EnsureStep {
        match self {
            EnsurePlan::AlreadyPresent => EnsureStep::AlreadyPresent,
            EnsurePlan::Create { removal, invocation } => EnsureStep::Create {
                removal: *removal,
                call: invocation@,
            },
        }
    }
}

/// The interpreter arguments that create a venv at `path`, tagged with `prompt`.
pub open spec fn venv_create_args(path: Seq<char>, prompt: Option<Seq<char>>) -> Seq<Seq<char>> {
    let head = seq![seq!['-', 'm'], seq!['v', 'e', 'n', 'v']];
    match prompt {
        Some(p) => head.push(seq!['-', '-', 'p', 'r', 'o', 'm', 'p', 't', '='] + p).push(path),
        None => head.push(path),
    }
}

/// `ensure`: a present venv is kept unless `recreate`; recreation removes it first
/// with the naming guard overridden; an absent one is created by running `python`.
pub open spec fn ensure_outcome(
    dry_run: bool,
    platform: Platform,
    path: Seq<char>,
    python: Seq<char>,
    recreate: bool,
    prompt: Option<Seq<char>>,
    present: bool,
) -> EnsureStep {
    if present && !recreate {
        EnsureStep::AlreadyPresent
    } else {
        EnsureStep::Create {
            removal: removal_outcome(dry_run, platform, path, true, present)->Ok_0,
            call: Call { program: python, args: venv_create_args(path, prompt) },
        }
    }
}

/// The `ensure` plan for the venv at `path`, given whether its directory is present.
pub fn plan_ensure(
    executor: &Executor,
    path: &str,
    python: &str,
    recreate: bool,
    prompt: &Option<String>,
    present: bool,
) -> (r: EnsurePlan)
    ensures
        r@ == ensure_outcome(
            executor.config.dry_run,
            executor.platform,
            path@,
            python@,
            recreate,
            prompt.deep_view(),
            present,
        ),
{
    if present && !recreate {
        return EnsurePlan::AlreadyPresent;
    }
    let removal = if !present {
        Removal::NothingToRemove
    } else if executor.config.dry_run {
        Removal::Preview
    } else {
        Removal::Delete
    };
    proof {
        reveal_strlit("-m");
        reveal_strlit("venv");
        reveal_strlit("--prompt=");
        assert("-m"@ =~= seq!['-', 'm']);
        assert("venv"@ =~= seq!['v', 'e', 'n', 'v']);
        assert("--prompt="@ =~= seq!['-', '-', 'p', 'r', 'o', 'm', 'p', 't', '=']);
    }
    let mut args: Vec<String> = Vec::new();
    args.push(String::from_str("-m"));
    args.push(String::from_str("venv"));
    let ghost head = seq![seq!['-', 'm'], seq!['v', 'e', 'n', 'v']];
    proof {
        assert(args.deep_view() =~= head);
    }
    match prompt {
        Some(p) => {
            let tag = String::from_str("--prompt=").concat(p.as_str());
            args.push(tag);
            args.push(String::from_str(path));
            proof {
                assert(args.deep_view() =~= head.push(
                    seq!['-', '-', 'p', 'r', 'o', 'm', 'p', 't', '='] + p@,
                ).push(path@));
            }
        },
        None => {
            args.push(String::from_str(path));
            proof {
                assert(args.deep_view() =~= head.push(path@));
            }
        },
    }
    EnsurePlan::Create {
        removal,
        invocation: Invocation { program: String::from_str(python), args },
    }
}

/// The `ensure` plan for the venv at `path`, checking the disk for its directory.
pub fn ensure_venv(
    executor: &Executor,
    path: &str,
    python: &str,
    recreate: bool,
    prompt: &Option<String>,
) -> (r: EnsurePlan)
    ensures
        r@ == ensure_outcome(
            executor.config.dry_run,
            executor.platform,
            path@,
            python@,
            recreate,
            prompt.deep_view(),
            true,
        ) || r@ == ensure_outcome(
            executor.config.dry_run,
            executor.platform,
            path@,
            python@,
            recreate,
            prompt.deep_view(),
            false,
        ),
{
    let present = path_exists(path);
    plan_ensure(executor, path, python, recreate, prompt, present)
}

/// The interpreter used where no venv is: `python3` when it is on the search path,
/// `python` otherwise.
pub fn pick_default_python(python3_found: bool) -> (r: String)
    ensures
        r@ == if python3_found {
            python3_name()
        } else {
            python_name()
        },
{
    proof {
        reveal_strlit("python3");
        reveal_strlit("python");
        assert("python3"@ =~= python3_name());
        assert("python"@ =~= python_name());
    }
    if python3_found {
        String::from_str("python3")
    } else {
        String::from_str("python")
    }
}

/// The interpreter used where no venv is, looking `python3` up on the search path.
pub fn default_python() -> (r: String)
    ensures
        r@ == python3_name() || r@ == python_name(),
{
    proof {
        reveal_strlit("python3");
    }
    let found = crate::executor::program_on_search_path("python3");
    pick_default_python(found)
}

/// `v` with copies of the strings of `more` appended.
fn extend_with(v: &mut Vec<String>, more: &Vec<String>)
    ensures
        final(v).deep_view() == old(v).deep_view() + more.deep_view(),
{
    let ghost start = v@;
    let mut i: usize = 0;
    while i < more.len()
        invariant
            i <= more.len(),
            v@.len() == start.len() + i,
            forall|j: int| 0 <= j < start.len() ==> #[trigger] v@[j] == start[j],
            forall|j: int| 0 <= j < i ==> #[trigger] v@[start.len() + j]@ == more@[j]@,
        decreases more.len() - i,
    {
        v.push(more[i].clone());
        i = i + 1;
    }
    proof {
        assert forall|j: int| 0 <= j < v@.len() implies #[trigger] v.deep_view()[j] == (old(
            v,
        ).deep_view() + more.deep_view())[j] by {
            if j >= start.len() {
                assert(v@[start.len() + (j - start.len())]@ == more@[j - start.len()]@);
            }
        }
        assert(v.deep_view() =~= old(v).deep_view() + more.deep_view());
    }
}

/// `-m pip install`
pub open spec fn pip_install_args() -> Seq<Seq<char>> {
    seq![seq!['-', 'm'], seq!['p', 'i', 'p'], seq!['i', 'n', 's', 't', 'a', 'l', 'l']]
}

/// `-m pip install --upgrade pip`
pub open spec fn pip_upgrade_args() -> Seq<Seq<char>> {
    pip_install_args().push(seq!['-', '-', 'u', 'p', 'g', 'r', 'a', 'd', 'e']).push(
        seq!['p', 'i', 'p'],
    )
}

/// The interpreter runs of `pip install`, in order: upgrading pip when asked, the
/// requirements file when given, then the named packages when there are any. All run
/// the venv's interpreter, or the system one only where no venv is present and the
/// global override is set; without either, it fails before any run, as it does for a
/// requirements file that is not on disk.
pub open spec fn pip_outcome(
    venv_path: Seq<char>,
    allow_global: bool,
    upgrade_pip: bool,
    requirements: Option<Seq<char>>,
    packages: Seq<Seq<char>>,
    venv_python: Seq<char>,
    venv_python_present: bool,
    system_python: Seq<char>,
    requirements_present: bool,
) -> Result<Seq<Call>, Failure> {
    if !venv_python_present && !allow_global {
        Err(Failure::NoVenv(venv_path))
    } else if requirements is Some && !requirements_present {
        Err(Failure::RequirementsMissing(requirements->Some_0))
    } else {
        let py = if venv_python_present {
            venv_python
        } else {
            system_python
        };
        let upgrade = if upgrade_pip {
            seq![Call { program: py, args: pip_upgrade_args() }]
        } else {
            Seq::empty()
        };
        let from_file = match requirements {
            Some(req) => seq![
                Call { program: py, args: pip_install_args().push(seq!['-', 'r']).push(req) },
            ],
            None => Seq::empty(),
        };
        let named = if packages.len() > 0 {
            seq![Call { program: py, args: pip_install_args() + packages }]
        } else {
            Seq::empty()
        };
        Ok(upgrade + from_file + named)
    }
}

pub open spec fn calls_view(r: Result<Vec<Invocation>, AgentError>) -> Result<Seq<Call>, Failure> {
    match r {
        Ok(v) => Ok(v@.map_values(|i: Invocation| i@)),
        Err(e) => Err(e@),
    }
}

fn pip_install_base() -> (r: Vec<String>)
    ensures
        r.deep_view() == pip_install_args(),
{
    proof {
        reveal_strlit("-m");
        reveal_strlit("pip");
        reveal_strlit("install");
        assert("-m"@ =~= seq!['-', 'm']);
        assert("pip"@ =~= seq!['p', 'i', 'p']);
        assert("install"@ =~= seq!['i', 'n', 's', 't', 'a', 'l', 'l']);
    }
    let mut r: Vec<String> = Vec::new();
    r.push(String::from_str("-m"));
    r.push(String::from_str("pip"));
    r.push(String::from_str("install"));
    proof {
        assert(r.deep_view() =~= pip_install_args());
    }
    r
}

/// The interpreter runs of `pip install`, given what was found on disk: whether the
/// venv interpreter `venv_python` is present, and whether the requirements file is.
pub fn pip_install_plan(
    venv_path: &str,
    allow_global: bool,
    upgrade_pip: bool,
    requirements: &Option<String>,
    packages: &Vec<String>,
    venv_python: &str,
    venv_python_present: bool,
    system_python: &str,
    requirements_present: bool,
) -> (r: Result<Vec<Invocation>, AgentError>)
    ensures
        calls_view(r) == pip_outcome(
            venv_path@,
            allow_global,
            upgrade_pip,
            requirements.deep_view(),
            packages.deep_view(),
            venv_python@,
            venv_python_present,
            system_python@,
            requirements_present,
        ),
{
    if !venv_python_present && !allow_global {
        return Err(AgentError::NoVenv(String::from_str(venv_path)));
    }
    match requirements {
        Some(req) => if !requirements_present {
            return Err(AgentError::RequirementsMissing(req.clone()));
        },
        None => {},
    }
    let py: &str = if venv_python_present {
        venv_python
    } else {
        system_python
    };
    let ghost spec_py = py@;
    let mut plan: Vec<Invocation> = Vec::new();
    let ghost mut expected: Seq<Call> = Seq::empty();
    if upgrade_pip {
        proof {
            reveal_strlit("--upgrade");
            reveal_strlit("pip");
            assert("--upgrade"@ =~= seq!['-', '-', 'u', 'p', 'g', 'r', 'a', 'd', 'e']);
            assert("pip"@ =~= seq!['p', 'i', 'p']);
        }
        let mut args = pip_install_base();
        args.push(String::from_str("--upgrade"));
        args.push(String::from_str("pip"));
        proof {
            assert(args.deep_view() =~= pip_upgrade_args());
        }
        plan.push(Invocation { program: String::from_str(py), args });
        proof {
            expected = seq![Call { program: spec_py, args: pip_upgrade_args() }];
            assert(plan@.map_values(|i: Invocation| i@) =~= expected);
        }
    }
    match requirements {
        Some(req) => {
            proof {
                reveal_strlit("-r");
                assert("-r"@ =~= seq!['-', 'r']);
            }
            let mut args = pip_install_base();
            args.push(String::from_str("-r"));
            args.push(req.clone());
            proof {
                assert(args.deep_view() =~= pip_install_args().push(seq!['-', 'r']).push(req@));
            }
            plan.push(Invocation { program: String::from_str(py), args });
            proof {
                expected = expected + seq![
                    Call {
                        program: spec_py,
                        args: pip_install_args().push(seq!['-', 'r']).push(req@),
                    },
                ];
                assert(plan@.map_values(|i: Invocation| i@) =~= expected);
            }
        },
        None => {},
    }
    if packages.len() > 0 {
        let mut args = pip_install_base();
        extend_with(&mut args, packages);
        plan.push(Invocation { program: String::from_str(py), args });
        proof {
            expected = expected + seq![
                Call { program: spec_py, args: pip_install_args() + packages.deep_view() },
            ];
            assert(plan@.map_values(|i: Invocation| i@) =~= expected);
        }
    }
    proof {
        let want = pip_outcome(
            venv_path@,
            allow_global,
            upgrade_pip,
            requirements.deep_view(),
            packages.deep_view(),
            venv_python@,
            venv_python_present,
            system_python@,
            requirements_present,
        );
        assert(want->Ok_0 =~= expected);
        assert(plan@.map_values(|i: Invocation| i@) =~= expected);
    }
    Ok(plan)
}

/// The interpreter runs of `pip install` for the venv at `venv_path`, checking the disk
/// for the venv's interpreter and the requirements file, and the search path for the
/// system interpreter where the global override is used.
pub fn pip_install(
    platform: Platform,
    venv_path: &str,
    allow_global: bool,
    upgrade_pip: bool,
    requirements: &Option<String>,
    packages: &Vec<String>,
) -> (r: Result<Vec<Invocation>, AgentError>)
    ensures
        exists|
            unversioned_present: bool,
            venv_python_present: bool,
            system_python: Seq<char>,
            requirements_present: bool,
        |
            (system_python == python3_name() || system_python == python_name()) && calls_view(r)
                == #[trigger] pip_outcome(
                venv_path@,
                allow_global,
                upgrade_pip,
                requirements.deep_view(),
                packages.deep_view(),
                venv_python_path(venv_path@, platform, unversioned_present),
                venv_python_present,
                system_python,
                requirements_present,
            ),
{
    let venv_python = resolve_venv_python(venv_path, platform);
    let venv_python_present = path_exists(venv_python.as_str());
    let system_python = if !venv_python_present && allow_global {
        default_python()
    } else {
        pick_default_python(true)
    };
    let requirements_present = match requirements {
        Some(req) => path_exists(req.as_str()),
        None => true,
    };
    let r = pip_install_plan(
        venv_path,
        allow_global,
        upgrade_pip,
        requirements,
        packages,
        venv_python.as_str(),
        venv_python_present,
        system_python.as_str(),
        requirements_present,
    );
    proof {
        let unversioned_present = venv_python@ == venv_python_path(venv_path@, platform, true);
        assert(venv_python@ == venv_python_path(venv_path@, platform, unversioned_present));
        assert(calls_view(r) == pip_outcome(
            venv_path@,
            allow_global,
            upgrade_pip,
            requirements.deep_view(),
            packages.deep_view(),
            venv_python_path(venv_path@, platform, unversioned_present),
            venv_python_present,
            system_python@,
            requirements_present,
        ));
    }
    r
}

/// `-m pytest`, the extra options, then the test paths (`tests/` when none are given).
pub open spec fn pytest_args(addopts: Seq<Seq<char>>, tests: Seq<Seq<char>>) -> Seq<Seq<char>> {
    let head = seq![seq!['-', 'm'], seq!['p', 'y', 't', 'e', 's', 't']];
    if tests.len() == 0 {
        head + addopts + seq![seq!['t', 'e', 's', 't', 's', '/']]
    } else {
        head + addopts + tests
    }
}

/// A pytest run needs the venv's interpreter on disk; without it the run fails, naming
/// the expected interpreter path, and no system interpreter is used instead.
pub open spec fn pytest_outcome(
    venv_path: Seq<char>,
    python: Seq<char>,
    python_present: bool,
    addopts: Seq<Seq<char>>,
    tests: Seq<Seq<char>>,
) -> Result<Call, Failure> {
    if !python_present {
        Err(Failure::VenvPythonMissing { python, venv: venv_path })
    } else {
        Ok(Call { program: python, args: pytest_args(addopts, tests) })
    }
}

pub open spec fn call_view(r: Result<Invocation, AgentError>) -> Result<Call, Failure> {
    match r {
        Ok(i) => Ok(i@),
        Err(e) => Err(e@),
    }
}

/// The pytest run for the venv at `venv_path`, given its interpreter path `python` and
/// whether that is on disk.
pub fn pytest_plan(
    venv_path: &str,
    python: &str,
    python_present: bool,
    addopts: &Vec<String>,
    tests: &Vec<String>,
) -> (r: Result<Invocation, AgentError>)
    ensures
        call_view(r) == pytest_outcome(
            venv_path@,
            python@,
            python_present,
            addopts.deep_view(),
            tests.deep_view(),
        ),
{
    if !python_present {
        return Err(
            AgentError::VenvPythonMissing {
                python: String::from_str(python),
                venv: String::from_str(venv_path),
            },
        );
    }
    proof {
        reveal_strlit("-m");
        reveal_strlit("pytest");
        reveal_strlit("tests/");
        assert("-m"@ =~= seq!['-', 'm']);
        assert("pytest"@ =~= seq!['p', 'y', 't', 'e', 's', 't']);
        assert("tests/"@ =~= seq!['t', 'e', 's', 't', 's', '/']);
    }
    let mut args: Vec<String> = Vec::new();
    args.push(String::from_str("-m"));
    args.push(String::from_str("pytest"));
    let ghost head = seq![seq!['-', 'm'], seq!['p', 'y', 't', 'e', 's', 't']];
    proof {
        assert(args.deep_view() =~= head);
    }
    extend_with(&mut args, addopts);
    if tests.len() == 0 {
        let ghost before = args.deep_view();
        args.push(String::from_str("tests/"));
        proof {
            assert(args.deep_view() =~= before.push(seq!['t', 'e', 's', 't', 's', '/']));
        }
    } else {
        extend_with(&mut args, tests);
    }
    proof {
        assert(args.deep_view() =~= pytest_args(addopts.deep_view(), tests.deep_view()));
    }
    Ok(Invocation { program: String::from_str(python), args })
}

/// The pytest run for the venv at `venv_path`, resolving its interpreter and checking
/// the disk for it.
pub fn run_pytest(platform: Platform, venv_path: &str, addopts: &Vec<String>, tests: &Vec<String>) -> (r:
    Result<Invocation, AgentError>)
    ensures
        exists|unversioned_present: bool, python_present: bool|
            call_view(r) == #[trigger] pytest_outcome(
                venv_path@,
                venv_python_path(venv_path@, platform, unversioned_present),
                python_present,
                addopts.deep_view(),
                tests.deep_view(),
            ),
{
    let python = resolve_venv_python(venv_path, platform);
    let present = path_exists(python.as_str());
    let r = pytest_plan(venv_path, python.as_str(), present, addopts, tests);
    proof {
        let unversioned_present = python@ == venv_python_path(venv_path@, platform, true);
        assert(python@ == venv_python_path(venv_path@, platform, unversioned_present));
        assert(call_view(r) == pytest_outcome(
            venv_path@,
            venv_python_path(venv_path@, platform, unversioned_present),
            present,
            addopts.deep_view(),
            tests.deep_view(),
        ));
    }
    r
}

} // verus!
