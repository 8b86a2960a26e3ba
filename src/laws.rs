//! Safety properties of the executor and the venv manager, stated over their outcomes.
use vstd::prelude::*;

use crate::error::Failure;
use crate::executor::{is_absolute, Call, Executor, Step};
use crate::paths::{final_segment, joined, Platform};
use crate::venv::{
    bin_dir, ensure_outcome, interpreter_file, removal_outcome, venv_create_args,
    venv_dir_name, venv_python_path, EnsureStep, Removal,
};

verus! {

/// Under dry run nothing is started and nothing is deleted, whatever the program, its
/// arguments or the disk: an invocation that names a program is only previewed and
/// succeeds, a removal is at most previewed, and so is the removal that `ensure` plans.
pub proof fn lemma_dry_run_starts_nothing(
    executor: Executor,
    args: Seq<Seq<char>>,
    program: Seq<char>,
    program_args: Seq<Seq<char>>,
    found: bool,
    path: Seq<char>,
    python: Seq<char>,
    force: bool,
    recreate: bool,
    prompt: Option<Seq<char>>,
    present: bool,
)
    requires
        executor.config.dry_run,
    ensures
        args.len() > 0 ==> executor.raw_outcome(args, found) == Ok::<Step, Failure>(
            Step::Preview(Call { program: args[0], args: args.drop_first() }),
        ),
        program.len() > 0 ==> executor.secure_outcome(program, program_args, found) == Ok::<
            Step,
            Failure,
        >(Step::Preview(Call { program, args: program_args })),
        removal_outcome(true, executor.platform, path, force, present) != Ok::<Removal, Failure>(
            Removal::Delete,
        ),
        ensure_outcome(true, executor.platform, path, python, recreate, prompt, present) matches EnsureStep::Create { removal, .. } ==> removal != Removal::Delete,
{
}

/// Outside dry run, a program that the search-path lookup did not find is reported
/// as not found, and nothing is started; an interpreter path is exempt from the lookup
/// only when it is absolute.
pub proof fn lemma_missing_program_not_found(
    executor: Executor,
    args: Seq<Seq<char>>,
    program: Seq<char>,
    program_args: Seq<Seq<char>>,
)
    requires
        !executor.config.dry_run,
    ensures
        args.len() > 0 ==> executor.raw_outcome(args, false) == Err::<Step, Failure>(
            Failure::CommandNotFound(args[0]),
        ),
        program.len() > 0 && !is_absolute(program, executor.platform) ==> executor.secure_outcome(
            program,
            program_args,
            false,
        ) == Err::<Step, Failure>(Failure::CommandNotFound(program)),
{
}

/// A present directory whose final segment is not `.venv` is never deleted without
/// force: removal fails with the policy violation, dry run or not. With force it is
/// deleted.
pub proof fn lemma_removal_guard(dry_run: bool, platform: Platform, path: Seq<char>)
    requires
        final_segment(path, platform) != venv_dir_name(),
    ensures
        removal_outcome(dry_run, platform, path, false, true) == Err::<Removal, Failure>(
            Failure::RemovalRefused(path),
        ),
        removal_outcome(false, platform, path, true, true) == Ok::<Removal, Failure>(
            Removal::Delete,
        ),
{
}

/// `ensure` on a present venv without `recreate` removes nothing and runs nothing;
/// since the directory stays present, a repeated call decides the same.
pub proof fn lemma_ensure_keeps_present_venv(
    dry_run: bool,
    platform: Platform,
    path: Seq<char>,
    python: Seq<char>,
    prompt: Option<Seq<char>>,
)
    ensures
        ensure_outcome(dry_run, platform, path, python, false, prompt, true)
            == EnsureStep::AlreadyPresent,
{
}

/// `ensure` with `recreate` on a present venv deletes it and then creates it anew,
/// whatever the directory is named: recreation overrides the naming guard.
pub proof fn lemma_recreate_removes_then_creates(
    platform: Platform,
    path: Seq<char>,
    python: Seq<char>,
    prompt: Option<Seq<char>>,
)
    ensures
        ensure_outcome(false, platform, path, python, true, prompt, true) == (EnsureStep::Create {
            removal: Removal::Delete,
            call: Call { program: python, args: venv_create_args(path, prompt) },
        }),
{
}

/// On every platform the venv interpreter is the unversioned executable of the binary
/// directory when that is present, and the `3`-suffixed one when only that is.
pub proof fn lemma_unversioned_interpreter_preferred(venv: Seq<char>, platform: Platform)
    ensures
        venv_python_path(venv, platform, true) == joined(
            bin_dir(venv, platform),
            interpreter_file(platform, true),
            platform,
        ),
        venv_python_path(venv, platform, false) == joined(
            bin_dir(venv, platform),
            interpreter_file(platform, false),
            platform,
        ),
        interpreter_file(platform, false) == interpreter_file(platform, true).insert(6, '3'),
{
    assert(interpreter_file(platform, false) =~= interpreter_file(platform, true).insert(6, '3'));
}

} // verus!
