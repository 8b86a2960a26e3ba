//! The single choke point through which a process is launched: the dry-run gate, the
//! search-path check and the working directory are decided here, exit statuses are
//! classified here.
use vstd::prelude::*;

use crate::error::{AgentError, Failure};
use crate::paths::{is_drive_letter, is_sep, Platform};
use vstd::string::StrSliceExecFns;
use vstd::string::StringExecFns;

verus! {

/// Settings read by every execution; never changed after loading.
#[derive(Debug, Clone)]
pub struct Config {
    /// Report what would run instead of running it.
    pub dry_run: bool,
    /// Directory the started processes run in; the caller's own when `None`.
    pub working_directory: Option<String>,
}

/// Launches external programs under the policy of its [`Config`].
#[derive(Debug, Clone)]
pub struct Executor {
    pub config: Config,
    /// The platform the processes run on; it decides what an absolute path is.
    pub platform: Platform,
}

/// A program and the ordered arguments it is to be given.
#[derive(Debug, Clone)]
pub struct Invocation {
    pub program: String,
    pub args: Vec<String>,
}

/// The mathematical value of an [`Invocation`].
pub struct Call {
    pub program: Seq<char>,
    pub args: Seq<Seq<char>>,
}

impl View for Invocation {
    type V = Call;

    open spec fn view(&self) -> Call {
        Call { program: self.program@, args: self.args.deep_view() }
    }
}

/// What the executor settled on for one invocation.
#[derive(Debug, Clone)]
pub enum Action {
    /// Describe the invocation; start nothing (dry run).
    Preview(Invocation),
    /// Start the program with inherited output streams, in `working_directory` when
    /// given, and wait for it.
    Spawn { invocation: Invocation, working_directory: Option<String> },
}

/// The mathematical value of an [`Action`].
pub enum Step {
    Preview(Call),
    Spawn { call: Call, working_directory: Option<Seq<char>> },
}

impl View for Action {
    type V = Step;

    open spec fn view(&self) -> Step {
        match self {
            Action::Preview(i) => Step::Preview(i@),
            Action::Spawn { invocation, working_directory } => Step::Spawn {
                call: invocation@,
                working_directory: working_directory.deep_view(),
            },
        }
    }
}

pub open spec fn action_view(r: Result<Action, AgentError>) -> Result<Step, Failure> {
    match r {
        Ok(a) => Ok(a@),
        Err(e) => Err(e@),
    }
}

/// How a started process ended, as the operating system reported it.
#[derive(Debug, Clone)]
pub enum ExitReport {
    /// It exited with this status code.
    Exited(i32),
    /// It ended without an exit code (killed by a signal).
    Terminated,
    /// It could not be started; the text is the operating system's error.
    NotStarted(String),
}

/// The failure that an exit report stands for, `None` for a clean exit.
pub open spec fn exit_failure(report: ExitReport) -> Option<Failure> {
    match report {
        ExitReport::Exited(c) => if c == 0 {
            None
        } else {
            Some(Failure::CommandFailed(Some(c)))
        },
        ExitReport::Terminated => Some(Failure::CommandFailed(None)),
        ExitReport::NotStarted(e) => Some(Failure::SpawnFailed(e@)),
    }
}

/// Whether `p` names a file from the root of a filesystem, so that no search-path
/// lookup applies to it.
pub open spec fn is_absolute(p: Seq<char>, platform: Platform) -> bool {
    if platform == Platform::Windows {
        (p.len() >= 2 && is_sep(p[0], platform) && is_sep(p[1], platform)) || (p.len() >= 3
            && is_drive_letter(p[0]) && p[1] == ':'
            && is_sep(p[2], platform))
    } else {
        p.len() >= 1 && p[0] == '/'
    }
}

/// Classifies how a process ended: success only for exit code 0.
pub fn exit_outcome(report: ExitReport) -> (r: Result<(), AgentError>)
    ensures
        match r {
            Ok(_) => exit_failure(report) is None,
            Err(e) => exit_failure(report) == Some(e@),
        },
{
    match report {
        ExitReport::Exited(c) => if c == 0 {
            Ok(())
        } else {
            Err(AgentError::CommandFailed(Some(c)))
        },
        ExitReport::Terminated => Err(AgentError::CommandFailed(None)),
        ExitReport::NotStarted(e) => Err(AgentError::SpawnFailed(e)),
    }
}

/// Whether `p` is an absolute path on `platform`.
pub fn is_absolute_path(p: &str, platform: Platform) -> (r: bool)
    ensures
        r == is_absolute(p@, platform),
{
    let n = p.unicode_len();
    if platform == Platform::Windows {
        if n >= 2 && crate::paths::is_separator(p.get_char(0), platform)
            && crate::paths::is_separator(p.get_char(1), platform) {
            return true;
        }
        if n >= 3 {
            let c = p.get_char(0);
            let letter = ('a' <= c && c <= 'z') || ('A' <= c && c <= 'Z');
            letter && p.get_char(1) == ':' && crate::paths::is_separator(p.get_char(2), platform)
        } else {
            false
        }
    } else {
        n >= 1 && p.get_char(0) == '/'
    }
}

/// Relies on `which::which`: whether `program` resolves to an executable file, either
/// on the executable search path or, for a name with a separator, as a path. The
/// answer depends on the environment and the disk, so nothing is promised of it.
#[verifier::external_body]
pub(crate) fn program_on_search_path(program: &str) -> (r: bool) {
    which::which(program).is_ok()
}

/// Copies of all arguments after the first.
fn tail_of(args: &Vec<String>) -> (r: Vec<String>)
    requires
        args.len() >= 1,
    ensures
        r.deep_view() == args.deep_view().drop_first(),
{
    let mut r: Vec<String> = Vec::new();
    let mut i: usize = 1;
    while i < args.len()
        invariant
            1 <= i <= args.len(),
            r@.len() == i - 1,
            forall|j: int| 0 <= j < r@.len() ==> #[trigger] r@[j]@ == args@[j + 1]@,
        decreases args.len() - i,
    {
        let a = args[i].clone();
        r.push(a);
        i = i + 1;
    }
    proof {
        assert(r.deep_view() =~= args.deep_view().drop_first());
    }
    r
}

impl Executor {
    pub fn new(config: Config, platform: Platform) -> (r: Executor)
        ensures
            r.config == config,
            r.platform == platform,
    {
        Executor { config, platform }
    }

    /// What happens to `call`: a preview under dry run; otherwise not-found when the
    /// program could not be resolved (`found` false), else a spawn in the configured
    /// working directory.
    pub open spec fn launch(&self, call: Call, found: bool) -> Result<Step, Failure> {
        if self.config.dry_run {
            Ok(Step::Preview(call))
        } else if !found {
            Err(Failure::CommandNotFound(call.program))
        } else {
            Ok(Step::Spawn { call, working_directory: self.config.working_directory.deep_view() })
        }
    }

    /// The outcome for a raw invocation, whose first element is the program.
    pub open spec fn raw_outcome(&self, args: Seq<Seq<char>>, found: bool) -> Result<Step, Failure> {
        if args.len() == 0 {
            Err(Failure::NoCommand)
        } else {
            self.launch(Call { program: args[0], args: args.drop_first() }, found)
        }
    }

    /// The outcome for an interpreter invocation: an absolute program path counts as
    /// resolved without a lookup.
    pub open spec fn secure_outcome(
        &self,
        program: Seq<char>,
        args: Seq<Seq<char>>,
        found: bool,
    ) -> Result<Step, Failure> {
        if program.len() == 0 {
            Err(Failure::NoCommand)
        } else {
            self.launch(Call { program, args }, found || is_absolute(program, self.platform))
        }
    }

    fn decide(&self, invocation: Invocation, found: bool) -> (r: Result<Action, AgentError>)
        ensures
            action_view(r) == self.launch(invocation@, found),
    {
        if self.config.dry_run {
            Ok(Action::Preview(invocation))
        } else if !found {
            Err(AgentError::CommandNotFound(invocation.program))
        } else {
            Ok(Action::Spawn { invocation, working_directory: self.config.working_directory.clone() })
        }
    }

    /// The decision for a raw invocation `args` (program first), given whether the
    /// program was found on the search path.
    pub fn decide_raw(&self, args: &Vec<String>, found: bool) -> (r: Result<Action, AgentError>)
        ensures
            action_view(r) == self.raw_outcome(args.deep_view(), found),
    {
        if args.len() == 0 {
            return Err(AgentError::NoCommand);
        }
        let invocation = Invocation { program: args[0].clone(), args: tail_of(args) };
        self.decide(invocation, found)
    }

    /// Decides a raw invocation `args` (program first), looking the program up on the
    /// search path unless this is a dry run.
    pub fn plan_raw(&self, args: &Vec<String>) -> (r: Result<Action, AgentError>)
        ensures
            action_view(r) == self.raw_outcome(args.deep_view(), true) || action_view(r)
                == self.raw_outcome(args.deep_view(), false),
    {
        if args.len() == 0 {
            return Err(AgentError::NoCommand);
        }
        let found = if self.config.dry_run {
            true
        } else {
            program_on_search_path(args[0].as_str())
        };
        self.decide_raw(args, found)
    }

    /// The decision for running `program` with `args`, given whether a lookup found it.
    pub fn decide_secure(&self, program: &str, args: &Vec<String>, found: bool) -> (r: Result<
        Action,
        AgentError,
    >)
        ensures
            action_view(r) == self.secure_outcome(program@, args.deep_view(), found),
    {
        if program.unicode_len() == 0 {
            return Err(AgentError::NoCommand);
        }
        let absolute = is_absolute_path(program, self.platform);
        let invocation = Invocation {
            program: <String as StringExecFns>::from_str(program),
            args: args.clone(),
        };
        proof {
            assert(invocation.args.deep_view() =~= args.deep_view());
        }
        self.decide(invocation, found || absolute)
    }

    /// Decides running the interpreter `program` with `args`. An absolute path is taken
    /// as validated by the caller; any other name is looked up on the search path
    /// unless this is a dry run.
    pub fn plan_secure(&self, program: &str, args: &Vec<String>) -> (r: Result<Action, AgentError>)
        ensures
            action_view(r) == self.secure_outcome(program@, args.deep_view(), true) || action_view(
                r,
            ) == self.secure_outcome(program@, args.deep_view(), false),
    {
        let found = if self.config.dry_run || is_absolute_path(program, self.platform) {
            true
        } else {
            program_on_search_path(program)
        };
        self.decide_secure(program, args, found)
    }
}

} // verus!
