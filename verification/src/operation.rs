//! The two operations the coordinator performs through the container tool:
//! redeploying one composition and pruning unused images. Each is a command
//! to hand to the process runner and a rule that classifies what came back.

use vstd::prelude::*;
use crate::config::Config;
use crate::error::{Error, ErrorView};
use crate::text::{decode_lossy, lossy_text};

verus! {

/// An external command as mathematical values.
pub struct CommandView {
    pub program: Seq<char>,
    pub args: Seq<Seq<char>>,
    /// The directory to run in; `None` leaves it to the caller's own.
    pub work_dir: Option<Seq<char>>,
}

/// An external command for the process runner: what to run, with which
/// arguments, and where.
#[derive(Debug)]
pub struct Command {
    program: String,
    args: Vec<String>,
    work_dir: Option<String>,
}

impl View for Command {
    type V = CommandView;

    closed spec fn view(&self) -> CommandView {
        CommandView {
            program: self.program@,
            args: Seq::new(self.args@.len(), |i: int| self.args@[i]@),
            work_dir: match self.work_dir {
                Some(dir) => Some(dir@),
                None => None,
            },
        }
    }
}

impl Command {
    /// The executable to launch.
    pub fn program(&self) -> (program: &str)
        ensures
            program@ == self@.program,
    {
        self.program.as_str()
    }

    /// The arguments, in order.
    pub fn args(&self) -> (args: &Vec<String>)
        ensures
            args@.len() == self@.args.len(),
            forall|i: int| 0 <= i < args@.len() ==> (#[trigger] args@[i])@ == self@.args[i],
    {
        &self.args
    }

    /// The directory to run in, if the command names one.
    pub fn work_dir(&self) -> (dir: Option<&str>)
        ensures
            dir is Some == self@.work_dir is Some,
            dir matches Some(d) ==> Some(d@) == self@.work_dir,
    {
        match &self.work_dir {
            Some(dir) => Some(dir.as_str()),
            None => None,
        }
    }
}

/// What a finished process left behind, as mathematical values.
pub struct OutcomeView {
    pub success: bool,
    pub stdout: Seq<char>,
    pub stderr: Seq<char>,
}

/// What a finished process left behind: whether it exited cleanly, and all it
/// wrote to its two output streams, as text.
#[derive(Debug)]
pub struct ProcessOutcome {
    pub success: bool,
    pub stdout: String,
    pub stderr: String,
}

impl View for ProcessOutcome {
    type V = OutcomeView;

    open spec fn view(&self) -> OutcomeView {
        OutcomeView { success: self.success, stdout: self.stdout@, stderr: self.stderr@ }
    }
}

impl ProcessOutcome {
    /// Builds the outcome from the exit flag and the raw captured streams.
    /// Bytes that are not well-formed UTF-8 are replaced, never refused.
    pub fn capture(success: bool, stdout: &[u8], stderr: &[u8]) -> (outcome: ProcessOutcome)
        ensures
            outcome@ == (OutcomeView {
                success,
                stdout: lossy_text(stdout@),
                stderr: lossy_text(stderr@),
            }),
    {
        ProcessOutcome { success, stdout: decode_lossy(stdout), stderr: decode_lossy(stderr) }
    }
}

/// The command that redeploys the composition in directory `work`: bring it
/// up detached, always pulling the latest images first.
pub open spec fn redeploy_command(work: Seq<char>) -> CommandView {
    CommandView {
        program: "docker"@,
        args: seq!["compose"@, "up"@, "-d"@, "--pull"@, "always"@],
        work_dir: Some(work),
    }
}

/// The command that removes every unused image without asking.
pub open spec fn prune_command() -> CommandView {
    CommandView {
        program: "docker"@,
        args: seq!["image"@, "prune"@, "-a"@, "-f"@],
        work_dir: None,
    }
}

/// What a run of a command amounts to: the outcome of a process that ran to
/// its end, or `None` where it could not be launched or waited for.
pub open spec fn run_view(run: Result<ProcessOutcome, std::io::Error>) -> Option<OutcomeView> {
    match run {
        Ok(outcome) => Some(outcome@),
        Err(_) => None,
    }
}

/// How a redeploy run failed, if it did. Only a process that ran and exited
/// cleanly is a success.
pub open spec fn redeploy_failure(run: Option<OutcomeView>) -> Option<ErrorView> {
    match run {
        None => Some(ErrorView::Io),
        Some(outcome) => if outcome.success {
            None
        } else {
            Some(ErrorView::PullFailed { stdout: outcome.stdout, stderr: outcome.stderr })
        },
    }
}

/// How a prune run failed, if it did.
pub open spec fn prune_failure(run: Option<OutcomeView>) -> Option<ErrorView> {
    match run {
        None => Some(ErrorView::Io),
        Some(outcome) => if outcome.success {
            None
        } else {
            Some(ErrorView::PruneFailed { stdout: outcome.stdout, stderr: outcome.stderr })
        },
    }
}

/// Gives the command that redeploys the composition in directory `work`.
pub(crate) fn redeploy_in(work: &str) -> (command: Command)
    ensures
        command@ == redeploy_command(work@),
{
    let mut args: Vec<String> = Vec::new();
    args.push(String::from_str("compose"));
    args.push(String::from_str("up"));
    args.push(String::from_str("-d"));
    args.push(String::from_str("--pull"));
    args.push(String::from_str("always"));
    let command = Command {
        program: String::from_str("docker"),
        args,
        work_dir: Some(String::from_str(work)),
    };
    assert(command@.args =~= redeploy_command(work@).args);
    command
}

/// Resolves `name` and gives the command that redeploys it.
///
/// Fails with `NoComposition(name)` exactly when no composition is registered
/// under `name`; otherwise the command runs in the composition's directory.
pub fn restart_command(name: &str, config: &Config) -> (planned: Result<Command, Error>)
    requires
        config.wf(),
    ensures
        planned is Ok == config@.compositions.contains_key(name@),
        planned matches Ok(command) ==> command@ == redeploy_command(
            config@.compositions[name@],
        ),
        planned matches Err(refusal) ==> refusal@ == ErrorView::NoComposition(name@),
{
    match config.registry().lookup(name) {
        None => Err(Error::NoComposition(String::from_str(name))),
        Some(composition) => Ok(redeploy_in(composition.work())),
    }
}

/// Classifies a redeploy run.
///
/// A run that could not be launched is an I/O error carrying its cause; a
/// process that reported failure is `PullFailed` with both captured streams;
/// only a clean exit is a success, answered by 200 and the fixed body.
pub fn restart_result(run: Result<ProcessOutcome, std::io::Error>) -> (result: Result<
    (u16, &'static str),
    Error,
>)
    ensures
        result is Ok == redeploy_failure(run_view(run)) is None,
        result matches Ok(reply) ==> reply.0 == 200 && reply.1@ == "Success\n"@,
        result matches Err(failure) ==> Some(failure@) == redeploy_failure(run_view(run)),
        run matches Err(source) ==> result == Err::<(u16, &'static str), Error>(Error::Io(source)),
{
    match run {
        Err(source) => Err(Error::Io(source)),
        Ok(outcome) => {
            if !outcome.success {
                Err(Error::PullFailed { stdout: outcome.stdout, stderr: outcome.stderr })
            } else {
                Ok((200, "Success\n"))
            }
        },
    }
}

/// Gives the command that prunes unused images. It names no directory.
pub fn do_prune_command() -> (command: Command)
    ensures
        command@ == prune_command(),
{
    let mut args: Vec<String> = Vec::new();
    args.push(String::from_str("image"));
    args.push(String::from_str("prune"));
    args.push(String::from_str("-a"));
    args.push(String::from_str("-f"));
    let command = Command { program: String::from_str("docker"), args, work_dir: None };
    assert(command@.args =~= prune_command().args);
    command
}

/// Classifies a prune run, as [`restart_result`] does a redeploy: an I/O
/// error, `PruneFailed` with both captured streams, or success.
pub fn do_prune_result(run: Result<ProcessOutcome, std::io::Error>) -> (result: Result<(), Error>)
    ensures
        result is Ok == prune_failure(run_view(run)) is None,
        result matches Err(failure) ==> Some(failure@) == prune_failure(run_view(run)),
        run matches Err(source) ==> result == Err::<(), Error>(Error::Io(source)),
{
    match run {
        Err(source) => Err(Error::Io(source)),
        Ok(outcome) => {
            if !outcome.success {
                Err(Error::PruneFailed { stdout: outcome.stdout, stderr: outcome.stderr })
            } else {
                Ok(())
            }
        },
    }
}

} // verus!
