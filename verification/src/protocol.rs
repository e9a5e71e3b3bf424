//! What passes between the provisioner and its host: the requests that the
//! host carries out, and the answers that it hands back.

use vstd::prelude::*;

verus! {

/// A program, its arguments and the directory it runs in.
#[derive(Clone, Debug)]
pub struct CommandLine {
    pub program: String,
    pub args: Vec<String>,
    pub working_dir: String,
}

/// The mathematical content of a [`CommandLine`].
pub struct CommandLineView {
    pub program: Seq<char>,
    pub args: Seq<Seq<char>>,
    pub working_dir: Seq<char>,
}

impl View for CommandLine {
    type V = CommandLineView;

    open spec fn view(&self) -> CommandLineView {
        CommandLineView {
            program: self.program@,
            args: self.args.deep_view(),
            working_dir: self.working_dir@,
        }
    }
}

/// What the machine asks its host to do next.
#[derive(Clone, Debug)]
pub enum Request {
    /// Tell whether anything exists at `path`.
    Probe { path: String },
    /// Run the command to its end and report how it ended.
    Run { command: CommandLine },
    /// Start the command and report at once, without waiting for it.
    Spawn { command: CommandLine },
}

/// The mathematical content of a [`Request`].
pub enum RequestView {
    Probe { path: Seq<char> },
    Run { command: CommandLineView },
    Spawn { command: CommandLineView },
}

impl View for Request {
    type V = RequestView;

    open spec fn view(&self) -> RequestView {
        match self {
            Request::Probe { path } => RequestView::Probe { path: path@ },
            Request::Run { command } => RequestView::Run { command: command@ },
            Request::Spawn { command } => RequestView::Spawn { command: command@ },
        }
    }
}

/// How a command that was run to its end turned out.
#[derive(Clone, Debug)]
pub enum CommandOutcome {
    /// The command ran and exited.
    Exited {
        /// Whether it reported success.
        success: bool,
        /// What it wrote to its error stream.
        stderr: Vec<u8>,
    },
    /// The command could not be run at all.
    Failed {
        /// The operating system's description of the failure.
        reason: String,
    },
}

/// The mathematical content of a [`CommandOutcome`].
pub enum CommandOutcomeView {
    Exited { success: bool, stderr: Seq<u8> },
    Failed { reason: Seq<char> },
}

impl View for CommandOutcome {
    type V = CommandOutcomeView;

    open spec fn view(&self) -> CommandOutcomeView {
        match self {
            CommandOutcome::Exited { success, stderr } => CommandOutcomeView::Exited {
                success: *success,
                stderr: stderr@,
            },
            CommandOutcome::Failed { reason } => CommandOutcomeView::Failed { reason: reason@ },
        }
    }
}

/// What the host reports back after carrying out a [`Request`]. `H` is the
/// host's handle to a started process; the machine passes it on unread.
#[derive(Debug)]
pub enum Answer<H> {
    /// Answers a probe.
    Exists { present: bool },
    /// Answers a run.
    Ran { outcome: CommandOutcome },
    /// Answers a spawn that succeeded.
    Spawned { pid: u32, handle: H },
    /// Answers a spawn that the operating system refused.
    SpawnFailed { reason: String },
}

/// The mathematical content of an [`Answer`].
pub enum AnswerView<H> {
    Exists { present: bool },
    Ran { outcome: CommandOutcomeView },
    Spawned { pid: u32, handle: H },
    SpawnFailed { reason: Seq<char> },
}

impl<H> View for Answer<H> {
    type V = AnswerView<H>;

    open spec fn view(&self) -> AnswerView<H> {
        match self {
            Answer::Exists { present } => AnswerView::Exists { present: *present },
            Answer::Ran { outcome } => AnswerView::Ran { outcome: outcome@ },
            Answer::Spawned { pid, handle } => AnswerView::Spawned { pid: *pid, handle: *handle },
            Answer::SpawnFailed { reason } => AnswerView::SpawnFailed { reason: reason@ },
        }
    }
}

} // verus!
