//! Preparing the backend's environment and starting the backend, as a machine
//! that decides while its host acts.
//!
//! The machine never touches the file system or a process. Each step hands
//! out the progress events to report and one [`Request`]; the host carries
//! the request out and hands back an [`Answer`]. Failures of preparation are
//! reported and passed over: every run that resolved the backend directory
//! ends by asking for the backend to be started.
//!
//! The interpreter is chosen once it is known what is there: the isolated
//! one where it exists, at the start or after an attempt to create it, and
//! the system-wide one where it does not.

use crate::error::{SetupError, SetupErrorView};
use crate::paths::{
    backend_dir_of, describe_environment, environment_of, installer_of, installer_path,
    interpreter_of, isolated_interpreter_of, isolated_interpreter_path, manifest_of,
    manifest_path, resolve_backend_dir, select_interpreter, EnvironmentDescriptor,
    EnvironmentDescriptorView, HostContext, HostContextView,
};
use crate::platform::{
    BuildMode, OsFamily, PlatformPaths, ENTRY_POINT, ENVIRONMENT_DIR, MANIFEST_FILE,
};
use crate::progress::{ProgressEvent, ProgressEventView};
use crate::protocol::{
    Answer, AnswerView, CommandLine, CommandLineView, CommandOutcome, CommandOutcomeView,
    Request, RequestView,
};
use crate::text::{lossy_text, quoted_text, text_debug, utf8_lossy};
use vstd::prelude::*;

verus! {

/// Which answer the machine is waiting for.
#[derive(Clone, Copy, Debug, PartialEq, Eq, Structural)]
pub enum Phase {
    /// Whether the isolated interpreter exists.
    InterpreterProbe,
    /// How creating the isolated environment turned out.
    EnvironmentCreation,
    /// Whether the isolated interpreter exists now that its creation was
    /// attempted.
    InterpreterRecheck,
    /// Whether the isolated environment's installer exists.
    InstallerProbe,
    /// How the installer's upgrade of itself turned out.
    InstallerUpgrade,
    /// Whether the dependency manifest exists.
    ManifestProbe,
    /// How installing the manifest turned out.
    ManifestInstall,
    /// Whether the backend could be started.
    Launch,
}

impl Phase {
    /// How many answers the machine may still need from this phase on.
    pub open spec fn remaining(self) -> nat {
        match self {
            Phase::InterpreterProbe => 8,
            Phase::EnvironmentCreation => 7,
            Phase::InterpreterRecheck => 6,
            Phase::InstallerProbe => 5,
            Phase::InstallerUpgrade => 4,
            Phase::ManifestProbe => 3,
            Phase::ManifestInstall => 2,
            Phase::Launch => 1,
        }
    }
}

/// The machine that prepares the backend's environment and starts the
/// backend.
#[derive(Debug)]
pub struct Provisioner {
    os: OsFamily,
    backend_dir: String,
    isolated_present: bool,
    phase: Phase,
}

/// The mathematical content of a [`Provisioner`].
pub struct ProvisionerView {
    /// The operating-system family whose names are used.
    pub os: OsFamily,
    /// The resolved backend directory.
    pub backend_dir: Seq<char>,
    /// Whether the isolated interpreter was found when it was last probed;
    /// `false` until it is found.
    pub isolated_present: bool,
    /// The answer that is awaited.
    pub phase: Phase,
}

impl View for Provisioner {
    type V = ProvisionerView;

    closed spec fn view(&self) -> ProvisionerView {
        ProvisionerView {
            os: self.os,
            backend_dir: self.backend_dir@,
            isolated_present: self.isolated_present,
            phase: self.phase,
        }
    }
}

/// What one step of the machine yields.
#[derive(Debug)]
pub enum Step<H> {
    /// Report `events`, carry out `request`, and hand the answer to `machine`.
    Ask { machine: Provisioner, events: Vec<ProgressEvent>, request: Request },
    /// Report `events`; the backend runs and `handle` is its process.
    Launched { events: Vec<ProgressEvent>, handle: H },
    /// Report `events`; the backend was not started.
    Failed { events: Vec<ProgressEvent>, error: SetupError },
    /// The answer does not belong to the request that is outstanding. Machine
    /// and answer come back as they were.
    Rejected { machine: Provisioner, answer: Answer<H> },
}

/// The mathematical content of a [`Step`].
pub enum StepView<H> {
    Ask { machine: ProvisionerView, events: Seq<ProgressEventView>, request: RequestView },
    Launched { events: Seq<ProgressEventView>, handle: H },
    Failed { events: Seq<ProgressEventView>, error: SetupErrorView },
    Rejected { machine: ProvisionerView, answer: AnswerView<H> },
}

impl<H> View for Step<H> {
    type V = StepView<H>;

    open spec fn view(&self) -> StepView<H> {
        match self {
            Step::Ask { machine, events, request } => StepView::Ask {
                machine: machine@,
                events: events.deep_view(),
                request: request@,
            },
            Step::Launched { events, handle } => StepView::Launched {
                events: events.deep_view(),
                handle: *handle,
            },
            Step::Failed { events, error } => StepView::Failed {
                events: events.deep_view(),
                error: error@,
            },
            Step::Rejected { machine, answer } => StepView::Rejected {
                machine: machine@,
                answer: answer@,
            },
        }
    }
}

/// What a command that failed has to say for itself: its error stream,
/// decoded leniently and quoted.
pub open spec fn stderr_detail(stderr: Seq<u8>) -> Seq<char> {
    text_debug(utf8_lossy(stderr))
}

impl CommandOutcomeView {
    /// The event that reports how creating the isolated environment ended.
    pub open spec fn creation_event(self) -> ProgressEventView {
        match self {
            CommandOutcomeView::Exited { success, stderr } => if success {
                ProgressEventView::EnvironmentCreated
            } else {
                ProgressEventView::EnvironmentCreationFailed { detail: stderr_detail(stderr) }
            },
            CommandOutcomeView::Failed { reason } => ProgressEventView::EnvironmentCreationFailed {
                detail: reason,
            },
        }
    }

    /// The events that report how the installer's upgrade ended: none where
    /// it succeeded, one warning where it did not.
    pub open spec fn upgrade_events(self) -> Seq<ProgressEventView> {
        match self {
            CommandOutcomeView::Exited { success, stderr } => if success {
                Seq::empty()
            } else {
                seq![ProgressEventView::InstallerUpgradeWarning { detail: stderr_detail(stderr) }]
            },
            CommandOutcomeView::Failed { reason } => seq![
                ProgressEventView::InstallerUpgradeFailed { reason },
            ],
        }
    }

    /// The event that reports how installing the manifest ended.
    pub open spec fn installation_event(self) -> ProgressEventView {
        match self {
            CommandOutcomeView::Exited { success, stderr } => if success {
                ProgressEventView::ManifestInstalled
            } else {
                ProgressEventView::ManifestInstallWarning { detail: stderr_detail(stderr) }
            },
            CommandOutcomeView::Failed { reason } => ProgressEventView::ManifestInstallFailed {
                reason,
            },
        }
    }
}

impl ProvisionerView {
    /// The same machine, waiting in another phase.
    pub open spec fn at(self, phase: Phase) -> ProvisionerView {
        ProvisionerView { phase, ..self }
    }

    /// The interpreter that runs the backend.
    pub open spec fn interpreter(self) -> Seq<char> {
        interpreter_of(self.os, self.backend_dir, self.isolated_present)
    }

    /// The environment as the machine knows it.
    pub open spec fn environment(self) -> EnvironmentDescriptorView {
        environment_of(self.os, self.backend_dir, self.isolated_present)
    }

    /// The command that creates the isolated environment: the system-wide
    /// interpreter's environment module, inside the backend directory.
    pub open spec fn creation_command(self) -> CommandLineView {
        CommandLineView {
            program: self.os.system_interpreter_name(),
            args: seq!["-m"@, "venv"@, ENVIRONMENT_DIR@],
            working_dir: self.backend_dir,
        }
    }

    /// The command by which the installer upgrades itself.
    pub open spec fn upgrade_command(self) -> CommandLineView {
        CommandLineView {
            program: installer_of(self.os, self.backend_dir),
            args: seq!["install"@, "--upgrade"@, "pip"@, "-q"@],
            working_dir: self.backend_dir,
        }
    }

    /// The command that installs the dependency manifest.
    pub open spec fn installation_command(self) -> CommandLineView {
        CommandLineView {
            program: installer_of(self.os, self.backend_dir),
            args: seq!["install"@, "-r"@, MANIFEST_FILE@, "-q"@],
            working_dir: self.backend_dir,
        }
    }

    /// The command that starts the backend: the chosen interpreter on the
    /// entry point, inside the backend directory.
    pub open spec fn launch_command(self) -> CommandLineView {
        CommandLineView {
            program: self.interpreter(),
            args: seq![ENTRY_POINT@],
            working_dir: self.backend_dir,
        }
    }

    /// The request whose answer the machine is waiting for.
    pub open spec fn pending(self) -> RequestView {
        match self.phase {
            Phase::InterpreterProbe | Phase::InterpreterRecheck => RequestView::Probe {
                path: isolated_interpreter_of(self.os, self.backend_dir),
            },
            Phase::EnvironmentCreation => RequestView::Run { command: self.creation_command() },
            Phase::InstallerProbe => RequestView::Probe {
                path: installer_of(self.os, self.backend_dir),
            },
            Phase::InstallerUpgrade => RequestView::Run { command: self.upgrade_command() },
            Phase::ManifestProbe => RequestView::Probe { path: manifest_of(self.backend_dir) },
            Phase::ManifestInstall => RequestView::Run { command: self.installation_command() },
            Phase::Launch => RequestView::Spawn { command: self.launch_command() },
        }
    }

    /// Whether `answer` belongs to the request that is outstanding.
    pub open spec fn accepts<H>(self, answer: AnswerView<H>) -> bool {
        match self.phase {
            Phase::InterpreterProbe
            | Phase::InterpreterRecheck
            | Phase::InstallerProbe
            | Phase::ManifestProbe => answer is Exists,
            Phase::EnvironmentCreation | Phase::InstallerUpgrade | Phase::ManifestInstall => answer
                is Ran,
            Phase::Launch => answer is Spawned || answer is SpawnFailed,
        }
    }

    /// The step that reports `events` and moves on to `phase`.
    pub open spec fn proceed<H>(self, phase: Phase, events: Seq<ProgressEventView>) -> StepView<
        H,
    > {
        StepView::Ask { machine: self.at(phase), events, request: self.at(phase).pending() }
    }

    /// The same machine, knowing whether the isolated interpreter exists.
    pub open spec fn probed(self, present: bool) -> ProvisionerView {
        ProvisionerView { isolated_present: present, ..self }
    }

    /// The event that reports which interpreter runs the backend.
    pub open spec fn selection_event(self) -> ProgressEventView {
        ProgressEventView::InterpreterSelected { interpreter: self.interpreter() }
    }

    /// The machine's decision on an answer.
    ///
    /// Where the isolated interpreter is found, it is chosen at once. Where
    /// it is absent the environment is created and, however that ends, the
    /// interpreter is probed again: it is chosen if it is there now, the
    /// system-wide one otherwise. Where the installer is present it upgrades
    /// itself and, where the manifest exists, installs it; however these
    /// end, the backend is started with the interpreter that was chosen.
    pub open spec fn step<H>(self, answer: AnswerView<H>) -> StepView<H> {
        match (self.phase, answer) {
            (Phase::InterpreterProbe, AnswerView::Exists { present }) => if present {
                self.probed(true).proceed(
                    Phase::InstallerProbe,
                    seq![
                        self.probed(true).selection_event(),
                        ProgressEventView::EnvironmentPresent,
                    ],
                )
            } else {
                self.probed(false).proceed(
                    Phase::EnvironmentCreation,
                    seq![ProgressEventView::CreatingEnvironment],
                )
            },
            (Phase::EnvironmentCreation, AnswerView::Ran { outcome }) => self.proceed(
                Phase::InterpreterRecheck,
                seq![outcome.creation_event()],
            ),
            (Phase::InterpreterRecheck, AnswerView::Exists { present }) => self.probed(
                present,
            ).proceed(Phase::InstallerProbe, seq![self.probed(present).selection_event()]),
            (Phase::InstallerProbe, AnswerView::Exists { present }) => if present {
                self.proceed(
                    Phase::InstallerUpgrade,
                    seq![
                        ProgressEventView::CheckingDependencies,
                        ProgressEventView::UpgradingInstaller,
                    ],
                )
            } else {
                self.proceed(Phase::Launch, seq![ProgressEventView::Launching])
            },
            (Phase::InstallerUpgrade, AnswerView::Ran { outcome }) => self.proceed(
                Phase::ManifestProbe,
                outcome.upgrade_events(),
            ),
            (Phase::ManifestProbe, AnswerView::Exists { present }) => if present {
                self.proceed(Phase::ManifestInstall, seq![ProgressEventView::InstallingManifest])
            } else {
                self.proceed(Phase::Launch, seq![ProgressEventView::Launching])
            },
            (Phase::ManifestInstall, AnswerView::Ran { outcome }) => self.proceed(
                Phase::Launch,
                seq![outcome.installation_event(), ProgressEventView::Launching],
            ),
            (Phase::Launch, AnswerView::Spawned { pid, handle }) => StepView::Launched {
                events: seq![ProgressEventView::Launched { pid }],
                handle,
            },
            (Phase::Launch, AnswerView::SpawnFailed { reason }) => StepView::Failed {
                events: seq![ProgressEventView::LaunchFailed { reason }],
                error: SetupErrorView::Launch { reason },
            },
            _ => StepView::Rejected { machine: self, answer },
        }
    }
}

/// The first step of a start: the backend directory is resolved and, where
/// that succeeds, the isolated interpreter is probed.
pub open spec fn opening<H>(os: OsFamily, mode: BuildMode, context: HostContextView) -> StepView<
    H,
> {
    match backend_dir_of(mode, context) {
        Some(dir) => ProvisionerView {
            os,
            backend_dir: dir,
            isolated_present: false,
            phase: Phase::InterpreterProbe,
        }.proceed(
            Phase::InterpreterProbe,
            seq![ProgressEventView::Initializing, ProgressEventView::BackendResolved { dir }],
        ),
        None => StepView::Failed {
            events: seq![ProgressEventView::Initializing],
            error: SetupErrorView::PathResolution,
        },
    }
}

/// The arguments of a command, from their fixed texts.
fn arguments(texts: &[&'static str]) -> (args: Vec<String>)
    ensures
        args.deep_view() == Seq::new(texts@.len(), |i: int| texts@[i]@),
{
    let mut args: Vec<String> = Vec::new();
    let mut i: usize = 0;
    while i < texts.len()
        invariant
            i <= texts@.len(),
            args@.len() == i,
            forall|k: int| 0 <= k < i ==> (#[trigger] args@[k])@ == texts@[k]@,
        decreases texts@.len() - i,
    {
        args.push(String::from_str(texts[i]));
        i += 1;
    }
    assert(args.deep_view() =~= Seq::new(texts@.len(), |i: int| texts@[i]@));
    args
}

/// Renders what a failed command wrote to its error stream.
fn render_stderr(stderr: &Vec<u8>) -> (detail: String)
    ensures
        detail@ == stderr_detail(stderr@),
{
    let decoded = lossy_text(stderr.as_slice());
    quoted_text(decoded.as_str())
}

impl CommandOutcome {
    /// The event that reports how creating the isolated environment ended.
    fn creation_event(self) -> (event: ProgressEvent)
        ensures
            event@ == self@.creation_event(),
    {
        match self {
            CommandOutcome::Exited { success, stderr } => if success {
                ProgressEvent::EnvironmentCreated
            } else {
                ProgressEvent::EnvironmentCreationFailed { detail: render_stderr(&stderr) }
            },
            CommandOutcome::Failed { reason } => ProgressEvent::EnvironmentCreationFailed {
                detail: reason,
            },
        }
    }

    /// The events that report how the installer's upgrade ended.
    fn upgrade_events(self) -> (events: Vec<ProgressEvent>)
        ensures
            events.deep_view() == self@.upgrade_events(),
    {
        let mut events: Vec<ProgressEvent> = Vec::new();
        match self {
            CommandOutcome::Exited { success, stderr } => if !success {
                let detail = render_stderr(&stderr);
                events.push(ProgressEvent::InstallerUpgradeWarning { detail });
            },
            CommandOutcome::Failed { reason } => {
                events.push(ProgressEvent::InstallerUpgradeFailed { reason });
            },
        }
        assert(events.deep_view() =~= self@.upgrade_events());
        events
    }

    /// The event that reports how installing the manifest ended.
    fn installation_event(self) -> (event: ProgressEvent)
        ensures
            event@ == self@.installation_event(),
    {
        match self {
            CommandOutcome::Exited { success, stderr } => if success {
                ProgressEvent::ManifestInstalled
            } else {
                ProgressEvent::ManifestInstallWarning { detail: render_stderr(&stderr) }
            },
            CommandOutcome::Failed { reason } => ProgressEvent::ManifestInstallFailed { reason },
        }
    }
}

/// One event, as the list of events of a step.
fn one(event: ProgressEvent) -> (events: Vec<ProgressEvent>)
    ensures
        events.deep_view() == seq![event@],
{
    let mut events: Vec<ProgressEvent> = Vec::new();
    events.push(event);
    assert(events.deep_view() =~= seq![event@]);
    events
}

/// Two events, as the list of events of a step.
fn two(first: ProgressEvent, second: ProgressEvent) -> (events: Vec<ProgressEvent>)
    ensures
        events.deep_view() == seq![first@, second@],
{
    let mut events: Vec<ProgressEvent> = Vec::new();
    events.push(first);
    events.push(second);
    assert(events.deep_view() =~= seq![first@, second@]);
    events
}

impl Provisioner {
    /// The operating-system family whose names the machine uses.
    pub fn os(&self) -> (os: OsFamily)
        ensures
            os == self@.os,
    {
        self.os
    }

    /// The resolved backend directory.
    pub fn backend_dir(&self) -> (dir: &str)
        ensures
            dir@ == self@.backend_dir,
    {
        self.backend_dir.as_str()
    }

    /// Whether the isolated interpreter was found when it was last probed.
    pub fn isolated_present(&self) -> (present: bool)
        ensures
            present == self@.isolated_present,
    {
        self.isolated_present
    }

    /// The answer the machine is waiting for.
    pub fn phase(&self) -> (phase: Phase)
        ensures
            phase == self@.phase,
    {
        self.phase
    }

    /// The interpreter that runs the backend, as far as the machine knows.
    pub fn interpreter(&self) -> (interpreter: String)
        ensures
            interpreter@ == self@.interpreter(),
    {
        select_interpreter(self.os, self.backend_dir.as_str(), self.isolated_present)
    }

    /// The environment as the machine knows it. Until the isolated
    /// interpreter has been found it counts as absent.
    pub fn environment(&self) -> (environment: EnvironmentDescriptor)
        ensures
            environment@ == self@.environment(),
    {
        describe_environment(self.os, self.backend_dir.as_str(), self.isolated_present)
    }

    /// A command that runs inside the backend directory.
    fn command(&self, program: String, args: Vec<String>) -> (command: CommandLine)
        ensures
            command@ == (CommandLineView {
                program: program@,
                args: args.deep_view(),
                working_dir: self@.backend_dir,
            }),
    {
        CommandLine { program, args, working_dir: self.backend_dir.clone() }
    }

    /// The request whose answer the machine is waiting for.
    pub fn pending(&self) -> (request: Request)
        ensures
            request@ == self@.pending(),
    {
        let dir = self.backend_dir.as_str();
        match self.phase {
            Phase::InterpreterProbe | Phase::InterpreterRecheck => Request::Probe {
                path: isolated_interpreter_path(self.os, dir),
            },
            Phase::EnvironmentCreation => {
                let names = PlatformPaths::for_family(self.os);
                let program = String::from_str(names.system_interpreter);
                let args = arguments(&["-m", "venv", ENVIRONMENT_DIR]);
                assert(args.deep_view() =~= seq!["-m"@, "venv"@, ENVIRONMENT_DIR@]);
                Request::Run { command: self.command(program, args) }
            },
            Phase::InstallerProbe => Request::Probe { path: installer_path(self.os, dir) },
            Phase::InstallerUpgrade => {
                let args = arguments(&["install", "--upgrade", "pip", "-q"]);
                assert(args.deep_view() =~= seq!["install"@, "--upgrade"@, "pip"@, "-q"@]);
                Request::Run { command: self.command(installer_path(self.os, dir), args) }
            },
            Phase::ManifestProbe => Request::Probe { path: manifest_path(dir) },
            Phase::ManifestInstall => {
                let args = arguments(&["install", "-r", MANIFEST_FILE, "-q"]);
                assert(args.deep_view() =~= seq!["install"@, "-r"@, MANIFEST_FILE@, "-q"@]);
                Request::Run { command: self.command(installer_path(self.os, dir), args) }
            },
            Phase::Launch => {
                let args = arguments(&[ENTRY_POINT]);
                assert(args.deep_view() =~= seq![ENTRY_POINT@]);
                Request::Spawn { command: self.command(self.interpreter(), args) }
            },
        }
    }

    /// Whether `answer` belongs to the request that is outstanding.
    pub fn accepts<H>(&self, answer: &Answer<H>) -> (yes: bool)
        ensures
            yes == self@.accepts(answer@),
    {
        match self.phase {
            Phase::InterpreterProbe
            | Phase::InterpreterRecheck
            | Phase::InstallerProbe
            | Phase::ManifestProbe => match answer {
                Answer::Exists { .. } => true,
                _ => false,
            },
            Phase::EnvironmentCreation
            | Phase::InstallerUpgrade
            | Phase::ManifestInstall => match answer {
                Answer::Ran { .. } => true,
                _ => false,
            },
            Phase::Launch => match answer {
                Answer::Spawned { .. } => true,
                Answer::SpawnFailed { .. } => true,
                _ => false,
            },
        }
    }

    /// The same machine, knowing whether the isolated interpreter exists.
    fn probed(self, present: bool) -> (machine: Provisioner)
        ensures
            machine@ == self@.probed(present),
    {
        Provisioner {
            os: self.os,
            backend_dir: self.backend_dir,
            isolated_present: present,
            phase: self.phase,
        }
    }

    /// The event that reports which interpreter runs the backend.
    fn selection_event(&self) -> (event: ProgressEvent)
        ensures
            event@ == self@.selection_event(),
    {
        ProgressEvent::InterpreterSelected { interpreter: self.interpreter() }
    }

    /// Reports `events` and moves on to `phase`.
    fn proceed<H>(self, phase: Phase, events: Vec<ProgressEvent>) -> (step: Step<H>)
        ensures
            step@ == self@.proceed::<H>(phase, events.deep_view()),
    {
        let machine = Provisioner {
            os: self.os,
            backend_dir: self.backend_dir,
            isolated_present: self.isolated_present,
            phase,
        };
        let request = machine.pending();
        Step::Ask { machine, events, request }
    }

    /// Begins a start: resolves the backend directory and, where that
    /// succeeds, asks whether the isolated interpreter exists.
    ///
    /// Fails, with [`SetupError::PathResolution`], exactly when the backend
    /// directory cannot be resolved; the only event reported then is that
    /// setup began.
    pub fn begin<H>(os: OsFamily, mode: BuildMode, context: &HostContext) -> (step: Step<H>)
        ensures
            step@ == opening::<H>(os, mode, context@),
    {
        match resolve_backend_dir(mode, context) {
            Ok(dir) => {
                let events = two(
                    ProgressEvent::Initializing,
                    ProgressEvent::BackendResolved { dir: dir.clone() },
                );
                let machine = Provisioner {
                    os,
                    backend_dir: dir,
                    isolated_present: false,
                    phase: Phase::InterpreterProbe,
                };
                machine.proceed(Phase::InterpreterProbe, events)
            },
            Err(error) => Step::Failed { events: one(ProgressEvent::Initializing), error },
        }
    }

    /// Takes the host's answer to the outstanding request and decides what
    /// comes next.
    ///
    /// An answer of the wrong kind changes nothing: machine and answer come
    /// back in [`Step::Rejected`].
    pub fn advance<H>(self, answer: Answer<H>) -> (step: Step<H>)
        ensures
            step@ == self@.step(answer@),
            step@ is Rejected <==> !self@.accepts(answer@),
    {
        match self.phase {
            Phase::InterpreterProbe => match answer {
                Answer::Exists { present } => {
                    let probed = self.probed(present);
                    if present {
                        let selected = probed.selection_event();
                        probed.proceed(
                            Phase::InstallerProbe,
                            two(selected, ProgressEvent::EnvironmentPresent),
                        )
                    } else {
                        probed.proceed(
                            Phase::EnvironmentCreation,
                            one(ProgressEvent::CreatingEnvironment),
                        )
                    }
                },
                other => Step::Rejected { machine: self, answer: other },
            },
            Phase::EnvironmentCreation => match answer {
                Answer::Ran { outcome } => self.proceed(
                    Phase::InterpreterRecheck,
                    one(outcome.creation_event()),
                ),
                other => Step::Rejected { machine: self, answer: other },
            },
            Phase::InterpreterRecheck => match answer {
                Answer::Exists { present } => {
                    let probed = self.probed(present);
                    let selected = probed.selection_event();
                    probed.proceed(Phase::InstallerProbe, one(selected))
                },
                other => Step::Rejected { machine: self, answer: other },
            },
            Phase::InstallerProbe => match answer {
                Answer::Exists { present } => if present {
                    self.proceed(
                        Phase::InstallerUpgrade,
                        two(ProgressEvent::CheckingDependencies, ProgressEvent::UpgradingInstaller),
                    )
                } else {
                    self.proceed(Phase::Launch, one(ProgressEvent::Launching))
                },
                other => Step::Rejected { machine: self, answer: other },
            },
            Phase::InstallerUpgrade => match answer {
                Answer::Ran { outcome } => self.proceed(
                    Phase::ManifestProbe,
                    outcome.upgrade_events(),
                ),
                other => Step::Rejected { machine: self, answer: other },
            },
            Phase::ManifestProbe => match answer {
                Answer::Exists { present } => if present {
                    self.proceed(Phase::ManifestInstall, one(ProgressEvent::InstallingManifest))
                } else {
                    self.proceed(Phase::Launch, one(ProgressEvent::Launching))
                },
                other => Step::Rejected { machine: self, answer: other },
            },
            Phase::ManifestInstall => match answer {
                Answer::Ran { outcome } => self.proceed(
                    Phase::Launch,
                    two(outcome.installation_event(), ProgressEvent::Launching),
                ),
                other => Step::Rejected { machine: self, answer: other },
            },
            Phase::Launch => match answer {
                Answer::Spawned { pid, handle } => Step::Launched {
                    events: one(ProgressEvent::Launched { pid }),
                    handle,
                },
                Answer::SpawnFailed { reason } => Step::Failed {
                    events: one(ProgressEvent::LaunchFailed { reason: reason.clone() }),
                    error: SetupError::Launch { reason },
                },
                other => Step::Rejected { machine: self, answer: other },
            },
        }
    }
}

} // verus!
