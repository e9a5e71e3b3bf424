//! A whole start, stated at once: what it reports, what it asks of the host
//! and how it ends, for every way the host's world may answer. The proofs
//! here show that the steps of the [`Provisioner`](crate::provision::Provisioner)
//! add up to exactly that.

use crate::error::SetupErrorView;
use crate::paths::{
    backend_dir_of, installer_of, interpreter_of, isolated_interpreter_of, manifest_of,
    HostContextView,
};
use crate::platform::{BuildMode, OsFamily};
use crate::progress::ProgressEventView;
use crate::provision::{opening, Phase, ProvisionerView, StepView};
use crate::protocol::{AnswerView, CommandOutcomeView, RequestView};
use vstd::prelude::*;

verus! {

/// How the host's world answers during one start. An entry is consulted only
/// where the run comes to ask for it.
pub struct World<H> {
    /// Whether the isolated interpreter exists when the start begins.
    pub isolated_present: bool,
    /// How creating the isolated environment ends.
    pub creation: CommandOutcomeView,
    /// Whether the isolated interpreter exists once its creation was
    /// attempted.
    pub isolated_created: bool,
    /// Whether the isolated environment's installer exists.
    pub installer_present: bool,
    /// How the installer's upgrade of itself ends.
    pub upgrade: CommandOutcomeView,
    /// Whether the dependency manifest exists.
    pub manifest_present: bool,
    /// How installing the manifest ends.
    pub installation: CommandOutcomeView,
    /// How starting the backend ends: its process, or the refusal.
    pub launch: Result<(u32, H), Seq<char>>,
}

impl<H> World<H> {
    /// The answer this world gives to the request of `phase`.
    pub open spec fn answer(self, phase: Phase) -> AnswerView<H> {
        match phase {
            Phase::InterpreterProbe => AnswerView::Exists { present: self.isolated_present },
            Phase::EnvironmentCreation => AnswerView::Ran { outcome: self.creation },
            Phase::InterpreterRecheck => AnswerView::Exists { present: self.isolated_created },
            Phase::InstallerProbe => AnswerView::Exists { present: self.installer_present },
            Phase::InstallerUpgrade => AnswerView::Ran { outcome: self.upgrade },
            Phase::ManifestProbe => AnswerView::Exists { present: self.manifest_present },
            Phase::ManifestInstall => AnswerView::Ran { outcome: self.installation },
            Phase::Launch => match self.launch {
                Ok((pid, handle)) => AnswerView::Spawned { pid, handle },
                Err(reason) => AnswerView::SpawnFailed { reason },
            },
        }
    }

    /// Whether the isolated interpreter exists when the interpreter is
    /// chosen: at once where it is found, after the attempt to create it
    /// where it is not.
    pub open spec fn isolated_chosen(self) -> bool {
        self.isolated_present || self.isolated_created
    }

    /// The events of bringing the isolated environment about and choosing
    /// the interpreter.
    pub open spec fn environment_events(self, os: OsFamily, dir: Seq<char>) -> Seq<
        ProgressEventView,
    > {
        if self.isolated_present {
            seq![
                ProgressEventView::InterpreterSelected {
                    interpreter: isolated_interpreter_of(os, dir),
                },
                ProgressEventView::EnvironmentPresent,
            ]
        } else {
            seq![
                ProgressEventView::CreatingEnvironment,
                self.creation.creation_event(),
                ProgressEventView::InterpreterSelected {
                    interpreter: interpreter_of(os, dir, self.isolated_created),
                },
            ]
        }
    }

    /// The events of installing the dependency manifest: none where it is
    /// absent.
    pub open spec fn manifest_events(self) -> Seq<ProgressEventView> {
        if self.manifest_present {
            seq![ProgressEventView::InstallingManifest, self.installation.installation_event()]
        } else {
            Seq::empty()
        }
    }

    /// The events of bringing dependencies up to date: none where the
    /// installer is absent.
    pub open spec fn dependency_events(self) -> Seq<ProgressEventView> {
        if self.installer_present {
            seq![ProgressEventView::CheckingDependencies, ProgressEventView::UpgradingInstaller]
                + self.upgrade.upgrade_events() + self.manifest_events()
        } else {
            Seq::empty()
        }
    }

    /// The event that reports how starting the backend ended.
    pub open spec fn launch_event(self) -> ProgressEventView {
        match self.launch {
            Ok((pid, handle)) => ProgressEventView::Launched { pid },
            Err(reason) => ProgressEventView::LaunchFailed { reason },
        }
    }

    /// The events of starting the backend.
    pub open spec fn launch_events(self) -> Seq<ProgressEventView> {
        seq![ProgressEventView::Launching, self.launch_event()]
    }

    /// How the start ends in this world.
    pub open spec fn ending(self) -> Ending<H> {
        match self.launch {
            Ok((pid, handle)) => Ending::Launched { handle },
            Err(reason) => Ending::Failed { error: SetupErrorView::Launch { reason } },
        }
    }
}

/// How a run ends.
pub enum Ending<H> {
    /// The backend runs; `handle` is its process.
    Launched { handle: H },
    /// The backend was not started.
    Failed { error: SetupErrorView },
    /// The host gave an answer that did not belong to the request.
    Rejected,
}

/// A whole run: every event reported, every request made, and the ending.
pub struct Run<H> {
    pub events: Seq<ProgressEventView>,
    pub requests: Seq<RequestView>,
    pub ending: Ending<H>,
}

/// How many answers a step may still need.
pub open spec fn answers_needed<H>(step: StepView<H>) -> nat {
    match step {
        StepView::Ask { machine, events, request } => machine.phase.remaining(),
        _ => 0,
    }
}

/// The run that unfolds from `step` when every request is answered as
/// `world` says.
pub open spec fn follow<H>(step: StepView<H>, world: World<H>) -> Run<H>
    decreases answers_needed(step),
{
    match step {
        StepView::Ask { machine, events, request } => {
            let rest = follow(machine.step(world.answer(machine.phase)), world);
            Run {
                events: events + rest.events,
                requests: seq![request] + rest.requests,
                ending: rest.ending,
            }
        },
        StepView::Launched { events, handle } => Run {
            events,
            requests: Seq::empty(),
            ending: Ending::Launched { handle },
        },
        StepView::Failed { events, error } => Run {
            events,
            requests: Seq::empty(),
            ending: Ending::Failed { error },
        },
        StepView::Rejected { machine, answer } => Run {
            events: Seq::empty(),
            requests: Seq::empty(),
            ending: Ending::Rejected,
        },
    }
}

/// Every event of a start with backend directory `dir`, in order.
pub open spec fn expected_events<H>(os: OsFamily, dir: Seq<char>, world: World<H>) -> Seq<
    ProgressEventView,
> {
    seq![ProgressEventView::Initializing, ProgressEventView::BackendResolved { dir }]
        + world.environment_events(os, dir) + world.dependency_events() + world.launch_events()
}

/// The machine as it stands once the interpreter has been chosen.
pub open spec fn chosen<H>(os: OsFamily, dir: Seq<char>, world: World<H>) -> ProvisionerView {
    ProvisionerView {
        os,
        backend_dir: dir,
        isolated_present: world.isolated_chosen(),
        phase: Phase::Launch,
    }
}

/// The requests of bringing the isolated environment about: none where it is
/// present; where it is absent, its creation and a second look for its
/// interpreter.
pub open spec fn environment_requests<H>(machine: ProvisionerView, world: World<H>) -> Seq<
    RequestView,
> {
    if world.isolated_present {
        Seq::empty()
    } else {
        seq![
            RequestView::Run { command: machine.creation_command() },
            RequestView::Probe {
                path: isolated_interpreter_of(machine.os, machine.backend_dir),
            },
        ]
    }
}

/// The requests of installing the dependency manifest: none where it is
/// absent.
pub open spec fn manifest_requests<H>(machine: ProvisionerView, world: World<H>) -> Seq<
    RequestView,
> {
    if world.manifest_present {
        seq![RequestView::Run { command: machine.installation_command() }]
    } else {
        Seq::empty()
    }
}

/// The requests of bringing dependencies up to date: none where the installer
/// is absent.
pub open spec fn dependency_requests<H>(machine: ProvisionerView, world: World<H>) -> Seq<
    RequestView,
> {
    if world.installer_present {
        seq![
            RequestView::Run { command: machine.upgrade_command() },
            RequestView::Probe { path: manifest_of(machine.backend_dir) },
        ] + manifest_requests(machine, world)
    } else {
        Seq::empty()
    }
}

/// Every request of a start with backend directory `dir`, in order.
pub open spec fn expected_requests<H>(os: OsFamily, dir: Seq<char>, world: World<H>) -> Seq<
    RequestView,
> {
    let machine = chosen(os, dir, world);
    seq![RequestView::Probe { path: isolated_interpreter_of(os, dir) }] + environment_requests(
        machine,
        world,
    ) + seq![RequestView::Probe { path: installer_of(os, dir) }] + dependency_requests(
        machine,
        world,
    ) + seq![RequestView::Spawn { command: machine.launch_command() }]
}

/// The whole start, stated at once.
pub open spec fn expected_run<H>(
    os: OsFamily,
    mode: BuildMode,
    context: HostContextView,
    world: World<H>,
) -> Run<H> {
    match backend_dir_of(mode, context) {
        Some(dir) => Run {
            events: expected_events(os, dir, world),
            requests: expected_requests(os, dir, world),
            ending: world.ending(),
        },
        None => Run {
            events: seq![ProgressEventView::Initializing],
            requests: Seq::empty(),
            ending: Ending::Failed { error: SetupErrorView::PathResolution },
        },
    }
}

/// The run that unfolds once the outstanding request of `machine` is
/// answered.
spec fn remainder<H>(machine: ProvisionerView, world: World<H>) -> Run<H> {
    follow(machine.step(world.answer(machine.phase)), world)
}

/// The machine as it will stand once the interpreter has been chosen.
spec fn settled<H>(machine: ProvisionerView, world: World<H>) -> ProvisionerView {
    match machine.phase {
        Phase::InterpreterProbe => machine.probed(world.isolated_chosen()),
        Phase::EnvironmentCreation | Phase::InterpreterRecheck => machine.probed(
            world.isolated_created,
        ),
        _ => machine,
    }
}

/// The events still to come once the outstanding request of `machine` is
/// answered.
spec fn events_after<H>(machine: ProvisionerView, world: World<H>) -> Seq<ProgressEventView> {
    match machine.phase {
        Phase::InterpreterProbe => world.environment_events(machine.os, machine.backend_dir)
            + world.dependency_events() + world.launch_events(),
        Phase::EnvironmentCreation => seq![
            world.creation.creation_event(),
            settled(machine, world).selection_event(),
        ] + world.dependency_events() + world.launch_events(),
        Phase::InterpreterRecheck => seq![settled(machine, world).selection_event()]
            + world.dependency_events() + world.launch_events(),
        Phase::InstallerProbe => world.dependency_events() + world.launch_events(),
        Phase::InstallerUpgrade => world.upgrade.upgrade_events() + world.manifest_events()
            + world.launch_events(),
        Phase::ManifestProbe => world.manifest_events() + world.launch_events(),
        Phase::ManifestInstall => seq![world.installation.installation_event()]
            + world.launch_events(),
        Phase::Launch => seq![world.launch_event()],
    }
}

/// The requests still to come once the outstanding request of `machine` is
/// answered.
spec fn requests_after<H>(machine: ProvisionerView, world: World<H>) -> Seq<RequestView> {
    let last = settled(machine, world);
    let recheck = seq![
        RequestView::Probe { path: isolated_interpreter_of(machine.os, machine.backend_dir) },
    ];
    let installer = seq![
        RequestView::Probe { path: installer_of(machine.os, machine.backend_dir) },
    ];
    let launch = seq![RequestView::Spawn { command: last.launch_command() }];
    match machine.phase {
        Phase::InterpreterProbe => environment_requests(last, world) + installer
            + dependency_requests(last, world) + launch,
        Phase::EnvironmentCreation => recheck + installer + dependency_requests(last, world)
            + launch,
        Phase::InterpreterRecheck => installer + dependency_requests(last, world) + launch,
        Phase::InstallerProbe => dependency_requests(last, world) + launch,
        Phase::InstallerUpgrade => seq![
            RequestView::Probe { path: manifest_of(machine.backend_dir) },
        ] + manifest_requests(last, world) + launch,
        Phase::ManifestProbe => manifest_requests(last, world) + launch,
        Phase::ManifestInstall => launch,
        Phase::Launch => Seq::empty(),
    }
}

/// Whether the run after the outstanding request of `machine` is what is
/// still to come from its phase on.
spec fn adds_up<H>(machine: ProvisionerView, world: World<H>) -> bool {
    &&& remainder(machine, world).events == events_after(machine, world)
    &&& remainder(machine, world).requests == requests_after(machine, world)
    &&& remainder(machine, world).ending == world.ending()
}

/// One step further: the run after an answer that leads to `next` is what
/// that step reports and asks, followed by the run after the next answer.
proof fn remainder_unfolds<H>(
    machine: ProvisionerView,
    world: World<H>,
    next: ProvisionerView,
    reported: Seq<ProgressEventView>,
)
    requires
        machine.step(world.answer(machine.phase)) == (StepView::<H>::Ask {
            machine: next,
            events: reported,
            request: next.pending(),
        }),
    ensures
        remainder(machine, world).events == reported + remainder(next, world).events,
        remainder(machine, world).requests == seq![next.pending()] + remainder(
            next,
            world,
        ).requests,
        remainder(machine, world).ending == remainder(next, world).ending,
{
    reveal_with_fuel(follow, 2);
}

/// The steps add up from the launch on.
proof fn launch_adds_up<H>(machine: ProvisionerView, world: World<H>)
    requires
        machine.phase == Phase::Launch,
    ensures
        adds_up(machine, world),
{
    reveal_with_fuel(follow, 1);
    assert(remainder(machine, world).events =~= seq![world.launch_event()]);
}

/// The steps add up from the installation of the manifest on.
proof fn manifest_install_adds_up<H>(machine: ProvisionerView, world: World<H>)
    requires
        machine.phase == Phase::ManifestInstall,
    ensures
        adds_up(machine, world),
{
    let next = machine.at(Phase::Launch);
    let reported = seq![world.installation.installation_event(), ProgressEventView::Launching];
    remainder_unfolds(machine, world, next, reported);
    launch_adds_up(next, world);
    assert(reported + seq![world.launch_event()] =~= seq![
        world.installation.installation_event(),
    ] + world.launch_events());
    assert(seq![next.pending()] + Seq::<RequestView>::empty() =~= seq![next.pending()]);
}

/// The steps add up from the probe of the manifest on.
proof fn manifest_probe_adds_up<H>(machine: ProvisionerView, world: World<H>)
    requires
        machine.phase == Phase::ManifestProbe,
    ensures
        adds_up(machine, world),
{
    if world.manifest_present {
        let next = machine.at(Phase::ManifestInstall);
        let reported = seq![ProgressEventView::InstallingManifest];
        remainder_unfolds(machine, world, next, reported);
        manifest_install_adds_up(next, world);
        assert(reported + (seq![world.installation.installation_event()]
            + world.launch_events()) =~= world.manifest_events() + world.launch_events());
    } else {
        let next = machine.at(Phase::Launch);
        let reported = seq![ProgressEventView::Launching];
        remainder_unfolds(machine, world, next, reported);
        launch_adds_up(next, world);
        assert(reported + seq![world.launch_event()] =~= world.manifest_events()
            + world.launch_events());
        assert(seq![next.pending()] + Seq::<RequestView>::empty() =~= manifest_requests(
            machine,
            world,
        ) + seq![next.pending()]);
    }
}

/// The steps add up from the installer's upgrade on.
proof fn installer_upgrade_adds_up<H>(machine: ProvisionerView, world: World<H>)
    requires
        machine.phase == Phase::InstallerUpgrade,
    ensures
        adds_up(machine, world),
{
    let next = machine.at(Phase::ManifestProbe);
    let reported = world.upgrade.upgrade_events();
    remainder_unfolds(machine, world, next, reported);
    manifest_probe_adds_up(next, world);
    let launch = seq![RequestView::Spawn { command: machine.launch_command() }];
    assert(reported + (world.manifest_events() + world.launch_events()) =~= reported
        + world.manifest_events() + world.launch_events());
    assert(seq![next.pending()] + (manifest_requests(machine, world) + launch) =~= seq![
        next.pending(),
    ] + manifest_requests(machine, world) + launch);
}

/// The steps add up from the probe of the installer on.
proof fn installer_probe_adds_up<H>(machine: ProvisionerView, world: World<H>)
    requires
        machine.phase == Phase::InstallerProbe,
    ensures
        adds_up(machine, world),
{
    let launch = seq![RequestView::Spawn { command: machine.launch_command() }];
    if world.installer_present {
        let next = machine.at(Phase::InstallerUpgrade);
        let reported = seq![
            ProgressEventView::CheckingDependencies,
            ProgressEventView::UpgradingInstaller,
        ];
        remainder_unfolds(machine, world, next, reported);
        installer_upgrade_adds_up(next, world);
        assert(reported + (world.upgrade.upgrade_events() + world.manifest_events()
            + world.launch_events()) =~= world.dependency_events() + world.launch_events());
        let manifest = seq![RequestView::Probe { path: manifest_of(machine.backend_dir) }];
        assert(seq![next.pending()] + (manifest + manifest_requests(machine, world) + launch)
            =~= dependency_requests(machine, world) + launch);
    } else {
        let next = machine.at(Phase::Launch);
        let reported = seq![ProgressEventView::Launching];
        remainder_unfolds(machine, world, next, reported);
        launch_adds_up(next, world);
        assert(reported + seq![world.launch_event()] =~= world.dependency_events()
            + world.launch_events());
        assert(seq![next.pending()] + Seq::<RequestView>::empty() =~= dependency_requests(
            machine,
            world,
        ) + launch);
    }
}

/// The steps add up from the second probe of the interpreter on.
proof fn interpreter_recheck_adds_up<H>(machine: ProvisionerView, world: World<H>)
    requires
        machine.phase == Phase::InterpreterRecheck,
    ensures
        adds_up(machine, world),
{
    let last = machine.probed(world.isolated_created);
    let next = last.at(Phase::InstallerProbe);
    let reported = seq![last.selection_event()];
    remainder_unfolds(machine, world, next, reported);
    installer_probe_adds_up(next, world);
    let launch = seq![RequestView::Spawn { command: last.launch_command() }];
    assert(reported + (world.dependency_events() + world.launch_events()) =~= reported
        + world.dependency_events() + world.launch_events());
    assert(seq![next.pending()] + (dependency_requests(last, world) + launch) =~= seq![
        next.pending(),
    ] + dependency_requests(last, world) + launch);
}

/// The steps add up from the creation of the environment on.
proof fn environment_creation_adds_up<H>(machine: ProvisionerView, world: World<H>)
    requires
        machine.phase == Phase::EnvironmentCreation,
    ensures
        adds_up(machine, world),
{
    let last = machine.probed(world.isolated_created);
    let next = machine.at(Phase::InterpreterRecheck);
    let reported = seq![world.creation.creation_event()];
    remainder_unfolds(machine, world, next, reported);
    interpreter_recheck_adds_up(next, world);
    let launch = seq![RequestView::Spawn { command: last.launch_command() }];
    let installer = seq![
        RequestView::Probe { path: installer_of(machine.os, machine.backend_dir) },
    ];
    assert(reported + (seq![last.selection_event()] + world.dependency_events()
        + world.launch_events()) =~= seq![
        world.creation.creation_event(),
        last.selection_event(),
    ] + world.dependency_events() + world.launch_events());
    assert(seq![next.pending()] + (installer + dependency_requests(last, world) + launch)
        =~= seq![next.pending()] + installer + dependency_requests(last, world) + launch);
}

/// The steps add up from the first probe of the interpreter on.
proof fn interpreter_probe_adds_up<H>(machine: ProvisionerView, world: World<H>)
    requires
        machine.phase == Phase::InterpreterProbe,
    ensures
        adds_up(machine, world),
{
    let last = machine.probed(world.isolated_chosen());
    let launch = seq![RequestView::Spawn { command: last.launch_command() }];
    let installer = seq![
        RequestView::Probe { path: installer_of(machine.os, machine.backend_dir) },
    ];
    if world.isolated_present {
        let next = last.at(Phase::InstallerProbe);
        let reported = seq![last.selection_event(), ProgressEventView::EnvironmentPresent];
        remainder_unfolds(machine, world, next, reported);
        installer_probe_adds_up(next, world);
        assert(reported + (world.dependency_events() + world.launch_events())
            =~= world.environment_events(machine.os, machine.backend_dir)
            + world.dependency_events() + world.launch_events());
        assert(seq![next.pending()] + (dependency_requests(last, world) + launch)
            =~= environment_requests(last, world) + installer + dependency_requests(last, world)
            + launch);
    } else {
        let next = machine.probed(false).at(Phase::EnvironmentCreation);
        let reported = seq![ProgressEventView::CreatingEnvironment];
        remainder_unfolds(machine, world, next, reported);
        environment_creation_adds_up(next, world);
        let recheck = seq![
            RequestView::Probe {
                path: isolated_interpreter_of(machine.os, machine.backend_dir),
            },
        ];
        assert(last == next.probed(world.isolated_created).at(Phase::InterpreterProbe));
        assert(reported + (seq![world.creation.creation_event(), last.selection_event()]
            + world.dependency_events() + world.launch_events()) =~= world.environment_events(
            machine.os,
            machine.backend_dir,
        ) + world.dependency_events() + world.launch_events());
        assert(seq![next.pending()] + (recheck + installer + dependency_requests(last, world)
            + launch) =~= environment_requests(last, world) + installer + dependency_requests(
            last,
            world,
        ) + launch);
    }
}

/// The steps of the machine add up to the whole start: following the opening
/// step through any world reports exactly the expected events, makes exactly
/// the expected requests, and ends as the world's launch ends.
pub proof fn steps_add_up_to_the_run<H>(
    os: OsFamily,
    mode: BuildMode,
    context: HostContextView,
    world: World<H>,
)
    ensures
        follow(opening(os, mode, context), world) == expected_run(os, mode, context, world),
{
    let run = follow(opening(os, mode, context), world);
    let expected = expected_run(os, mode, context, world);
    match opening::<H>(os, mode, context) {
        StepView::Ask { machine, events, request } => {
            interpreter_probe_adds_up(machine, world);
            assert(run.events == events + remainder(machine, world).events) by {
                reveal_with_fuel(follow, 1);
            }
            assert(run.requests == seq![request] + remainder(machine, world).requests) by {
                reveal_with_fuel(follow, 1);
            }
            assert(run.ending == remainder(machine, world).ending) by {
                reveal_with_fuel(follow, 1);
            }
            assert(run.events =~= expected.events);
            assert(run.requests =~= expected.requests);
        },
        _ => {
            reveal_with_fuel(follow, 1);
        },
    }
}

/// Every start that resolved its backend directory comes to ask for the
/// backend to be started, as its last request and with the interpreter that
/// was chosen, however preparing the environment went; and it ends as that
/// launch ends.
pub proof fn every_run_comes_to_launch<H>(
    os: OsFamily,
    mode: BuildMode,
    context: HostContextView,
    world: World<H>,
)
    requires
        backend_dir_of(mode, context) is Some,
    ensures
        ({
            let dir = backend_dir_of(mode, context).unwrap();
            let run = follow(opening(os, mode, context), world);
            &&& run.requests.len() >= 3
            &&& run.requests.last() == RequestView::Spawn {
                command: chosen(os, dir, world).launch_command(),
            }
            &&& run.ending == world.ending()
            &&& run.ending is Launched <==> world.launch is Ok
        }),
{
    steps_add_up_to_the_run(os, mode, context, world);
}

/// The three commands of preparation are three different commands.
proof fn commands_differ(machine: ProvisionerView)
    ensures
        machine.creation_command() != machine.upgrade_command(),
        machine.creation_command() != machine.installation_command(),
        machine.upgrade_command() != machine.installation_command(),
{
    reveal_strlit("--upgrade");
    reveal_strlit("-r");
    assert(machine.creation_command().args.len() == 3);
    assert(machine.upgrade_command().args.len() == 4);
    assert(machine.installation_command().args.len() == 4);
    assert(machine.upgrade_command().args[1].len() == 9);
    assert(machine.installation_command().args[1].len() == 2);
}

/// Where the dependency manifest is absent, preparation still completes and
/// the backend is started: the run never reports or asks that the manifest
/// be installed, its last request is to start the backend, and it ends as
/// that launch ends.
pub proof fn absent_manifest_is_passed_over<H>(
    os: OsFamily,
    mode: BuildMode,
    context: HostContextView,
    world: World<H>,
)
    requires
        backend_dir_of(mode, context) is Some,
        !world.manifest_present,
    ensures
        ({
            let dir = backend_dir_of(mode, context).unwrap();
            let run = follow(opening(os, mode, context), world);
            &&& run.requests.last() == RequestView::Spawn {
                command: chosen(os, dir, world).launch_command(),
            }
            &&& run.ending == world.ending()
            &&& !run.events.contains(ProgressEventView::InstallingManifest)
            &&& !run.requests.contains(
                RequestView::Run { command: chosen(os, dir, world).installation_command() },
            )
        }),
{
    let dir = backend_dir_of(mode, context).unwrap();
    let machine = chosen(os, dir, world);
    let run = follow(opening(os, mode, context), world);
    every_run_comes_to_launch(os, mode, context, world);
    steps_add_up_to_the_run(os, mode, context, world);
    assert forall|i: int| 0 <= i < run.events.len() implies run.events[i]
        != ProgressEventView::InstallingManifest by {}
    assert forall|i: int| 0 <= i < run.requests.len() implies run.requests[i]
        != (RequestView::Run { command: machine.installation_command() }) by {
        commands_differ(machine);
    }
}

/// The interpreter follows what is there when it is chosen: every start runs
/// the backend with the isolated interpreter where that exists then, and
/// with the system-wide one where it does not.
pub proof fn interpreter_follows_presence<H>(
    os: OsFamily,
    mode: BuildMode,
    context: HostContextView,
    world: World<H>,
)
    requires
        backend_dir_of(mode, context) is Some,
    ensures
        ({
            let dir = backend_dir_of(mode, context).unwrap();
            let run = follow(opening(os, mode, context), world);
            &&& run.requests.last() matches RequestView::Spawn { command }
            &&& command.program == (if world.isolated_chosen() {
                isolated_interpreter_of(os, dir)
            } else {
                os.system_interpreter_name()
            })
            &&& run.events.contains(
                ProgressEventView::InterpreterSelected { interpreter: command.program },
            )
        }),
{
    let dir = backend_dir_of(mode, context).unwrap();
    let run = follow(opening(os, mode, context), world);
    let program = chosen(os, dir, world).interpreter();
    every_run_comes_to_launch(os, mode, context, world);
    steps_add_up_to_the_run(os, mode, context, world);
    let selected = ProgressEventView::InterpreterSelected { interpreter: program };
    if world.isolated_present {
        assert(run.events[2] == selected);
    } else {
        assert(run.events[4] == selected);
    }
}

/// Where the isolated interpreter is found, every start prefers it to the
/// system-wide one: it is the program of the launch, and the run never
/// reports or asks that an environment be created.
pub proof fn isolated_interpreter_is_preferred<H>(
    os: OsFamily,
    mode: BuildMode,
    context: HostContextView,
    world: World<H>,
)
    requires
        backend_dir_of(mode, context) is Some,
        world.isolated_present,
    ensures
        ({
            let dir = backend_dir_of(mode, context).unwrap();
            let run = follow(opening(os, mode, context), world);
            &&& run.requests.last() matches RequestView::Spawn { command }
            &&& command.program == isolated_interpreter_of(os, dir)
            &&& !run.events.contains(ProgressEventView::CreatingEnvironment)
            &&& !run.requests.contains(
                RequestView::Run { command: chosen(os, dir, world).creation_command() },
            )
        }),
{
    let dir = backend_dir_of(mode, context).unwrap();
    let machine = chosen(os, dir, world);
    let run = follow(opening(os, mode, context), world);
    every_run_comes_to_launch(os, mode, context, world);
    steps_add_up_to_the_run(os, mode, context, world);
    assert forall|i: int| 0 <= i < run.events.len() implies run.events[i]
        != ProgressEventView::CreatingEnvironment by {}
    assert forall|i: int| 0 <= i < run.requests.len() implies run.requests[i]
        != (RequestView::Run { command: machine.creation_command() }) by {
        commands_differ(machine);
    }
}

} // verus!
