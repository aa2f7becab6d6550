//! The control loop of a development session, as a state machine.
//!
//! The supervisor owns the single application process. It never acts by
//! itself: `step` takes what happened (a `Signal`) and answers with what
//! has to be done next (an `Action`). The caller carries the action out and
//! comes back with its outcome. A signal that does not answer the pending
//! action changes nothing.

use vstd::prelude::*;
use crate::events::{
    change_event,
    change_of,
    is_config_change,
    names_config_file,
    ChangeEvent,
    Notification,
    NotificationView,
};
use crate::paths::final_component;

verus! {

/// Whether the session watches the project or runs the application once.
#[derive(Clone, Copy, Debug, PartialEq, Eq, Structural)]
pub enum Mode {
    Watch,
    NoWatch,
}

/// Where the control loop stands.
#[derive(Clone, Copy, Debug, PartialEq, Eq, Structural)]
pub enum Phase {
    Starting,
    Running,
    ReloadingConfig,
    Restarting,
    Stopped,
}

/// What the caller has to do next.
#[derive(Clone, Copy, Debug, PartialEq, Eq, Structural)]
pub enum Action {
    /// Start the application with the run strategy.
    Spawn,
    /// Wait for the next change event.
    AwaitChange,
    /// Load the configuration anew.
    LoadConfig,
    /// Regenerate the build manifest from the configuration just loaded.
    RewriteManifest,
    /// Kill the application process.
    Kill,
    /// Wait until the application process has fully exited.
    AwaitExit,
    /// End the session.
    Halt,
}

/// Why a process ended.
#[derive(Clone, Copy, Debug, PartialEq, Eq, Structural)]
pub enum ExitReason {
    NormalExit,
    NoMoreBuilds,
    TriggeredKill,
}

/// How a process ended.
#[derive(Clone, Copy, Debug, PartialEq, Eq, Structural)]
pub struct ExitStatus {
    /// The exit code, where the process ended with one.
    pub code: Option<i32>,
    pub reason: ExitReason,
}

/// What the supervisor knows of the application process.
#[derive(Clone, Copy, Debug, PartialEq, Eq, Structural)]
pub enum Process {
    /// None was started yet.
    Absent,
    Running,
    /// A kill was issued; the exit is not confirmed yet.
    Killing,
    Exited(ExitStatus),
}

/// The fatal errors of a session. None is retried.
#[derive(Clone, Copy, Debug, PartialEq, Eq, Structural)]
pub enum Failure {
    Spawn,
    ConfigLoad,
    Manifest,
    Kill,
}

/// What happened: a change in the watched scope, or the outcome of an
/// action.
#[derive(Clone, Copy, Debug, PartialEq, Eq, Structural)]
pub enum Signal {
    Spawned,
    SpawnFailed,
    /// A file other than the configuration file changed.
    SourceChanged,
    /// The configuration file changed.
    ConfigChanged,
    ConfigLoaded,
    ConfigLoadFailed,
    ManifestWritten,
    ManifestFailed,
    KillSent,
    KillFailed,
    Exited(ExitStatus),
}

/// The state of the control loop.
#[derive(Clone, Copy, Debug, PartialEq, Eq, Structural)]
pub struct SupervisorState {
    pub mode: Mode,
    pub phase: Phase,
    /// The action whose outcome the loop waits for.
    pub pending: Action,
    pub process: Process,
    /// The error that stopped the session, if one did.
    pub failure: Option<Failure>,
}

impl SupervisorState {
    /// The state in which a session begins.
    pub open spec fn initial(mode: Mode) -> SupervisorState {
        SupervisorState {
            mode,
            phase: Phase::Starting,
            pending: Action::Spawn,
            process: Process::Absent,
            failure: None,
        }
    }

    /// The state after a fatal error.
    pub open spec fn stopped_by(self, failure: Failure) -> SupervisorState {
        SupervisorState {
            phase: Phase::Stopped,
            pending: Action::Halt,
            failure: Some(failure),
            ..self
        }
    }

    /// The number of application processes that may be alive.
    pub open spec fn live(self) -> nat {
        match self.process {
            Process::Running | Process::Killing => 1,
            Process::Absent | Process::Exited(_) => 0,
        }
    }

    /// The states that a session can be in.
    pub open spec fn wf(self) -> bool {
        match self.phase {
            Phase::Starting => {
                &&& self.pending == Action::Spawn
                &&& self.process == Process::Absent
                &&& self.failure is None
            },
            Phase::Running => {
                &&& self.process == Process::Running
                &&& self.failure is None
                &&& self.pending == match self.mode {
                    Mode::Watch => Action::AwaitChange,
                    Mode::NoWatch => Action::AwaitExit,
                }
            },
            Phase::ReloadingConfig => {
                &&& self.mode == Mode::Watch
                &&& self.process == Process::Running
                &&& self.failure is None
                &&& (self.pending == Action::LoadConfig || self.pending == Action::RewriteManifest)
            },
            Phase::Restarting => {
                &&& self.mode == Mode::Watch
                &&& self.failure is None
                &&& match self.pending {
                    Action::Kill => self.process == Process::Running,
                    Action::AwaitExit => self.process == Process::Killing,
                    Action::Spawn => self.process is Exited,
                    _ => false,
                }
            },
            Phase::Stopped => {
                &&& self.pending == Action::Halt
                &&& match self.failure {
                    Some(Failure::Spawn) => self.live() == 0,
                    Some(_) => self.mode == Mode::Watch && self.process == Process::Running,
                    None => self.mode == Mode::NoWatch && self.process is Exited,
                }
            },
        }
    }

    /// The state after `signal`.
    pub open spec fn next(self, signal: Signal) -> SupervisorState {
        match (self.pending, signal) {
            (Action::Spawn, Signal::Spawned) => SupervisorState {
                phase: Phase::Running,
                pending: match self.mode {
                    Mode::Watch => Action::AwaitChange,
                    Mode::NoWatch => Action::AwaitExit,
                },
                process: Process::Running,
                ..self
            },
            (Action::Spawn, Signal::SpawnFailed) => self.stopped_by(Failure::Spawn),
            (Action::AwaitChange, Signal::SourceChanged) => SupervisorState {
                phase: Phase::Restarting,
                pending: Action::Kill,
                ..self
            },
            (Action::AwaitChange, Signal::ConfigChanged) => SupervisorState {
                phase: Phase::ReloadingConfig,
                pending: Action::LoadConfig,
                ..self
            },
            (Action::LoadConfig, Signal::ConfigLoaded) => SupervisorState {
                pending: Action::RewriteManifest,
                ..self
            },
            (Action::LoadConfig, Signal::ConfigLoadFailed) => self.stopped_by(Failure::ConfigLoad),
            (Action::RewriteManifest, Signal::ManifestWritten) => SupervisorState {
                phase: Phase::Running,
                pending: Action::AwaitChange,
                ..self
            },
            (Action::RewriteManifest, Signal::ManifestFailed) => self.stopped_by(
                Failure::Manifest,
            ),
            (Action::Kill, Signal::KillSent) => SupervisorState {
                pending: Action::AwaitExit,
                process: Process::Killing,
                ..self
            },
            (Action::Kill, Signal::KillFailed) => self.stopped_by(Failure::Kill),
            (Action::AwaitExit, Signal::Exited(status)) => if self.phase == Phase::Restarting {
                SupervisorState { pending: Action::Spawn, process: Process::Exited(status), ..self }
            } else {
                SupervisorState {
                    phase: Phase::Stopped,
                    pending: Action::Halt,
                    process: Process::Exited(status),
                    ..self
                }
            },
            _ => self,
        }
    }

    /// Whether `signal` reports, in this state, that a process was started.
    pub open spec fn starts_process(self, signal: Signal) -> bool {
        self.pending == Action::Spawn && signal == Signal::Spawned
    }

    /// Whether `signal` confirms, in this state, that the process has exited.
    pub open spec fn confirms_exit(self, signal: Signal) -> bool {
        self.pending == Action::AwaitExit && signal is Exited
    }

    /// The state after a sequence of signals.
    pub open spec fn run(self, signals: Seq<Signal>) -> SupervisorState
        decreases signals.len(),
    {
        if signals.len() == 0 {
            self
        } else {
            self.run(signals.drop_last()).next(signals.last())
        }
    }

    /// The number of processes started over a sequence of signals.
    pub open spec fn started(self, signals: Seq<Signal>) -> nat
        decreases signals.len(),
    {
        if signals.len() == 0 {
            0
        } else {
            let before = self.run(signals.drop_last());
            self.started(signals.drop_last()) + if before.starts_process(signals.last()) {
                1nat
            } else {
                0nat
            }
        }
    }

    /// The number of confirmed exits over a sequence of signals.
    pub open spec fn exited(self, signals: Seq<Signal>) -> nat
        decreases signals.len(),
    {
        if signals.len() == 0 {
            0
        } else {
            let before = self.run(signals.drop_last());
            self.exited(signals.drop_last()) + if before.confirms_exit(signals.last()) {
                1nat
            } else {
                0nat
            }
        }
    }
}

/// The fatal error that `signal` reports of the action `pending`, if it
/// reports one.
pub open spec fn failure_of(pending: Action, signal: Signal) -> Option<Failure> {
    match (pending, signal) {
        (Action::Spawn, Signal::SpawnFailed) => Some(Failure::Spawn),
        (Action::LoadConfig, Signal::ConfigLoadFailed) => Some(Failure::ConfigLoad),
        (Action::RewriteManifest, Signal::ManifestFailed) => Some(Failure::Manifest),
        (Action::Kill, Signal::KillFailed) => Some(Failure::Kill),
        _ => None,
    }
}

/// The signal that a change event amounts to, given the final component of
/// its path.
pub open spec fn signal_of_change(name: Option<Seq<char>>) -> Signal {
    if names_config_file(name) {
        Signal::ConfigChanged
    } else {
        Signal::SourceChanged
    }
}

/// The state after a notification of the watcher backend: that after the
/// change which the notification stands for, and the same state where it
/// stands for none.
pub open spec fn after_notification(
    state: SupervisorState,
    notification: NotificationView,
) -> SupervisorState {
    match change_of(notification) {
        Some(change) => state.next(signal_of_change(final_component(change.path))),
        None => state,
    }
}

/// The supervisor of one development session: the control state, the run
/// strategy that every spawn uses, and the configuration path that every
/// reload uses.
pub struct DevSupervisor<S> {
    state: SupervisorState,
    strategy: S,
    config: Option<String>,
}

impl<S> View for DevSupervisor<S> {
    type V = SupervisorState;

    closed spec fn view(&self) -> SupervisorState {
        self.state
    }
}

impl<S> DevSupervisor<S> {
    #[verifier::type_invariant]
    spec fn inv(self) -> bool {
        self.state.wf()
    }

    /// The run strategy.
    pub closed spec fn run_strategy(&self) -> S {
        self.strategy
    }

    /// The explicit configuration path, if the session has one.
    pub closed spec fn config_path(&self) -> Option<Seq<char>> {
        self.config.deep_view()
    }

    /// A supervisor at the start of a session.
    pub fn new(strategy: S, config: Option<String>, no_watch: bool) -> (supervisor: Self)
        ensures
            supervisor@ == SupervisorState::initial(
                if no_watch {
                    Mode::NoWatch
                } else {
                    Mode::Watch
                },
            ),
            supervisor.run_strategy() == strategy,
            supervisor.config_path() == config.deep_view(),
    {
        let mode = if no_watch {
            Mode::NoWatch
        } else {
            Mode::Watch
        };
        DevSupervisor {
            state: SupervisorState {
                mode,
                phase: Phase::Starting,
                pending: Action::Spawn,
                process: Process::Absent,
                failure: None,
            },
            strategy,
            config,
        }
    }

    /// The control state.
    pub fn state(&self) -> (state: SupervisorState)
        ensures
            state == self@,
            state.wf(),
    {
        proof {
            use_type_invariant(self);
        }
        self.state
    }

    /// The action whose outcome the supervisor waits for.
    pub fn pending(&self) -> (action: Action)
        ensures
            action == self@.pending,
    {
        self.state.pending
    }

    /// Whether the session has ended.
    pub fn is_stopped(&self) -> (stopped: bool)
        ensures
            stopped == (self@.phase == Phase::Stopped),
    {
        self.state.phase == Phase::Stopped
    }

    /// The error that ended the session, if one did.
    pub fn failure(&self) -> (failure: Option<Failure>)
        ensures
            failure == self@.failure,
    {
        self.state.failure
    }

    /// The run strategy, the same for every spawn of the session.
    pub fn strategy(&self) -> (strategy: &S)
        ensures
            *strategy == self.run_strategy(),
    {
        &self.strategy
    }

    /// The configuration path, the same for every reload of the session.
    pub fn config(&self) -> (config: &Option<String>)
        ensures
            config.deep_view() == self.config_path(),
    {
        &self.config
    }

    /// Takes note of `signal` and answers with the action to carry out next.
    pub fn step(&mut self, signal: Signal) -> (action: Action)
        ensures
            final(self)@ == old(self)@.next(signal),
            final(self)@.wf(),
            action == final(self)@.pending,
            final(self).run_strategy() == old(self).run_strategy(),
            final(self).config_path() == old(self).config_path(),
    {
        proof {
            use_type_invariant(&*self);
            lemma_next_preserves_wf(self.state, signal);
        }
        let state = self.state;
        let after = match (state.pending, signal) {
            (Action::Spawn, Signal::Spawned) => SupervisorState {
                phase: Phase::Running,
                pending: match state.mode {
                    Mode::Watch => Action::AwaitChange,
                    Mode::NoWatch => Action::AwaitExit,
                },
                process: Process::Running,
                ..state
            },
            (Action::Spawn, Signal::SpawnFailed) => stopped(state, Failure::Spawn),
            (Action::AwaitChange, Signal::SourceChanged) => SupervisorState {
                phase: Phase::Restarting,
                pending: Action::Kill,
                ..state
            },
            (Action::AwaitChange, Signal::ConfigChanged) => SupervisorState {
                phase: Phase::ReloadingConfig,
                pending: Action::LoadConfig,
                ..state
            },
            (Action::LoadConfig, Signal::ConfigLoaded) => SupervisorState {
                pending: Action::RewriteManifest,
                ..state
            },
            (Action::LoadConfig, Signal::ConfigLoadFailed) => stopped(state, Failure::ConfigLoad),
            (Action::RewriteManifest, Signal::ManifestWritten) => SupervisorState {
                phase: Phase::Running,
                pending: Action::AwaitChange,
                ..state
            },
            (Action::RewriteManifest, Signal::ManifestFailed) => stopped(state, Failure::Manifest),
            (Action::Kill, Signal::KillSent) => SupervisorState {
                pending: Action::AwaitExit,
                process: Process::Killing,
                ..state
            },
            (Action::Kill, Signal::KillFailed) => stopped(state, Failure::Kill),
            (Action::AwaitExit, Signal::Exited(status)) => if state.phase == Phase::Restarting {
                SupervisorState { pending: Action::Spawn, process: Process::Exited(status), ..state }
            } else {
                SupervisorState {
                    phase: Phase::Stopped,
                    pending: Action::Halt,
                    process: Process::Exited(status),
                    ..state
                }
            },
            _ => state,
        };
        self.state = after;
        after.pending
    }

    /// Takes note of a change in the watched scope: a change to the
    /// configuration file asks for a reload, any other for a restart.
    pub fn observe(&mut self, event: &ChangeEvent) -> (action: Action)
        ensures
            final(self)@ == old(self)@.next(signal_of_change(final_component(event.path@))),
            final(self)@.wf(),
            action == final(self)@.pending,
            final(self).run_strategy() == old(self).run_strategy(),
            final(self).config_path() == old(self).config_path(),
    {
        let signal = if is_config_change(event) {
            Signal::ConfigChanged
        } else {
            Signal::SourceChanged
        };
        self.step(signal)
    }

    /// Takes note of a notification of the watcher backend. One that stands
    /// for no change leaves everything as it is.
    pub fn notice(&mut self, notification: Notification) -> (action: Action)
        ensures
            final(self)@ == after_notification(old(self)@, notification@),
            final(self)@.wf(),
            action == final(self)@.pending,
            final(self).run_strategy() == old(self).run_strategy(),
            final(self).config_path() == old(self).config_path(),
    {
        match change_event(notification) {
            Some(change) => self.observe(&change),
            None => {
                proof {
                    use_type_invariant(&*self);
                }
                self.state.pending
            },
        }
    }
}

/// The state after a fatal error.
fn stopped(state: SupervisorState, failure: Failure) -> (after: SupervisorState)
    ensures
        after == state.stopped_by(failure),
{
    SupervisorState {
        phase: Phase::Stopped,
        pending: Action::Halt,
        failure: Some(failure),
        ..state
    }
}

/// Every step leads from a state of a session to a state of a session.
pub proof fn lemma_next_preserves_wf(state: SupervisorState, signal: Signal)
    requires
        state.wf(),
    ensures
        state.next(signal).wf(),
{
}

/// Whatever happens, a session stays in the states of a session.
pub proof fn lemma_run_preserves_wf(state: SupervisorState, signals: Seq<Signal>)
    requires
        state.wf(),
    ensures
        state.run(signals).wf(),
    decreases signals.len(),
{
    if signals.len() > 0 {
        lemma_run_preserves_wf(state, signals.drop_last());
        lemma_next_preserves_wf(state.run(signals.drop_last()), signals.last());
    }
}

/// At most one application process is alive at any time. Over any sequence
/// of signals, the processes started so far are, all but the one that may be
/// alive now, confirmed to have exited.
pub proof fn lemma_single_instance(state: SupervisorState, signals: Seq<Signal>)
    requires
        state.wf(),
    ensures
        state.live() + state.started(signals) == state.exited(signals) + state.run(signals).live(),
        state.run(signals).live() <= 1,
    decreases signals.len(),
{
    if signals.len() > 0 {
        lemma_single_instance(state, signals.drop_last());
        lemma_run_preserves_wf(state, signals.drop_last());
    }
}

/// A spawn is asked for only while no process is alive: at the start of the
/// session, or once the exit of the killed process is confirmed.
pub proof fn lemma_spawn_waits_for_exit(mode: Mode, signals: Seq<Signal>)
    ensures
        ({
            let state = SupervisorState::initial(mode).run(signals);
            state.pending == Action::Spawn ==> state.live() == 0 && (state.phase
                == Phase::Restarting ==> state.process is Exited)
        }),
{
    lemma_run_preserves_wf(SupervisorState::initial(mode), signals);
}

/// A process is alive after a step only if it was alive before, or the step
/// reports the spawn that the supervisor had asked for.
pub proof fn lemma_only_spawn_starts(state: SupervisorState, signal: Signal)
    requires
        state.wf(),
    ensures
        state.next(signal).live() > state.live() ==> state.starts_process(signal),
        state.starts_process(signal) ==> state.live() == 0,
{
}

/// A restart is, step by step: kill, wait for the exit, spawn. It ends in
/// the state in which it began.
pub proof fn lemma_restart_sequence(state: SupervisorState, status: ExitStatus)
    requires
        state.wf(),
        state.pending == Action::AwaitChange,
    ensures
        ({
            let killing = state.next(Signal::SourceChanged);
            let waiting = killing.next(Signal::KillSent);
            let spawning = waiting.next(Signal::Exited(status));
            &&& killing.phase == Phase::Restarting
            &&& killing.pending == Action::Kill
            &&& waiting.pending == Action::AwaitExit
            &&& waiting.live() == 1
            &&& spawning.pending == Action::Spawn
            &&& spawning.live() == 0
            &&& spawning.next(Signal::Spawned) == state
        }),
{
}

/// A kill that fails ends the session: no spawn follows it.
pub proof fn lemma_kill_failure_is_fatal(state: SupervisorState, signals: Seq<Signal>)
    requires
        state.wf(),
        state.pending == Action::Kill,
    ensures
        state.next(Signal::KillFailed).run(signals) == state.stopped_by(Failure::Kill),
        state.next(Signal::KillFailed).started(signals) == 0,
    decreases signals.len(),
{
    if signals.len() > 0 {
        lemma_kill_failure_is_fatal(state, signals.drop_last());
    }
}

/// No fatal error is retried: a failed spawn, kill, reload or manifest ends
/// the session, with that error, whatever is signalled afterwards.
pub proof fn lemma_failures_are_fatal(state: SupervisorState, signal: Signal, signals: Seq<Signal>)
    requires
        state.wf(),
        failure_of(state.pending, signal) is Some,
    ensures
        state.next(signal) == state.stopped_by(failure_of(state.pending, signal)->Some_0),
        state.next(signal).run(signals) == state.next(signal),
{
    lemma_next_preserves_wf(state, signal);
    lemma_stopped_is_final(state.next(signal), signals);
}

/// Changes wait their turn: while a restart or a reload is under way, a
/// change leaves the state as it is, so that no restart overlaps another.
pub proof fn lemma_changes_wait_their_turn(state: SupervisorState, signal: Signal)
    requires
        state.wf(),
        state.pending != Action::AwaitChange,
        signal == Signal::SourceChanged || signal == Signal::ConfigChanged,
    ensures
        state.next(signal) == state,
{
}

/// A change to the configuration file never leads to a restart by itself:
/// from the change until the loop waits for changes again, no kill and no
/// spawn is asked for, and the process is left as it is.
pub proof fn lemma_config_change_does_not_restart(state: SupervisorState, signal: Signal)
    requires
        state.wf(),
        state.phase == Phase::ReloadingConfig || (state.phase == Phase::Running && signal
            == Signal::ConfigChanged),
    ensures
        state.next(signal).phase != Phase::Restarting,
        state.next(signal).pending != Action::Kill,
        state.next(signal).pending != Action::Spawn,
        state.next(signal).process == state.process,
{
}

/// A change whose path ends in the configuration file's name is never the
/// beginning of a restart: it asks for no kill and no spawn, and leaves the
/// process as it is. While the loop waits for changes, it begins a reload.
pub proof fn lemma_config_event_does_not_restart(state: SupervisorState, name: Option<Seq<char>>)
    requires
        state.wf(),
        names_config_file(name),
        state.phase != Phase::Restarting,
    ensures
        ({
            let after = state.next(signal_of_change(name));
            &&& after.phase != Phase::Restarting
            &&& after.pending != Action::Kill
            &&& after.process == state.process
            &&& state.pending == Action::AwaitChange ==> after.phase == Phase::ReloadingConfig
                && after.pending == Action::LoadConfig
        }),
{
}

/// While the loop waits for changes, a change to any other path begins a
/// restart: the next action is the kill.
pub proof fn lemma_source_event_restarts(state: SupervisorState, name: Option<Seq<char>>)
    requires
        state.wf(),
        !names_config_file(name),
        state.pending == Action::AwaitChange,
    ensures
        state.next(signal_of_change(name)).phase == Phase::Restarting,
        state.next(signal_of_change(name)).pending == Action::Kill,
        state.next(signal_of_change(name)).process == state.process,
{
}

/// A reload is, step by step: load the configuration, regenerate the
/// manifest. The manifest follows the load at once, and the reload ends in
/// the state in which it began.
pub proof fn lemma_reload_sequence(state: SupervisorState)
    requires
        state.wf(),
        state.pending == Action::AwaitChange,
    ensures
        ({
            let loading = state.next(Signal::ConfigChanged);
            let writing = loading.next(Signal::ConfigLoaded);
            &&& loading.phase == Phase::ReloadingConfig
            &&& loading.pending == Action::LoadConfig
            &&& writing.phase == Phase::ReloadingConfig
            &&& writing.pending == Action::RewriteManifest
            &&& writing.next(Signal::ManifestWritten) == state
        }),
{
}

/// Wherever the configuration was loaded anew, the next action is to
/// regenerate the manifest.
pub proof fn lemma_manifest_follows_config(state: SupervisorState)
    requires
        state.wf(),
        state.pending == Action::LoadConfig,
    ensures
        state.next(Signal::ConfigLoaded).pending == Action::RewriteManifest,
{
}

/// A session without watching spawns once, waits for that process to exit,
/// and ends.
pub proof fn lemma_no_watch_runs_once(status: ExitStatus, signals: Seq<Signal>)
    ensures
        ({
            let start = SupervisorState::initial(Mode::NoWatch);
            let running = start.next(Signal::Spawned);
            let done = running.next(Signal::Exited(status));
            &&& start.pending == Action::Spawn
            &&& running.pending == Action::AwaitExit
            &&& done.phase == Phase::Stopped
            &&& done.failure is None
            &&& done.run(signals) == done
            &&& start.started(signals) <= 1
        }),
{
    let start = SupervisorState::initial(Mode::NoWatch);
    let done = start.next(Signal::Spawned).next(Signal::Exited(status));
    lemma_stopped_is_final(done, signals);
    lemma_no_watch_spawns_once(signals);
}

/// Without watching, no process is started after the first.
proof fn lemma_no_watch_spawns_once(signals: Seq<Signal>)
    ensures
        ({
            let start = SupervisorState::initial(Mode::NoWatch);
            &&& start.run(signals).mode == Mode::NoWatch
            &&& start.run(signals).wf()
            &&& start.started(signals) <= 1
            &&& start.started(signals) == 1 ==> start.run(signals).phase != Phase::Starting
        }),
    decreases signals.len(),
{
    if signals.len() > 0 {
        lemma_no_watch_spawns_once(signals.drop_last());
    }
}

/// Once stopped, a session stays as it is.
pub proof fn lemma_stopped_is_final(state: SupervisorState, signals: Seq<Signal>)
    requires
        state.wf(),
        state.phase == Phase::Stopped,
    ensures
        state.run(signals) == state,
    decreases signals.len(),
{
    if signals.len() > 0 {
        lemma_stopped_is_final(state, signals.drop_last());
    }
}

} // verus!
