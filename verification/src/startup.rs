//! The startup of the backend, from the first look at what is there to the
//! published verdict.
//!
//! A startup is a flow of steps. At each step the flow names one thing for
//! the program to do: ask a process whether it has exited, probe a port,
//! launch the backend, pause, or hand over the process it has launched. The
//! program does it and reports the outcome, and the flow publishes its
//! progress in the supervisor's snapshot and names the next thing.

use vstd::prelude::*;
use vstd::string::*;
use crate::config::{BuildMode, BACKEND_PORT_DEFAULT, BACKEND_CONNECT_TIMEOUT_MS,
    BACKEND_STARTUP_WAIT_TIMEOUT_MS, BACKEND_STARTUP_POLL_INTERVAL_MS, BACKEND_STARTUP_SETTLE_MS};
use crate::endpoint::{backend_url, url_text, normalized_host, normalized_port,
    normalize_backend_host, normalize_backend_port, normalized_host_is_stable,
    normalized_port_is_stable};
use crate::error::{StartupError, StartupErrorKind, StartupErrorView, error_view, unhealthy_text,
    port_exhausted_text, exited_during_startup_text, ALREADY_RUNNING_MESSAGE};
use crate::negotiation::{BackendStartupDecision, PortSearch, pick_backend_port, port_search};
use crate::probe::BackendProbeState;
use crate::readiness::{WaitStep, wait_view, wait_after_probe, wait_after_poll, wait_after_pause,
    wait_for_backend_ready, after_probe, after_poll, after_pause};
use crate::snapshot::StartupStatus;
use crate::supervisor::{BackendProcessState, SupervisorView};
use crate::termination::ExitPoll;
use crate::text::{decimal, decimal_string};

verus! {

/// Message of a startup that looks at what is there.
pub const CHECKING_MESSAGE: &'static str = "Проверяем состояние локального backend...";

/// Message of a launch at the default port.
pub const LAUNCHING_MESSAGE: &'static str = "Запускаем локальный backend...";

/// Message of a startup that waits for the launched backend.
pub const WAITING_MESSAGE: &'static str = "Ожидаем готовность backend...";

/// What precedes the cause in the message of a failed launch in development.
pub const DEV_LAUNCH_FAILED_PREFIX: &'static str = "Не удалось запустить backend в dev-режиме: ";

/// What precedes the cause in the message of a failed launch of the sidecar.
pub const SIDECAR_LAUNCH_FAILED_PREFIX: &'static str = "Не удалось запустить backend sidecar: ";

/// What the flow is waiting to be told.
#[derive(Clone, Copy, Debug, PartialEq, Eq, Structural)]
pub enum StartupStage {
    /// Whether the supervised process is alive.
    CheckSupervised,
    /// Whether the supervised process answers healthy.
    ProbeSupervised,
    /// What a port of the negotiation holds.
    Negotiate,
    /// Whether the supervised process is alive, just before the launch.
    ConfirmIdle,
    /// How the launch went.
    Launch,
    /// The outcome of a step of the wait for readiness.
    AwaitReady(WaitStep),
    /// That the pause after readiness is over.
    Settle,
    /// Whether the launched process is still alive after that pause.
    SettlePoll,
    /// Whether the port answers healthy although the launched process has exited.
    RaceProbe,
    /// The launched process, to supervise it.
    Adopt,
    /// Nothing: the startup is over.
    Finished,
}

/// What the program is to do next.
#[derive(Clone, Copy, Debug, PartialEq, Eq, Structural)]
pub enum StartupAction {
    /// Ask the supervised process, if there is one, whether it has exited.
    PollSupervised,
    /// Ask the launched process whether it has exited.
    PollSpawned,
    /// Probe this port of the flow's host with this timeout.
    Probe { port: u16, timeout_ms: u64 },
    /// Launch the backend at this port of the flow's host.
    Launch { port: u16 },
    /// Pause for this long.
    Pause { ms: u64 },
    /// Hand the launched process over.
    Adopt,
    /// Take the outcome.
    Finish,
}

/// A startup in progress.
#[derive(Debug)]
pub struct StartupFlow {
    stage: StartupStage,
    pending: StartupAction,
    host: String,
    startup_port: u16,
    port: u16,
    observed: Vec<BackendProbeState>,
    exit_status: String,
    mode: BuildMode,
    error: Option<StartupError>,
}

/// What became of a process that was handed over.
#[derive(Debug)]
pub enum Adoption<H> {
    /// It is supervised now. The process that was supervised before, if
    /// any, has left the supervisor and is to be terminated.
    Stored { previous: Option<H> },
    /// The flow did not ask for it: it is handed back.
    Refused { child: H },
}

/// What a flow holds, as plain values.
pub struct StartupFlowView {
    /// What the flow is waiting to be told.
    pub stage: StartupStage,
    /// What the program is to do next.
    pub pending: StartupAction,
    /// The host of the backend, normalized.
    pub host: Seq<char>,
    /// The port of the snapshot with which the startup began, normalized.
    pub startup_port: u16,
    /// The port that was chosen, once one was.
    pub port: u16,
    /// The probe results of the negotiation so far.
    pub observed: Seq<BackendProbeState>,
    /// The exit status of the launched process, once it was seen to have exited.
    pub exit_status: Seq<char>,
    /// The build the program runs as.
    pub mode: BuildMode,
    /// Why the startup failed, if it has.
    pub error: Option<StartupErrorView>,
}

/// Message of a backend that did not have to be launched.
pub open spec fn already_active_text(url: Seq<char>) -> Seq<char> {
    "Локальный backend уже активен на "@ + url + "."@
}

/// Message of a backend that was launched and is supervised.
pub open spec fn ready_text(url: Seq<char>) -> Seq<char> {
    "Локальный backend готов на "@ + url + "."@
}

/// Message of a launch, which says so where the port is not the default port.
pub open spec fn launch_text(port: u16) -> Seq<char> {
    if port == BACKEND_PORT_DEFAULT {
        LAUNCHING_MESSAGE@
    } else {
        "Порт "@ + decimal(BACKEND_PORT_DEFAULT as nat)
            + " занят сторонним сервисом. Переключаем backend на порт "@ + decimal(port as nat)
            + "."@
    }
}

/// Message of a launch that failed because of `cause`.
pub open spec fn launch_failed_text(mode: BuildMode, cause: Seq<char>) -> Seq<char> {
    match mode {
        BuildMode::Development => DEV_LAUNCH_FAILED_PREFIX@ + cause,
        BuildMode::Production => SIDECAR_LAUNCH_FAILED_PREFIX@ + cause,
    }
}

/// How a launch went, as plain values.
pub open spec fn launch_outcome_view(outcome: Result<(), StartupError>) -> Result<
    (),
    StartupErrorView,
> {
    match outcome {
        Ok(()) => Ok(()),
        Err(error) => Err(error@),
    }
}

impl StartupFlowView {
    /// The flow of a startup that begins with the supervisor in `state`, and
    /// the supervisor after it has begun: the endpoint is the snapshot's,
    /// normalized, and the first thing to learn is whether a supervised
    /// process is alive.
    pub open spec fn begin<H>(state: SupervisorView<H>, mode: BuildMode) -> (
        StartupFlowView,
        SupervisorView<H>,
    ) {
        let host = normalized_host(state.snapshot.host);
        let port = normalized_port(state.snapshot.port);
        (
            StartupFlowView {
                stage: StartupStage::CheckSupervised,
                pending: StartupAction::PollSupervised,
                host,
                startup_port: port,
                port,
                observed: Seq::empty(),
                exit_status: Seq::empty(),
                mode,
                error: None,
            },
            state.published_at(StartupStatus::Starting, CHECKING_MESSAGE@, host, port),
        )
    }

    /// This flow at another stage, with another thing to do.
    pub open spec fn at(self, stage: StartupStage, pending: StartupAction) -> StartupFlowView {
        StartupFlowView { stage, pending, ..self }
    }

    /// The startup ends well: the backend at `port` is published as ready.
    pub open spec fn succeeded<H>(self, state: SupervisorView<H>, message: Seq<char>, port: u16) -> (
        StartupFlowView,
        SupervisorView<H>,
    ) {
        (
            StartupFlowView { error: None, ..self.at(StartupStage::Finished, StartupAction::Finish) },
            state.published_at(StartupStatus::Ready, message, self.host, port),
        )
    }

    /// The startup ends with `error`, which is published with `message` at `port`.
    pub open spec fn failed<H>(
        self,
        state: SupervisorView<H>,
        error: StartupErrorView,
        message: Seq<char>,
        port: u16,
    ) -> (StartupFlowView, SupervisorView<H>) {
        (
            StartupFlowView {
                error: Some(error),
                ..self.at(StartupStage::Finished, StartupAction::Finish)
            },
            state.published_at(StartupStatus::Error, message, self.host, port),
        )
    }

    /// The wait for readiness goes on with `step`, or the startup ends with
    /// the error of the wait. Once the backend is ready the flow pauses
    /// before it looks at the process one last time.
    pub open spec fn continue_wait<H>(
        self,
        state: SupervisorView<H>,
        step: Result<WaitStep, StartupErrorView>,
    ) -> (StartupFlowView, SupervisorView<H>) {
        match step {
            Ok(WaitStep::Probe) => (
                self.at(
                    StartupStage::AwaitReady(WaitStep::Probe),
                    StartupAction::Probe { port: self.port, timeout_ms: BACKEND_CONNECT_TIMEOUT_MS },
                ),
                state,
            ),
            Ok(WaitStep::PollChild) => (
                self.at(StartupStage::AwaitReady(WaitStep::PollChild), StartupAction::PollSpawned),
                state,
            ),
            Ok(WaitStep::Pause) => (
                self.at(
                    StartupStage::AwaitReady(WaitStep::Pause),
                    StartupAction::Pause { ms: BACKEND_STARTUP_POLL_INTERVAL_MS },
                ),
                state,
            ),
            Ok(WaitStep::Ready) => (
                self.at(
                    StartupStage::Settle,
                    StartupAction::Pause { ms: BACKEND_STARTUP_SETTLE_MS },
                ),
                state,
            ),
            Err(error) => self.failed(state, error, error.message, self.port),
        }
    }

    /// The negotiation goes on after one more probe result.
    pub open spec fn negotiated<H>(self, state: SupervisorView<H>, found: BackendProbeState) -> (
        StartupFlowView,
        SupervisorView<H>,
    ) {
        let observed = self.observed.push(found);
        let flow = StartupFlowView { observed, ..self };
        match port_search(observed) {
            PortSearch::Probe { port, timeout_ms } => (
                flow.at(StartupStage::Negotiate, StartupAction::Probe { port, timeout_ms }),
                state,
            ),
            PortSearch::Decided(BackendStartupDecision::UseExisting(port)) => flow.succeeded(
                state,
                already_active_text(url_text(self.host, port)),
                port,
            ),
            PortSearch::Decided(BackendStartupDecision::Spawn(port)) => (
                StartupFlowView {
                    port,
                    ..flow.at(StartupStage::ConfirmIdle, StartupAction::PollSupervised)
                },
                state.published_at(StartupStatus::Starting, launch_text(port), self.host, port),
            ),
            PortSearch::NoFreePort => flow.failed(
                state,
                StartupErrorView {
                    kind: StartupErrorKind::PortExhausted,
                    message: port_exhausted_text(),
                },
                port_exhausted_text(),
                self.startup_port,
            ),
        }
    }

    /// The flow and the supervisor after a process has answered whether it
    /// has exited.
    ///
    /// At the first look a supervised process that is alive is probed, and
    /// without one the negotiation begins. Just before the launch a
    /// supervised process that is alive ends the startup with an error.
    /// During the wait an exit of the launched process ends it with an
    /// error. After the wait a launched process that is alive is asked for,
    /// to supervise it, and for one that has exited the port is probed once
    /// more. A flow that waits for something else stays as it is.
    pub open spec fn after_poll<H>(self, state: SupervisorView<H>, poll: ExitPoll) -> (
        StartupFlowView,
        SupervisorView<H>,
    ) {
        match self.stage {
            StartupStage::CheckSupervised => if state.alive(poll) {
                (
                    self.at(
                        StartupStage::ProbeSupervised,
                        StartupAction::Probe {
                            port: self.startup_port,
                            timeout_ms: BACKEND_CONNECT_TIMEOUT_MS,
                        },
                    ),
                    state.polled(poll),
                )
            } else {
                (
                    StartupFlowView {
                        observed: Seq::empty(),
                        ..self.at(
                            StartupStage::Negotiate,
                            StartupAction::Probe {
                                port: BACKEND_PORT_DEFAULT,
                                timeout_ms: BACKEND_CONNECT_TIMEOUT_MS,
                            },
                        )
                    },
                    state.polled(poll),
                )
            },
            StartupStage::ConfirmIdle => if state.alive(poll) {
                self.failed(
                    state.polled(poll),
                    StartupErrorView {
                        kind: StartupErrorKind::AlreadyRunning,
                        message: ALREADY_RUNNING_MESSAGE@,
                    },
                    ALREADY_RUNNING_MESSAGE@,
                    self.port,
                )
            } else {
                (
                    self.at(StartupStage::Launch, StartupAction::Launch { port: self.port }),
                    state.polled(poll),
                )
            },
            StartupStage::AwaitReady(WaitStep::PollChild) => self.continue_wait(
                state,
                wait_after_poll(poll, self.mode),
            ),
            StartupStage::SettlePoll => match poll {
                ExitPoll::Exited { status } => (
                    StartupFlowView {
                        exit_status: status@,
                        ..self.at(
                            StartupStage::RaceProbe,
                            StartupAction::Probe {
                                port: self.port,
                                timeout_ms: BACKEND_CONNECT_TIMEOUT_MS,
                            },
                        )
                    },
                    state,
                ),
                _ => (self.at(StartupStage::Adopt, StartupAction::Adopt), state),
            },
            _ => (self, state),
        }
    }

    /// The flow and the supervisor after a probe.
    ///
    /// A supervised process that answers healthy ends the startup well, and
    /// one that does not ends it with an error: the process is left alone.
    /// During the negotiation the result decides how it goes on. During the
    /// wait it decides how the wait goes on. After the launched process has
    /// exited, a healthy port means that another backend has taken the port
    /// first: it is used, and nothing is supervised; else the startup ends
    /// with the exit status. A flow that waits for something else stays as
    /// it is.
    pub open spec fn after_probe<H>(self, state: SupervisorView<H>, found: BackendProbeState) -> (
        StartupFlowView,
        SupervisorView<H>,
    ) {
        match self.stage {
            StartupStage::ProbeSupervised => if found == BackendProbeState::Healthy {
                self.succeeded(
                    state,
                    already_active_text(url_text(self.host, self.startup_port)),
                    self.startup_port,
                )
            } else {
                self.failed(
                    state,
                    StartupErrorView {
                        kind: StartupErrorKind::Unhealthy,
                        message: unhealthy_text(url_text(self.host, self.startup_port)),
                    },
                    unhealthy_text(url_text(self.host, self.startup_port)),
                    self.startup_port,
                )
            },
            StartupStage::Negotiate => self.negotiated(state, found),
            StartupStage::AwaitReady(WaitStep::Probe) => self.continue_wait(
                state,
                wait_after_probe(self.host, self.port, found),
            ),
            StartupStage::RaceProbe => if found == BackendProbeState::Healthy {
                self.succeeded(
                    state,
                    already_active_text(url_text(self.host, self.port)),
                    self.port,
                )
            } else {
                self.failed(
                    state,
                    StartupErrorView {
                        kind: StartupErrorKind::ProcessDiedEarly,
                        message: exited_during_startup_text(self.exit_status),
                    },
                    exited_during_startup_text(self.exit_status),
                    self.port,
                )
            },
            _ => (self, state),
        }
    }

    /// The flow and the supervisor after the launch: a failed launch ends
    /// the startup with its error, which is published with a word on what
    /// was launched; after a launch that went well the wait for readiness
    /// begins. A flow that waits for something else stays as it is.
    pub open spec fn after_launch<H>(
        self,
        state: SupervisorView<H>,
        outcome: Result<(), StartupErrorView>,
    ) -> (StartupFlowView, SupervisorView<H>) {
        match self.stage {
            StartupStage::Launch => match outcome {
                Err(error) => self.failed(
                    state,
                    error,
                    launch_failed_text(self.mode, error.message),
                    self.port,
                ),
                Ok(()) => self.continue_wait(
                    state.published_at(
                        StartupStatus::Starting,
                        WAITING_MESSAGE@,
                        self.host,
                        self.port,
                    ),
                    wait_after_pause(self.host, self.port, BACKEND_STARTUP_WAIT_TIMEOUT_MS, 0),
                ),
            },
            _ => (self, state),
        }
    }

    /// The flow and the supervisor after a pause, `elapsed_ms` after the
    /// launch: the wait goes on while time is left, and after the pause that
    /// follows readiness the launched process is looked at one last time. A
    /// flow that waits for something else stays as it is.
    pub open spec fn after_pause<H>(self, state: SupervisorView<H>, elapsed_ms: u64) -> (
        StartupFlowView,
        SupervisorView<H>,
    ) {
        match self.stage {
            StartupStage::AwaitReady(WaitStep::Pause) => self.continue_wait(
                state,
                wait_after_pause(self.host, self.port, BACKEND_STARTUP_WAIT_TIMEOUT_MS, elapsed_ms),
            ),
            StartupStage::Settle => (
                self.at(StartupStage::SettlePoll, StartupAction::PollSpawned),
                state,
            ),
            _ => (self, state),
        }
    }

    /// The flow and the supervisor after the launched process has been
    /// handed over, and the handle that left the supervisor: the process is
    /// supervised from now on and the backend is published as ready. A flow
    /// that did not ask for the process stays as it is.
    pub open spec fn after_adopt<H>(self, state: SupervisorView<H>, child: H) -> (
        StartupFlowView,
        SupervisorView<H>,
        Option<H>,
    ) {
        match self.stage {
            StartupStage::Adopt => {
                let done = self.succeeded(
                    state.stored(child).0,
                    ready_text(url_text(self.host, self.port)),
                    self.port,
                );
                (done.0, done.1, state.stored(child).1)
            },
            _ => (self, state, None),
        }
    }

    /// The outcome of the startup: none while it is in progress.
    pub open spec fn outcome(self) -> Option<Result<(), StartupErrorView>> {
        if self.stage == StartupStage::Finished {
            match self.error {
                Some(error) => Some(Err(error)),
                None => Some(Ok(())),
            }
        } else {
            None
        }
    }
}

impl View for StartupFlow {
    type V = StartupFlowView;

    closed spec fn view(&self) -> StartupFlowView {
        StartupFlowView {
            stage: self.stage,
            pending: self.pending,
            host: self.host@,
            startup_port: self.startup_port,
            port: self.port,
            observed: self.observed@,
            exit_status: self.exit_status@,
            mode: self.mode,
            error: error_view(self.error),
        }
    }
}

fn already_active_message(host: &str, port: u16) -> (message: String)
    ensures
        message@ == already_active_text(url_text(host@, port)),
{
    let mut message = String::from_str("Локальный backend уже активен на ");
    let url = backend_url(host, port);
    message.append(url.as_str());
    message.append(".");
    message
}

fn ready_message(host: &str, port: u16) -> (message: String)
    ensures
        message@ == ready_text(url_text(host@, port)),
{
    let mut message = String::from_str("Локальный backend готов на ");
    let url = backend_url(host, port);
    message.append(url.as_str());
    message.append(".");
    message
}

fn launch_message(port: u16) -> (message: String)
    ensures
        message@ == launch_text(port),
{
    if port == BACKEND_PORT_DEFAULT {
        String::from_str(LAUNCHING_MESSAGE)
    } else {
        let mut message = String::from_str("Порт ");
        let default_port = decimal_string(BACKEND_PORT_DEFAULT as u64);
        message.append(default_port.as_str());
        message.append(" занят сторонним сервисом. Переключаем backend на порт ");
        let chosen = decimal_string(port as u64);
        message.append(chosen.as_str());
        message.append(".");
        message
    }
}

fn launch_failed_message(mode: BuildMode, cause: &str) -> (message: String)
    ensures
        message@ == launch_failed_text(mode, cause@),
{
    let mut message = match mode {
        BuildMode::Development => String::from_str(DEV_LAUNCH_FAILED_PREFIX),
        BuildMode::Production => String::from_str(SIDECAR_LAUNCH_FAILED_PREFIX),
    };
    message.append(cause);
    message
}

/// Begins a startup: reads the endpoint from the supervisor's snapshot,
/// publishes that the startup is looking at what is there, and asks first
/// whether a supervised process is alive.
pub fn start_backend_if_needed<H>(state: &mut BackendProcessState<H>, mode: BuildMode) -> (flow:
    StartupFlow)
    ensures
        (flow@, final(state)@) == StartupFlowView::begin(old(state)@, mode),
{
    let startup_snapshot = state.startup_snapshot();
    let host = normalize_backend_host(startup_snapshot.host.as_str());
    let startup_port = normalize_backend_port(startup_snapshot.port);
    state.set_startup_status_with_endpoint(
        StartupStatus::Starting,
        String::from_str(CHECKING_MESSAGE),
        host.as_str(),
        startup_port,
    );
    StartupFlow {
        stage: StartupStage::CheckSupervised,
        pending: StartupAction::PollSupervised,
        host,
        startup_port,
        port: startup_port,
        observed: Vec::new(),
        exit_status: String::new(),
        mode,
        error: None,
    }
}

impl StartupFlow {
    /// What the program is to do next.
    pub fn pending(&self) -> (action: StartupAction)
        ensures
            action == self@.pending,
    {
        self.pending
    }

    /// What the flow is waiting to be told.
    pub fn stage(&self) -> (stage: StartupStage)
        ensures
            stage == self@.stage,
    {
        self.stage
    }

    /// The host at which the flow probes and launches.
    pub fn host(&self) -> (host: &str)
        ensures
            host@ == self@.host,
    {
        self.host.as_str()
    }

    /// The port that was chosen; before the negotiation has chosen one, the
    /// port with which the startup began.
    pub fn port(&self) -> (port: u16)
        ensures
            port == self@.port,
    {
        self.port
    }

    /// The outcome of the startup: none while it is in progress.
    pub fn outcome(&self) -> (outcome: Option<Result<(), StartupError>>)
        ensures
            match outcome {
                None => self@.outcome() is None,
                Some(Ok(())) => self@.outcome() == Some(Ok::<(), StartupErrorView>(())),
                Some(Err(error)) => self@.outcome() == Some(Err::<(), StartupErrorView>(error@)),
            },
    {
        if self.stage == StartupStage::Finished {
            match &self.error {
                Some(error) => Some(Err(error.clone())),
                None => Some(Ok(())),
            }
        } else {
            None
        }
    }

    fn move_to(&mut self, stage: StartupStage, pending: StartupAction)
        ensures
            final(self)@ == old(self)@.at(stage, pending),
    {
        self.stage = stage;
        self.pending = pending;
    }

    fn succeed<H>(&mut self, state: &mut BackendProcessState<H>, message: String, port: u16)
        ensures
            (final(self)@, final(state)@) == old(self)@.succeeded(old(state)@, message@, port),
    {
        state.set_startup_status_with_endpoint(
            StartupStatus::Ready,
            message,
            self.host.as_str(),
            port,
        );
        self.error = None;
        self.move_to(StartupStage::Finished, StartupAction::Finish);
    }

    fn fail<H>(
        &mut self,
        state: &mut BackendProcessState<H>,
        error: StartupError,
        message: String,
        port: u16,
    )
        ensures
            (final(self)@, final(state)@) == old(self)@.failed(
                old(state)@,
                error@,
                message@,
                port,
            ),
    {
        state.set_startup_status_with_endpoint(
            StartupStatus::Error,
            message,
            self.host.as_str(),
            port,
        );
        self.error = Some(error);
        self.move_to(StartupStage::Finished, StartupAction::Finish);
    }

    fn go_on_waiting<H>(
        &mut self,
        state: &mut BackendProcessState<H>,
        step: Result<WaitStep, StartupError>,
    )
        ensures
            (final(self)@, final(state)@) == old(self)@.continue_wait(
                old(state)@,
                wait_view(step),
            ),
    {
        match step {
            Ok(WaitStep::Probe) => self.move_to(
                StartupStage::AwaitReady(WaitStep::Probe),
                StartupAction::Probe { port: self.port, timeout_ms: BACKEND_CONNECT_TIMEOUT_MS },
            ),
            Ok(WaitStep::PollChild) => self.move_to(
                StartupStage::AwaitReady(WaitStep::PollChild),
                StartupAction::PollSpawned,
            ),
            Ok(WaitStep::Pause) => self.move_to(
                StartupStage::AwaitReady(WaitStep::Pause),
                StartupAction::Pause { ms: BACKEND_STARTUP_POLL_INTERVAL_MS },
            ),
            Ok(WaitStep::Ready) => self.move_to(
                StartupStage::Settle,
                StartupAction::Pause { ms: BACKEND_STARTUP_SETTLE_MS },
            ),
            Err(error) => {
                let message = error.message.clone();
                let port = self.port;
                self.fail(state, error, message, port);
            },
        }
    }

    fn negotiate<H>(&mut self, state: &mut BackendProcessState<H>, found: BackendProbeState)
        ensures
            (final(self)@, final(state)@) == old(self)@.negotiated(old(state)@, found),
    {
        self.observed.push(found);
        match pick_backend_port(self.observed.as_slice()) {
            PortSearch::Probe { port, timeout_ms } => {
                self.move_to(StartupStage::Negotiate, StartupAction::Probe { port, timeout_ms });
            },
            PortSearch::Decided(BackendStartupDecision::UseExisting(port)) => {
                let message = already_active_message(self.host.as_str(), port);
                self.succeed(state, message, port);
            },
            PortSearch::Decided(BackendStartupDecision::Spawn(port)) => {
                state.set_startup_status_with_endpoint(
                    StartupStatus::Starting,
                    launch_message(port),
                    self.host.as_str(),
                    port,
                );
                self.port = port;
                self.move_to(StartupStage::ConfirmIdle, StartupAction::PollSupervised);
            },
            PortSearch::NoFreePort => {
                let error = StartupError::port_exhausted();
                let message = error.message.clone();
                let port = self.startup_port;
                self.fail(state, error, message, port);
            },
        }
    }

    /// Takes what a process answered when it was asked whether it has
    /// exited: the supervised process at the first look and just before the
    /// launch, the launched process during and after the wait. Where no
    /// process is supervised, `poll` does not count.
    pub fn polled<H>(&mut self, state: &mut BackendProcessState<H>, poll: &ExitPoll) -> (action:
        StartupAction)
        ensures
            (final(self)@, final(state)@) == old(self)@.after_poll(old(state)@, *poll),
            action == final(self)@.pending,
    {
        match self.stage {
            StartupStage::CheckSupervised => {
                if state.running(poll) {
                    self.move_to(
                        StartupStage::ProbeSupervised,
                        StartupAction::Probe {
                            port: self.startup_port,
                            timeout_ms: BACKEND_CONNECT_TIMEOUT_MS,
                        },
                    );
                } else {
                    self.observed = Vec::new();
                    self.move_to(
                        StartupStage::Negotiate,
                        StartupAction::Probe {
                            port: BACKEND_PORT_DEFAULT,
                            timeout_ms: BACKEND_CONNECT_TIMEOUT_MS,
                        },
                    );
                }
            },
            StartupStage::ConfirmIdle => {
                if state.running(poll) {
                    let error = StartupError::already_running();
                    let message = error.message.clone();
                    let port = self.port;
                    self.fail(state, error, message, port);
                } else {
                    self.move_to(StartupStage::Launch, StartupAction::Launch { port: self.port });
                }
            },
            StartupStage::AwaitReady(WaitStep::PollChild) => {
                let step = after_poll(poll, self.mode);
                self.go_on_waiting(state, step);
            },
            StartupStage::SettlePoll => match poll {
                ExitPoll::Exited { status } => {
                    self.exit_status = status.clone();
                    self.move_to(
                        StartupStage::RaceProbe,
                        StartupAction::Probe {
                            port: self.port,
                            timeout_ms: BACKEND_CONNECT_TIMEOUT_MS,
                        },
                    );
                },
                _ => {
                    self.move_to(StartupStage::Adopt, StartupAction::Adopt);
                },
            },
            _ => {},
        }
        self.pending
    }

    /// Takes what a probe found: at the endpoint of the supervised process,
    /// at a port of the negotiation, or at the chosen port during and after
    /// the wait.
    pub fn probed<H>(&mut self, state: &mut BackendProcessState<H>, found: BackendProbeState) -> (action:
        StartupAction)
        ensures
            (final(self)@, final(state)@) == old(self)@.after_probe(old(state)@, found),
            action == final(self)@.pending,
    {
        match self.stage {
            StartupStage::ProbeSupervised => {
                let port = self.startup_port;
                if found == BackendProbeState::Healthy {
                    let message = already_active_message(self.host.as_str(), port);
                    self.succeed(state, message, port);
                } else {
                    let url = backend_url(self.host.as_str(), port);
                    let error = StartupError::unhealthy(url.as_str());
                    let message = error.message.clone();
                    self.fail(state, error, message, port);
                }
            },
            StartupStage::Negotiate => {
                self.negotiate(state, found);
            },
            StartupStage::AwaitReady(WaitStep::Probe) => {
                let step = after_probe(self.host.as_str(), self.port, found);
                self.go_on_waiting(state, step);
            },
            StartupStage::RaceProbe => {
                let port = self.port;
                if found == BackendProbeState::Healthy {
                    let message = already_active_message(self.host.as_str(), port);
                    self.succeed(state, message, port);
                } else {
                    let error = StartupError::exited_during_startup(self.exit_status.as_str());
                    let message = error.message.clone();
                    self.fail(state, error, message, port);
                }
            },
            _ => {},
        }
        self.pending
    }

    /// Takes how the launch went.
    pub fn launched<H>(
        &mut self,
        state: &mut BackendProcessState<H>,
        outcome: Result<(), StartupError>,
    ) -> (action: StartupAction)
        ensures
            (final(self)@, final(state)@) == old(self)@.after_launch(
                old(state)@,
                launch_outcome_view(outcome),
            ),
            action == final(self)@.pending,
    {
        match self.stage {
            StartupStage::Launch => match outcome {
                Err(error) => {
                    let message = launch_failed_message(self.mode, error.message.as_str());
                    let port = self.port;
                    self.fail(state, error, message, port);
                },
                Ok(()) => {
                    state.set_startup_status_with_endpoint(
                        StartupStatus::Starting,
                        String::from_str(WAITING_MESSAGE),
                        self.host.as_str(),
                        self.port,
                    );
                    let step = wait_for_backend_ready(
                        self.host.as_str(),
                        self.port,
                        BACKEND_STARTUP_WAIT_TIMEOUT_MS,
                    );
                    self.go_on_waiting(state, step);
                },
            },
            _ => {},
        }
        self.pending
    }

    /// Takes that a pause is over, `elapsed_ms` after the launch.
    pub fn paused<H>(&mut self, state: &mut BackendProcessState<H>, elapsed_ms: u64) -> (action:
        StartupAction)
        ensures
            (final(self)@, final(state)@) == old(self)@.after_pause(old(state)@, elapsed_ms),
            action == final(self)@.pending,
    {
        match self.stage {
            StartupStage::AwaitReady(WaitStep::Pause) => {
                let step = after_pause(
                    self.host.as_str(),
                    self.port,
                    BACKEND_STARTUP_WAIT_TIMEOUT_MS,
                    elapsed_ms,
                );
                self.go_on_waiting(state, step);
            },
            StartupStage::Settle => {
                self.move_to(StartupStage::SettlePoll, StartupAction::PollSpawned);
            },
            _ => {},
        }
        self.pending
    }

    /// Takes the launched process and hands it to the supervisor, where the
    /// flow has asked for it.
    pub fn adopted<H>(&mut self, state: &mut BackendProcessState<H>, child: H) -> (adoption:
        Adoption<H>)
        ensures
            old(self)@.stage == StartupStage::Adopt ==> (adoption matches Adoption::Stored {
                previous,
            } && (final(self)@, final(state)@, previous) == old(self)@.after_adopt(
                old(state)@,
                child,
            )),
            old(self)@.stage != StartupStage::Adopt ==> adoption == (Adoption::Refused { child })
                && final(self)@ == old(self)@ && final(state)@ == old(state)@,
    {
        match self.stage {
            StartupStage::Adopt => {
                let previous = state.store_child(child);
                let port = self.port;
                let message = ready_message(self.host.as_str(), port);
                self.succeed(state, message, port);
                Adoption::Stored { previous }
            },
            _ => Adoption::Refused { child },
        }
    }
}

/// Whatever the flow is told, it publishes its verdict when it ends: ready
/// exactly where the startup went well, and error where it failed.
pub proof fn verdict_is_published<H>(
    flow: StartupFlowView,
    state: SupervisorView<H>,
    poll: ExitPoll,
    found: BackendProbeState,
    launch: Result<(), StartupErrorView>,
    elapsed_ms: u64,
    child: H,
)
    requires
        flow.stage != StartupStage::Finished,
    ensures
        ends_with_verdict(flow.after_poll(state, poll).0, flow.after_poll(state, poll).1),
        ends_with_verdict(flow.after_probe(state, found).0, flow.after_probe(state, found).1),
        ends_with_verdict(flow.after_launch(state, launch).0, flow.after_launch(state, launch).1),
        ends_with_verdict(
            flow.after_pause(state, elapsed_ms).0,
            flow.after_pause(state, elapsed_ms).1,
        ),
        ends_with_verdict(flow.after_adopt(state, child).0, flow.after_adopt(state, child).1),
{
}

/// Whether a flow that has ended has published its verdict in the snapshot.
pub open spec fn ends_with_verdict<H>(flow: StartupFlowView, state: SupervisorView<H>) -> bool {
    flow.stage == StartupStage::Finished ==> flow.pending == StartupAction::Finish && (match flow.error {
        None => state.snapshot.status == StartupStatus::Ready,
        Some(error) => state.snapshot.status == StartupStatus::Error,
    })
}

/// Only the hand-over puts a process under supervision: whatever else the
/// flow is told, the supervisor holds afterwards the process it held before,
/// or none where that process was found dead.
pub proof fn only_adoption_stores<H>(
    flow: StartupFlowView,
    state: SupervisorView<H>,
    poll: ExitPoll,
    found: BackendProbeState,
    launch: Result<(), StartupErrorView>,
    elapsed_ms: u64,
)
    ensures
        flow.after_poll(state, poll).1.child == state.child || flow.after_poll(
            state,
            poll,
        ).1.child is None,
        flow.after_probe(state, found).1.child == state.child,
        flow.after_launch(state, launch).1.child == state.child,
        flow.after_pause(state, elapsed_ms).1.child == state.child,
{
}

/// A supervised process that is alive but does not answer healthy ends the
/// startup with an error and stays supervised: it is not killed.
pub proof fn unhealthy_process_is_left_alone<H>(
    flow: StartupFlowView,
    state: SupervisorView<H>,
    found: BackendProbeState,
)
    requires
        flow.stage == StartupStage::ProbeSupervised,
        found != BackendProbeState::Healthy,
    ensures
        flow.after_probe(state, found).0.outcome() == Some(
            Err::<(), StartupErrorView>(
                StartupErrorView {
                    kind: StartupErrorKind::Unhealthy,
                    message: unhealthy_text(url_text(flow.host, flow.startup_port)),
                },
            ),
        ),
        flow.after_probe(state, found).1.child == state.child,
        flow.after_probe(state, found).1.snapshot.status == StartupStatus::Error,
{
}

/// A launched process that exits while its readiness is awaited ends the
/// startup with an error that carries the exit status, never with ready.
pub proof fn early_exit_is_never_ready<H>(
    flow: StartupFlowView,
    state: SupervisorView<H>,
    status: String,
)
    requires
        flow.stage == StartupStage::AwaitReady(WaitStep::PollChild),
    ensures
        flow.after_poll(state, ExitPoll::Exited { status }).0.outcome() == Some(
            Err::<(), StartupErrorView>(
                StartupErrorView {
                    kind: StartupErrorKind::ProcessDiedEarly,
                    message: crate::error::exited_immediately_text(
                        status@,
                        flow.mode == BuildMode::Development,
                    ),
                },
            ),
        ),
        flow.after_poll(state, ExitPoll::Exited { status }).1.snapshot.status
            == StartupStatus::Error,
        flow.after_poll(state, ExitPoll::Exited { status }).1.snapshot.message
            == crate::error::exited_immediately_text(status@, flow.mode == BuildMode::Development),
        flow.after_poll(state, ExitPoll::Exited { status }).1.child == state.child,
{
}

/// Where the launched process has exited after the wait but the port
/// answers healthy, the startup ends ready at that port, and the supervisor
/// holds what it held: the launched process is not supervised.
pub proof fn lost_race_is_ready_without_process<H>(flow: StartupFlowView, state: SupervisorView<H>)
    requires
        flow.stage == StartupStage::RaceProbe,
    ensures
        flow.after_probe(state, BackendProbeState::Healthy).0.outcome() == Some(
            Ok::<(), StartupErrorView>(()),
        ),
        flow.after_probe(state, BackendProbeState::Healthy).1 == state.published_at(
            StartupStatus::Ready,
            already_active_text(url_text(flow.host, flow.port)),
            flow.host,
            flow.port,
        ),
        flow.after_probe(state, BackendProbeState::Healthy).1.child == state.child,
{
}

/// A startup begins at the endpoint of the snapshot, normalized, and
/// publishes that very endpoint; the process under supervision stays.
pub proof fn startup_begins_at_the_published_endpoint<H>(state: SupervisorView<H>, mode: BuildMode)
    ensures
        StartupFlowView::begin(state, mode).1.snapshot.host == StartupFlowView::begin(
            state,
            mode,
        ).0.host,
        StartupFlowView::begin(state, mode).1.snapshot.port == StartupFlowView::begin(
            state,
            mode,
        ).0.startup_port,
        StartupFlowView::begin(state, mode).1.snapshot.status == StartupStatus::Starting,
        StartupFlowView::begin(state, mode).1.child == state.child,
        StartupFlowView::begin(state, mode).0.outcome() is None,
{
    normalized_host_is_stable(state.snapshot.host);
    normalized_port_is_stable(state.snapshot.port);
}

} // verus!
