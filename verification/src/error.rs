//! The ways in which a startup fails, and the messages that say so.

use vstd::prelude::*;
use vstd::string::*;
use crate::config::{BACKEND_PORT_DEFAULT, BACKEND_PORT_FALLBACK_MAX};
use crate::text::{decimal, decimal_string};

verus! {

/// Advice that is added, in development, to the message of a backend that exited at once.
pub const ENVIRONMENT_HINT: &'static str =
    " (подсказка: активируй venv и установи `pip install -r requirements.txt`)";

/// Message of a start that found the supervised process alive after all.
pub const ALREADY_RUNNING_MESSAGE: &'static str =
    "Невозможно запустить backend: процесс уже выполняется.";

/// Why a startup failed.
#[derive(Clone, Copy, Debug, PartialEq, Eq, Structural)]
pub enum StartupErrorKind {
    /// No port of the scanned range is free.
    PortExhausted,
    /// No candidate executable could be launched, or the packaged binary is missing.
    SpawnFailed,
    /// The process did not become healthy within its budget.
    HealthTimeout,
    /// Something that is not the backend holds the port.
    PortOccupied,
    /// The process exited before or while its readiness was awaited.
    ProcessDiedEarly,
    /// The supervised process is alive but does not answer healthy.
    Unhealthy,
    /// A process is supervised where none was expected.
    AlreadyRunning,
}

/// A failed startup: its kind, and the message that is published and logged.
#[derive(Debug)]
pub struct StartupError {
    pub kind: StartupErrorKind,
    pub message: String,
}

/// What an error holds, as plain values.
pub struct StartupErrorView {
    pub kind: StartupErrorKind,
    pub message: Seq<char>,
}

impl View for StartupError {
    type V = StartupErrorView;

    open spec fn view(&self) -> StartupErrorView {
        StartupErrorView { kind: self.kind, message: self.message@ }
    }
}

impl Clone for StartupError {
    fn clone(&self) -> (copy: Self)
        ensures
            copy@ == self@,
    {
        StartupError { kind: self.kind, message: self.message.clone() }
    }
}

/// What an optional error holds.
pub open spec fn error_view(error: Option<StartupError>) -> Option<StartupErrorView> {
    match error {
        Some(error) => Some(error@),
        None => None,
    }
}

/// Host, colon and port, as messages name an endpoint.
pub open spec fn endpoint_text(host: Seq<char>, port: u16) -> Seq<char> {
    host + ":"@ + decimal(port as nat)
}

/// Message of a negotiation that found no free port.
pub open spec fn port_exhausted_text() -> Seq<char> {
    "Не удалось найти свободный порт для backend в диапазоне "@ + decimal(
        BACKEND_PORT_DEFAULT as nat,
    ) + "-"@ + decimal(BACKEND_PORT_FALLBACK_MAX as nat) + "."@
}

/// Message of a port that something else holds.
pub open spec fn port_occupied_text(host: Seq<char>, port: u16) -> Seq<char> {
    "port "@ + endpoint_text(host, port) + " is occupied by another service (not Ancia backend)"@
}

/// Message of a backend that exited while its readiness was awaited.
pub open spec fn exited_immediately_text(status: Seq<char>, hint: bool) -> Seq<char> {
    "backend exited immediately with status "@ + status + (if hint {
        ENVIRONMENT_HINT@
    } else {
        Seq::<char>::empty()
    })
}

/// Message of a backend that exited just after it had become healthy.
pub open spec fn exited_during_startup_text(status: Seq<char>) -> Seq<char> {
    "backend exited during startup with status "@ + status
}

/// Message of a backend that did not become healthy in time.
pub open spec fn health_timeout_text(host: Seq<char>, port: u16, timeout_ms: u64) -> Seq<char> {
    "backend did not open "@ + endpoint_text(host, port) + " within "@ + decimal(
        (timeout_ms / 1000) as nat,
    ) + "s"@
}

/// Message of a supervised process that does not answer healthy at `url`.
pub open spec fn unhealthy_text(url: Seq<char>) -> Seq<char> {
    "backend process is alive but does not pass health check on "@ + url
}

fn endpoint_string(host: &str, port: u16) -> (text: String)
    ensures
        text@ == endpoint_text(host@, port),
{
    let mut text = String::from_str(host);
    text.append(":");
    let digits = decimal_string(port as u64);
    text.append(digits.as_str());
    text
}

impl StartupError {
    /// The error of a negotiation that found no free port.
    pub fn port_exhausted() -> (error: StartupError)
        ensures
            error@ == (StartupErrorView {
                kind: StartupErrorKind::PortExhausted,
                message: port_exhausted_text(),
            }),
    {
        let mut message = String::from_str(
            "Не удалось найти свободный порт для backend в диапазоне ",
        );
        let first = decimal_string(BACKEND_PORT_DEFAULT as u64);
        message.append(first.as_str());
        message.append("-");
        let last = decimal_string(BACKEND_PORT_FALLBACK_MAX as u64);
        message.append(last.as_str());
        message.append(".");
        StartupError { kind: StartupErrorKind::PortExhausted, message }
    }

    /// The error of a port that something else holds.
    pub fn port_occupied(host: &str, port: u16) -> (error: StartupError)
        ensures
            error@ == (StartupErrorView {
                kind: StartupErrorKind::PortOccupied,
                message: port_occupied_text(host@, port),
            }),
    {
        let mut message = String::from_str("port ");
        let endpoint = endpoint_string(host, port);
        message.append(endpoint.as_str());
        message.append(" is occupied by another service (not Ancia backend)");
        StartupError { kind: StartupErrorKind::PortOccupied, message }
    }

    /// The error of a backend that exited while its readiness was awaited.
    pub fn exited_immediately(status: &str, hint: bool) -> (error: StartupError)
        ensures
            error@ == (StartupErrorView {
                kind: StartupErrorKind::ProcessDiedEarly,
                message: exited_immediately_text(status@, hint),
            }),
    {
        let mut message = String::from_str("backend exited immediately with status ");
        message.append(status);
        if hint {
            message.append(ENVIRONMENT_HINT);
        }
        assert(message@ =~= exited_immediately_text(status@, hint));
        StartupError { kind: StartupErrorKind::ProcessDiedEarly, message }
    }

    /// The error of a backend that exited just after it had become healthy.
    pub fn exited_during_startup(status: &str) -> (error: StartupError)
        ensures
            error@ == (StartupErrorView {
                kind: StartupErrorKind::ProcessDiedEarly,
                message: exited_during_startup_text(status@),
            }),
    {
        let mut message = String::from_str("backend exited during startup with status ");
        message.append(status);
        StartupError { kind: StartupErrorKind::ProcessDiedEarly, message }
    }

    /// The error of a backend that did not become healthy in time.
    pub fn health_timeout(host: &str, port: u16, timeout_ms: u64) -> (error: StartupError)
        ensures
            error@ == (StartupErrorView {
                kind: StartupErrorKind::HealthTimeout,
                message: health_timeout_text(host@, port, timeout_ms),
            }),
    {
        let mut message = String::from_str("backend did not open ");
        let endpoint = endpoint_string(host, port);
        message.append(endpoint.as_str());
        message.append(" within ");
        let seconds = decimal_string(timeout_ms / 1000);
        message.append(seconds.as_str());
        message.append("s");
        StartupError { kind: StartupErrorKind::HealthTimeout, message }
    }

    /// The error of a supervised process that does not answer healthy at `url`.
    pub fn unhealthy(url: &str) -> (error: StartupError)
        ensures
            error@ == (StartupErrorView {
                kind: StartupErrorKind::Unhealthy,
                message: unhealthy_text(url@),
            }),
    {
        let mut message = String::from_str(
            "backend process is alive but does not pass health check on ",
        );
        message.append(url);
        StartupError { kind: StartupErrorKind::Unhealthy, message }
    }

    /// The error of a start that found the supervised process alive after all.
    pub fn already_running() -> (error: StartupError)
        ensures
            error@ == (StartupErrorView {
                kind: StartupErrorKind::AlreadyRunning,
                message: ALREADY_RUNNING_MESSAGE@,
            }),
    {
        StartupError {
            kind: StartupErrorKind::AlreadyRunning,
            message: String::from_str(ALREADY_RUNNING_MESSAGE),
        }
    }

    /// The error of a launch that failed with `message`.
    pub fn spawn_failed(message: String) -> (error: StartupError)
        ensures
            error@ == (StartupErrorView { kind: StartupErrorKind::SpawnFailed, message: message@ }),
    {
        StartupError { kind: StartupErrorKind::SpawnFailed, message }
    }
}

} // verus!
