//! The record of how far the startup has come, as callers see it.

use vstd::prelude::*;
use vstd::string::*;
use crate::config::{BACKEND_HOST, BACKEND_PORT_DEFAULT};
use crate::endpoint::{normalized_host, normalized_port, normalize_backend_host,
    normalize_backend_port};
use crate::text::{trim, trimmed};

verus! {

/// Message of a supervisor that has not been asked to start anything.
pub const IDLE_MESSAGE: &'static str = "Ожидание запуска backend...";

/// Message of a stopped backend.
pub const STOPPED_MESSAGE: &'static str = "Локальный backend остановлен.";

/// Message of the record that is given out when the real one cannot be read.
pub const UNAVAILABLE_MESSAGE: &'static str = "Не удалось прочитать состояние запуска backend.";

/// How far the startup has come.
#[derive(Clone, Copy, Debug, PartialEq, Eq, Structural)]
pub enum StartupStatus {
    Idle,
    Starting,
    Ready,
    Error,
    Stopped,
}

impl StartupStatus {
    /// The name under which the status is given out.
    pub open spec fn name(self) -> Seq<char> {
        match self {
            StartupStatus::Idle => "idle"@,
            StartupStatus::Starting => "starting"@,
            StartupStatus::Ready => "ready"@,
            StartupStatus::Error => "error"@,
            StartupStatus::Stopped => "stopped"@,
        }
    }

    /// The name under which the status is given out.
    pub fn as_str(&self) -> (name: &'static str)
        ensures
            name@ == self.name(),
    {
        match self {
            StartupStatus::Idle => "idle",
            StartupStatus::Starting => "starting",
            StartupStatus::Ready => "ready",
            StartupStatus::Error => "error",
            StartupStatus::Stopped => "stopped",
        }
    }
}

/// The latest known state of the startup.
#[derive(Debug)]
pub struct BackendStartupSnapshot {
    pub status: StartupStatus,
    pub message: String,
    pub host: String,
    pub port: u16,
}

/// What a snapshot holds, as plain values.
pub struct SnapshotView {
    pub status: StartupStatus,
    pub message: Seq<char>,
    pub host: Seq<char>,
    pub port: u16,
}

impl SnapshotView {
    /// The snapshot of a supervisor that has not been asked to start anything.
    pub open spec fn idle() -> SnapshotView {
        SnapshotView {
            status: StartupStatus::Idle,
            message: IDLE_MESSAGE@,
            host: BACKEND_HOST@,
            port: BACKEND_PORT_DEFAULT,
        }
    }

    /// The snapshot that is given out when the real one cannot be read.
    pub open spec fn unavailable() -> SnapshotView {
        SnapshotView {
            status: StartupStatus::Error,
            message: UNAVAILABLE_MESSAGE@,
            host: BACKEND_HOST@,
            port: BACKEND_PORT_DEFAULT,
        }
    }

    /// This snapshot with a new status and message. The endpoint stays, but
    /// for a blank host and a zero port, which give way to the defaults.
    pub open spec fn with_status(self, status: StartupStatus, message: Seq<char>) -> SnapshotView {
        SnapshotView {
            status,
            message,
            host: if trimmed(self.host).len() == 0 {
                BACKEND_HOST@
            } else {
                self.host
            },
            port: normalized_port(self.port),
        }
    }

    /// The snapshot with this status and message at this endpoint, normalized.
    pub open spec fn at_endpoint(
        status: StartupStatus,
        message: Seq<char>,
        host: Seq<char>,
        port: u16,
    ) -> SnapshotView {
        SnapshotView { status, message, host: normalized_host(host), port: normalized_port(port) }
    }

    /// This snapshot as it is given out: with its endpoint normalized, and
    /// stopped where it says ready although the process is not running and
    /// the endpoint does not answer healthy.
    pub open spec fn reported(self, running: bool, healthy: bool) -> SnapshotView {
        let host = normalized_host(self.host);
        let port = normalized_port(self.port);
        if self.status == StartupStatus::Ready && !running && !healthy {
            SnapshotView { status: StartupStatus::Stopped, message: STOPPED_MESSAGE@, host, port }
        } else {
            SnapshotView { status: self.status, message: self.message, host, port }
        }
    }
}

impl View for BackendStartupSnapshot {
    type V = SnapshotView;

    open spec fn view(&self) -> SnapshotView {
        SnapshotView {
            status: self.status,
            message: self.message@,
            host: self.host@,
            port: self.port,
        }
    }
}

impl Clone for BackendStartupSnapshot {
    fn clone(&self) -> (copy: Self)
        ensures
            copy@ == self@,
    {
        BackendStartupSnapshot {
            status: self.status,
            message: self.message.clone(),
            host: self.host.clone(),
            port: self.port,
        }
    }
}

impl Default for BackendStartupSnapshot {
    fn default() -> (snapshot: Self)
        ensures
            snapshot@ == SnapshotView::idle(),
    {
        BackendStartupSnapshot {
            status: StartupStatus::Idle,
            message: String::from_str(IDLE_MESSAGE),
            host: String::from_str(BACKEND_HOST),
            port: BACKEND_PORT_DEFAULT,
        }
    }
}

impl BackendStartupSnapshot {
    /// The snapshot that stands in for one that cannot be read.
    pub fn unavailable() -> (snapshot: Self)
        ensures
            snapshot@ == SnapshotView::unavailable(),
    {
        BackendStartupSnapshot {
            status: StartupStatus::Error,
            message: String::from_str(UNAVAILABLE_MESSAGE),
            host: String::from_str(BACKEND_HOST),
            port: BACKEND_PORT_DEFAULT,
        }
    }

    /// Overwrites status and message and keeps the endpoint, but for a blank
    /// host and a zero port, which give way to the defaults.
    pub fn set_status(&mut self, status: StartupStatus, message: String)
        ensures
            final(self)@ == old(self)@.with_status(status, message@),
    {
        self.status = status;
        self.message = message;
        if trim(self.host.as_str()).is_empty() {
            self.host = String::from_str(BACKEND_HOST);
        }
        if self.port == 0 {
            self.port = BACKEND_PORT_DEFAULT;
        }
    }

    /// Overwrites the whole snapshot; host and port are normalized.
    pub fn set_status_with_endpoint(
        &mut self,
        status: StartupStatus,
        message: String,
        host: &str,
        port: u16,
    )
        ensures
            final(self)@ == SnapshotView::at_endpoint(status, message@, host@, port),
    {
        self.status = status;
        self.message = message;
        self.host = normalize_backend_host(host);
        self.port = normalize_backend_port(port);
    }
}

/// The name of the backend's state: running where the tracked process is
/// alive or the endpoint answers healthy, else stopped.
pub open spec fn status_name(running: bool, healthy: bool) -> Seq<char> {
    if running || healthy {
        "running"@
    } else {
        "stopped"@
    }
}

/// Names the backend's state from the liveness of the tracked process and
/// the health of the snapshot's endpoint. The health counts only where the
/// process is not running.
pub fn backend_status(running: bool, healthy: bool) -> (status: String)
    ensures
        status@ == status_name(running, healthy),
{
    if running || healthy {
        String::from_str("running")
    } else {
        String::from_str("stopped")
    }
}

/// The snapshot as it is given out. It is a cache and corrects itself: where
/// it says ready, the tracked process is not running and the endpoint does
/// not answer healthy, it is given out as stopped.
pub fn backend_startup_snapshot(
    snapshot: BackendStartupSnapshot,
    running: bool,
    healthy: bool,
) -> (reported: BackendStartupSnapshot)
    ensures
        reported@ == snapshot@.reported(running, healthy),
{
    let mut snapshot = snapshot;
    snapshot.host = normalize_backend_host(snapshot.host.as_str());
    snapshot.port = normalize_backend_port(snapshot.port);
    if snapshot.status == StartupStatus::Ready && !running && !healthy {
        snapshot.status = StartupStatus::Stopped;
        snapshot.message = String::from_str(STOPPED_MESSAGE);
    }
    snapshot
}

/// A snapshot is given out as ready only where it says ready and the backend
/// was seen alive; what it says otherwise is given out as it stands.
pub proof fn reported_status_is_honest(snapshot: SnapshotView, running: bool, healthy: bool)
    ensures
        snapshot.reported(running, healthy).status == StartupStatus::Ready <==> (snapshot.status
            == StartupStatus::Ready && (running || healthy)),
        snapshot.status != StartupStatus::Ready ==> snapshot.reported(running, healthy).status
            == snapshot.status,
{
}

} // verus!
