//! Port negotiation: reuse a healthy backend where one answers, else find a
//! free port to start one at.
//!
//! The negotiation is a function of the probe results seen so far. It either
//! asks for one more probe or gives its verdict; the caller probes and asks
//! again with the result appended.

use vstd::prelude::*;
use crate::config::{BACKEND_PORT_DEFAULT, BACKEND_PORT_FALLBACK_MAX, BACKEND_CONNECT_TIMEOUT_MS,
    BACKEND_CONNECT_RECHECK_TIMEOUT_MS};
use crate::probe::BackendProbeState;

verus! {

/// How the backend is to be had.
#[derive(Clone, Copy, Debug, PartialEq, Eq, Structural)]
pub enum BackendStartupDecision {
    /// A healthy backend answers at this port: use it.
    UseExisting(u16),
    /// Nothing answers at this port: start the backend there.
    Spawn(u16),
}

/// Where the negotiation stands.
#[derive(Clone, Copy, Debug, PartialEq, Eq, Structural)]
pub enum PortSearch {
    /// Probe this port with this timeout and report what was found.
    Probe { port: u16, timeout_ms: u64 },
    /// The negotiation has ended with this decision.
    Decided(BackendStartupDecision),
    /// Every port of the range is held by something else.
    NoFreePort,
}

/// Number of ports above the default port that are scanned.
pub open spec fn scan_size() -> nat {
    (BACKEND_PORT_FALLBACK_MAX - BACKEND_PORT_DEFAULT) as nat
}

/// The port that the scan probes at its step `index`.
pub open spec fn scan_port(index: int) -> u16 {
    (BACKEND_PORT_DEFAULT + 1 + index) as u16
}

/// Position of the first `wanted` in `results`; their length where there is none.
pub open spec fn first_position(results: Seq<BackendProbeState>, wanted: BackendProbeState) -> int
    decreases results.len(),
{
    if results.len() == 0 || results[0] == wanted {
        0
    } else {
        1 + first_position(results.drop_first(), wanted)
    }
}

/// The results of the scan among `observed`: what follows the first result,
/// as far as the range goes.
pub open spec fn scanned(observed: Seq<BackendProbeState>) -> Seq<BackendProbeState> {
    if observed.len() <= 1 {
        Seq::empty()
    } else if observed.len() <= 1 + scan_size() {
        observed.subrange(1, observed.len() as int)
    } else {
        observed.subrange(1, 1 + scan_size() as int)
    }
}

/// Where a scan stands that has seen `scan`: a healthy port ends it at once,
/// a free port is only a fallback for when the whole range has been seen.
pub open spec fn scan_search(scan: Seq<BackendProbeState>) -> PortSearch {
    let healthy = first_position(scan, BackendProbeState::Healthy);
    let free = first_position(scan, BackendProbeState::Unreachable);
    if healthy < scan.len() {
        PortSearch::Decided(BackendStartupDecision::UseExisting(scan_port(healthy)))
    } else if scan.len() < scan_size() {
        PortSearch::Probe {
            port: scan_port(scan.len() as int),
            timeout_ms: BACKEND_CONNECT_TIMEOUT_MS,
        }
    } else if free < scan.len() {
        PortSearch::Decided(BackendStartupDecision::Spawn(scan_port(free)))
    } else {
        PortSearch::NoFreePort
    }
}

/// Where the negotiation stands after the probe results `observed`.
pub open spec fn port_search(observed: Seq<BackendProbeState>) -> PortSearch {
    if observed.len() == 0 {
        PortSearch::Probe { port: BACKEND_PORT_DEFAULT, timeout_ms: BACKEND_CONNECT_TIMEOUT_MS }
    } else {
        match observed[0] {
            BackendProbeState::Healthy => PortSearch::Decided(
                BackendStartupDecision::UseExisting(BACKEND_PORT_DEFAULT),
            ),
            BackendProbeState::Unreachable => if observed.len() == 1 {
                PortSearch::Probe {
                    port: BACKEND_PORT_DEFAULT,
                    timeout_ms: BACKEND_CONNECT_RECHECK_TIMEOUT_MS,
                }
            } else if observed[1] == BackendProbeState::Healthy {
                PortSearch::Decided(BackendStartupDecision::UseExisting(BACKEND_PORT_DEFAULT))
            } else {
                PortSearch::Decided(BackendStartupDecision::Spawn(BACKEND_PORT_DEFAULT))
            },
            BackendProbeState::OccupiedByOtherService => scan_search(scanned(observed)),
        }
    }
}

/// Number of results among `observed` that the negotiation has asked for.
pub open spec fn consulted(observed: Seq<BackendProbeState>) -> nat {
    if observed.len() == 0 {
        0
    } else {
        match observed[0] {
            BackendProbeState::Healthy => 1,
            BackendProbeState::Unreachable => if observed.len() == 1 {
                1
            } else {
                2
            },
            BackendProbeState::OccupiedByOtherService => {
                let scan = scanned(observed);
                let healthy = first_position(scan, BackendProbeState::Healthy);
                if healthy < scan.len() {
                    (healthy + 2) as nat
                } else {
                    1 + scan.len()
                }
            },
        }
    }
}

/// What `first_position` finds: the wanted result stands there and nowhere before.
pub proof fn first_position_is_first(results: Seq<BackendProbeState>, wanted: BackendProbeState)
    ensures
        0 <= first_position(results, wanted) <= results.len(),
        first_position(results, wanted) < results.len() ==> results[first_position(
            results,
            wanted,
        )] == wanted,
        forall|k: int| 0 <= k < first_position(results, wanted) ==> results[k] != wanted,
    decreases results.len(),
{
    if results.len() == 0 || results[0] == wanted {
    } else {
        let rest = results.drop_first();
        first_position_is_first(rest, wanted);
        assert forall|k: int| 0 <= k < first_position(results, wanted) implies results[k]
            != wanted by {
            if k > 0 {
                assert(rest[k - 1] == results[k]);
            }
        }
    }
}

/// A position that holds the wanted result, with none before it, is the first position.
pub proof fn first_position_found(
    results: Seq<BackendProbeState>,
    wanted: BackendProbeState,
    at: int,
)
    requires
        0 <= at <= results.len(),
        at < results.len() ==> results[at] == wanted,
        forall|k: int| 0 <= k < at ==> results[k] != wanted,
    ensures
        first_position(results, wanted) == at,
{
    first_position_is_first(results, wanted);
}

/// Says how the negotiation goes on after the probe results `observed`, given
/// in the order in which they were asked for: with one more probe, or with
/// its verdict.
pub fn pick_backend_port(observed: &[BackendProbeState]) -> (search: PortSearch)
    ensures
        search == port_search(observed@),
{
    let seen = observed.len();
    if seen == 0 {
        return PortSearch::Probe {
            port: BACKEND_PORT_DEFAULT,
            timeout_ms: BACKEND_CONNECT_TIMEOUT_MS,
        };
    }
    match observed[0] {
        BackendProbeState::Healthy => {
            return PortSearch::Decided(BackendStartupDecision::UseExisting(BACKEND_PORT_DEFAULT));
        },
        BackendProbeState::Unreachable => {
            if seen == 1 {
                return PortSearch::Probe {
                    port: BACKEND_PORT_DEFAULT,
                    timeout_ms: BACKEND_CONNECT_RECHECK_TIMEOUT_MS,
                };
            }
            if observed[1] == BackendProbeState::Healthy {
                return PortSearch::Decided(
                    BackendStartupDecision::UseExisting(BACKEND_PORT_DEFAULT),
                );
            }
            return PortSearch::Decided(BackendStartupDecision::Spawn(BACKEND_PORT_DEFAULT));
        },
        BackendProbeState::OccupiedByOtherService => {},
    }
    let ghost scan = scanned(observed@);
    let mut free_fallback_port: Option<u16> = None;
    let ghost mut free_at: int = 0;
    let mut candidate_port: u16 = BACKEND_PORT_DEFAULT + 1;
    let mut index: usize = 1;
    while candidate_port <= BACKEND_PORT_FALLBACK_MAX && index < seen
        invariant
            seen == observed@.len(),
            scan == scanned(observed@),
            1 <= index <= seen,
            index - 1 <= scan.len(),
            candidate_port == BACKEND_PORT_DEFAULT + index,
            candidate_port <= BACKEND_PORT_FALLBACK_MAX + 1,
            forall|k: int| 0 <= k < index - 1 ==> scan[k] != BackendProbeState::Healthy,
            observed@[0] == BackendProbeState::OccupiedByOtherService,
            match free_fallback_port {
                Some(port) => 0 <= free_at < index - 1 && port == scan_port(free_at) && scan[free_at]
                    == BackendProbeState::Unreachable && forall|k: int|
                    0 <= k < free_at ==> scan[k] != BackendProbeState::Unreachable,
                None => forall|k: int|
                    0 <= k < index - 1 ==> scan[k] != BackendProbeState::Unreachable,
            },
        decreases seen - index,
    {
        assert(scan[index - 1] == observed@[index as int]);
        match observed[index] {
            BackendProbeState::Healthy => {
                proof {
                    first_position_found(scan, BackendProbeState::Healthy, index - 1);
                }
                return PortSearch::Decided(BackendStartupDecision::UseExisting(candidate_port));
            },
            BackendProbeState::Unreachable => {
                if free_fallback_port.is_none() {
                    free_fallback_port = Some(candidate_port);
                    proof {
                        free_at = index - 1;
                    }
                }
            },
            BackendProbeState::OccupiedByOtherService => {},
        }
        candidate_port = candidate_port + 1;
        index = index + 1;
    }
    proof {
        assert(index - 1 == scan.len());
        first_position_found(scan, BackendProbeState::Healthy, scan.len() as int);
    }
    if candidate_port <= BACKEND_PORT_FALLBACK_MAX {
        return PortSearch::Probe { port: candidate_port, timeout_ms: BACKEND_CONNECT_TIMEOUT_MS };
    }
    match free_fallback_port {
        Some(port) => {
            proof {
                first_position_found(scan, BackendProbeState::Unreachable, free_at);
            }
            PortSearch::Decided(BackendStartupDecision::Spawn(port))
        },
        None => {
            proof {
                first_position_found(scan, BackendProbeState::Unreachable, scan.len() as int);
            }
            PortSearch::NoFreePort
        },
    }
}

/// A healthy result at any port that the negotiation has asked for wins over
/// every free port: the negotiation decides to start a backend only where
/// none of the results it asked for is healthy, and then at the first port
/// that it found free.
pub proof fn spawn_only_without_healthy_result(observed: Seq<BackendProbeState>, port: u16)
    requires
        port_search(observed) == PortSearch::Decided(BackendStartupDecision::Spawn(port)),
    ensures
        forall|i: int| 0 <= i < consulted(observed) ==> observed[i] != BackendProbeState::Healthy,
        observed[0] == BackendProbeState::Unreachable ==> port == BACKEND_PORT_DEFAULT,
        observed[0] == BackendProbeState::OccupiedByOtherService ==> {
            let free = first_position(scanned(observed), BackendProbeState::Unreachable);
            &&& 0 <= free < scan_size()
            &&& port == scan_port(free)
            &&& observed[free + 1] == BackendProbeState::Unreachable
            &&& forall|k: int| 1 <= k < free + 1 ==> observed[k] != BackendProbeState::Unreachable
        },
{
    if observed[0] == BackendProbeState::OccupiedByOtherService {
        let scan = scanned(observed);
        first_position_is_first(scan, BackendProbeState::Healthy);
        first_position_is_first(scan, BackendProbeState::Unreachable);
        let free = first_position(scan, BackendProbeState::Unreachable);
        assert(scan[free] == observed[free + 1]);
        assert forall|i: int| 0 <= i < consulted(observed) implies observed[i]
            != BackendProbeState::Healthy by {
            if i > 0 {
                assert(scan[i - 1] == observed[i]);
            }
        }
        assert forall|k: int| 1 <= k < free + 1 implies observed[k]
            != BackendProbeState::Unreachable by {
            assert(scan[k - 1] == observed[k]);
        }
    }
}

/// Where a scanned port answered healthy, the negotiation uses the first such
/// port, whatever the ports before and after it held.
pub proof fn healthy_scanned_port_is_used(observed: Seq<BackendProbeState>, at: int)
    requires
        observed.len() > 0,
        observed[0] == BackendProbeState::OccupiedByOtherService,
        1 <= at < observed.len(),
        at <= scan_size(),
        observed[at] == BackendProbeState::Healthy,
    ensures
        port_search(observed) matches PortSearch::Decided(
            BackendStartupDecision::UseExisting(port),
        ) && BACKEND_PORT_DEFAULT < port <= BACKEND_PORT_DEFAULT + at,
{
    let scan = scanned(observed);
    first_position_is_first(scan, BackendProbeState::Healthy);
    assert(scan[at - 1] == observed[at]);
    let healthy = first_position(scan, BackendProbeState::Healthy);
    if healthy > at - 1 {
        assert(scan[at - 1] != BackendProbeState::Healthy);
    }
}

/// The negotiation ends: it asks for at most one probe of each port of the
/// range and two of the default port, each time for a result it has not seen.
pub proof fn negotiation_ends(observed: Seq<BackendProbeState>)
    ensures
        port_search(observed) is Probe ==> consulted(observed) == observed.len(),
        observed.len() > scan_size() ==> !(port_search(observed) is Probe),
        consulted(observed) <= observed.len(),
        consulted(observed) <= 1 + scan_size(),
{
    if observed.len() > 0 && observed[0] == BackendProbeState::OccupiedByOtherService {
        first_position_is_first(scanned(observed), BackendProbeState::Healthy);
    }
}

} // verus!
