//! The probe and its scheduler. The network work (resolving the address,
//! opening the socket, sending the echo request, waiting for the timer) is
//! the driver's; what is decided about it is decided here.

use crate::config::{PingConfig, Timespan};
use crate::data::ResourceStatus;
use vstd::prelude::*;

verus! {

/// The payload of every echo request.
pub const DEFAULT_ICMP_PAYLOAD: u8 = 1;

/// A network address, as the bits of an IPv4 or of an IPv6 address.
#[derive(Debug, Clone, Copy, PartialEq, Eq, Structural)]
pub enum ResolvedAddr {
    V4(u32),
    V6(u128),
}

/// The flavour of ICMP that reaches an address.
#[derive(Debug, Clone, Copy, PartialEq, Eq, Structural)]
pub enum IcmpKind {
    V4,
    V6,
}

impl ResolvedAddr {
    pub open spec fn spec_icmp_kind(&self) -> IcmpKind {
        match self {
            ResolvedAddr::V4(_) => IcmpKind::V4,
            ResolvedAddr::V6(_) => IcmpKind::V6,
        }
    }

    /// ICMPv6 for an IPv6 address, ICMPv4 otherwise.
    #[verifier::when_used_as_spec(spec_icmp_kind)]
    pub fn icmp_kind(&self) -> (kind: IcmpKind)
        ensures
            kind == self.spec_icmp_kind(),
    {
        match self {
            ResolvedAddr::V4(_) => IcmpKind::V4,
            ResolvedAddr::V6(_) => IcmpKind::V6,
        }
    }
}

/// Why a probe could not say whether the resource is reachable.
#[derive(Debug, Clone, Copy, PartialEq, Eq, Structural)]
pub enum ProbeError {
    /// The address has no network target.
    Resolution,
    /// The socket for the probe could not be opened: the fault is with
    /// this machine, not with the resource.
    Transport,
    /// Anything else that went wrong while pinging.
    Other,
}

/// What the network side reports of one probe attempt.
#[derive(Debug, Clone, Copy, PartialEq, Eq, Structural)]
pub enum Attempt {
    /// The address could not be resolved.
    Unresolved,
    /// The socket could not be opened.
    SocketFailed,
    /// The echo reply came in time.
    Answered,
    /// No echo reply came within the timeout.
    TimedOut,
    /// The ping failed in another way.
    PingFailed,
}

/// The host to look up for `addr`: the address with port nought.
pub fn lookup_target(addr: &str) -> (target: String)
    ensures
        target@ == addr@ + ":0"@,
{
    let mut target = String::from_str(addr);
    target.append(":0");
    target
}

/// Picks the address to probe from what the lookup found: the first, if
/// there is one. `None` stands for a lookup that failed.
pub fn resolve_ip(found: Option<Vec<ResolvedAddr>>) -> (ip: Result<ResolvedAddr, ProbeError>)
    ensures
        ip == match found {
            Some(list) if list@.len() > 0 => Ok::<ResolvedAddr, ProbeError>(list@[0]),
            _ => Err::<ResolvedAddr, ProbeError>(ProbeError::Resolution),
        },
{
    match found {
        Some(list) => {
            if list.len() > 0 {
                Ok(list[0])
            } else {
                Err(ProbeError::Resolution)
            }
        },
        None => Err(ProbeError::Resolution),
    }
}

/// What one attempt says about the resource.
pub open spec fn classify(attempt: Attempt) -> Result<bool, ProbeError> {
    match attempt {
        Attempt::Answered => Ok(true),
        Attempt::TimedOut => Ok(false),
        Attempt::Unresolved => Err(ProbeError::Resolution),
        Attempt::SocketFailed => Err(ProbeError::Transport),
        Attempt::PingFailed => Err(ProbeError::Other),
    }
}

/// Classifies one attempt. A reply in time means reachable. A timeout is
/// no error: it means unreachable. Everything else is an error that says
/// nothing about the resource.
pub fn healthcheck(attempt: Attempt) -> (reachable: Result<bool, ProbeError>)
    ensures
        reachable == classify(attempt),
{
    match attempt {
        Attempt::Answered => Ok(true),
        Attempt::TimedOut => Ok(false),
        Attempt::Unresolved => Err(ProbeError::Resolution),
        Attempt::SocketFailed => Err(ProbeError::Transport),
        Attempt::PingFailed => Err(ProbeError::Other),
    }
}

/// Where the scheduler stands.
#[derive(Debug, Clone, Copy, PartialEq, Eq, Structural)]
pub enum Phase {
    /// Waiting for the next tick.
    Idle,
    /// One probe is in flight.
    Probing,
    /// The scheduler has given up: the transport is broken.
    Halted,
}

/// The scheduler of the probe. It starts one probe per tick, never a
/// second while one is in flight, and numbers the probes.
#[derive(Debug, Clone, Copy, PartialEq, Eq, Structural)]
pub struct ProbeScheduler {
    pub phase: Phase,
    pub icmp_sequence: u16,
    pub icmp_id: u16,
}

/// One probe to carry out, and how long to wait before the tick after it.
#[derive(Debug, Clone, PartialEq, Eq)]
pub struct ProbeRequest {
    pub addr: String,
    pub timeout: Timespan,
    pub icmp_sequence: u16,
    pub icmp_id: u16,
    pub next_wait: Timespan,
}

/// What the scheduler makes of a finished probe.
#[derive(Debug, Clone, Copy, PartialEq, Eq, Structural)]
pub enum Verdict {
    /// A raw sample for the debouncer.
    Sample(ResourceStatus),
    /// The transport is broken; the scheduler stops and the failure goes
    /// to whoever supervises it.
    Halt,
}

/// The sequence number after `sequence`: one more, and nought after the
/// largest.
pub open spec fn next_sequence(sequence: u16) -> u16 {
    if sequence == u16::MAX {
        0
    } else {
        (sequence + 1) as u16
    }
}

/// The raw sample that a finished probe stands for, or `None` where the
/// probe failed on the transport.
pub open spec fn sample_of(result: Result<bool, ProbeError>) -> Option<ResourceStatus> {
    match result {
        Ok(true) => Some(ResourceStatus::Up),
        Ok(false) => Some(ResourceStatus::Down),
        Err(ProbeError::Transport) => None,
        Err(_) => Some(ResourceStatus::Unknown),
    }
}

impl ProbeScheduler {
    /// An idle scheduler whose probes carry `icmp_id`.
    pub fn new(icmp_id: u16) -> (scheduler: ProbeScheduler)
        ensures
            scheduler == (ProbeScheduler { phase: Phase::Idle, icmp_sequence: 0, icmp_id }),
    {
        ProbeScheduler { phase: Phase::Idle, icmp_sequence: 0, icmp_id }
    }

    /// The timer has fired. An idle scheduler starts a probe: it takes the
    /// address, the timeout and the wait before the next tick from the
    /// configuration as it is now, and gives the probe the next sequence
    /// number. A scheduler that is probing or halted starts nothing.
    pub fn tick(&mut self, config: &PingConfig) -> (request: Option<ProbeRequest>)
        ensures
            old(self).phase == Phase::Idle ==> {
                &&& *final(self) == (ProbeScheduler {
                    phase: Phase::Probing,
                    icmp_sequence: next_sequence(old(self).icmp_sequence),
                    icmp_id: old(self).icmp_id,
                })
                &&& request matches Some(probe)
                &&& probe.addr == config.resource_addr
                &&& probe.timeout == config.timeout
                &&& probe.icmp_sequence == next_sequence(old(self).icmp_sequence)
                &&& probe.icmp_id == old(self).icmp_id
                &&& probe.next_wait == config.interval_between_attempts
            },
            old(self).phase != Phase::Idle ==> request is None && *final(self) == *old(self),
    {
        match self.phase {
            Phase::Idle => {
                let sequence = if self.icmp_sequence == u16::MAX {
                    0
                } else {
                    self.icmp_sequence + 1
                };
                self.icmp_sequence = sequence;
                self.phase = Phase::Probing;
                Some(
                    ProbeRequest {
                        addr: config.resource_addr.clone(),
                        timeout: config.timeout,
                        icmp_sequence: sequence,
                        icmp_id: self.icmp_id,
                        next_wait: config.interval_between_attempts,
                    },
                )
            },
            _ => None,
        }
    }

    /// The probe in flight has finished. Reachable counts as up,
    /// unreachable as down, an error as unknown; the scheduler is idle
    /// again. An error of the transport halts the scheduler instead. With
    /// no probe in flight there is nothing to finish.
    pub fn complete(&mut self, result: Result<bool, ProbeError>) -> (verdict: Option<Verdict>)
        ensures
            final(self).icmp_sequence == old(self).icmp_sequence,
            final(self).icmp_id == old(self).icmp_id,
            old(self).phase == Phase::Probing ==> match sample_of(result) {
                Some(status) => final(self).phase == Phase::Idle && verdict == Some(
                    Verdict::Sample(status),
                ),
                None => final(self).phase == Phase::Halted && verdict == Some(Verdict::Halt),
            },
            old(self).phase != Phase::Probing ==> verdict is None && final(self).phase == old(
                self,
            ).phase,
    {
        match self.phase {
            Phase::Probing => {
                let verdict = match result {
                    Ok(true) => Verdict::Sample(ResourceStatus::Up),
                    Ok(false) => Verdict::Sample(ResourceStatus::Down),
                    Err(ProbeError::Transport) => Verdict::Halt,
                    Err(_) => Verdict::Sample(ResourceStatus::Unknown),
                };
                self.phase = match verdict {
                    Verdict::Halt => Phase::Halted,
                    Verdict::Sample(_) => Phase::Idle,
                };
                Some(verdict)
            },
            _ => None,
        }
    }
}

} // verus!
