use discord_watchdog::config::{PingConfig, Timespan};
use discord_watchdog::data::ResourceStatus;
use discord_watchdog::ping::{
    healthcheck, lookup_target, resolve_ip, Attempt, IcmpKind, Phase, ProbeError, ProbeScheduler,
    ResolvedAddr, Verdict,
};

#[test]
fn healthcheck_success() {
    let healthcheck_result = healthcheck(Attempt::Answered);
    assert!(
        healthcheck_result.as_ref().is_ok_and(|ok| *ok),
        "Healthchecking failed: {:?}",
        healthcheck_result
    );
}

#[test]
fn healthcheck_timeout() {
    let healthcheck_result = healthcheck(Attempt::TimedOut);
    assert!(
        healthcheck_result.as_ref().is_ok_and(|ok| !*ok),
        "Healthchecking did not result in a timeout: {:?}",
        healthcheck_result
    );
}

#[test]
fn healthcheck_error() {
    let healthcheck_result = healthcheck(Attempt::Unresolved);
    assert!(
        healthcheck_result.as_ref().is_err(),
        "Healthchecking non-existing address succeeded: {:?}",
        healthcheck_result
    );
}

#[test]
fn each_failure_has_its_cause() {
    assert_eq!(healthcheck(Attempt::Unresolved), Err(ProbeError::Resolution));
    assert_eq!(healthcheck(Attempt::SocketFailed), Err(ProbeError::Transport));
    assert_eq!(healthcheck(Attempt::PingFailed), Err(ProbeError::Other));
    assert_eq!(healthcheck(Attempt::Answered), Ok(true));
    assert_eq!(healthcheck(Attempt::TimedOut), Ok(false));
}

#[test]
fn the_first_address_found_is_probed() {
    assert_eq!(
        resolve_ip(Some(vec![ResolvedAddr::V6(1), ResolvedAddr::V4(0x7f000001)])),
        Ok(ResolvedAddr::V6(1))
    );
    assert_eq!(resolve_ip(Some(vec![ResolvedAddr::V4(0x08080808)])), Ok(ResolvedAddr::V4(0x08080808)));
    assert_eq!(resolve_ip(Some(vec![])), Err(ProbeError::Resolution));
    assert_eq!(resolve_ip(None), Err(ProbeError::Resolution));
}

#[test]
fn the_icmp_kind_follows_the_address_family() {
    assert_eq!(ResolvedAddr::V4(1).icmp_kind(), IcmpKind::V4);
    assert_eq!(ResolvedAddr::V6(1).icmp_kind(), IcmpKind::V6);
}

#[test]
fn the_lookup_target_has_port_nought() {
    assert_eq!(lookup_target("hub.byond.com"), "hub.byond.com:0");
    assert_eq!(lookup_target(""), ":0");
}

#[test]
fn a_tick_starts_one_probe_with_the_current_configuration() {
    let mut scheduler = ProbeScheduler::new(4321);
    assert_eq!(scheduler.phase, Phase::Idle);
    let mut config = PingConfig::default();
    let first = scheduler.tick(&config).unwrap();
    assert_eq!(first.addr, "hub.byond.com");
    assert_eq!(first.timeout, Timespan { secs: 5, nanos: 0 });
    assert_eq!(first.next_wait, Timespan { secs: 10, nanos: 0 });
    assert_eq!(first.icmp_sequence, 1);
    assert_eq!(first.icmp_id, 4321);
    assert_eq!(scheduler.phase, Phase::Probing);
    assert_eq!(scheduler.tick(&config), None);
    assert_eq!(scheduler.phase, Phase::Probing);
    assert_eq!(scheduler.icmp_sequence, 1);
    assert_eq!(scheduler.complete(Ok(true)), Some(Verdict::Sample(ResourceStatus::Up)));
    assert_eq!(scheduler.phase, Phase::Idle);
    config.interval_between_attempts = Timespan::from_secs(60);
    config.timeout = Timespan { secs: 1, nanos: 500 };
    config.resource_addr = "example.org".to_string();
    let second = scheduler.tick(&config).unwrap();
    assert_eq!(second.addr, "example.org");
    assert_eq!(second.timeout, Timespan { secs: 1, nanos: 500 });
    assert_eq!(second.next_wait, Timespan { secs: 60, nanos: 0 });
    assert_eq!(second.icmp_sequence, 2);
}

#[test]
fn probe_results_become_samples() {
    let config = PingConfig::default();
    let cases = [
        (Ok(true), ResourceStatus::Up),
        (Ok(false), ResourceStatus::Down),
        (Err(ProbeError::Resolution), ResourceStatus::Unknown),
        (Err(ProbeError::Other), ResourceStatus::Unknown),
    ];
    let mut scheduler = ProbeScheduler::new(1);
    for (result, status) in cases {
        assert!(scheduler.tick(&config).is_some());
        assert_eq!(scheduler.complete(result), Some(Verdict::Sample(status)));
        assert_eq!(scheduler.phase, Phase::Idle);
    }
    assert_eq!(scheduler.complete(Ok(true)), None);
    assert_eq!(scheduler.phase, Phase::Idle);
    assert_eq!(scheduler.icmp_sequence, 4);
}

#[test]
fn a_broken_transport_halts_the_scheduler() {
    let config = PingConfig::default();
    let mut scheduler = ProbeScheduler::new(1);
    assert!(scheduler.tick(&config).is_some());
    assert_eq!(scheduler.complete(Err(ProbeError::Transport)), Some(Verdict::Halt));
    assert_eq!(scheduler.phase, Phase::Halted);
    assert_eq!(scheduler.tick(&config), None);
    assert_eq!(scheduler.complete(Ok(true)), None);
    assert_eq!(scheduler.phase, Phase::Halted);
}

#[test]
fn the_sequence_number_wraps_around() {
    let config = PingConfig::default();
    let mut scheduler = ProbeScheduler { phase: Phase::Idle, icmp_sequence: u16::MAX - 1, icmp_id: 0 };
    assert_eq!(scheduler.tick(&config).unwrap().icmp_sequence, u16::MAX);
    scheduler.complete(Ok(false));
    assert_eq!(scheduler.tick(&config).unwrap().icmp_sequence, 0);
    scheduler.complete(Ok(false));
    assert_eq!(scheduler.tick(&config).unwrap().icmp_sequence, 1);
}

#[test]
fn is_zero_tells_an_empty_span() {
    assert!(Timespan { secs: 0, nanos: 0 }.is_zero());
    assert!(!Timespan { secs: 0, nanos: 1 }.is_zero());
    assert!(!Timespan::from_secs(1).is_zero());
}
