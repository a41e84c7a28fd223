use conti::startup::{judge, ContainerState, HealthStatus, Verdict, POLL_INTERVAL};

fn state(running: bool, exit_code: i64, health: Option<HealthStatus>) -> Option<ContainerState> {
    Some(ContainerState { running: Some(running), exit_code: Some(exit_code), health })
}

#[test]
fn without_a_health_check_the_timeout_passes() {
    assert_eq!(judge(state(true, 0, None), 0, 60), Verdict::Wait(60));
    assert_eq!(judge(state(false, 1, None), 0, 60), Verdict::Wait(60));
    assert_eq!(judge(state(true, 0, None), 60, 60), Verdict::Up);
    assert_eq!(judge(state(false, 137, None), 60, 60), Verdict::Exited(137));
    assert_eq!(judge(state(true, 0, None), 0, 0), Verdict::Up);
}

#[test]
fn status_without_a_check_is_no_health_check() {
    for status in [HealthStatus::Empty, HealthStatus::NoCheck] {
        assert_eq!(judge(state(true, 0, Some(status)), 10, 60), Verdict::Wait(50));
        assert_eq!(judge(state(true, 0, Some(status)), 60, 60), Verdict::Up);
        assert_eq!(judge(state(false, 2, Some(status)), 60, 60), Verdict::Exited(2));
    }
}

#[test]
fn unknown_state_counts_as_stopped() {
    assert_eq!(judge(None, 60, 60), Verdict::Exited(0));
    let blank = ContainerState { running: None, exit_code: None, health: None };
    assert_eq!(judge(Some(blank), 60, 60), Verdict::Exited(0));
    let code = ContainerState { running: None, exit_code: Some(-3), health: None };
    assert_eq!(judge(Some(code), 60, 60), Verdict::Exited(-3));
}

#[test]
fn health_check_is_polled() {
    let starting = state(true, 0, Some(HealthStatus::Starting));
    assert_eq!(POLL_INTERVAL, 2);
    assert_eq!(judge(starting, 0, 30), Verdict::Wait(2));
    assert_eq!(judge(starting, 28, 30), Verdict::Wait(2));
    assert_eq!(judge(starting, 29, 30), Verdict::Wait(1));
    assert_eq!(judge(starting, 30, 30), Verdict::TimedOut);
    assert_eq!(judge(starting, 0, 0), Verdict::TimedOut);
}

#[test]
fn health_check_is_believed_at_once() {
    let healthy = state(true, 0, Some(HealthStatus::Healthy));
    let unhealthy = state(true, 0, Some(HealthStatus::Unhealthy));
    for elapsed in [0, 4, 30, 90] {
        assert_eq!(judge(healthy, elapsed, 30), Verdict::Up);
        assert_eq!(judge(unhealthy, elapsed, 30), Verdict::Unhealthy);
    }
}

#[test]
fn waiting_ends_with_the_timeout() {
    let starting = state(true, 0, Some(HealthStatus::Starting));
    let mut elapsed = 0;
    let mut looks = 0;
    while let Verdict::Wait(seconds) = judge(starting, elapsed, 31) {
        assert!(seconds > 0);
        elapsed += seconds;
        looks += 1;
    }
    assert_eq!((elapsed, looks), (31, 16));
    assert_eq!(judge(state(true, 0, None), 0, u64::MAX), Verdict::Wait(u64::MAX));
}
