//! The verdict on a container that was just started.
use vstd::prelude::*;

verus! {

/// What Docker reports of a container's health check.
#[derive(Clone, Copy, Debug, PartialEq, Eq, Structural)]
pub enum HealthStatus {
    /// Docker reports no status.
    Empty,
    /// The container has no health check.
    NoCheck,
    Starting,
    Healthy,
    Unhealthy,
}

/// The state of a container as an inspection reports it.
#[derive(Clone, Copy, Debug, PartialEq, Eq, Structural)]
pub struct ContainerState {
    pub running: Option<bool>,
    pub exit_code: Option<i64>,
    pub health: Option<HealthStatus>,
}

/// What to make of a container that was started.
#[derive(Clone, Copy, Debug, PartialEq, Eq, Structural)]
pub enum Verdict {
    /// The container is up.
    Up,
    /// Look again after this many seconds.
    Wait(u64),
    /// The container stopped, with this exit code.
    Exited(i64),
    /// The health check failed.
    Unhealthy,
    /// The health check had not passed when the time was over.
    TimedOut,
}

/// The seconds between two looks at a container with a health check.
pub const POLL_INTERVAL: u64 = 2;

/// Whether the container is known to be running.
pub open spec fn runs(state: Option<ContainerState>) -> bool {
    state matches Some(s) && s.running == Some(true)
}

/// The exit code, zero where none is reported.
pub open spec fn exit_code(state: Option<ContainerState>) -> i64 {
    match state {
        Some(s) => match s.exit_code {
            Some(code) => code,
            None => 0,
        },
        None => 0,
    }
}

/// The status of the container's health check, where it has one.
pub open spec fn health(state: Option<ContainerState>) -> Option<HealthStatus> {
    match state {
        Some(s) => match s.health {
            Some(HealthStatus::Empty) => None,
            Some(HealthStatus::NoCheck) => None,
            reported => reported,
        },
        None => None,
    }
}

/// The verdict `elapsed` seconds after the start.
///
/// A container with a health check is up as soon as it is healthy, has failed
/// as soon as it is unhealthy, and has failed too if the timeout passes while it
/// is still starting; until then it is polled. A container without a health
/// check is left alone for the whole timeout, and is up if it runs then.
pub open spec fn verdict(state: Option<ContainerState>, elapsed: u64, timeout: u64) -> Verdict {
    match health(state) {
        Some(HealthStatus::Healthy) => Verdict::Up,
        Some(HealthStatus::Unhealthy) => Verdict::Unhealthy,
        Some(_) => if elapsed >= timeout {
            Verdict::TimedOut
        } else if timeout - elapsed < POLL_INTERVAL {
            Verdict::Wait((timeout - elapsed) as u64)
        } else {
            Verdict::Wait(POLL_INTERVAL)
        },
        None => if elapsed < timeout {
            Verdict::Wait((timeout - elapsed) as u64)
        } else if runs(state) {
            Verdict::Up
        } else {
            Verdict::Exited(exit_code(state))
        },
    }
}

/// Judges a container `elapsed` seconds after its start.
pub fn judge(state: Option<ContainerState>, elapsed: u64, timeout: u64) -> (r: Verdict)
    ensures
        r == verdict(state, elapsed, timeout),
{
    let status = match state {
        Some(s) => s.health,
        None => None,
    };
    match status {
        Some(HealthStatus::Healthy) => Verdict::Up,
        Some(HealthStatus::Unhealthy) => Verdict::Unhealthy,
        Some(HealthStatus::Starting) => {
            if elapsed >= timeout {
                Verdict::TimedOut
            } else if timeout - elapsed < POLL_INTERVAL {
                Verdict::Wait(timeout - elapsed)
            } else {
                Verdict::Wait(POLL_INTERVAL)
            }
        },
        _ => {
            if elapsed < timeout {
                return Verdict::Wait(timeout - elapsed);
            }
            let (running, code) = match state {
                Some(s) => (
                    match s.running {
                        Some(running) => running,
                        None => false,
                    },
                    match s.exit_code {
                        Some(code) => code,
                        None => 0i64,
                    },
                ),
                None => (false, 0i64),
            };
            if running {
                Verdict::Up
            } else {
                Verdict::Exited(code)
            }
        },
    }
}

/// Waiting makes progress and never passes the timeout: a look at the container
/// when the timeout is over always ends in a verdict.
pub proof fn law_waiting_ends_with_the_timeout(
    state: Option<ContainerState>,
    elapsed: u64,
    timeout: u64,
)
    ensures
        verdict(state, elapsed, timeout) matches Verdict::Wait(seconds) ==> 0 < seconds && elapsed
            + seconds <= timeout,
        elapsed >= timeout ==> verdict(state, elapsed, timeout) !is Wait,
{
}

/// A container without a health check is judged once, when the whole timeout has
/// passed, and by nothing but whether it runs then.
pub proof fn law_without_health_check_the_timeout_passes(
    now: Option<ContainerState>,
    later: Option<ContainerState>,
    elapsed: u64,
    timeout: u64,
)
    requires
        health(now) is None,
        health(later) is None,
        elapsed < timeout,
    ensures
        verdict(now, elapsed, timeout) == Verdict::Wait((timeout - elapsed) as u64),
        verdict(later, timeout, timeout) == (if runs(later) {
            Verdict::Up
        } else {
            Verdict::Exited(exit_code(later))
        }),
{
}

/// A health check is believed at once, whatever the time.
pub proof fn law_health_check_is_believed_at_once(
    state: Option<ContainerState>,
    elapsed: u64,
    timeout: u64,
)
    ensures
        health(state) == Some(HealthStatus::Healthy) ==> verdict(state, elapsed, timeout)
            == Verdict::Up,
        health(state) == Some(HealthStatus::Unhealthy) ==> verdict(state, elapsed, timeout)
            == Verdict::Unhealthy,
        health(state) == Some(HealthStatus::Starting) ==> (verdict(state, elapsed, timeout)
            == Verdict::TimedOut <==> elapsed >= timeout),
{
}

/// What a report on a container comes to, told by its parts: a health check is believed,
/// and polled every two seconds while it is starting; without one, nothing but the
/// running container at the end of the timeout counts. The wait never passes the timeout.
pub proof fn law_the_verdict_on_a_report(state: ContainerState, elapsed: u64, timeout: u64)
    ensures
        ({
            let v = verdict(Some(state), elapsed, timeout);
            match state.health {
                Some(HealthStatus::Healthy) => v == Verdict::Up,
                Some(HealthStatus::Unhealthy) => v == Verdict::Unhealthy,
                Some(HealthStatus::Starting) => {
                    &&& elapsed >= timeout ==> v == Verdict::TimedOut
                    &&& elapsed < timeout ==> {
                        &&& v matches Verdict::Wait(seconds)
                        &&& seconds == 2 || (seconds == 1 && elapsed + 1 == timeout)
                        &&& elapsed + seconds <= timeout
                    }
                },
                _ => {
                    &&& elapsed < timeout ==> (v matches Verdict::Wait(seconds) && elapsed + seconds
                        == timeout)
                    &&& elapsed >= timeout && state.running == Some(true) ==> v == Verdict::Up
                    &&& elapsed >= timeout && state.running != Some(true) ==> {
                        &&& v matches Verdict::Exited(code)
                        &&& state.exit_code is Some ==> code == state.exit_code->0
                        &&& state.exit_code is None ==> code == 0
                    }
                },
            }
        }),
{
}

/// A container that nothing is reported of counts as stopped once the timeout is over.
pub proof fn law_the_verdict_without_a_report(elapsed: u64, timeout: u64)
    ensures
        elapsed < timeout ==> (verdict(None, elapsed, timeout) matches Verdict::Wait(seconds)
            && elapsed + seconds == timeout),
        elapsed >= timeout ==> verdict(None, elapsed, timeout) == Verdict::Exited(0),
{
}

} // verus!
