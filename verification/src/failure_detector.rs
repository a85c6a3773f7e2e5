//! The failure detector's state and its probe decisions.
//!
//! A dedicated thread wakes on a configurable interval and probes every
//! configured server.  A healthy server is probed through its pool with a
//! lightweight WhoAmI operation; an unhealthy one with a fresh out-of-pool
//! connection, because its pool is likely exhausted and must not be waited
//! on.  Only a successful out-of-pool probe triggers a pool refresh, so a
//! server that stays down does not draw a storm of reconnects on every tick.
//!
//! The thread, the sleeps and the probes are the caller's; this module
//! carries the detector's state and decides, per server and probe outcome,
//! what to do.

use vstd::prelude::*;

use crate::errors::{error_message_spec, VkLdapError};
use crate::server::VkLdapServer;

verus! {

/// The failure detector's state: whether its thread runs, whether it was
/// asked to stop, and the probe interval (zero disables probing).
pub struct FailureDetector {
    pub running: bool,
    pub stop: bool,
    pub interval_secs: u64,
}

impl FailureDetector {
    /// A stopped detector with the default one-second interval.
    pub fn new() -> (r: FailureDetector)
        ensures
            !r.running,
            !r.stop,
            r.interval_secs == 1,
    {
        FailureDetector { running: false, stop: false, interval_secs: 1 }
    }

    /// Marks the detector's thread started and clears a previous stop request.
    pub fn start(&mut self)
        ensures
            final(self).running,
            !final(self).stop,
            final(self).interval_secs == old(self).interval_secs,
    {
        self.stop = false;
        self.running = true;
    }

    /// Concludes a shutdown: the stop flag is set and the thread is no longer
    /// running, whatever the join's outcome.  The detector must have been
    /// started; `join_ok` says whether its thread was joined.
    pub fn shutdown(&mut self, join_ok: bool) -> (r: Result<(), VkLdapError>)
        requires
            old(self).running,
        ensures
            final(self).stop,
            !final(self).running,
            final(self).interval_secs == old(self).interval_secs,
            join_ok ==> r == Ok::<(), VkLdapError>(()),
            !join_ok ==> r == Err::<(), VkLdapError>(
                VkLdapError::FailedToStopFailuredDetectorThread,
            ),
    {
        self.stop = true;
        self.running = false;
        if join_ok {
            Ok(())
        } else {
            Err(VkLdapError::FailedToStopFailuredDetectorThread)
        }
    }

    /// True once a shutdown was requested; the thread's loop exits on it.
    pub fn should_stop(&self) -> (r: bool)
        ensures
            r == self.stop,
    {
        self.stop
    }

    /// True when the configured interval enables probing; a zero interval
    /// disables the probes while the thread keeps answering shutdown.
    pub fn should_probe(&self) -> (r: bool)
        ensures
            r == (self.interval_secs > 0),
    {
        self.interval_secs > 0
    }
}

/// Marks the failure-detector thread started; see `FailureDetector::start`.
pub fn start_failure_detector_thread(detector: &mut FailureDetector)
    ensures
        final(detector).running,
        !final(detector).stop,
        final(detector).interval_secs == old(detector).interval_secs,
{
    detector.start();
}

/// Concludes a failure-detector shutdown; see `FailureDetector::shutdown`.
pub fn shutdown_failure_detector_thread(detector: &mut FailureDetector, join_ok: bool) -> (r:
    Result<(), VkLdapError>)
    requires
        old(detector).running,
    ensures
        final(detector).stop,
        !final(detector).running,
        join_ok ==> r == Ok::<(), VkLdapError>(()),
        !join_ok ==> r == Err::<(), VkLdapError>(VkLdapError::FailedToStopFailuredDetectorThread),
{
    detector.shutdown(join_ok)
}

/// Sets the probe interval; zero disables probing.
pub fn set_failure_detector_interval(detector: &mut FailureDetector, interval: u64)
    ensures
        final(detector).interval_secs == interval,
        final(detector).running == old(detector).running,
        final(detector).stop == old(detector).stop,
{
    detector.interval_secs = interval;
}

/// How a server is probed.
#[derive(PartialEq, Eq, Structural, Debug)]
pub enum ProbeMethod {
    /// Check a connection out of the pool and run WhoAmI on it.
    PoolPing,
    /// Open a fresh connection, bypassing the pool.
    FreshConnection,
}

/// What a finished probe asks for.
pub enum ProbeAction {
    /// Record the server healthy with the measured round-trip time in
    /// microseconds.
    SetHealthy(u64),
    /// Record the server unhealthy with the probe error's message.
    SetUnhealthy(String),
    /// Refresh the server's pool; the refresh outcome then decides the
    /// status.
    RefreshPool,
    /// Leave the server's status as it stands.
    LeaveStatus,
}

/// Decides the probe path: through the pool for a healthy server, a fresh
/// out-of-pool connection for an unhealthy one.
pub fn probe_method(server: &VkLdapServer) -> (r: ProbeMethod)
    ensures
        r == ProbeMethod::PoolPing <==> server.spec_is_healthy(),
{
    if server.is_healthy() {
        ProbeMethod::PoolPing
    } else {
        ProbeMethod::FreshConnection
    }
}

/// Decides after an in-pool ping of a healthy server: success records the
/// measured time, failure records the error.
pub fn healthy_probe_action(ping_res: &Result<(), VkLdapError>, ping_micros: u64) -> (r:
    ProbeAction)
    ensures
        ping_res is Ok ==> r == ProbeAction::SetHealthy(ping_micros),
        (ping_res matches Err(e) ==> r matches ProbeAction::SetUnhealthy(m) && m@
            == error_message_spec(e)),
{
    match ping_res {
        Ok(_) => ProbeAction::SetHealthy(ping_micros),
        Err(e) => ProbeAction::SetUnhealthy(e.to_message()),
    }
}

/// Decides after an out-of-pool probe of an unhealthy server: a failed
/// connection updates the recorded error; a connection whose ping succeeds
/// asks for a pool refresh; a connection whose ping fails leaves the status.
pub fn unhealthy_probe_action(conn_res: &Result<(), VkLdapError>, ping_ok: bool) -> (r:
    ProbeAction)
    ensures
        (conn_res matches Err(e) ==> r matches ProbeAction::SetUnhealthy(m) && m@
            == error_message_spec(e)),
        (conn_res is Ok && ping_ok) ==> r == ProbeAction::RefreshPool,
        (conn_res is Ok && !ping_ok) ==> r == ProbeAction::LeaveStatus,
{
    match conn_res {
        Ok(_) => {
            if ping_ok {
                ProbeAction::RefreshPool
            } else {
                ProbeAction::LeaveStatus
            }
        },
        Err(e) => ProbeAction::SetUnhealthy(e.to_message()),
    }
}

} // verus!
