//! The job scheduler's state.
//!
//! One dedicated worker thread hosts a cooperative runtime; host threads hand
//! it tasks over a channel and never perform LDAP work themselves.  The
//! thread, the channel and the task futures are the caller's; this module
//! carries the state every entry point consults: whether the scheduler is
//! initialized, so submissions before initialization short-circuit, and what
//! a shutdown must conclude from the worker thread's join.

use vstd::prelude::*;

use crate::errors::VkLdapError;

verus! {

/// The scheduler's state: whether the worker has been started.
pub struct Scheduler {
    pub initialized: bool,
}

impl Scheduler {
    /// A scheduler that has not been started.
    pub fn new() -> (r: Scheduler)
        ensures
            !r.initialized,
    {
        Scheduler { initialized: false }
    }

    /// True once `initialize` ran and `shutdown` has not.
    pub fn is_initialized(&self) -> (r: bool)
        ensures
            r == self.initialized,
    {
        self.initialized
    }

    /// Marks the scheduler started.  The caller starts the worker thread and
    /// opens the task channel.
    pub fn initialize(&mut self)
        ensures
            final(self).initialized,
    {
        self.initialized = true;
    }

    /// Concludes a shutdown.  The scheduler must have been started; it is no
    /// longer initialized afterwards, whatever the join's outcome.  `join_ok`
    /// says whether the worker thread was joined; a failed join is the
    /// shutdown error.
    pub fn shutdown(&mut self, join_ok: bool) -> (r: Result<(), VkLdapError>)
        requires
            old(self).initialized,
        ensures
            !final(self).initialized,
            join_ok ==> r == Ok::<(), VkLdapError>(()),
            !join_ok ==> r == Err::<(), VkLdapError>(VkLdapError::FailedToShutdownJobScheduler),
    {
        self.initialized = false;
        if join_ok {
            Ok(())
        } else {
            Err(VkLdapError::FailedToShutdownJobScheduler)
        }
    }
}

/// Marks the scheduler started; see `Scheduler::initialize`.
pub fn start_job_scheduler(scheduler: &mut Scheduler)
    ensures
        final(scheduler).initialized,
{
    scheduler.initialize();
}

/// Concludes a scheduler shutdown; see `Scheduler::shutdown`.
pub fn stop_job_scheduler(scheduler: &mut Scheduler, join_ok: bool) -> (r: Result<(), VkLdapError>)
    requires
        old(scheduler).initialized,
    ensures
        !final(scheduler).initialized,
        join_ok ==> r == Ok::<(), VkLdapError>(()),
        !join_ok ==> r == Err::<(), VkLdapError>(VkLdapError::FailedToShutdownJobScheduler),
{
    scheduler.shutdown(join_ok)
}

/// True when the scheduler accepts work; entry points called before
/// initialization short-circuit instead of submitting.
pub fn is_scheduler_ready(scheduler: &Scheduler) -> (r: bool)
    ensures
        r == scheduler.initialized,
{
    scheduler.is_initialized()
}

/// The error a failed channel send maps to: the send-error text, kept for the
/// caller's log.
pub fn send_failure_error(detail: String) -> (r: VkLdapError)
    ensures
        r == VkLdapError::FailedToSendJobToScheduler(detail),
{
    VkLdapError::FailedToSendJobToScheduler(detail)
}

} // verus!
