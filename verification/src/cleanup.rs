//! Cleaning up abandoned rooms, with tasks that the crate `futures` can abort.

use futures::future::{AbortHandle, AbortRegistration};
use vstd::prelude::*;

verus! {

/// Declares `futures::future::AbortHandle`.
#[verifier::external_type_specification]
#[verifier::external_body]
pub struct ExAbortHandle(AbortHandle);

/// Declares `futures::future::AbortRegistration`.
#[verifier::external_type_specification]
#[verifier::external_body]
pub struct ExAbortRegistration(AbortRegistration);

/// The registration of a task with the handle that aborts it: values of this type come from
/// `new_pair` alone.
pub struct TaskRegistration {
    registration: AbortRegistration,
    handle: AbortHandle,
}

impl TaskRegistration {
    /// The registration that the task is started with.
    pub closed spec fn registration(self) -> AbortRegistration {
        self.registration
    }

    /// The handle that aborts the task.
    pub closed spec fn handle(self) -> AbortHandle {
        self.handle
    }

    /// Hands out the registration, to start the task with it.
    pub fn into_registration(self) -> (registration: AbortRegistration)
        ensures
            registration == self.registration(),
    {
        self.registration
    }
}

/// A new handle, and the registration of the one task that it aborts.
///
/// Calls `futures::future::AbortHandle::new_pair`. Trusted: the handle returned is the one that
/// belongs to the registration returned, both of one call.
#[verifier::external_body]
pub(crate) fn new_pair() -> (pair: (AbortHandle, TaskRegistration))
    ensures
        pair.1.handle() == pair.0,
{
    let (handle, registration) = AbortHandle::new_pair();
    (handle.clone(), TaskRegistration { registration, handle })
}

/// Evidence that a task was told to stop: values of this type come from `abort` alone.
pub struct AbortedTask {
    handle: AbortHandle,
}

impl AbortedTask {
    /// The handle of the task that was told to stop.
    pub closed spec fn handle(self) -> AbortHandle {
        self.handle
    }
}

/// Tells the task of this handle to stop.
///
/// Calls `futures::future::AbortHandle::abort`. Trusted: the evidence returned is for that handle.
/// When the task stops is up to its executor.
#[verifier::external_body]
pub(crate) fn abort(handle: AbortHandle) -> (done: AbortedTask)
    ensures
        done.handle() == handle,
{
    handle.abort();
    AbortedTask { handle }
}

/// A span of time: whole seconds, and nanoseconds on top.
#[derive(Clone, Copy, Debug, PartialEq, Eq, Structural)]
pub struct Delay {
    pub secs: u64,
    pub nanos: u32,
}

/// A room to be deleted after a delay, unless the task is aborted first.
pub struct CleanupTask {
    pub room_id: String,
    pub delay: Delay,
    pub registration: TaskRegistration,
}

} // verus!
