use vstd::prelude::*;
use crate::notify::{Notification, error_notification, error_notice, NotificationView};

verus! {

/// Why the launcher could not be started.
#[derive(Debug)]
pub enum LaunchError {
    /// Nothing exists at the resolved path, which is carried along.
    ExecutableNotFound(String),
    /// The process could not be started.
    SpawnFailed,
}

/// The text ahead of the path in the missing-launcher message.
pub open spec fn not_found_prefix() -> Seq<char> {
    "Star Citizen launcher not found at:\n"@
}

/// The message naming the path at which the launcher was looked for.
pub open spec fn not_found_message(path: Seq<char>) -> Seq<char> {
    not_found_prefix() + path
}

/// What the user is told of a launch failure: only a missing launcher is
/// reported, a failed spawn is dropped.
pub open spec fn launch_error_notice(e: LaunchError) -> Option<NotificationView> {
    match e {
        LaunchError::ExecutableNotFound(path) => Some(error_notice(not_found_message(path@))),
        LaunchError::SpawnFailed => None,
    }
}

/// The content of an optional notification.
pub open spec fn notice_of(n: Option<Notification>) -> Option<NotificationView> {
    match n {
        Some(n) => Some(n@),
        None => None,
    }
}

impl LaunchError {
    /// The notification for this failure, if it is reported at all.
    pub fn notification(&self) -> (r: Option<Notification>)
        ensures
            notice_of(r) == launch_error_notice(*self),
    {
        match self {
            LaunchError::ExecutableNotFound(path) => {
                let mut message = String::from_str("Star Citizen launcher not found at:\n");
                message.append(path.as_str());
                Some(error_notification(message))
            },
            LaunchError::SpawnFailed => None,
        }
    }
}

/// The existence check ahead of a spawn: the path goes on to the spawn when a
/// file is there, and comes back inside the error when none is.
pub fn check_launcher(path: String, exists: bool) -> (r: Result<String, LaunchError>)
    ensures
        exists ==> r is Ok && r->Ok_0@ == path@,
        !exists ==> r is Err && r->Err_0 is ExecutableNotFound
            && r->Err_0->ExecutableNotFound_0@ == path@,
{
    if exists {
        Ok(path)
    } else {
        Err(LaunchError::ExecutableNotFound(path))
    }
}

/// The outcome of a spawn attempt: success means the process image started.
pub fn spawn_outcome(started: bool) -> (r: Result<(), LaunchError>)
    ensures
        started ==> r is Ok,
        !started ==> r is Err && r->Err_0 is SpawnFailed,
{
    if started {
        Ok(())
    } else {
        Err(LaunchError::SpawnFailed)
    }
}

} // verus!
