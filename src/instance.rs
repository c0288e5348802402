use vstd::prelude::*;

verus! {

/// The name of the OS-wide lock that only one running instance holds.
pub const INSTANCE_LOCK_NAME: &'static str = "meeps_single_instance";

/// The exit status of a launch that found another instance running.
pub const ALREADY_RUNNING_EXIT: i32 = 1;

/// The exit status of a launch that could not set up the instance lock.
pub const LOCK_UNAVAILABLE_EXIT: i32 = 2;

/// What came of trying to take the instance lock.
pub enum LockAttempt {
    /// The lock is held by this process from now on.
    Acquired,
    /// Another process holds the lock.
    HeldElsewhere,
    /// The lock could not be created or taken for reasons of the environment.
    Unavailable { detail: String },
}

/// Whether startup goes on.
pub enum StartupGate {
    /// Go on and show the application.
    Proceed,
    /// End the process at once, before any window is shown, with this status and
    /// message.
    Abort { code: i32, message: String },
}

pub open spec fn already_running_message() -> Seq<char> {
    "Another instance of Meeps is already running."@
}

pub open spec fn lock_unavailable_message(detail: Seq<char>) -> Seq<char> {
    "Could not set up the single-instance lock: "@ + detail
}

/// Decides startup from the attempt to take the instance lock: only the holder
/// goes on; a second launch ends with status 1, and a lock that could not be set
/// up ends it with status 2 and a message of its own.
pub fn startup_gate(attempt: &LockAttempt) -> (r: StartupGate)
    ensures
        *attempt is Acquired <==> r is Proceed,
        *attempt is HeldElsewhere ==> (r matches StartupGate::Abort { code, message } && code
            == ALREADY_RUNNING_EXIT && message@ == already_running_message()),
        *attempt matches LockAttempt::Unavailable { detail } ==> (r matches StartupGate::Abort {
            code,
            message,
        } && code == LOCK_UNAVAILABLE_EXIT && message@ == lock_unavailable_message(detail@)),
        r matches StartupGate::Abort { code, .. } ==> code != 0,
{
    match attempt {
        LockAttempt::Acquired => StartupGate::Proceed,
        LockAttempt::HeldElsewhere => StartupGate::Abort {
            code: ALREADY_RUNNING_EXIT,
            message: "Another instance of Meeps is already running.".to_owned(),
        },
        LockAttempt::Unavailable { detail } => {
            let message = "Could not set up the single-instance lock: ".to_owned();
            StartupGate::Abort {
                code: LOCK_UNAVAILABLE_EXIT,
                message: message.concat(detail.as_str()),
            }
        },
    }
}

} // verus!
