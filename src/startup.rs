use vstd::prelude::*;

verus! {

/// The name of the per-user autorun value that launches the application at login.
pub const RUN_VALUE_NAME: &'static str = "Meeps";

/// Where the per-user autorun values live.
pub const RUN_KEY_PATH: &'static str = "Software\\Microsoft\\Windows\\CurrentVersion\\Run";

/// What reading the autorun entry gave.
pub enum StartupQuery {
    /// The platform has no startup registration.
    Unsupported,
    /// The executable's path or the autorun location could not be read.
    Failed { message: String },
    /// The autorun location was read: `stored` is the entry's value, if it has a
    /// readable one, and `exe` the current executable's path.
    Read { stored: Option<String>, exe: String },
}

/// Launching at login is on when the entry holds exactly this executable's path.
pub open spec fn enabled_given(entry: Option<Seq<char>>, exe: Seq<char>) -> bool {
    entry == Some(exe)
}

pub open spec fn startup_query_result(q: StartupQuery) -> Result<bool, Seq<char>> {
    match q {
        StartupQuery::Unsupported => Ok(false),
        StartupQuery::Failed { message } => Err(message@),
        StartupQuery::Read { stored, exe } => Ok(
            enabled_given(
                match stored {
                    Some(v) => Some(v@),
                    None => None,
                },
                exe@,
            ),
        ),
    }
}

pub open spec fn result_view(r: Result<bool, String>) -> Result<bool, Seq<char>> {
    match r {
        Ok(b) => Ok(b),
        Err(e) => Err(e@),
    }
}

/// Whether the application is registered to launch at login.
pub fn launch_at_startup_enabled(q: &StartupQuery) -> (r: Result<bool, String>)
    ensures
        result_view(r) == startup_query_result(*q),
{
    match q {
        StartupQuery::Unsupported => Ok(false),
        StartupQuery::Failed { message } => Err(message.clone()),
        StartupQuery::Read { stored, exe } => match stored {
            Some(v) => Ok(*v == *exe),
            None => Ok(false),
        },
    }
}

/// A change to the autorun entry.
pub enum RunEntryChange {
    /// Store this value, replacing any that is there.
    Write { value: String },
    /// Remove the entry; an absent entry is left absent.
    Remove,
}

/// The entry as a change leaves it, whatever it held before.
pub open spec fn entry_after(prior: Option<Seq<char>>, change: RunEntryChange) -> Option<Seq<char>> {
    match change {
        RunEntryChange::Write { value } => Some(value@),
        RunEntryChange::Remove => None,
    }
}

/// The change that turns launching at login on (the executable's path is written)
/// or off (the entry is removed).
pub fn startup_change(enabled: bool, exe: &String) -> (r: RunEntryChange)
    ensures
        enabled ==> r == (RunEntryChange::Write { value: *exe }),
        !enabled ==> r is Remove,
{
    if enabled {
        RunEntryChange::Write { value: exe.clone() }
    } else {
        RunEntryChange::Remove
    }
}

/// The result of applying a change: a failed write is reported; removing never
/// fails, since an absent entry is what was asked for.
pub fn startup_change_result(change: &RunEntryChange, applied: Result<(), String>) -> (r: Result<
    (),
    String,
>)
    ensures
        *change is Write ==> r == applied,
        *change is Remove ==> r is Ok,
{
    match change {
        RunEntryChange::Write { .. } => applied,
        RunEntryChange::Remove => Ok(()),
    }
}

/// Turning launching at login on makes the query report it on, turning it off
/// afterwards makes it report off, and turning it on twice leaves the entry as
/// turning it on once does.
pub proof fn lemma_startup_toggle(prior: Option<Seq<char>>, exe: String, on: RunEntryChange, off: RunEntryChange)
    requires
        on == (RunEntryChange::Write { value: exe }),
        off is Remove,
    ensures
        enabled_given(entry_after(prior, on), exe@),
        !enabled_given(entry_after(entry_after(prior, on), off), exe@),
        entry_after(entry_after(prior, on), on) == entry_after(prior, on),
        entry_after(entry_after(prior, off), off) == entry_after(prior, off),
{
}

} // verus!
