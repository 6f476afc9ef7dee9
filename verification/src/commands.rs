//! Confirmation and failure text for the process-control commands.
//!
//! The OS adapter looks a process up, delivers a signal or spawns a
//! launcher, and reports what happened; these functions turn that outcome
//! into the exact text the command returns to its caller.

use vstd::prelude::*;
use crate::text::dec_chars;
use crate::text::u32_to_string;

verus! {

/// What delivering a termination signal came to.
#[derive(Clone, Debug)]
pub enum KillOutcome {
    /// The process existed and the signal was delivered; its name is
    /// carried along for the confirmation text.
    Delivered { name: String },
    /// The process existed but the platform refused the signal.
    Refused { name: String },
    /// No process with the requested pid exists.
    NoSuchProcess,
}

/// What spawning the platform launcher for a named application came to.
#[derive(Clone, Debug)]
pub enum LaunchOutcome {
    /// The launcher ran and reported success.
    Launched,
    /// The launcher ran and failed; its error output is carried along.
    CommandFailed { stderr: String },
    /// The launcher could not be spawned at all.
    SpawnFailed { reason: String },
}

/// `{name} (PID: {pid})`, the way every kill message points at a process.
pub open spec fn process_ref_chars(name: Seq<char>, pid: nat) -> Seq<char> {
    name + " (PID: "@ + dec_chars(pid) + ")"@
}

/// Confirmation for a delivered termination signal.
pub open spec fn terminated_chars(name: Seq<char>, pid: nat) -> Seq<char> {
    "terminated process: "@ + process_ref_chars(name, pid)
}

/// Failure text for a refused termination signal.
pub open spec fn terminate_refused_chars(name: Seq<char>, pid: nat) -> Seq<char> {
    "could not terminate process: "@ + process_ref_chars(name, pid)
}

/// Confirmation for a delivered kill signal.
pub open spec fn force_killed_chars(name: Seq<char>, pid: nat) -> Seq<char> {
    "force-killed process: "@ + process_ref_chars(name, pid)
}

/// Failure text for a refused kill signal.
pub open spec fn force_kill_refused_chars(name: Seq<char>, pid: nat) -> Seq<char> {
    "could not force-kill process: "@ + process_ref_chars(name, pid)
}

/// Failure text when no process has the requested pid.
pub open spec fn no_such_process_chars(pid: nat) -> Seq<char> {
    "no process found with PID: "@ + dec_chars(pid)
}

/// Confirmation for a successfully spawned restart.
pub open spec fn restart_ok_chars(name: Seq<char>) -> Seq<char> {
    "attempting to restart application: "@ + name
}

/// Failure text when the launcher ran but reported an error.
pub open spec fn restart_failed_chars(stderr: Seq<char>) -> Seq<char> {
    "restart failed: "@ + stderr
}

/// Failure text when the launcher could not be spawned.
pub open spec fn restart_spawn_failed_chars(name: Seq<char>, reason: Seq<char>) -> Seq<char> {
    "could not restart process "@ + name + ": "@ + reason
}

/// `{name} (PID: {pid})` as an owned string.
fn process_ref(name: &str, pid: u32) -> (s: String)
    ensures
        s@ == process_ref_chars(name@, pid as nat),
{
    let mut s = String::from_str(name);
    s.append(" (PID: ");
    let pid_s = u32_to_string(pid);
    s.append(pid_s.as_str());
    s.append(")");
    s
}

/// The text a terminate command returns for an outcome: confirmation
/// exactly when the signal was delivered, the matching failure otherwise.
pub fn terminate_message(pid: u32, outcome: &KillOutcome) -> (r: Result<String, String>)
    ensures
        r is Ok <==> outcome is Delivered,
        (outcome matches KillOutcome::Delivered { name } ==> r->Ok_0@ == terminated_chars(
            name@,
            pid as nat,
        )),
        (outcome matches KillOutcome::Refused { name } ==> r->Err_0@ == terminate_refused_chars(
            name@,
            pid as nat,
        )),
        outcome is NoSuchProcess ==> r->Err_0@ == no_such_process_chars(pid as nat),
{
    match outcome {
        KillOutcome::Delivered { name } => {
            let mut s = String::from_str("terminated process: ");
            let r = process_ref(name.as_str(), pid);
            s.append(r.as_str());
            Ok(s)
        },
        KillOutcome::Refused { name } => {
            let mut s = String::from_str("could not terminate process: ");
            let r = process_ref(name.as_str(), pid);
            s.append(r.as_str());
            Err(s)
        },
        KillOutcome::NoSuchProcess => {
            let mut s = String::from_str("no process found with PID: ");
            let pid_s = u32_to_string(pid);
            s.append(pid_s.as_str());
            Err(s)
        },
    }
}

/// The text a force-kill command returns for an outcome; like
/// [`terminate_message`] with the force-kill wording.
pub fn force_kill_message(pid: u32, outcome: &KillOutcome) -> (r: Result<String, String>)
    ensures
        r is Ok <==> outcome is Delivered,
        (outcome matches KillOutcome::Delivered { name } ==> r->Ok_0@ == force_killed_chars(
            name@,
            pid as nat,
        )),
        (outcome matches KillOutcome::Refused { name } ==> r->Err_0@ == force_kill_refused_chars(
            name@,
            pid as nat,
        )),
        outcome is NoSuchProcess ==> r->Err_0@ == no_such_process_chars(pid as nat),
{
    match outcome {
        KillOutcome::Delivered { name } => {
            let mut s = String::from_str("force-killed process: ");
            let r = process_ref(name.as_str(), pid);
            s.append(r.as_str());
            Ok(s)
        },
        KillOutcome::Refused { name } => {
            let mut s = String::from_str("could not force-kill process: ");
            let r = process_ref(name.as_str(), pid);
            s.append(r.as_str());
            Err(s)
        },
        KillOutcome::NoSuchProcess => {
            let mut s = String::from_str("no process found with PID: ");
            let pid_s = u32_to_string(pid);
            s.append(pid_s.as_str());
            Err(s)
        },
    }
}

/// The text a restart command returns for a launch outcome: confirmation
/// exactly when the launcher reported success.
pub fn restart_message(process_name: &str, outcome: &LaunchOutcome) -> (r: Result<String, String>)
    ensures
        r is Ok <==> outcome is Launched,
        outcome is Launched ==> r->Ok_0@ == restart_ok_chars(process_name@),
        (outcome matches LaunchOutcome::CommandFailed { stderr } ==> r->Err_0@
            == restart_failed_chars(stderr@)),
        (outcome matches LaunchOutcome::SpawnFailed { reason } ==> r->Err_0@
            == restart_spawn_failed_chars(process_name@, reason@)),
{
    match outcome {
        LaunchOutcome::Launched => {
            let mut s = String::from_str("attempting to restart application: ");
            s.append(process_name);
            Ok(s)
        },
        LaunchOutcome::CommandFailed { stderr } => {
            let mut s = String::from_str("restart failed: ");
            s.append(stderr.as_str());
            Err(s)
        },
        LaunchOutcome::SpawnFailed { reason } => {
            let mut s = String::from_str("could not restart process ");
            s.append(process_name);
            s.append(": ");
            s.append(reason.as_str());
            Err(s)
        },
    }
}

} // verus!
