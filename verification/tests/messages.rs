use cpu_monitor::commands::force_kill_message;
use cpu_monitor::commands::restart_message;
use cpu_monitor::commands::terminate_message;
use cpu_monitor::commands::KillOutcome;
use cpu_monitor::commands::LaunchOutcome;

#[test]
fn terminate_confirms_a_delivered_signal() {
    let outcome = KillOutcome::Delivered { name: "Safari".to_string() };
    assert_eq!(
        terminate_message(512, &outcome),
        Ok("terminated process: Safari (PID: 512)".to_string())
    );
}

#[test]
fn terminate_reports_a_refused_signal() {
    let outcome = KillOutcome::Refused { name: "launchd".to_string() };
    assert_eq!(
        terminate_message(1, &outcome),
        Err("could not terminate process: launchd (PID: 1)".to_string())
    );
}

#[test]
fn terminate_reports_a_missing_process() {
    assert_eq!(
        terminate_message(99999, &KillOutcome::NoSuchProcess),
        Err("no process found with PID: 99999".to_string())
    );
}

#[test]
fn force_kill_confirms_a_delivered_signal() {
    let outcome = KillOutcome::Delivered { name: "Safari".to_string() };
    assert_eq!(
        force_kill_message(512, &outcome),
        Ok("force-killed process: Safari (PID: 512)".to_string())
    );
}

#[test]
fn force_kill_reports_a_refused_signal() {
    let outcome = KillOutcome::Refused { name: "launchd".to_string() };
    assert_eq!(
        force_kill_message(1, &outcome),
        Err("could not force-kill process: launchd (PID: 1)".to_string())
    );
}

#[test]
fn force_kill_reports_a_missing_process() {
    assert_eq!(
        force_kill_message(424242, &KillOutcome::NoSuchProcess),
        Err("no process found with PID: 424242".to_string())
    );
}

#[test]
fn restart_confirms_a_spawned_launcher() {
    assert_eq!(
        restart_message("Safari", &LaunchOutcome::Launched),
        Ok("attempting to restart application: Safari".to_string())
    );
}

#[test]
fn restart_reports_a_failed_launcher() {
    let outcome = LaunchOutcome::CommandFailed { stderr: "Unable to find application".to_string() };
    assert_eq!(
        restart_message("NoSuchApp", &outcome),
        Err("restart failed: Unable to find application".to_string())
    );
}

#[test]
fn restart_reports_a_launcher_that_would_not_spawn() {
    let outcome = LaunchOutcome::SpawnFailed { reason: "permission denied".to_string() };
    assert_eq!(
        restart_message("Safari", &outcome),
        Err("could not restart process Safari: permission denied".to_string())
    );
}
