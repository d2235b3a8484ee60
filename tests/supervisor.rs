use backend_supervisor::app_info::get_app_info;
use backend_supervisor::launch::{backend_args, backend_candidates, Launch, StartError, StartOutcome};
use backend_supervisor::messages::{
    join_names, start_error_message, start_message, status_message, stop_error_message,
    stop_message,
};
use backend_supervisor::supervisor::{
    stop_reply, Poll, StartCheck, Status, StopError, StopOutcome, Supervisor,
};

fn names(v: &[&str]) -> Vec<String> {
    v.iter().map(|s| s.to_string()).collect()
}

/// Runs a whole start request against `sup`, where spawning the candidate at
/// position `i` succeeds exactly when `spawns[i]` holds; a spawned process
/// gets handle `handle`.
fn start(
    sup: &mut Supervisor<u32>,
    observed: Option<Poll>,
    candidates: &[&str],
    spawns: &[bool],
    handle: u32,
) -> (Result<StartOutcome, StartError>, Vec<String>) {
    let mut attempted = Vec::new();
    if sup.start_check(observed) == StartCheck::AlreadyRunning {
        return (Ok(StartOutcome::AlreadyRunning), attempted);
    }
    let mut launch = Launch::new(names(candidates));
    while let Some(exe) = launch.pending() {
        let i = attempted.len();
        attempted.push(exe);
        launch.record(if spawns[i] { Some(handle) } else { None });
    }
    (sup.complete_start(launch), attempted)
}

#[test]
fn scenario_alpha_missing_beta_present() {
    let mut sup: Supervisor<u32> = Supervisor::new();
    let (r, attempted) = start(&mut sup, None, &["alpha", "beta"], &[false, true], 7);
    assert_eq!(attempted, names(&["alpha", "beta"]));
    assert_eq!(r, Ok(StartOutcome::Started("beta".to_string())));
    assert_eq!(start_message(&r.unwrap()), "Python backend started with: beta");
    assert_eq!(sup.status(Some(Poll::Running)), Status::Running);
    assert_eq!(status_message(&Status::Running), "Running");
    let taken = sup.stop();
    assert_eq!(taken, Some(7));
    assert_eq!(stop_reply(Some(Ok(()))), Ok(StopOutcome::Stopped));
    assert!(!sup.is_tracking());
    assert_eq!(sup.status(None), Status::NotStarted);
    assert_eq!(status_message(&sup.status(None)), "Not started");
}

#[test]
fn second_start_while_alive_spawns_nothing() {
    let mut sup: Supervisor<u32> = Supervisor::new();
    let (r, _) = start(&mut sup, None, &["python"], &[true], 1);
    assert_eq!(r, Ok(StartOutcome::Started("python".to_string())));
    let (r2, attempted) = start(&mut sup, Some(Poll::Running), &["python"], &[true], 2);
    assert_eq!(r2, Ok(StartOutcome::AlreadyRunning));
    assert!(attempted.is_empty());
    assert_eq!(start_message(&r2.unwrap()), "Python backend already running");
    assert_eq!(sup.stop(), Some(1));
}

#[test]
fn exited_process_is_replaced() {
    let mut sup: Supervisor<u32> = Supervisor::new();
    start(&mut sup, None, &["python"], &[true], 1);
    let (r, attempted) =
        start(&mut sup, Some(Poll::Exited("exit status: 0".to_string())), &["python"], &[true], 2);
    assert_eq!(attempted, names(&["python"]));
    assert_eq!(r, Ok(StartOutcome::Started("python".to_string())));
    assert_eq!(sup.status(Some(Poll::Running)), Status::Running);
    assert_eq!(sup.stop(), Some(2));
}

#[test]
fn failed_poll_counts_as_exit() {
    let mut sup: Supervisor<u32> = Supervisor::new();
    start(&mut sup, None, &["python"], &[true], 1);
    assert_eq!(sup.start_check(Some(Poll::Failed("denied".to_string()))), StartCheck::Launch);
    assert!(!sup.is_tracking());
}

#[test]
fn start_check_without_poll_launches() {
    let mut sup: Supervisor<u32> = Supervisor::new();
    start(&mut sup, None, &["python"], &[true], 1);
    assert_eq!(sup.start_check(None), StartCheck::Launch);
    assert_eq!(sup.stop(), None);
}

#[test]
fn stop_when_idle_is_not_running() {
    let mut sup: Supervisor<u32> = Supervisor::new();
    let taken = sup.stop();
    assert_eq!(taken, None);
    let reply = stop_reply(None);
    assert_eq!(reply, Ok(StopOutcome::NotRunning));
    assert_eq!(stop_message(&reply.unwrap()), "Python backend was not running");
    assert_eq!(stop_message(&StopOutcome::Stopped), "Python backend stopped successfully");
}

#[test]
fn status_after_failed_stop_is_not_started() {
    let mut sup: Supervisor<u32> = Supervisor::new();
    start(&mut sup, None, &["python"], &[true], 3);
    assert_eq!(sup.stop(), Some(3));
    let reply = stop_reply(Some(Err("no such process".to_string())));
    assert_eq!(reply, Err(StopError::TerminationFailed("no such process".to_string())));
    assert_eq!(
        stop_error_message(&reply.unwrap_err()),
        "Failed to stop Python backend: no such process"
    );
    assert_eq!(sup.status(Some(Poll::Running)), Status::NotStarted);
}

#[test]
fn fallback_uses_first_candidate_that_spawns() {
    let mut sup: Supervisor<u32> = Supervisor::new();
    let (r, attempted) =
        start(&mut sup, None, &["python", "python3", "py"], &[false, false, true], 4);
    assert_eq!(attempted, names(&["python", "python3", "py"]));
    assert_eq!(r, Ok(StartOutcome::Started("py".to_string())));
    assert_eq!(sup.stop(), Some(4));
}

#[test]
fn fallback_stops_at_first_success() {
    let mut sup: Supervisor<u32> = Supervisor::new();
    let (r, attempted) =
        start(&mut sup, None, &["python", "python3", "py"], &[false, true, true], 5);
    assert_eq!(attempted, names(&["python", "python3"]));
    assert_eq!(r, Ok(StartOutcome::Started("python3".to_string())));
}

#[test]
fn all_candidates_failing_names_each() {
    let mut sup: Supervisor<u32> = Supervisor::new();
    let (r, attempted) =
        start(&mut sup, None, &["python", "python3", "py"], &[false, false, false], 6);
    assert_eq!(attempted, names(&["python", "python3", "py"]));
    let e = r.unwrap_err();
    assert_eq!(e, StartError::NoUsableExecutable(names(&["python", "python3", "py"])));
    assert_eq!(
        start_error_message(&e),
        "Failed to start Python backend with any of: python, python3, py"
    );
    assert!(!sup.is_tracking());
}

#[test]
fn no_candidates_fails_naming_none() {
    let mut sup: Supervisor<u32> = Supervisor::new();
    let (r, attempted) = start(&mut sup, None, &[], &[], 6);
    assert!(attempted.is_empty());
    let e = r.unwrap_err();
    assert_eq!(start_error_message(&e), "Failed to start Python backend with any of: ");
}

#[test]
fn outcome_after_launch_ended_changes_nothing() {
    let mut launch: Launch<u32> = Launch::new(names(&["a"]));
    launch.record(None);
    assert_eq!(launch.pending(), None);
    launch.record(Some(9));
    assert_eq!(launch.finish(), Err(StartError::NoUsableExecutable(names(&["a"]))));
    assert_eq!(launch.into_handle(), None);

    let mut launch: Launch<u32> = Launch::new(names(&["a", "b"]));
    launch.record(Some(1));
    launch.record(Some(2));
    assert_eq!(launch.pending(), None);
    assert_eq!(launch.into_handle(), Some(1));
}

#[test]
fn status_repeated_after_exit_is_observational() {
    let mut sup: Supervisor<u32> = Supervisor::new();
    start(&mut sup, None, &["python"], &[true], 8);
    let exited = || Some(Poll::Exited("exit status: 1".to_string()));
    for _ in 0..3 {
        assert_eq!(sup.status(exited()), Status::Exited("exit status: 1".to_string()));
    }
    assert!(sup.is_tracking());
    assert_eq!(
        status_message(&sup.status(exited())),
        "Exited with status: exit status: 1"
    );
    let (r, _) = start(&mut sup, exited(), &["python"], &[true], 9);
    assert_eq!(r, Ok(StartOutcome::Started("python".to_string())));
    assert_eq!(sup.stop(), Some(9));
}

#[test]
fn status_poll_error_and_unpolled() {
    let mut sup: Supervisor<u32> = Supervisor::new();
    assert_eq!(sup.status(Some(Poll::Running)), Status::NotStarted);
    start(&mut sup, None, &["python"], &[true], 1);
    let s = sup.status(Some(Poll::Failed("denied".to_string())));
    assert_eq!(s, Status::PollError("denied".to_string()));
    assert_eq!(status_message(&s), "Error checking status: denied");
    assert_eq!(sup.status(None), Status::PollError(String::new()));
}

#[test]
fn handle_mut_reaches_held_handle() {
    let mut sup: Supervisor<u32> = Supervisor::new();
    assert!(sup.handle_mut().is_none());
    start(&mut sup, None, &["python"], &[true], 1);
    if let Some(h) = sup.handle_mut() {
        *h = 11;
    }
    assert_eq!(sup.stop(), Some(11));
}

#[test]
fn join_names_edges() {
    assert_eq!(join_names(&Vec::new(), ", "), "");
    assert_eq!(join_names(&names(&["x"]), ", "), "x");
    assert_eq!(join_names(&names(&["x", "y"]), "|"), "x|y");
}

#[test]
fn backend_configuration() {
    assert_eq!(backend_candidates(), names(&["python", "python3", "py"]));
    assert_eq!(backend_args(), names(&["main.py"]));
}

#[test]
fn app_info_values() {
    let info = get_app_info();
    assert_eq!(info.name, "Multi-Tool AI");
    assert_eq!(info.version, "1.0.0");
    assert_eq!(info.description, "A multi-tool platform made up of small, single-use AI utilities");
}
