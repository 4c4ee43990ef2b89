use keep_trying::controller::{Decision, Outcome, RetryController, STILL_ACTIVE};
use keep_trying::escape::QuoteStyle;

/// Feeds outcomes to a fresh controller until it stops; returns the number of
/// attempts made, the retry diagnostics, and the final decision.
fn run(program: &str, args: &[&str], outcomes: &[Outcome], fatal: bool) -> (usize, Vec<String>, Decision) {
    let args: Vec<String> = args.iter().map(|s| s.to_string()).collect();
    let mut controller = RetryController::new(program, &args, QuoteStyle::Posix, fatal);
    let mut retries = Vec::new();
    for (n, outcome) in outcomes.iter().enumerate() {
        match controller.on_outcome(outcome) {
            Decision::Retry { diagnostic } => retries.push(diagnostic),
            stop => return (n + 1, retries, stop),
        }
    }
    panic!("the controller did not stop");
}

#[test]
fn success_at_once_stops_after_one_attempt() {
    let (attempts, retries, last) = run("true", &[], &[Outcome::Succeeded], false);
    assert_eq!(attempts, 1);
    assert!(retries.is_empty());
    assert_eq!(last, Decision::StopSuccess);
}

#[test]
fn two_failures_then_success_takes_three_attempts() {
    let outcomes = [
        Outcome::FailedWithCode(1),
        Outcome::FailedWithCode(1),
        Outcome::Succeeded,
        Outcome::Succeeded,
    ];
    let (attempts, retries, last) = run("flaky", &["--now", "a b"], &outcomes, false);
    assert_eq!(attempts, 3);
    assert_eq!(
        retries,
        vec![
            "[Exit code is 1, retrying (1 times)] flaky --now 'a b'".to_string(),
            "[Exit code is 1, retrying (2 times)] flaky --now 'a b'".to_string(),
        ]
    );
    assert_eq!(last, Decision::StopSuccess);
}

#[test]
fn launch_failure_stops_without_retry() {
    let error = "No such file or directory (os error 2)".to_string();
    let outcomes = [Outcome::LaunchError(error), Outcome::Succeeded];
    let (attempts, retries, last) = run("/nonexistent/prog", &["x"], &outcomes, false);
    assert_eq!(attempts, 1);
    assert!(retries.is_empty());
    assert_eq!(
        last,
        Decision::StopFatal {
            diagnostic: Some(
                "Failed to run “/nonexistent/prog x”: No such file or directory (os error 2)"
                    .to_string()
            ),
        }
    );
}

#[test]
fn still_active_stops_where_it_is_fatal() {
    let args: Vec<String> = Vec::new();
    let mut controller = RetryController::new("child.exe", &args, QuoteStyle::Cmd, true);
    let decision = controller.on_outcome(&Outcome::FailedWithCode(STILL_ACTIVE));
    assert_eq!(
        decision,
        Decision::StopFatal {
            diagnostic: Some(
                "Got an exit code of STILL_ACTIVE (259) which is not a valid exit code, stop trying."
                    .to_string()
            ),
        }
    );
    assert_eq!(controller.attempt(), 1);
}

#[test]
fn still_active_is_retried_where_it_is_not_fatal() {
    let (attempts, retries, last) =
        run("child", &[], &[Outcome::FailedWithCode(259), Outcome::Succeeded], false);
    assert_eq!(attempts, 2);
    assert_eq!(retries, vec!["[Exit code is 259, retrying (1 times)] child".to_string()]);
    assert_eq!(last, Decision::StopSuccess);
}

#[test]
fn killed_child_stops_silently() {
    let (attempts, retries, last) =
        run("sleep", &["100"], &[Outcome::FailedWithCode(-3), Outcome::Killed], false);
    assert_eq!(attempts, 2);
    assert_eq!(retries, vec!["[Exit code is -3, retrying (1 times)] sleep 100".to_string()]);
    assert_eq!(last, Decision::StopFatal { diagnostic: None });
}

#[test]
fn controller_starts_at_attempt_one_with_rendered_line() {
    let args = vec!["it's".to_string()];
    let mut controller = RetryController::new("echo", &args, QuoteStyle::Posix, false);
    assert_eq!(controller.attempt(), 1);
    assert_eq!(controller.command_line(), r"echo 'it'\''s'");
    controller.on_outcome(&Outcome::FailedWithCode(2));
    controller.on_outcome(&Outcome::FailedWithCode(3));
    assert_eq!(controller.attempt(), 3);
    assert_eq!(controller.command_line(), r"echo 'it'\''s'");
}

#[test]
fn exit_status_classification() {
    assert_eq!(Outcome::from_exit(true, Some(0)), Outcome::Succeeded);
    assert_eq!(Outcome::from_exit(false, Some(1)), Outcome::FailedWithCode(1));
    assert_eq!(Outcome::from_exit(false, None), Outcome::Killed);
}
