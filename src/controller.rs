//! The retry decision: after each attempt, whether to launch the command
//! again, stop with success, or stop with a failure, and what to report.

use crate::decimal::{decimal, i32_to_decimal, signed_decimal, u64_to_decimal};
use crate::escape::QuoteStyle;
use crate::render::{build_command_line_string, command_line};
use vstd::prelude::*;

verus! {

/// The exit status that Windows reports for a process that is still running
/// (`STILL_ACTIVE`). It cannot be a real exit code.
pub const STILL_ACTIVE: i32 = 259;

/// How one attempt ended.
#[derive(Clone, Debug, PartialEq, Eq)]
pub enum Outcome {
    /// The child exited with the platform's success status.
    Succeeded,
    /// The child exited with a failure status code.
    FailedWithCode(i32),
    /// The child ended without an exit code (killed by a signal).
    Killed,
    /// The child could not be started; the operating system's error text.
    LaunchError(String),
}

impl Outcome {
    /// Classifies a child that was started and has ended, from whether its
    /// status counts as success and from its exit code, if it has one.
    pub fn from_exit(success: bool, code: Option<i32>) -> (r: Outcome)
        ensures
            success ==> r == Outcome::Succeeded,
            !success && code is Some ==> r == Outcome::FailedWithCode(code->0),
            !success && code is None ==> r == Outcome::Killed,
    {
        if success {
            Outcome::Succeeded
        } else {
            match code {
                Some(c) => Outcome::FailedWithCode(c),
                None => Outcome::Killed,
            }
        }
    }
}

/// What the supervisor does after an attempt.
#[derive(Clone, Debug, PartialEq, Eq)]
pub enum Decision {
    /// Report the diagnostic and launch the command again at once.
    Retry { diagnostic: String },
    /// Stop: the command succeeded.
    StopSuccess,
    /// Stop with a failure, reporting the diagnostic if there is one.
    StopFatal { diagnostic: Option<String> },
}

/// The mathematical form of a [`Decision`].
pub enum DecisionView {
    Retry(Seq<char>),
    StopSuccess,
    StopFatal(Option<Seq<char>>),
}

impl View for Decision {
    type V = DecisionView;

    open spec fn view(&self) -> DecisionView {
        match self {
            Decision::Retry { diagnostic } => DecisionView::Retry(diagnostic@),
            Decision::StopSuccess => DecisionView::StopSuccess,
            Decision::StopFatal { diagnostic } => DecisionView::StopFatal(
                match diagnostic {
                    Some(d) => Some(d@),
                    None => None,
                },
            ),
        }
    }
}

/// The state of a supervised run: the display number of the current attempt,
/// the rendered command line, and whether `STILL_ACTIVE` stops the run.
pub struct RetryState {
    pub attempt: nat,
    pub command_line: Seq<char>,
    pub still_active_is_fatal: bool,
}

/// Reported before launching the command again.
pub open spec fn retry_message(code: i32, attempt: nat, command_line: Seq<char>) -> Seq<char> {
    "[Exit code is "@ + signed_decimal(code as int) + ", retrying ("@ + decimal(attempt)
        + " times)] "@ + command_line
}

/// Reported when the command could not be started.
pub open spec fn launch_failure_message(command_line: Seq<char>, error: Seq<char>) -> Seq<char> {
    "Failed to run “"@ + command_line + "”: "@ + error
}

/// Reported when a child reports `STILL_ACTIVE` where `STILL_ACTIVE` is fatal.
pub open spec fn still_active_message() -> Seq<char> {
    "Got an exit code of STILL_ACTIVE ("@ + signed_decimal(STILL_ACTIVE as int)
        + ") which is not a valid exit code, stop trying."@
}

/// Whether an exit code is the `STILL_ACTIVE` status on a platform where it
/// cannot be a genuine exit.
pub open spec fn is_fatal_code(s: RetryState, code: i32) -> bool {
    s.still_active_is_fatal && code == STILL_ACTIVE
}

/// The decision after an attempt that ended with `o`.
pub open spec fn decide(s: RetryState, o: Outcome) -> DecisionView {
    match o {
        Outcome::Succeeded => DecisionView::StopSuccess,
        Outcome::FailedWithCode(code) => if is_fatal_code(s, code) {
            DecisionView::StopFatal(Some(still_active_message()))
        } else {
            DecisionView::Retry(retry_message(code, s.attempt, s.command_line))
        },
        Outcome::Killed => DecisionView::StopFatal(None),
        Outcome::LaunchError(e) => DecisionView::StopFatal(
            Some(launch_failure_message(s.command_line, e@)),
        ),
    }
}

/// The state after an attempt that ended with `o`: a retry moves on to the
/// next attempt number; a stop leaves the state as it was.
pub open spec fn next_state(s: RetryState, o: Outcome) -> RetryState {
    if decide(s, o) is Retry {
        RetryState { attempt: s.attempt + 1, ..s }
    } else {
        s
    }
}

/// The supervisor's decision loop, one attempt at a time. The caller launches
/// the command, hands the outcome to [`RetryController::on_outcome`], and acts
/// on the decision.
pub struct RetryController {
    attempt: u64,
    command_line: String,
    still_active_is_fatal: bool,
}

impl View for RetryController {
    type V = RetryState;

    closed spec fn view(&self) -> RetryState {
        RetryState {
            attempt: self.attempt as nat,
            command_line: self.command_line@,
            still_active_is_fatal: self.still_active_is_fatal,
        }
    }
}

impl RetryController {
    /// Attempts are numbered from one.
    pub open spec fn wf(&self) -> bool {
        self@.attempt >= 1
    }

    /// A controller at the first attempt, with the command line rendered once
    /// for the whole run.
    pub fn new(program: &str, args: &Vec<String>, style: QuoteStyle, still_active_is_fatal: bool) -> (r:
        RetryController)
        ensures
            r.wf(),
            r@.attempt == 1,
            r@.command_line == command_line(style, program@, args.deep_view()),
            r@.still_active_is_fatal == still_active_is_fatal,
    {
        RetryController {
            attempt: 1,
            command_line: build_command_line_string(program, args, style),
            still_active_is_fatal,
        }
    }

    /// The number of the current attempt.
    pub fn attempt(&self) -> (r: u64)
        ensures
            r == self@.attempt,
    {
        self.attempt
    }

    /// The rendered command line.
    pub fn command_line(&self) -> (r: &str)
        ensures
            r@ == self@.command_line,
    {
        self.command_line.as_str()
    }

    /// Decides what follows an attempt that ended with `outcome`, and moves on
    /// to the next attempt when the decision is to retry.
    pub fn on_outcome(&mut self, outcome: &Outcome) -> (d: Decision)
        requires
            old(self).wf(),
            decide(old(self)@, *outcome) is Retry ==> old(self)@.attempt < u64::MAX,
        ensures
            final(self).wf(),
            d@ == decide(old(self)@, *outcome),
            final(self)@ == next_state(old(self)@, *outcome),
    {
        match outcome {
            Outcome::Succeeded => Decision::StopSuccess,
            Outcome::FailedWithCode(code) => {
                if self.still_active_is_fatal && *code == STILL_ACTIVE {
                    Decision::StopFatal { diagnostic: Some(still_active_text()) }
                } else {
                    let diagnostic = retry_text(*code, self.attempt, self.command_line.as_str());
                    self.attempt = self.attempt + 1;
                    Decision::Retry { diagnostic }
                }
            },
            Outcome::Killed => Decision::StopFatal { diagnostic: None },
            Outcome::LaunchError(error) => Decision::StopFatal {
                diagnostic: Some(launch_failure_text(self.command_line.as_str(), error.as_str())),
            },
        }
    }
}

fn retry_text(code: i32, attempt: u64, command_line: &str) -> (r: String)
    ensures
        r@ == retry_message(code, attempt as nat, command_line@),
{
    proof {
        reveal_strlit("[Exit code is ");
        reveal_strlit(", retrying (");
        reveal_strlit(" times)] ");
    }
    let code_text = i32_to_decimal(code);
    let attempt_text = u64_to_decimal(attempt);
    let r = String::from_str("[Exit code is ").concat(code_text.as_str()).concat(
        ", retrying (",
    ).concat(attempt_text.as_str()).concat(" times)] ").concat(command_line);
    r
}

fn launch_failure_text(command_line: &str, error: &str) -> (r: String)
    ensures
        r@ == launch_failure_message(command_line@, error@),
{
    proof {
        reveal_strlit("Failed to run “");
        reveal_strlit("”: ");
    }
    let r = String::from_str("Failed to run “").concat(command_line).concat("”: ").concat(error);
    r
}

fn still_active_text() -> (r: String)
    ensures
        r@ == still_active_message(),
{
    proof {
        reveal_strlit("Got an exit code of STILL_ACTIVE (");
        reveal_strlit(") which is not a valid exit code, stop trying.");
    }
    let code_text = i32_to_decimal(STILL_ACTIVE);
    let r = String::from_str("Got an exit code of STILL_ACTIVE (").concat(code_text.as_str()).concat(
        ") which is not a valid exit code, stop trying.",
    );
    r
}

} // verus!
