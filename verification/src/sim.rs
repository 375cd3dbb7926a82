//! The simulation's state machine: the pending-retry state, the three
//! selector branches, and the verified step that app code drives.
use vstd::prelude::*;
use crate::catalog::{NUM_COMMANDS, NUM_ERRORS, NUM_WARNINGS, command, command_text, error_failure,
    error_success, error_text, success_text, warning, warning_text};
use crate::line::{Action, Hue, Level, Line, is_emit, is_pause_between};
use crate::random::{draw_below, draw_between};
use crate::text::{decimal, u64_to_decimal};

verus! {

/// A task that failed and is scheduled to be retried on the next iteration:
/// its failure message and the success message shown when a retry succeeds.
pub struct Task {
    pub failure: String,
    pub success: String,
}

/// The loop's whole mutable state: at most one pending failed task.
pub struct SimState {
    pub pending: Option<Task>,
}

/// Which behavior a branch-selector draw in `[0, 10)` picks.
#[derive(Clone, Copy, PartialEq, Eq, Structural, Debug)]
pub enum BranchKind {
    NormalTask,
    WarningReport,
    FailureStory,
}

pub open spec fn branch_of(choice: u64) -> BranchKind {
    if choice <= 5 {
        BranchKind::NormalTask
    } else if choice <= 8 {
        BranchKind::WarningReport
    } else {
        BranchKind::FailureStory
    }
}

/// The selector mapping: draws 0 through 5 run a normal task, 6 through 8 a
/// warning, 9 an error with retries.
pub fn branch_for(choice: u64) -> (b: BranchKind)
    ensures
        b == branch_of(choice),
{
    if choice <= 5 {
        BranchKind::NormalTask
    } else if choice <= 8 {
        BranchKind::WarningReport
    } else {
        BranchKind::FailureStory
    }
}

// The message of each kind of line, over the drawn values.
pub open spec fn command_line_msg(c: int) -> Seq<char> {
    command_text(c) + "..."@
}

pub open spec fn batch_msg(batch: u64) -> Seq<char> {
    "    ├─ Processing batch "@ + decimal(batch as nat)
}

pub open spec fn records_msg(records: u64) -> Seq<char> {
    "    ├─ Loaded "@ + decimal(records as nat) + " records from cache"@
}

pub open spec fn duration_msg(dur: u64) -> Seq<char> {
    "    └─ Operation completed in "@ + decimal(dur as nat) + "ms"@
}

pub open spec fn retry_delay_msg(delay: u64) -> Seq<char> {
    "    ├─ Retrying in "@ + decimal(delay as nat) + "s"@
}

pub open spec fn monitoring_msg() -> Seq<char> {
    "    └─ System monitoring engaged"@
}

pub open spec fn attempt_msg(i: int, w: u64) -> Seq<char> {
    "    ├─ Attempt "@ + decimal(i as nat) + ": Retrying in "@ + decimal(w as nat) + "s"@
}

pub open spec fn restart_msg() -> Seq<char> {
    "    ├─ Forced process restart initiated..."@
}

pub open spec fn reattempt_msg() -> Seq<char> {
    "    └─ Re-attempting the same task."@
}

pub open spec fn sub_success_msg(success: Seq<char>) -> Seq<char> {
    "    └─ "@ + success
}

pub open spec fn retrying_msg(failure: Seq<char>) -> Seq<char> {
    "Retrying failed task: "@ + failure + "..."@
}

pub open spec fn failed_again_msg(failure: Seq<char>) -> Seq<char> {
    failure + " failed again."@
}

/// The four info lines of a normal-task branch, for command `c` and the
/// drawn batch id, record count and duration.
pub open spec fn normal_actions(
    c: int,
    batch: u64,
    records: u64,
    dur: u64,
    acts: Seq<Action>,
) -> bool {
    &&& acts.len() == 4
    &&& is_emit(acts[0], Level::Info, command_line_msg(c), Hue::Green)
    &&& is_emit(acts[1], Level::Info, batch_msg(batch), Hue::White)
    &&& is_emit(acts[2], Level::Info, records_msg(records), Hue::White)
    &&& is_emit(acts[3], Level::Info, duration_msg(dur), Hue::White)
}

/// The three warning lines of a warning branch, for warning `w` and the
/// drawn retry delay.
pub open spec fn warning_actions(w: int, delay: u64, acts: Seq<Action>) -> bool {
    &&& acts.len() == 3
    &&& is_emit(acts[0], Level::Warning, warning_text(w), Hue::Yellow)
    &&& is_emit(acts[1], Level::Warning, retry_delay_msg(delay), Hue::White)
    &&& is_emit(acts[2], Level::Warning, monitoring_msg(), Hue::White)
}

/// The error branch for pair `e`: the error line, one attempt line and pause
/// per attempt, then the final coin's two lines — the failure outcome
/// (`coin == 0`) in red, the success outcome in green.
pub open spec fn failure_actions(
    e: int,
    retries: u64,
    waits: Seq<u64>,
    coin: u64,
    acts: Seq<Action>,
) -> bool {
    &&& acts.len() == 3 + 2 * retries
    &&& is_emit(acts[0], Level::Error, error_text(e), Hue::Red)
    &&& forall|j: int|
        0 <= j < retries ==> is_emit(
            #[trigger] acts[1 + 2 * j],
            Level::Error,
            attempt_msg(j + 1, waits[j]),
            Hue::White,
        )
    &&& forall|j: int| 0 <= j < retries ==> acts[2 + 2 * j] == Action::Pause(waits[j])
    &&& (coin == 0 ==> is_emit(acts[acts.len() - 2], Level::Error, restart_msg(), Hue::Red)
        && is_emit(acts[acts.len() - 1], Level::Error, reattempt_msg(), Hue::Red))
    &&& (coin != 0 ==> is_emit(acts[acts.len() - 2], Level::Info, restart_msg(), Hue::Green)
        && is_emit(acts[acts.len() - 1], Level::Info, sub_success_msg(success_text(e)), Hue::Green))
}

/// The retry branch for a pending task: the retry line, the pre-coin pause,
/// then the success line (`coin == 0`) or the failed-again line.
pub open spec fn retry_actions(
    failure: Seq<char>,
    success: Seq<char>,
    pre_wait: u64,
    coin: u64,
    acts: Seq<Action>,
) -> bool {
    &&& acts.len() == 3
    &&& is_emit(acts[0], Level::Info, retrying_msg(failure), Hue::Green)
    &&& acts[1] == Action::Pause(pre_wait)
    &&& (coin == 0 ==> is_emit(acts[2], Level::Info, sub_success_msg(success), Hue::Green))
    &&& (coin != 0 ==> is_emit(acts[2], Level::Error, failed_again_msg(failure), Hue::Red))
}

/// Runs the normal-task branch on the drawn values.
pub fn normal_branch(cmd: usize, batch: u64, records: u64, dur: u64) -> (acts: Vec<Action>)
    requires
        cmd < NUM_COMMANDS,
        1000 <= batch < 9999,
        50 <= records < 500,
        20 <= dur < 150,
    ensures
        normal_actions(cmd as int, batch, records, dur, acts@),
{
    let mut acts: Vec<Action> = Vec::new();
    let mut m0 = command(cmd);
    m0.append("...");
    acts.push(Action::Emit(Line { level: Level::Info, message: m0, hue: Hue::Green }));
    let mut m1 = "    ├─ Processing batch ".to_owned();
    let d1 = u64_to_decimal(batch);
    m1.append(d1.as_str());
    acts.push(Action::Emit(Line { level: Level::Info, message: m1, hue: Hue::White }));
    let mut m2 = "    ├─ Loaded ".to_owned();
    let d2 = u64_to_decimal(records);
    m2.append(d2.as_str());
    m2.append(" records from cache");
    acts.push(Action::Emit(Line { level: Level::Info, message: m2, hue: Hue::White }));
    let mut m3 = "    └─ Operation completed in ".to_owned();
    let d3 = u64_to_decimal(dur);
    m3.append(d3.as_str());
    m3.append("ms");
    acts.push(Action::Emit(Line { level: Level::Info, message: m3, hue: Hue::White }));
    acts
}

/// Runs the warning branch on the drawn values.
pub fn warning_branch(w: usize, delay: u64) -> (acts: Vec<Action>)
    requires
        w < NUM_WARNINGS,
        3 <= delay < 10,
    ensures
        warning_actions(w as int, delay, acts@),
{
    let mut acts: Vec<Action> = Vec::new();
    acts.push(Action::Emit(Line { level: Level::Warning, message: warning(w), hue: Hue::Yellow }));
    let mut m1 = "    ├─ Retrying in ".to_owned();
    let d1 = u64_to_decimal(delay);
    m1.append(d1.as_str());
    m1.append("s");
    acts.push(Action::Emit(Line { level: Level::Warning, message: m1, hue: Hue::White }));
    acts.push(
        Action::Emit(
            Line {
                level: Level::Warning,
                message: "    └─ System monitoring engaged".to_owned(),
                hue: Hue::White,
            },
        ),
    );
    acts
}

/// Runs the error branch on the drawn values: emits the story and returns
/// the task to retry, which is set exactly when the final coin resolved to
/// the failure outcome (`coin == 0`).
pub fn failure_branch(e: usize, retries: u64, waits: &Vec<u64>, coin: u64) -> (r: (
    Vec<Action>,
    Option<Task>,
))
    requires
        e < NUM_ERRORS,
        1 <= retries <= 3,
        waits@.len() == retries,
        forall|j: int| 0 <= j < retries ==> 2 <= #[trigger] waits@[j] < 6,
        coin < 2,
    ensures
        failure_actions(e as int, retries, waits@, coin, r.0@),
        (r.1 is Some) == (coin == 0),
        r.1 matches Some(t) ==> t.failure@ == error_text(e as int) && t.success@ == success_text(
            e as int,
        ),
{
    let mut acts: Vec<Action> = Vec::new();
    acts.push(Action::Emit(Line { level: Level::Error, message: error_failure(e), hue: Hue::Red }));
    let mut done: u64 = 0;
    while done < retries
        invariant
            done <= retries,
            retries <= 3,
            waits@.len() == retries,
            forall|j: int| 0 <= j < retries ==> 2 <= #[trigger] waits@[j] < 6,
            e < NUM_ERRORS,
            acts@.len() == 1 + 2 * done,
            is_emit(acts@[0], Level::Error, error_text(e as int), Hue::Red),
            forall|j: int|
                0 <= j < done ==> is_emit(
                    #[trigger] acts@[1 + 2 * j],
                    Level::Error,
                    attempt_msg(j + 1, waits@[j]),
                    Hue::White,
                ),
            forall|j: int| 0 <= j < done ==> acts@[2 + 2 * j] == Action::Pause(waits@[j]),
        decreases retries - done,
    {
        let i: u64 = done + 1;
        let w: u64 = waits[done as usize];
        let mut m = "    ├─ Attempt ".to_owned();
        let di = u64_to_decimal(i);
        m.append(di.as_str());
        m.append(": Retrying in ");
        let dw = u64_to_decimal(w);
        m.append(dw.as_str());
        m.append("s");
        acts.push(Action::Emit(Line { level: Level::Error, message: m, hue: Hue::White }));
        acts.push(Action::Pause(w));
        done = i;
    }
    let pending: Option<Task>;
    if coin == 0 {
        acts.push(
            Action::Emit(
                Line {
                    level: Level::Error,
                    message: "    ├─ Forced process restart initiated...".to_owned(),
                    hue: Hue::Red,
                },
            ),
        );
        acts.push(
            Action::Emit(
                Line {
                    level: Level::Error,
                    message: "    └─ Re-attempting the same task.".to_owned(),
                    hue: Hue::Red,
                },
            ),
        );
        pending = Some(Task { failure: error_failure(e), success: error_success(e) });
    } else {
        acts.push(
            Action::Emit(
                Line {
                    level: Level::Info,
                    message: "    ├─ Forced process restart initiated...".to_owned(),
                    hue: Hue::Green,
                },
            ),
        );
        let mut m = "    └─ ".to_owned();
        let su = error_success(e);
        m.append(su.as_str());
        acts.push(Action::Emit(Line { level: Level::Info, message: m, hue: Hue::Green }));
        pending = None;
    }
    (acts, pending)
}

/// Runs the retry branch for the pending task: emits its lines and returns
/// the new pending state, which is cleared exactly when the coin resolved to
/// success (`coin == 0`).
pub fn retry_branch(task: &Task, pre_wait: u64, coin: u64) -> (r: (Vec<Action>, Option<Task>))
    requires
        2 <= pre_wait < 5,
        coin < 2,
    ensures
        retry_actions(task.failure@, task.success@, pre_wait, coin, r.0@),
        (r.1 is None) == (coin == 0),
        r.1 matches Some(t) ==> t.failure@ == task.failure@ && t.success@ == task.success@,
{
    let mut acts: Vec<Action> = Vec::new();
    let mut m0 = "Retrying failed task: ".to_owned();
    m0.append(task.failure.as_str());
    m0.append("...");
    acts.push(Action::Emit(Line { level: Level::Info, message: m0, hue: Hue::Green }));
    acts.push(Action::Pause(pre_wait));
    if coin == 0 {
        let mut m1 = "    └─ ".to_owned();
        m1.append(task.success.as_str());
        acts.push(Action::Emit(Line { level: Level::Info, message: m1, hue: Hue::Green }));
        (acts, None)
    } else {
        let mut m1 = task.failure.clone();
        m1.append(" failed again.");
        acts.push(Action::Emit(Line { level: Level::Error, message: m1, hue: Hue::Red }));
        (acts, Some(Task { failure: task.failure.clone(), success: task.success.clone() }))
    }
}

/// Outcome of an iteration that retried the pending task. `kept` says
/// whether the task is still pending afterward: when the coin came up
/// success the task is cleared and the iteration ends with the trailing
/// pause; when it failed again the task is kept and the iteration restarts
/// at once, with no trailing pause.
pub open spec fn retry_outcome(
    failure: Seq<char>,
    success: Seq<char>,
    kept: bool,
    acts: Seq<Action>,
) -> bool {
    if kept {
        exists|pw: u64| 2 <= pw < 5 && #[trigger] retry_actions(failure, success, pw, 1, acts)
    } else {
        &&& acts.len() == 4
        &&& is_pause_between(acts[3], 1, 5)
        &&& exists|pw: u64|
            2 <= pw < 5 && #[trigger] retry_actions(failure, success, pw, 0, acts.take(3))
    }
}

/// Outcome of a normal-task iteration: four info lines for some command and
/// in-bounds draws, then the trailing pause. No task becomes pending.
pub open spec fn normal_outcome(newp: Option<Task>, acts: Seq<Action>) -> bool {
    &&& newp is None
    &&& acts.len() == 5
    &&& is_pause_between(acts[4], 1, 5)
    &&& exists|c: int, b: u64, rec: u64, d: u64|
        {
            &&& 0 <= c < NUM_COMMANDS
            &&& 1000 <= b < 9999
            &&& 50 <= rec < 500
            &&& 20 <= d < 150
            &&& #[trigger] normal_actions(c, b, rec, d, acts.take(4))
        }
}

/// Outcome of a warning iteration: three warning lines for some warning and
/// in-bounds delay, then the trailing pause. No task becomes pending.
pub open spec fn warning_outcome(newp: Option<Task>, acts: Seq<Action>) -> bool {
    &&& newp is None
    &&& acts.len() == 4
    &&& is_pause_between(acts[3], 1, 5)
    &&& exists|w: int, delay: u64|
        0 <= w < NUM_WARNINGS && 3 <= delay < 10 && #[trigger] warning_actions(
            w,
            delay,
            acts.take(3),
        )
}

/// The body of `failure_outcome`, with the drawn values explicit.
pub open spec fn failure_outcome_with(
    e: int,
    retries: u64,
    waits: Seq<u64>,
    coin: u64,
    newp: Option<Task>,
    acts: Seq<Action>,
) -> bool {
    &&& 0 <= e < NUM_ERRORS
    &&& 1 <= retries <= 3
    &&& waits.len() == retries
    &&& (forall|j: int| 0 <= j < retries ==> 2 <= #[trigger] waits[j] < 6)
    &&& coin < 2
    &&& acts.len() == 4 + 2 * retries
    &&& is_pause_between(acts[acts.len() - 1], 1, 5)
    &&& failure_actions(e, retries, waits, coin, acts.take(acts.len() - 1))
    &&& (if coin == 0 {
        newp matches Some(t) && t.failure@ == error_text(e) && t.success@ == success_text(e)
    } else {
        newp is None
    })
}

/// Outcome of an error iteration: the error story for some pair and
/// in-bounds draws, then the trailing pause. The pair becomes pending
/// exactly when the final coin resolved to the failure outcome.
pub open spec fn failure_outcome(newp: Option<Task>, acts: Seq<Action>) -> bool {
    exists|e: int, retries: u64, waits: Seq<u64>, coin: u64|
        #[trigger] failure_outcome_with(e, retries, waits, coin, newp, acts)
}

/// Outcome of an iteration that found no pending task: exactly one of the
/// three selector branches ran.
pub open spec fn selector_outcome(newp: Option<Task>, acts: Seq<Action>) -> bool {
    ||| normal_outcome(newp, acts)
    ||| warning_outcome(newp, acts)
    ||| failure_outcome(newp, acts)
}

/// Each iteration takes exactly one branch. `step` runs the retry branch
/// when a task is pending and a selector branch otherwise; this shows the
/// two cannot be confused: no action sequence is both a retry outcome and a
/// selector outcome.
pub proof fn lemma_branches_exclusive(
    failure: Seq<char>,
    success: Seq<char>,
    kept: bool,
    newp: Option<Task>,
    acts: Seq<Action>,
)
    ensures
        !(retry_outcome(failure, success, kept, acts) && selector_outcome(newp, acts)),
{
    if retry_outcome(failure, success, kept, acts) && selector_outcome(newp, acts) {
        if kept {
            let pw = choose|pw: u64|
                2 <= pw < 5 && #[trigger] retry_actions(failure, success, pw, 1, acts);
            assert(acts.len() == 3);
        } else {
            assert(acts.len() == 4);
        }
        if normal_outcome(newp, acts) {
            assert(false);
        } else if warning_outcome(newp, acts) {
            let pw = choose|pw: u64|
                2 <= pw < 5 && #[trigger] retry_actions(failure, success, pw, 0, acts.take(3));
            let (w, delay) = choose|w: int, delay: u64|
                0 <= w < NUM_WARNINGS && 3 <= delay < 10 && #[trigger] warning_actions(
                    w,
                    delay,
                    acts.take(3),
                );
            assert(is_emit(acts.take(3)[0], Level::Info, retrying_msg(failure), Hue::Green));
            assert(is_emit(acts.take(3)[0], Level::Warning, warning_text(w), Hue::Yellow));
            assert(false);
        } else {
            let (e, retries, waits, coin) = choose|e: int, retries: u64, waits: Seq<u64>, coin: u64|
                #[trigger] failure_outcome_with(e, retries, waits, coin, newp, acts);
            assert(acts.len() >= 6);
            assert(false);
        }
    }
}

/// A retry iteration clears the pending task exactly when it emitted the
/// success line; when it emitted the failed-again error line the task stays
/// pending.
pub proof fn lemma_retry_clears_iff_success(
    failure: Seq<char>,
    success: Seq<char>,
    kept: bool,
    acts: Seq<Action>,
)
    requires
        retry_outcome(failure, success, kept, acts),
    ensures
        !kept <==> (acts.len() == 4 && is_emit(
            acts[2],
            Level::Info,
            sub_success_msg(success),
            Hue::Green,
        )),
{
    if kept {
        let pw = choose|pw: u64|
            2 <= pw < 5 && #[trigger] retry_actions(failure, success, pw, 1, acts);
        assert(acts.len() == 3);
    } else {
        let pw = choose|pw: u64|
            2 <= pw < 5 && #[trigger] retry_actions(failure, success, pw, 0, acts.take(3));
        assert(acts.take(3)[2] == acts[2]);
    }
}

/// An error iteration sets the pending task exactly when it emitted the two
/// red final lines, the second of which is the re-attempting line.
pub proof fn lemma_failure_sets_iff_error_finale(newp: Option<Task>, acts: Seq<Action>)
    requires
        failure_outcome(newp, acts),
    ensures
        (newp is Some) <==> is_emit(
            acts[acts.len() - 2],
            Level::Error,
            reattempt_msg(),
            Hue::Red,
        ),
{
    let (e, retries, waits, coin) = choose|e: int, retries: u64, waits: Seq<u64>, coin: u64|
        #[trigger] failure_outcome_with(e, retries, waits, coin, newp, acts);
    let trimmed = acts.take(acts.len() - 1);
    assert(trimmed[trimmed.len() - 1] == acts[acts.len() - 2]);
}

impl SimState {
    /// The loop starts with no pending task.
    pub fn new() -> (s: SimState)
        ensures
            s.pending is None,
    {
        SimState { pending: None }
    }

    /// One iteration of the simulation: when a task is pending, the retry
    /// branch runs; otherwise one of the three selector branches runs. The
    /// caller performs the returned actions in order.
    pub fn step(&mut self) -> (acts: Vec<Action>)
        ensures
            match old(self).pending {
                Some(t) => {
                    ||| (final(self).pending is None && retry_outcome(
                        t.failure@,
                        t.success@,
                        false,
                        acts@,
                    ))
                    ||| (final(self).pending == old(self).pending && retry_outcome(
                        t.failure@,
                        t.success@,
                        true,
                        acts@,
                    ))
                },
                None => selector_outcome(final(self).pending, acts@),
            },
    {
        let pending_msgs: Option<(String, String)> = match &self.pending {
            Some(t) => Some((t.failure.clone(), t.success.clone())),
            None => None,
        };
        match pending_msgs {
            Some((failure, success)) => {
                let task = Task { failure, success };
                let pre_wait = draw_below(2, 5);
                let coin = draw_below(0, 2);
                let (mut acts, newp) = retry_branch(&task, pre_wait, coin);
                if coin == 0 {
                    self.pending = newp;
                    let trail = draw_between(1, 5);
                    let ghost before = acts@;
                    acts.push(Action::Pause(trail));
                    proof {
                        assert(acts@.take(3) =~= before);
                        assert(retry_actions(
                            task.failure@,
                            task.success@,
                            pre_wait,
                            0,
                            acts@.take(3),
                        ));
                    }
                    acts
                } else {
                    proof {
                        assert(retry_actions(task.failure@, task.success@, pre_wait, 1, acts@));
                    }
                    acts
                }
            },
            None => {
                let choice = draw_below(0, 10);
                match branch_for(choice) {
                    BranchKind::NormalTask => {
                        let cmd = draw_below(0, NUM_COMMANDS as u64) as usize;
                        let batch = draw_below(1000, 9999);
                        let records = draw_below(50, 500);
                        let dur = draw_below(20, 150);
                        let mut acts = normal_branch(cmd, batch, records, dur);
                        let trail = draw_between(1, 5);
                        let ghost before = acts@;
                        acts.push(Action::Pause(trail));
                        proof {
                            assert(acts@.take(4) =~= before);
                            assert(normal_actions(cmd as int, batch, records, dur, acts@.take(4)));
                        }
                        acts
                    },
                    BranchKind::WarningReport => {
                        let w = draw_below(0, NUM_WARNINGS as u64) as usize;
                        let delay = draw_below(3, 10);
                        let mut acts = warning_branch(w, delay);
                        let trail = draw_between(1, 5);
                        let ghost before = acts@;
                        acts.push(Action::Pause(trail));
                        proof {
                            assert(acts@.take(3) =~= before);
                            assert(warning_actions(w as int, delay, acts@.take(3)));
                        }
                        acts
                    },
                    BranchKind::FailureStory => {
                        let e = draw_below(0, NUM_ERRORS as u64) as usize;
                        let retries = draw_between(1, 3);
                        let mut waits: Vec<u64> = Vec::new();
                        let mut k: u64 = 0;
                        while k < retries
                            invariant
                                k <= retries,
                                retries <= 3,
                                waits@.len() == k,
                                forall|j: int| 0 <= j < k ==> 2 <= #[trigger] waits@[j] < 6,
                            decreases retries - k,
                        {
                            let w = draw_below(2, 6);
                            waits.push(w);
                            k = k + 1;
                        }
                        let coin = draw_below(0, 2);
                        let (mut acts, newp) = failure_branch(e, retries, &waits, coin);
                        self.pending = newp;
                        let trail = draw_between(1, 5);
                        let ghost before = acts@;
                        acts.push(Action::Pause(trail));
                        proof {
                            assert(acts@.take(acts@.len() - 1) =~= before);
                            assert(failure_outcome_with(
                                e as int,
                                retries,
                                waits@,
                                coin,
                                self.pending,
                                acts@,
                            ));
                        }
                        acts
                    },
                }
            },
        }
    }
}

} // verus!
