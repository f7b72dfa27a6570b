//! The connectivity and timeout monitor: the decision core of waiting on a
//! child process with a soft grace period and a hard ceiling.
//!
//! The surrounding binary owns the clock and the actual `try_wait` calls; on
//! each poll it reports one [`ChildPoll`] observation and acts on the
//! decision: forward the warning event, keep waiting, or stop with the
//! run's result. Past the grace period the monitor emits a single advisory
//! warning; past the ceiling it gives up with a timeout error.

use vstd::prelude::*;

use vstd::string::StringExecFns;

use crate::strutil::{dec_rep_i64, i32_to_string};
use crate::structs::{TUIError, TUIErrorView, TUIEvent, TUIEventView};

verus! {

/// One observation of a child process by the polling monitor.
#[derive(Debug)]
pub enum ChildPoll {
    /// Still running after `elapsed_secs` seconds.
    Pending { elapsed_secs: u64 },
    /// Exited; `stdout` is `None` when collecting the output failed.
    Exited { success: bool, exit_code: i32, stdout: Option<String> },
    /// Polling itself failed.
    PollFailed,
}

/// Model of [`ChildPoll`].
#[verifier::ext_equal]
pub ghost enum ChildPollView {
    Pending { elapsed_secs: u64 },
    Exited { success: bool, exit_code: i32, stdout: Option<Seq<char>> },
    PollFailed,
}

impl View for ChildPoll {
    type V = ChildPollView;

    open spec fn view(&self) -> ChildPollView {
        match self {
            ChildPoll::Pending { elapsed_secs } => ChildPollView::Pending {
                elapsed_secs: *elapsed_secs,
            },
            ChildPoll::Exited { success, exit_code, stdout } => ChildPollView::Exited {
                success: *success,
                exit_code: *exit_code,
                stdout: stdout.deep_view(),
            },
            ChildPoll::PollFailed => ChildPollView::PollFailed,
        }
    }
}

impl DeepView for ChildPoll {
    type V = ChildPollView;

    open spec fn deep_view(&self) -> ChildPollView {
        self@
    }
}

/// Why waiting on a child failed.
#[derive(Clone, Copy, Debug, PartialEq, Eq, Structural)]
pub enum WaitError {
    /// The child exited with this non-zero code.
    ExitCode(i32),
    /// No completion within the hard ceiling; the child is to be killed.
    Timeout,
    /// The child exited but its output could not be collected.
    WaitOutput,
    /// Polling the child failed.
    PollFailed,
}

/// The decision one poll observation forces, if any.
pub open spec fn step_decision(p: ChildPollView, ceiling_secs: u64) -> Option<
    Result<Seq<char>, WaitError>,
> {
    match p {
        ChildPollView::Pending { elapsed_secs } => if elapsed_secs > ceiling_secs {
            Some(Err(WaitError::Timeout))
        } else {
            None
        },
        ChildPollView::Exited { success, exit_code, stdout } => if success {
            match stdout {
                Some(out) => Some(Ok(out)),
                None => Some(Err(WaitError::WaitOutput)),
            }
        } else {
            Some(Err(WaitError::ExitCode(exit_code)))
        },
        ChildPollView::PollFailed => Some(Err(WaitError::PollFailed)),
    }
}

/// A poll observation that is still pending past the grace period.
pub open spec fn is_late_pending(p: ChildPollView, grace_secs: u64) -> bool {
    p matches ChildPollView::Pending { elapsed_secs } && elapsed_secs > grace_secs
}

/// Whether this poll fires the single advisory warning.
pub open spec fn step_warns(warned: bool, p: ChildPollView, grace_secs: u64) -> bool {
    !warned && match p {
        ChildPollView::Pending { elapsed_secs } => elapsed_secs > grace_secs,
        _ => false,
    }
}

/// The events and outcome of running the monitor over a poll sequence.
#[verifier::ext_equal]
pub ghost struct MonitorRun {
    pub events: Seq<TUIEventView>,
    pub outcome: Option<Result<Seq<char>, WaitError>>,
}

/// Folds the monitor's step over the observations, stopping at the first
/// decisive one. The events are exactly the warnings emitted.
pub open spec fn monitor_run(
    polls: Seq<ChildPollView>,
    warned: bool,
    grace_secs: u64,
    ceiling_secs: u64,
) -> MonitorRun
    decreases polls.len(),
{
    if polls.len() == 0 {
        MonitorRun { events: Seq::empty(), outcome: None }
    } else {
        let p = polls.first();
        let warn_now = step_warns(warned, p, grace_secs);
        let evs: Seq<TUIEventView> = if warn_now {
            seq![TUIEventView::Error(TUIErrorView::VPN)]
        } else {
            Seq::empty()
        };
        match step_decision(p, ceiling_secs) {
            Some(res) => MonitorRun { events: evs, outcome: Some(res) },
            None => {
                let rest = monitor_run(
                    polls.drop_first(),
                    warned || warn_now,
                    grace_secs,
                    ceiling_secs,
                );
                MonitorRun { events: evs + rest.events, outcome: rest.outcome }
            },
        }
    }
}

/// The monitor's mutable state: its two time bounds and whether the single
/// warning has fired.
pub struct TimeoutMonitor {
    pub grace_secs: u64,
    pub ceiling_secs: u64,
    pub warned: bool,
}

impl TimeoutMonitor {
    pub fn new(grace_secs: u64, ceiling_secs: u64) -> (r: Self)
        requires
            grace_secs <= ceiling_secs,
        ensures
            r == (TimeoutMonitor { grace_secs, ceiling_secs, warned: false }),
    {
        TimeoutMonitor { grace_secs, ceiling_secs, warned: false }
    }

    /// Digests one poll observation: reports whether to emit the advisory
    /// warning now, and the run's result if this observation is decisive.
    pub fn step(&mut self, poll: &ChildPoll) -> (r: (bool, Option<Result<String, WaitError>>))
        ensures
            r.0 == step_warns(old(self).warned, poll@, old(self).grace_secs),
            wait_result_view(r.1) == step_decision(poll@, old(self).ceiling_secs),
            final(self).grace_secs == old(self).grace_secs,
            final(self).ceiling_secs == old(self).ceiling_secs,
            final(self).warned == (old(self).warned || r.0),
    {
        match poll {
            ChildPoll::Pending { elapsed_secs } => {
                let warn_now = !self.warned && *elapsed_secs > self.grace_secs;
                if warn_now {
                    self.warned = true;
                }
                if *elapsed_secs > self.ceiling_secs {
                    (warn_now, Some(Err(WaitError::Timeout)))
                } else {
                    (warn_now, None)
                }
            },
            ChildPoll::Exited { success, exit_code, stdout } => {
                if *success {
                    match stdout {
                        Some(out) => (false, Some(Ok(out.clone()))),
                        None => (false, Some(Err(WaitError::WaitOutput))),
                    }
                } else {
                    (false, Some(Err(WaitError::ExitCode(*exit_code))))
                }
            },
            ChildPoll::PollFailed => (false, Some(Err(WaitError::PollFailed))),
        }
    }
}

/// Model of an optional wait result.
pub open spec fn wait_result_view(r: Option<Result<String, WaitError>>) -> Option<
    Result<Seq<char>, WaitError>,
> {
    match r {
        None => None,
        Some(Ok(s)) => Some(Ok(s@)),
        Some(Err(e)) => Some(Err(e)),
    }
}

/// Runs the monitor over a recorded sequence of poll observations: the
/// warning events to forward, and the result if a decisive observation was
/// reached. Exactly the fold [`monitor_run`] from a fresh monitor.
pub fn wait_for_output_with_timeout(
    polls: &Vec<ChildPoll>,
    grace_secs: u64,
    ceiling_secs: u64,
) -> (r: (Vec<TUIEvent>, Option<Result<String, WaitError>>))
    requires
        grace_secs <= ceiling_secs,
    ensures
        r.0.deep_view() == monitor_run(polls.deep_view(), false, grace_secs, ceiling_secs).events,
        wait_result_view(r.1) == monitor_run(
            polls.deep_view(),
            false,
            grace_secs,
            ceiling_secs,
        ).outcome,
{
    let ghost all = polls.deep_view();
    let mut monitor = TimeoutMonitor::new(grace_secs, ceiling_secs);
    let mut events: Vec<TUIEvent> = Vec::new();
    let mut i: usize = 0;
    proof {
        assert(all.skip(0) =~= all);
    }
    loop
        invariant
            all == polls.deep_view(),
            i <= polls.len(),
            monitor.grace_secs == grace_secs,
            monitor.ceiling_secs == ceiling_secs,
            monitor_run(all, false, grace_secs, ceiling_secs).events == events.deep_view()
                + monitor_run(all.skip(i as int), monitor.warned, grace_secs, ceiling_secs).events,
            monitor_run(all, false, grace_secs, ceiling_secs).outcome == monitor_run(
                all.skip(i as int),
                monitor.warned,
                grace_secs,
                ceiling_secs,
            ).outcome,
        ensures
            events.deep_view() == monitor_run(all, false, grace_secs, ceiling_secs).events,
            monitor_run(all, false, grace_secs, ceiling_secs).outcome is None,
        decreases polls.len() - i,
    {
        if i == polls.len() {
            proof {
                assert(all.skip(i as int) =~= Seq::<ChildPollView>::empty());
                assert(events.deep_view() + monitor_run(
                    all.skip(i as int),
                    monitor.warned,
                    grace_secs,
                    ceiling_secs,
                ).events =~= events.deep_view());
            }
            break ;
        }
        let ghost rem_before = all.skip(i as int);
        let ghost warned_before = monitor.warned;
        let p = &polls[i];
        proof {
            assert(rem_before.len() > 0);
            assert(rem_before.first() == p@);
            assert(rem_before.drop_first() =~= all.skip(i as int + 1));
        }
        let (warn_now, decision) = monitor.step(p);
        if warn_now {
            events.push(TUIEvent::Error(TUIError::VPN));
        }
        i = i + 1;
        match decision {
            Some(res) => {
                proof {
                    assert(events.deep_view() =~= monitor_run(
                        all,
                        false,
                        grace_secs,
                        ceiling_secs,
                    ).events);
                }
                return (events, Some(res));
            },
            None => {
                proof {
                    assert(events.deep_view() + monitor_run(
                        all.skip(i as int),
                        monitor.warned,
                        grace_secs,
                        ceiling_secs,
                    ).events =~= monitor_run(all, false, grace_secs, ceiling_secs).events);
                }
            },
        }
    }
    (events, None)
}

/// Classifies a completed child's collected output, as the plain wait (no
/// timeout) does: success yields the standard output; failure yields an
/// error message carrying the standard error.
pub fn wait_for_output(success: bool, stdout: String, stderr: String) -> (r: Result<
    String,
    String,
>)
    ensures
        success ==> r == Ok::<String, String>(stdout),
        !success ==> r is Err && r->Err_0@ == "Error: "@ + stderr@,
{
    if success {
        Ok(stdout)
    } else {
        let mut msg = String::new();
        msg.append("Error: ");
        msg.append(stderr.as_str());
        Err(msg)
    }
}

/// The message a wait failure carries when surfaced as a user-facing error.
pub open spec fn spec_wait_error_message(e: WaitError) -> Seq<char> {
    match e {
        WaitError::ExitCode(c) => "Exit code "@ + dec_rep_i64(c as int),
        WaitError::Timeout => "timeout"@,
        WaitError::WaitOutput => "Error wait_with_output"@,
        WaitError::PollFailed => "error"@,
    }
}

/// Renders a wait failure as its user-facing message.
pub fn wait_error_message(e: &WaitError) -> (s: String)
    ensures
        s@ == spec_wait_error_message(*e),
{
    match e {
        WaitError::ExitCode(c) => {
            let mut m = String::new();
            m.append("Exit code ");
            let digits = i32_to_string(*c);
            m.append(digits.as_str());
            m
        },
        WaitError::Timeout => "timeout".to_owned(),
        WaitError::WaitOutput => "Error wait_with_output".to_owned(),
        WaitError::PollFailed => "error".to_owned(),
    }
}

/// At most one warning is ever emitted over a run, it is emitted only past
/// the grace period, and a run that ends in the hard timeout has emitted
/// the warning at or before the timeout decision.
pub proof fn lemma_warning_discipline(
    polls: Seq<ChildPollView>,
    warned: bool,
    grace_secs: u64,
    ceiling_secs: u64,
)
    requires
        grace_secs <= ceiling_secs,
    ensures
        monitor_run(polls, warned, grace_secs, ceiling_secs).events.len() <= (if warned {
            0int
        } else {
            1int
        }),
        forall|i: int|
            0 <= i < monitor_run(polls, warned, grace_secs, ceiling_secs).events.len()
                ==> monitor_run(polls, warned, grace_secs, ceiling_secs).events[i]
                == TUIEventView::Error(TUIErrorView::VPN),
        monitor_run(polls, warned, grace_secs, ceiling_secs).events.len() > 0 ==> exists|i: int|
            0 <= i < polls.len() && #[trigger] is_late_pending(polls[i], grace_secs),
        monitor_run(polls, warned, grace_secs, ceiling_secs).outcome == Some(
            Err::<Seq<char>, WaitError>(WaitError::Timeout),
        ) && !warned ==> monitor_run(polls, warned, grace_secs, ceiling_secs).events.len() == 1,
    decreases polls.len(),
{
    if polls.len() == 0 {
    } else {
        let p = polls.first();
        let warn_now = step_warns(warned, p, grace_secs);
        lemma_warning_discipline(polls.drop_first(), warned || warn_now, grace_secs, ceiling_secs);
        if warn_now {
            assert(is_late_pending(polls[0], grace_secs));
        }
        if step_decision(p, ceiling_secs) is None {
            let rest = monitor_run(polls.drop_first(), warned || warn_now, grace_secs, ceiling_secs);
            if rest.events.len() > 0 {
                let j = choose|j: int|
                    0 <= j < polls.drop_first().len() && #[trigger] is_late_pending(
                        polls.drop_first()[j],
                        grace_secs,
                    );
                assert(is_late_pending(polls[j + 1], grace_secs));
            }
        }
    }
}

} // verus!
