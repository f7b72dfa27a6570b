//! The log truncator: periodically caps the workload-log buffer so memory
//! stays bounded. Eviction is from the top — the oldest lines go, the
//! newest stay — because operators need the most recent tail output.
//!
//! The surrounding binary owns the clock; it hands the current time (in
//! seconds) to `poll` and runs `truncate` when the poll fires.

use vstd::prelude::*;

use crate::structs::{Store, StoreView};
use crate::widgets::{BodyWidgetView, CliWidgetDataView, CliWidgetView, WidgetDataKey};

verus! {

/// A body pane with one text slot replaced.
pub open spec fn body_with_slot(
    w: BodyWidgetView,
    key: WidgetDataKey,
    text: Option<Seq<Seq<char>>>,
) -> BodyWidgetView {
    BodyWidgetView {
        widget: CliWidgetView {
            data: CliWidgetDataView {
                data: w.widget.data.data.with_slot(key, text),
                ..w.widget.data
            },
            ..w.widget
        },
        ..w
    }
}

/// The newest `ceiling` lines of a buffer: oldest entries beyond the
/// ceiling are dropped.
pub open spec fn spec_top_truncate(ceiling: int, logs: Seq<Seq<char>>) -> Seq<Seq<char>> {
    if logs.len() > ceiling {
        logs.skip(logs.len() - ceiling)
    } else {
        logs
    }
}

/// A periodic truncation policy over the snapshot's log pane.
pub trait Truncatorix: Sized {
    /// Model: the snapshot after one truncation pass.
    spec fn spec_truncate_store(&self, s: StoreView) -> StoreView;

    /// Model: the time of the last fired poll.
    spec fn time(&self) -> Option<u64>;

    /// Model: this truncator with its clock reset to `now_secs`.
    spec fn with_time(&self, now_secs: u64) -> Self;

    /// Model: whether the periodic check fires at `now_secs`.
    spec fn poll_fires(&self, now_secs: u64) -> bool;

    /// Resets the clock.
    fn set_time(&mut self, now_secs: u64)
        ensures
            *final(self) == old(self).with_time(now_secs),
    ;

    /// The time of the last fired poll.
    fn get_time(&self) -> (r: u64)
        requires
            self.time() is Some,
        ensures
            self.time() == Some(r),
    ;

    /// One truncation pass over the snapshot.
    fn truncate(&mut self, store: &mut Store)
        ensures
            final(store)@ == old(self).spec_truncate_store(old(store)@),
            *final(self) == *old(self),
    ;

    /// The periodic check: true when enough time has passed since the last
    /// fired poll, in which case the clock is reset.
    fn poll(&mut self, now_secs: u64) -> (r: bool)
        requires
            old(self).time() is Some,
        ensures
            r == old(self).poll_fires(now_secs),
            r ==> *final(self) == old(self).with_time(now_secs),
            !r ==> *final(self) == *old(self),
    ;

    /// Arms the clock before the first poll.
    fn start(&mut self, now_secs: u64)
        ensures
            *final(self) == old(self).with_time(now_secs),
    ;
}

/// Top-eviction truncator: keeps the newest `from_to_top` log lines.
#[derive(Debug)]
pub struct TopTruncator {
    pub now: Option<u64>,
    pub from_to_top: i16,
}

impl TopTruncator {
    /// The configured ceiling, as a non-negative count.
    pub open spec fn ceiling(&self) -> int {
        if self.from_to_top >= 0 {
            self.from_to_top as int
        } else {
            0
        }
    }

    pub fn new(from_to_top: i16) -> (r: Self)
        requires
            from_to_top >= 0,
        ensures
            r == (TopTruncator { now: None, from_to_top }),
    {
        TopTruncator { now: None, from_to_top }
    }
}

impl Truncatorix for TopTruncator {
    open spec fn spec_truncate_store(&self, s: StoreView) -> StoreView {
        match s.logs_widget {
            Some(w) => match w.widget.data.data.logs {
                Some(logs) => if logs.len() > self.ceiling() {
                    StoreView {
                        logs_widget: Some(
                            body_with_slot(
                                w,
                                WidgetDataKey::Logs,
                                Some(spec_top_truncate(self.ceiling(), logs)),
                            ),
                        ),
                        ..s
                    }
                } else {
                    s
                },
                None => s,
            },
            None => s,
        }
    }

    open spec fn time(&self) -> Option<u64> {
        self.now
    }

    open spec fn with_time(&self, now_secs: u64) -> Self {
        TopTruncator { now: Some(now_secs), ..*self }
    }

    open spec fn poll_fires(&self, now_secs: u64) -> bool {
        self.now matches Some(t) && now_secs > t + 5
    }

    fn set_time(&mut self, now_secs: u64) {
        self.now = Some(now_secs);
    }

    fn get_time(&self) -> (r: u64) {
        match self.now {
            Some(t) => t,
            None => 0,
        }
    }

    fn truncate(&mut self, store: &mut Store) {
        let widget_opt = store.logs_widget.take();
        match widget_opt {
            Some(mut widget) => {
                let taken = widget.widget.data.data.logs.take();
                match taken {
                    Some(mut data) => {
                        let ceiling: usize = if self.from_to_top >= 0 {
                            self.from_to_top as usize
                        } else {
                            0
                        };
                        if data.len() > ceiling {
                            let kept = data.split_off(data.len() - ceiling);
                            widget.widget.data.data.logs = Some(kept);
                        } else {
                            widget.widget.data.data.logs = Some(data);
                        }
                    },
                    None => {
                        widget.widget.data.data.logs = None;
                    },
                }
                store.logs_widget = Some(widget);
            },
            None => {},
        }
        proof {
            assert(store@ =~~= old(self).spec_truncate_store(old(store)@));
        }
    }

    fn poll(&mut self, now_secs: u64) -> (r: bool) {
        match self.now {
            Some(t) => {
                if now_secs > t && now_secs - t > 5 {
                    self.now = Some(now_secs);
                    true
                } else {
                    false
                }
            },
            None => false,
        }
    }

    fn start(&mut self, now_secs: u64) {
        self.now = Some(now_secs);
    }
}

/// A truncator that never fires and never changes the snapshot.
#[derive(Debug)]
pub struct NoopTruncator {
    pub time_elapsed: i32,
    pub last: Option<u64>,
}

impl NoopTruncator {
    pub fn new() -> (r: Self)
        ensures
            r == (NoopTruncator { time_elapsed: 0, last: Some(0) }),
    {
        NoopTruncator { time_elapsed: 0, last: Some(0) }
    }
}

impl Truncatorix for NoopTruncator {
    open spec fn spec_truncate_store(&self, s: StoreView) -> StoreView {
        s
    }

    open spec fn time(&self) -> Option<u64> {
        Some(0)
    }

    open spec fn with_time(&self, now_secs: u64) -> Self {
        *self
    }

    open spec fn poll_fires(&self, now_secs: u64) -> bool {
        false
    }

    fn set_time(&mut self, now_secs: u64) {
    }

    fn get_time(&self) -> (r: u64) {
        0
    }

    fn truncate(&mut self, store: &mut Store) {
    }

    fn poll(&mut self, now_secs: u64) -> (r: bool) {
        false
    }

    fn start(&mut self, now_secs: u64) {
    }
}

/// Truncation is exact: past the ceiling, exactly the `len - ceiling`
/// oldest entries are removed and the newest `ceiling` are kept in order;
/// within the ceiling, nothing changes.
pub proof fn lemma_truncate_exact(ceiling: int, logs: Seq<Seq<char>>)
    requires
        ceiling >= 0,
    ensures
        logs.len() > ceiling ==> spec_top_truncate(ceiling, logs).len() == ceiling,
        logs.len() > ceiling ==> forall|k: int|
            0 <= k < ceiling ==> spec_top_truncate(ceiling, logs)[k] == logs[logs.len() - ceiling
                + k],
        logs.len() <= ceiling ==> spec_top_truncate(ceiling, logs) == logs,
{
}

/// Repeated truncation with no growth in between is a no-op.
pub proof fn lemma_truncate_idempotent(ceiling: int, logs: Seq<Seq<char>>)
    requires
        ceiling >= 0,
    ensures
        spec_top_truncate(ceiling, spec_top_truncate(ceiling, logs)) == spec_top_truncate(
            ceiling,
            logs,
        ),
{
}

} // verus!
