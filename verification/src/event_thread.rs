//! The event loop in value form: a whole batch of domain events folded
//! into a snapshot, with every intermediate snapshot published — the same
//! single-consumer discipline the live loop follows, one event at a time.

use vstd::prelude::*;

use vstd::string::StringExecFns;

use crate::structs::{Store, TUIAction, TUIEvent};
use crate::truncator::TopTruncator;
use crate::widget_data_store::{fold_actions, fold_store, publish_trace, WidgetDataStore};

verus! {

/// Consumes a batch of domain events against a starting snapshot: the
/// final snapshot, the published snapshot per event (one before any event,
/// then one after each), and the intents sent back to the dispatcher.
pub fn event_thread(store: Store, events: Vec<TUIEvent>) -> (r: (
    Store,
    Vec<Store>,
    Vec<TUIAction>,
))
    ensures
        r.0@ == fold_store(store@, events.deep_view()),
        r.1.deep_view() == publish_trace(store@, events.deep_view()),
        r.2@ == fold_actions(events.deep_view()),
{
    let ghost store0 = store@;
    let ghost evs = events.deep_view();
    let mut consumer = WidgetDataStore::new(store, TopTruncator::new(50));
    consumer.start(events);
    proof {
        assert(consumer.snapshots.deep_view() =~= publish_trace(store0, evs));
        assert(consumer.actions@ =~= fold_actions(evs));
    }
    (consumer.store, consumer.snapshots, consumer.actions)
}

/// Appends one chunk of text to an accumulated transcript, starting it if
/// none has accumulated yet.
pub fn add_to(logs: &mut Option<String>, log_part: String)
    ensures
        (*old(logs)) matches Some(l) ==> ((*final(logs)) matches Some(l2) && l2@ == l@
            + log_part@),
        (*old(logs)) is None ==> ((*final(logs)) matches Some(l2) && l2@ == log_part@),
{
    let taken = logs.take();
    match taken {
        Some(mut l) => {
            l.append(log_part.as_str());
            *logs = Some(l);
        },
        None => {
            *logs = Some(log_part);
        },
    }
}

} // verus!
