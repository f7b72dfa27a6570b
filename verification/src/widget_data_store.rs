//! The event-sourced store: the single consumer of domain events. Each
//! event deterministically turns the current snapshot into the next one,
//! and after every event the new snapshot is published to the presentation
//! layer. One exhaustive reducer handles every event kind; no handler does
//! any I/O.

use vstd::prelude::*;

use crate::aws_api::{
    lemma_all_out_no_err, stream_item_events, stream_items_events, stream_run_events,
    StreamItemView, StreamKind,
};
use crate::structs::{
    KubeEnv, Store, StoreView, TUIAction, TUIError, TUIErrorView, TUIEvent, TUIEventView, UIState,
};
use crate::line_reader::split_done;
use crate::truncator::{body_with_slot, TopTruncator};
use crate::widgets::{
    add_to_widget_data, appended_logs, BodyWidgetView, CliWidgetDataView, CliWidgetView,
    WidgetDataKey,
};

verus! {

/// The display label of an environment.
pub open spec fn spec_env_label(env: KubeEnv) -> Seq<char> {
    match env {
        KubeEnv::Dev => "Dev"@,
        KubeEnv::Test => "Test"@,
        KubeEnv::Prod => "Prod"@,
    }
}

/// Renders an environment's display label.
pub fn env_label(env: KubeEnv) -> (s: String)
    ensures
        s@ == spec_env_label(env),
{
    match env {
        KubeEnv::Dev => "Dev".to_owned(),
        KubeEnv::Test => "Test".to_owned(),
        KubeEnv::Prod => "Prod".to_owned(),
    }
}

/// The snapshot with one header slot replaced, when the header is present.
pub open spec fn header_with_slot(
    s: StoreView,
    key: WidgetDataKey,
    text: Option<Seq<Seq<char>>>,
) -> StoreView {
    match s.header_widget {
        Some(w) => StoreView {
            header_widget: Some(
                CliWidgetView {
                    data: CliWidgetDataView { data: w.data.data.with_slot(key, text), ..w.data },
                    ..w
                },
            ),
            ..s
        },
        None => s,
    }
}

/// The snapshot with one slot of the login pane replaced, when present.
pub open spec fn login_with_slot(
    s: StoreView,
    key: WidgetDataKey,
    text: Option<Seq<Seq<char>>>,
) -> StoreView {
    match s.login_widget {
        Some(w) => StoreView { login_widget: Some(body_with_slot(w, key, text)), ..s },
        None => s,
    }
}

/// The snapshot with one slot of the log pane replaced, when present.
pub open spec fn logs_with_slot(
    s: StoreView,
    key: WidgetDataKey,
    text: Option<Seq<Seq<char>>>,
) -> StoreView {
    match s.logs_widget {
        Some(w) => StoreView { logs_widget: Some(body_with_slot(w, key, text)), ..s },
        None => s,
    }
}

/// The snapshot with one slot of the pod pane replaced, when present.
pub open spec fn pods_with_slot(
    s: StoreView,
    key: WidgetDataKey,
    text: Option<Seq<Seq<char>>>,
) -> StoreView {
    match s.pods_widget {
        Some(w) => StoreView { pods_widget: Some(body_with_slot(w, key, text)), ..s },
        None => s,
    }
}

/// A body pane with its worker-started mark replaced.
pub open spec fn body_with_started(w: BodyWidgetView, started: bool) -> BodyWidgetView {
    BodyWidgetView {
        widget: CliWidgetView {
            data: CliWidgetDataView { thread_started: started, ..w.widget.data },
            ..w.widget
        },
        ..w
    }
}

/// The snapshot with the streaming panes' worker-started marks cleared, so
/// the streams are restarted against a new environment.
pub open spec fn clear_started_marks(s: StoreView) -> StoreView {
    let s1 = match s.logs_widget {
        Some(w) => StoreView { logs_widget: Some(body_with_started(w, false)), ..s },
        None => s,
    };
    match s1.pods_widget {
        Some(w) => StoreView { pods_widget: Some(body_with_started(w, false)), ..s1 },
        None => s1,
    }
}

/// The one-step reducer: the snapshot an event turns the current snapshot
/// into.
pub open spec fn apply_event(s: StoreView, e: TUIEventView) -> StoreView {
    match e {
        TUIEventView::RequestEnvChange => StoreView { env_change_possible: true, ..s },
        TUIEventView::EnvChange(env) => clear_started_marks(
            header_with_slot(
                StoreView { env_change_possible: false, ..s },
                WidgetDataKey::KubeInfo,
                Some(seq![spec_env_label(env)]),
            ),
        ),
        TUIEventView::Error(err) => match err {
            TUIErrorView::VPN => header_with_slot(
                s,
                WidgetDataKey::ErrorText,
                Some(seq!["Uhm... VPN on ?"@]),
            ),
            TUIErrorView::KEY(m) => header_with_slot(s, WidgetDataKey::ErrorText, Some(seq![m])),
            TUIErrorView::API(m) => header_with_slot(s, WidgetDataKey::ErrorText, Some(seq![m])),
        },
        TUIEventView::ClearError => header_with_slot(s, WidgetDataKey::ErrorText, None),
        TUIEventView::CheckConnectivity => StoreView { request_login: false, ..s },
        TUIEventView::RequestLoginStart => StoreView { request_login: true, ..s },
        TUIEventView::RequestLoginStop => StoreView { request_login: false, ..s },
        TUIEventView::NeedsLogin => StoreView { ui_state: UIState::LoggingIn, ..s },
        TUIEventView::IsLoggedIn => header_with_slot(
            login_with_slot(
                StoreView { logged_in: true, ..s },
                WidgetDataKey::Logs,
                None,
            ),
            WidgetDataKey::LoggedIn,
            Some(seq!["true"@]),
        ),
        TUIEventView::IsConnected => header_with_slot(
            header_with_slot(
                login_with_slot(
                    StoreView { logged_in: true, ..s },
                    WidgetDataKey::Logs,
                    None,
                ),
                WidgetDataKey::LoggedIn,
                Some(seq!["true"@]),
            ),
            WidgetDataKey::LoginInfo,
            Some(seq!["LOGGED IN"@]),
        ),
        TUIEventView::DisplayLoginCode(code) => StoreView { login_code: Some(code), ..s },
        TUIEventView::AddLoginLog(line) => match s.login_widget {
            Some(w) => StoreView {
                login_widget: Some(
                    body_with_slot(
                        w,
                        WidgetDataKey::Logs,
                        Some(appended_logs(w.widget.data.data.logs, line)),
                    ),
                ),
                ..s
            },
            None => s,
        },
        TUIEventView::AddLog(line) => match s.logs_widget {
            Some(w) => StoreView {
                logs_widget: Some(
                    body_with_slot(
                        w,
                        WidgetDataKey::Logs,
                        Some(appended_logs(w.widget.data.data.logs, line)),
                    ),
                ),
                ..s
            },
            None => s,
        },
        TUIEventView::AddPods(pods) => pods_with_slot(
            s,
            WidgetDataKey::Logs,
            Some(seq![pods]),
        ),
        TUIEventView::AddTailLog(_) => s,
    }
}

/// The intents an event sends back into the dispatcher.
pub open spec fn event_actions(e: TUIEventView) -> Seq<TUIAction> {
    match e {
        TUIEventView::EnvChange(env) => seq![TUIAction::ChangeEnv(env)],
        TUIEventView::CheckConnectivity => seq![TUIAction::CheckConnectivity],
        TUIEventView::NeedsLogin => seq![TUIAction::LogIn],
        TUIEventView::IsLoggedIn => seq![TUIAction::CheckConnectivity],
        _ => Seq::empty(),
    }
}

/// The snapshot after a whole event sequence.
pub open spec fn fold_store(s: StoreView, evs: Seq<TUIEventView>) -> StoreView
    decreases evs.len(),
{
    if evs.len() == 0 {
        s
    } else {
        apply_event(fold_store(s, evs.drop_last()), evs.last())
    }
}

/// The intents sent over a whole event sequence, in order.
pub open spec fn fold_actions(evs: Seq<TUIEventView>) -> Seq<TUIAction>
    decreases evs.len(),
{
    if evs.len() == 0 {
        Seq::empty()
    } else {
        fold_actions(evs.drop_last()) + event_actions(evs.last())
    }
}

/// The snapshots published while consuming an event sequence: one before
/// any event, then one after each event.
pub open spec fn publish_trace(s: StoreView, evs: Seq<TUIEventView>) -> Seq<StoreView> {
    seq![s] + Seq::new(evs.len(), |i: int| fold_store(s, evs.take(i + 1)))
}

/// The event-sourced store: the current snapshot, the intents sent back to
/// the dispatcher, the snapshots published to the presentation layer, and
/// the periodic truncator.
#[derive(Debug)]
pub struct WidgetDataStore {
    pub store: Store,
    pub actions: Vec<TUIAction>,
    pub snapshots: Vec<Store>,
    pub truncator: TopTruncator,
}

impl WidgetDataStore {
    pub fn new(store: Store, truncator: TopTruncator) -> (r: Self)
        ensures
            r.store == store,
            r.actions@ == Seq::<TUIAction>::empty(),
            r.snapshots@ == Seq::<Store>::empty(),
            r.truncator == truncator,
    {
        WidgetDataStore { store, actions: Vec::new(), snapshots: Vec::new(), truncator }
    }

    /// Publishes the current snapshot: the presentation layer always reads
    /// a complete copy, never a partially mutated one.
    pub fn send(&mut self)
        ensures
            final(self).snapshots.deep_view() == old(self).snapshots.deep_view().push(
                old(self).store@,
            ),
            final(self).store == old(self).store,
            final(self).actions == old(self).actions,
            final(self).truncator == old(self).truncator,
    {
        let copy = self.store.clone();
        self.snapshots.push(copy);
        proof {
            assert(self.snapshots.deep_view() =~= old(self).snapshots.deep_view().push(
                old(self).store@,
            ));
        }
    }

    /// The exhaustive one-event reducer: mutates the snapshot exactly as
    /// [`apply_event`] says and sends exactly the intents [`event_actions`]
    /// says.
    /// Reducer arm: an environment change relabels the header, closes the
    /// chooser, and clears the streaming panes' worker-started marks.
    fn reduce_env_change(&mut self, env: KubeEnv)
        ensures
            final(self).store@ == apply_event(old(self).store@, TUIEventView::EnvChange(env)),
            final(self).actions == old(self).actions,
            final(self).snapshots == old(self).snapshots,
            final(self).truncator == old(self).truncator,
    {
        let ghost s0 = self.store@;
        self.store.env_change_possible = false;
        let header_opt = self.store.header_widget.take();
        match header_opt {
            Some(mut header) => {
                let mut lines: Vec<String> = Vec::new();
                lines.push(env_label(env));
                proof {
                    assert(lines.deep_view() =~= seq![spec_env_label(env)]);
                }
                header.set_data(WidgetDataKey::KubeInfo, lines);
                self.store.header_widget = Some(header);
            },
            None => {},
        }
        let logs_opt = self.store.logs_widget.take();
        match logs_opt {
            Some(mut w) => {
                w.set_thread_started(false);
                self.store.logs_widget = Some(w);
            },
            None => {},
        }
        let pods_opt = self.store.pods_widget.take();
        match pods_opt {
            Some(mut w) => {
                w.set_thread_started(false);
                self.store.pods_widget = Some(w);
            },
            None => {},
        }
        proof {
            assert(self.store@ =~= apply_event(s0, TUIEventView::EnvChange(env)));
        }
    }

    /// Reducer arm: an error lands in the header's error slot.
    fn reduce_error(&mut self, error: TUIError)
        ensures
            final(self).store@ == apply_event(old(self).store@, TUIEventView::Error(error@)),
            final(self).actions == old(self).actions,
            final(self).snapshots == old(self).snapshots,
            final(self).truncator == old(self).truncator,
    {
        let ghost s0 = self.store@;
        let ghost ev = TUIEventView::Error(error@);
        let message: String = match error {
            TUIError::VPN => "Uhm... VPN on ?".to_owned(),
            TUIError::KEY(m) => m,
            TUIError::API(m) => m,
        };
        let ghost mv = message@;
        let header_opt = self.store.header_widget.take();
        match header_opt {
            Some(mut header) => {
                let mut lines: Vec<String> = Vec::new();
                lines.push(message);
                proof {
                    assert(lines.deep_view() =~= seq![mv]);
                }
                header.set_data(WidgetDataKey::ErrorText, lines);
                self.store.header_widget = Some(header);
            },
            None => {},
        }
        proof {
            assert(self.store@ =~= apply_event(s0, ev));
        }
    }

    /// Reducer arm: clears the header's error slot.
    fn reduce_clear_error(&mut self)
        ensures
            final(self).store@ == apply_event(old(self).store@, TUIEventView::ClearError),
            final(self).actions == old(self).actions,
            final(self).snapshots == old(self).snapshots,
            final(self).truncator == old(self).truncator,
    {
        let ghost s0 = self.store@;
        let header_opt = self.store.header_widget.take();
        match header_opt {
            Some(mut header) => {
                header.clear_text_data(WidgetDataKey::ErrorText);
                self.store.header_widget = Some(header);
            },
            None => {},
        }
        proof {
            assert(self.store@ =~= apply_event(s0, TUIEventView::ClearError));
        }
    }

    /// Reducer arm: a successful login clears the transcript pane and marks
    /// the header.
    fn reduce_is_logged_in(&mut self)
        ensures
            final(self).store@ == apply_event(old(self).store@, TUIEventView::IsLoggedIn),
            final(self).actions == old(self).actions,
            final(self).snapshots == old(self).snapshots,
            final(self).truncator == old(self).truncator,
    {
        let ghost s0 = self.store@;
        self.store.logged_in = true;
        let login_opt = self.store.login_widget.take();
        match login_opt {
            Some(mut w) => {
                w.clear_text_data(WidgetDataKey::Logs);
                self.store.login_widget = Some(w);
            },
            None => {},
        }
        let header_opt = self.store.header_widget.take();
        match header_opt {
            Some(mut header) => {
                let mut lines: Vec<String> = Vec::new();
                lines.push("true".to_owned());
                proof {
                    assert(lines.deep_view() =~= seq!["true"@]);
                }
                header.set_data(WidgetDataKey::LoggedIn, lines);
                self.store.header_widget = Some(header);
            },
            None => {},
        }
        proof {
            assert(self.store@ =~= apply_event(s0, TUIEventView::IsLoggedIn));
        }
    }

    /// Reducer arm: an established connection also fills the header's
    /// login-info slot.
    fn reduce_is_connected(&mut self)
        ensures
            final(self).store@ == apply_event(old(self).store@, TUIEventView::IsConnected),
            final(self).actions == old(self).actions,
            final(self).snapshots == old(self).snapshots,
            final(self).truncator == old(self).truncator,
    {
        let ghost s0 = self.store@;
        self.store.logged_in = true;
        let login_opt = self.store.login_widget.take();
        match login_opt {
            Some(mut w) => {
                w.clear_text_data(WidgetDataKey::Logs);
                self.store.login_widget = Some(w);
            },
            None => {},
        }
        let header_opt = self.store.header_widget.take();
        match header_opt {
            Some(mut header) => {
                let mut lines: Vec<String> = Vec::new();
                lines.push("true".to_owned());
                proof {
                    assert(lines.deep_view() =~= seq!["true"@]);
                }
                header.set_data(WidgetDataKey::LoggedIn, lines);
                let mut info: Vec<String> = Vec::new();
                info.push("LOGGED IN".to_owned());
                proof {
                    assert(info.deep_view() =~= seq!["LOGGED IN"@]);
                }
                header.set_data(WidgetDataKey::LoginInfo, info);
                self.store.header_widget = Some(header);
            },
            None => {},
        }
        proof {
            assert(self.store@ =~= apply_event(s0, TUIEventView::IsConnected));
        }
    }

    /// Reducer arm: one transcript line is appended to the login pane.
    fn reduce_add_login_log(&mut self, line: String)
        ensures
            final(self).store@ == apply_event(old(self).store@, TUIEventView::AddLoginLog(line@)),
            final(self).actions == old(self).actions,
            final(self).snapshots == old(self).snapshots,
            final(self).truncator == old(self).truncator,
    {
        let ghost s0 = self.store@;
        let ghost lv = line@;
        let login_opt = self.store.login_widget.take();
        match login_opt {
            Some(mut w) => {
                add_to_widget_data(&mut w, line);
                self.store.login_widget = Some(w);
            },
            None => {},
        }
        proof {
            assert(self.store@ =~= apply_event(s0, TUIEventView::AddLoginLog(lv)));
        }
    }

    /// Reducer arm: one log line is appended to the log pane.
    fn reduce_add_log(&mut self, line: String)
        ensures
            final(self).store@ == apply_event(old(self).store@, TUIEventView::AddLog(line@)),
            final(self).actions == old(self).actions,
            final(self).snapshots == old(self).snapshots,
            final(self).truncator == old(self).truncator,
    {
        let ghost s0 = self.store@;
        let ghost lv = line@;
        let logs_opt = self.store.logs_widget.take();
        match logs_opt {
            Some(mut w) => {
                add_to_widget_data(&mut w, line);
                self.store.logs_widget = Some(w);
            },
            None => {},
        }
        proof {
            assert(self.store@ =~= apply_event(s0, TUIEventView::AddLog(lv)));
        }
    }

    /// Reducer arm: a fresh pod listing replaces the pod pane's text.
    fn reduce_add_pods(&mut self, pods: String)
        ensures
            final(self).store@ == apply_event(old(self).store@, TUIEventView::AddPods(pods@)),
            final(self).actions == old(self).actions,
            final(self).snapshots == old(self).snapshots,
            final(self).truncator == old(self).truncator,
    {
        let ghost s0 = self.store@;
        let ghost pv = pods@;
        let pods_opt = self.store.pods_widget.take();
        match pods_opt {
            Some(mut w) => {
                w.clear_text_data(WidgetDataKey::Logs);
                let mut lines: Vec<String> = Vec::new();
                lines.push(pods);
                proof {
                    assert(lines.deep_view() =~= seq![pv]);
                }
                w.set_data(WidgetDataKey::Logs, lines);
                self.store.pods_widget = Some(w);
            },
            None => {},
        }
        proof {
            assert(self.store@ =~= apply_event(s0, TUIEventView::AddPods(pv)));
        }
    }

    /// The exhaustive one-event reducer: mutates the snapshot exactly as
    /// [`apply_event`] says and sends exactly the intents [`event_actions`]
    /// says.
    pub fn handle_event(&mut self, event: TUIEvent)
        ensures
            final(self).store@ == apply_event(old(self).store@, event@),
            final(self).actions@ == old(self).actions@ + event_actions(event@),
            final(self).snapshots == old(self).snapshots,
            final(self).truncator == old(self).truncator,
    {
        let ghost s0 = self.store@;
        let ghost ev = event@;
        match event {
            TUIEvent::RequestEnvChange => {
                self.store.env_change_possible = true;
                proof {
                    assert(self.store@ =~= apply_event(s0, ev));
                }
            },
            TUIEvent::EnvChange(env) => {
                self.actions.push(TUIAction::ChangeEnv(env));
                self.reduce_env_change(env);
            },
            TUIEvent::Error(error) => {
                self.reduce_error(error);
            },
            TUIEvent::ClearError => {
                self.reduce_clear_error();
            },
            TUIEvent::CheckConnectivity => {
                self.store.request_login = false;
                self.actions.push(TUIAction::CheckConnectivity);
                proof {
                    assert(self.store@ =~= apply_event(s0, ev));
                }
            },
            TUIEvent::RequestLoginStart => {
                self.store.request_login = true;
                proof {
                    assert(self.store@ =~= apply_event(s0, ev));
                }
            },
            TUIEvent::RequestLoginStop => {
                self.store.request_login = false;
                proof {
                    assert(self.store@ =~= apply_event(s0, ev));
                }
            },
            TUIEvent::NeedsLogin => {
                self.store.ui_state = UIState::LoggingIn;
                self.actions.push(TUIAction::LogIn);
                proof {
                    assert(self.store@ =~= apply_event(s0, ev));
                }
            },
            TUIEvent::IsLoggedIn => {
                self.reduce_is_logged_in();
                self.actions.push(TUIAction::CheckConnectivity);
            },
            TUIEvent::IsConnected => {
                self.reduce_is_connected();
            },
            TUIEvent::DisplayLoginCode(code) => {
                self.store.login_code = Some(code);
                proof {
                    assert(self.store@ =~= apply_event(s0, ev));
                }
            },
            TUIEvent::AddLoginLog(line) => {
                self.reduce_add_login_log(line);
            },
            TUIEvent::AddLog(line) => {
                self.reduce_add_log(line);
            },
            TUIEvent::AddPods(pods) => {
                self.reduce_add_pods(pods);
            },
            TUIEvent::AddTailLog(_) => {
                proof {
                    assert(self.store@ =~= apply_event(s0, ev));
                }
            },
        }
        proof {
            assert(self.actions@ =~= old(self).actions@ + event_actions(ev));
        }
    }

    /// Consumes a whole event batch in order: publishes the current
    /// snapshot first, then applies each event and publishes the snapshot
    /// it produced — exactly the fold of the one-event reducer.
    pub fn start(&mut self, events: Vec<TUIEvent>)
        ensures
            final(self).store@ == fold_store(old(self).store@, events.deep_view()),
            final(self).actions@ == old(self).actions@ + fold_actions(events.deep_view()),
            final(self).snapshots.deep_view() == old(self).snapshots.deep_view() + publish_trace(
                old(self).store@,
                events.deep_view(),
            ),
            final(self).truncator == old(self).truncator,
    {
        let ghost evs = events.deep_view();
        let ghost store0 = self.store@;
        let ghost snaps0 = self.snapshots.deep_view();
        let ghost actions0 = self.actions@;
        self.send();
        let mut i: usize = 0;
        let mut pending = events;
        proof {
            assert(evs.take(0) =~= Seq::<TUIEventView>::empty());
            assert(evs.skip(0) =~= evs);
            assert(pending@.len() == pending.len());
            assert(evs.len() <= usize::MAX);
            assert(self.actions@ =~= actions0 + fold_actions(evs.take(0)));
            assert(self.snapshots.deep_view() =~= snaps0 + publish_trace(store0, evs).take(1));
        }
        while pending.len() > 0
            invariant
                i <= evs.len(),
                evs.len() <= usize::MAX,
                pending.deep_view() == evs.skip(i as int),
                self.store@ == fold_store(store0, evs.take(i as int)),
                self.actions@ == actions0 + fold_actions(evs.take(i as int)),
                self.snapshots.deep_view() == snaps0 + publish_trace(store0, evs).take(i as int
                    + 1),
                self.truncator == old(self).truncator,
            decreases pending.len(),
        {
            let ghost rem = pending.deep_view();
            let event = pending.remove(0);
            proof {
                assert(pending.deep_view() =~= rem.drop_first());
                assert(rem.drop_first() =~= evs.skip(i as int + 1));
                assert(event@ == rem[0]);
                assert(rem[0] == evs[i as int]);
            }
            self.handle_event(event);
            self.send();
            i = i + 1;
            proof {
                assert(evs.take(i as int).drop_last() =~= evs.take(i as int - 1));
                assert(evs.take(i as int).last() == evs[i as int - 1]);
                assert(self.store@ == fold_store(store0, evs.take(i as int)));
                assert(self.actions@ =~= actions0 + fold_actions(evs.take(i as int)));
                assert(publish_trace(store0, evs).take(i as int + 1) =~= publish_trace(
                    store0,
                    evs,
                ).take(i as int).push(fold_store(store0, evs.take(i as int))));
                assert(self.snapshots.deep_view() =~= snaps0 + publish_trace(store0, evs).take(
                    i as int + 1,
                ));
            }
        }
        proof {
            assert(evs.take(i as int) =~= evs);
            assert(publish_trace(store0, evs).take(i as int + 1) =~= publish_trace(store0, evs));
        }
    }
}

/// The text of a stream item.
pub open spec fn out_line(it: StreamItemView) -> Seq<char> {
    match it {
        StreamItemView::Out(l) => l,
        StreamItemView::ErrLine(l) => l,
    }
}

/// The lines a stream run carries, in order.
pub open spec fn out_lines(items: Seq<StreamItemView>) -> Seq<Seq<char>> {
    items.map_values(|it: StreamItemView| out_line(it))
}

/// A log slot after appending a sequence of lines one by one.
pub open spec fn appended_all(
    logs: Option<Seq<Seq<char>>>,
    lines: Seq<Seq<char>>,
) -> Option<Seq<Seq<char>>>
    decreases lines.len(),
{
    if lines.len() == 0 {
        logs
    } else {
        Some(appended_logs(appended_all(logs, lines.drop_last()), lines.last()))
    }
}

/// Folding the events of a clean log-stream run (exit status zero, no
/// stderr) into a snapshot appends exactly the streamed lines to the log
/// pane, in order, and changes nothing else — in particular, no error is
/// recorded anywhere.
pub proof fn lemma_clean_stream_fold(s: StoreView, items: Seq<StreamItemView>)
    requires
        forall|i: int| 0 <= i < items.len() ==> items[i] is Out,
    ensures
        ({
            let s2 = fold_store(s, stream_run_events(StreamKind::WorkloadLogs, items, true));
            &&& s2.ui_state == s.ui_state
            &&& s2.request_login == s.request_login
            &&& s2.logged_in == s.logged_in
            &&& s2.env_change_possible == s.env_change_possible
            &&& s2.login_code == s.login_code
            &&& s2.header_widget == s.header_widget
            &&& s2.login_widget == s.login_widget
            &&& s2.pods_widget == s.pods_widget
            &&& s2.request_login_widget == s.request_login_widget
            &&& (s.logs_widget matches Some(w) ==> s2.logs_widget == Some(
                body_with_slot(
                    w,
                    WidgetDataKey::Logs,
                    appended_all(w.widget.data.data.logs, out_lines(items)),
                ),
            ))
            &&& (s.logs_widget is None ==> s2.logs_widget is None)
        }),
    decreases items.len(),
{
    lemma_all_out_no_err(items);
    let evs = stream_run_events(StreamKind::WorkloadLogs, items, true);
    if items.len() == 0 {
        assert(evs =~= Seq::<TUIEventView>::empty());
        if s.logs_widget is Some {
            let w = s.logs_widget->0;
            assert(body_with_slot(w, WidgetDataKey::Logs, w.widget.data.data.logs) == w);
        }
    } else {
        let prev = items.drop_last();
        lemma_clean_stream_fold(s, prev);
        lemma_all_out_no_err(prev);
        let evs_prev = stream_run_events(StreamKind::WorkloadLogs, prev, true);
        let last_line = out_line(items.last());
        assert(stream_item_events(StreamKind::WorkloadLogs, items.last()) =~= seq![
            TUIEventView::AddLog(last_line),
        ]);
        assert(evs =~= evs_prev.push(TUIEventView::AddLog(last_line)));
        assert(evs.drop_last() =~= evs_prev);
        assert(fold_store(s, evs) == apply_event(
            fold_store(s, evs_prev),
            TUIEventView::AddLog(last_line),
        ));
        assert(out_lines(items).drop_last() =~= out_lines(prev));
        assert(out_lines(items).last() == last_line);
        let s1 = fold_store(s, evs_prev);
        if s.logs_widget is Some {
            let w = s.logs_widget->0;
            let logs1 = appended_all(w.widget.data.data.logs, out_lines(prev));
            assert(s1.logs_widget == Some(body_with_slot(w, WidgetDataKey::Logs, logs1)));
            let w1 = s1.logs_widget->0;
            assert(w1.widget.data.data.logs == logs1);
            assert(appended_all(w.widget.data.data.logs, out_lines(items)) == Some(
                appended_logs(logs1, last_line),
            ));
            assert(body_with_slot(w1, WidgetDataKey::Logs, Some(appended_logs(logs1, last_line)))
                =~~= body_with_slot(
                w,
                WidgetDataKey::Logs,
                Some(appended_logs(logs1, last_line)),
            ));
        }
    }
}

/// End-to-end order preservation: take the raw character stream a
/// log-stream child wrote to its standard output, split it into lines,
/// classify a clean run of those lines, and fold the resulting events into
/// a snapshot — the log pane gains exactly the stream's complete lines, in
/// their original order, and nothing else changes.
pub proof fn lemma_end_to_end_line_order(s: StoreView, stream: Seq<char>)
    ensures
        ({
            let lines = split_done(stream);
            let items = lines.map_values(|l: Seq<char>| StreamItemView::Out(l));
            let s2 = fold_store(s, stream_run_events(StreamKind::WorkloadLogs, items, true));
            &&& (s.logs_widget matches Some(w) ==> s2.logs_widget == Some(
                body_with_slot(
                    w,
                    WidgetDataKey::Logs,
                    appended_all(w.widget.data.data.logs, lines),
                ),
            ))
            &&& s2.header_widget == s.header_widget
            &&& s2.login_widget == s.login_widget
            &&& s2.pods_widget == s.pods_widget
        }),
{
    let lines = split_done(stream);
    let items = lines.map_values(|l: Seq<char>| StreamItemView::Out(l));
    assert(forall|i: int| 0 <= i < items.len() ==> items[i] is Out);
    lemma_clean_stream_fold(s, items);
    assert(out_lines(items) =~= lines);
}

} // verus!
