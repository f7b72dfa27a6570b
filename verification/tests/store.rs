//! Scenario tests for the event-sourced store: the reducer, snapshot
//! publication, and the log truncator.

use kube_dash_core::aws_api::{AwsAPI, StreamItem};
use kube_dash_core::structs::{
    DataStream, KubeEnv, Store, StreamType, TUIAction, TUIError, TUIEvent, UIState,
};
use kube_dash_core::truncator::{NoopTruncator, TopTruncator, Truncatorix};
use kube_dash_core::widget_data_store::WidgetDataStore;
use kube_dash_core::widgets::{
    BodyWidget, CliWidget, CliWidgetData, CliWidgetId, ColorScheme, ErrorActionWidget,
    HeaderWidget, WidgetDataKey,
};

fn fresh_store() -> Store {
    let header = HeaderWidget::new(CliWidget::unbordered(
        CliWidgetId::Header,
        CliWidgetData::new(CliWidgetId::Header, DataStream::new(StreamType::Once, None)),
        ColorScheme::Black,
    ));
    let login = BodyWidget::new(
        true,
        CliWidget::bordered(
            CliWidgetId::GetLoginLogs,
            "Logging in...",
            0,
            CliWidgetData::new(
                CliWidgetId::GetLoginLogs,
                DataStream::new(StreamType::Once, None),
            ),
            ColorScheme::White,
        ),
    );
    let logs = BodyWidget::new(
        false,
        CliWidget::bordered(
            CliWidgetId::GetLogs,
            "Salespoint Logs",
            0,
            CliWidgetData::new(
                CliWidgetId::GetLogs,
                DataStream::new(StreamType::LeaveOpen, Some(TUIAction::GetLogs)),
            ),
            ColorScheme::Black,
        ),
    );
    let pods = BodyWidget::new(
        false,
        CliWidget::bordered(
            CliWidgetId::GetPods,
            "Salespoint pods",
            1,
            CliWidgetData::new(
                CliWidgetId::GetPods,
                DataStream::new(StreamType::Periodical, Some(TUIAction::GetPods)),
            ),
            ColorScheme::Black,
        ),
    );
    let request_login = ErrorActionWidget::new(CliWidget::bordered(
        CliWidgetId::LoginRequest,
        "",
        1,
        CliWidgetData::new(
            CliWidgetId::RequestLogin,
            DataStream::new(StreamType::Once, None),
        ),
        ColorScheme::Black,
    ));
    Store::new(header, login, logs, pods, request_login)
}

fn logs_of(store: &Store) -> Vec<String> {
    store
        .logs_widget
        .as_ref()
        .unwrap()
        .get_data()
        .data
        .get(WidgetDataKey::Logs)
        .clone()
        .unwrap_or_default()
}

fn header_error_of(store: &Store) -> Option<Vec<String>> {
    store
        .header_widget
        .as_ref()
        .unwrap()
        .get_data()
        .data
        .get(WidgetDataKey::ErrorText)
        .clone()
}

#[test]
fn store_starts_logging_in_with_nothing_reported() {
    let store = fresh_store();
    assert_eq!(store.ui_state, UIState::LoggingIn);
    assert!(!store.request_login);
    assert!(!store.logged_in);
    assert!(!store.env_change_possible);
    assert_eq!(store.login_code, None);
    assert_eq!(header_error_of(&store), None);
}

#[test]
fn error_events_fill_and_clear_the_header() {
    let mut consumer = WidgetDataStore::new(fresh_store(), TopTruncator::new(50));
    consumer.handle_event(TUIEvent::Error(TUIError::VPN));
    assert_eq!(
        header_error_of(&consumer.store),
        Some(vec!["Uhm... VPN on ?".to_string()])
    );
    consumer.handle_event(TUIEvent::Error(TUIError::API("this errored".to_string())));
    assert_eq!(
        header_error_of(&consumer.store),
        Some(vec!["this errored".to_string()])
    );
    consumer.handle_event(TUIEvent::ClearError);
    assert_eq!(header_error_of(&consumer.store), None);
    assert!(consumer.actions.is_empty());
}

#[test]
fn check_connectivity_event_sends_the_intent() {
    let mut consumer = WidgetDataStore::new(fresh_store(), TopTruncator::new(50));
    consumer.handle_event(TUIEvent::RequestLoginStart);
    assert!(consumer.store.request_login);
    consumer.handle_event(TUIEvent::CheckConnectivity);
    assert!(!consumer.store.request_login);
    assert_eq!(consumer.actions, vec![TUIAction::CheckConnectivity]);
}

#[test]
fn needs_login_event_sends_the_login_intent() {
    let mut consumer = WidgetDataStore::new(fresh_store(), TopTruncator::new(50));
    consumer.handle_event(TUIEvent::NeedsLogin);
    assert_eq!(consumer.store.ui_state, UIState::LoggingIn);
    assert_eq!(consumer.actions, vec![TUIAction::LogIn]);
}

#[test]
fn env_change_relabels_header_and_clears_started_marks() {
    let mut consumer = WidgetDataStore::new(fresh_store(), TopTruncator::new(50));
    consumer.handle_event(TUIEvent::RequestEnvChange);
    assert!(consumer.store.env_change_possible);
    consumer.handle_event(TUIEvent::EnvChange(KubeEnv::Prod));
    assert!(!consumer.store.env_change_possible);
    assert_eq!(
        consumer.actions,
        vec![TUIAction::ChangeEnv(KubeEnv::Prod)]
    );
    let header = consumer.store.header_widget.as_ref().unwrap().get_data();
    assert_eq!(
        header.data.get(WidgetDataKey::KubeInfo).clone(),
        Some(vec!["Prod".to_string()])
    );
    assert!(
        !consumer
            .store
            .logs_widget
            .as_ref()
            .unwrap()
            .get_data()
            .thread_started
    );
}

#[test]
fn is_logged_in_marks_the_header_and_rechecks_connectivity() {
    let mut consumer = WidgetDataStore::new(fresh_store(), TopTruncator::new(50));
    consumer.handle_event(TUIEvent::AddLoginLog("waiting...\n".to_string()));
    consumer.handle_event(TUIEvent::IsLoggedIn);
    assert!(consumer.store.logged_in);
    let login_data = consumer.store.login_widget.as_ref().unwrap().get_data();
    assert_eq!(login_data.data.get(WidgetDataKey::Logs).clone(), None);
    let header = consumer.store.header_widget.as_ref().unwrap().get_data();
    assert_eq!(
        header.data.get(WidgetDataKey::LoggedIn).clone(),
        Some(vec!["true".to_string()])
    );
    assert_eq!(consumer.actions, vec![TUIAction::CheckConnectivity]);
}

#[test]
fn display_login_code_is_recorded() {
    let mut consumer = WidgetDataStore::new(fresh_store(), TopTruncator::new(50));
    consumer.handle_event(TUIEvent::DisplayLoginCode("MQBJ-XSZB".to_string()));
    assert_eq!(consumer.store.login_code, Some("MQBJ-XSZB".to_string()));
}

#[test]
fn test_add_log_event() {
    let mut consumer = WidgetDataStore::new(fresh_store(), TopTruncator::new(50));
    consumer.handle_event(TUIEvent::AddLog("this is a new line\n".to_string()));
    assert_eq!(
        logs_of(&consumer.store),
        vec!["this is a new line\n".to_string()]
    );
    consumer.handle_event(TUIEvent::AddLog("and some extra.".to_string()));
    assert_eq!(
        logs_of(&consumer.store),
        vec![
            "this is a new line\n".to_string(),
            "and some extra.".to_string()
        ]
    );
}

#[test]
fn add_pods_replaces_the_listing() {
    let mut consumer = WidgetDataStore::new(fresh_store(), TopTruncator::new(50));
    consumer.handle_event(TUIEvent::AddPods("first listing\n".to_string()));
    consumer.handle_event(TUIEvent::AddPods("second listing\n".to_string()));
    let pods = consumer.store.pods_widget.as_ref().unwrap().get_data();
    assert_eq!(
        pods.data.get(WidgetDataKey::Logs).clone(),
        Some(vec!["second listing\n".to_string()])
    );
}

#[test]
fn start_publishes_one_snapshot_per_event() {
    let mut consumer = WidgetDataStore::new(fresh_store(), TopTruncator::new(50));
    consumer.start(vec![
        TUIEvent::AddLog("one\n".to_string()),
        TUIEvent::AddLog("two\n".to_string()),
    ]);
    assert_eq!(consumer.snapshots.len(), 3);
    assert_eq!(logs_of(&consumer.snapshots[0]), Vec::<String>::new());
    assert_eq!(logs_of(&consumer.snapshots[1]), vec!["one\n".to_string()]);
    assert_eq!(
        logs_of(&consumer.snapshots[2]),
        vec!["one\n".to_string(), "two\n".to_string()]
    );
    assert_eq!(logs_of(&consumer.store), logs_of(&consumer.snapshots[2]));
}

#[test]
fn clean_stream_fills_the_log_pane_without_errors() {
    // a log-stream child writes 10 lines, exits with status 0, no stderr
    let lines: Vec<String> = (0..10).map(|i| format!("line {}\n", i)).collect();
    let items: Vec<StreamItem> = lines.iter().cloned().map(StreamItem::Out).collect();
    let mut aws_api = AwsAPI::new();
    assert!(aws_api.get_logs(&items, true));

    let mut consumer = WidgetDataStore::new(fresh_store(), TopTruncator::new(50));
    consumer.start(aws_api.handler.events);
    assert_eq!(logs_of(&consumer.store), lines);
    assert_eq!(header_error_of(&consumer.store), None);
}

#[test]
fn truncation_keeps_the_newest_lines() {
    let mut truncator = TopTruncator::new(50);
    let mut consumer = WidgetDataStore::new(fresh_store(), TopTruncator::new(50));
    for i in 0..55 {
        consumer.handle_event(TUIEvent::AddLog(format!("line {}\n", i)));
    }
    let mut store = consumer.store.clone();
    assert_eq!(logs_of(&store).len(), 55);

    truncator.truncate(&mut store);
    let kept = logs_of(&store);
    assert_eq!(kept.len(), 50);
    assert_eq!(kept[0], "line 5\n");
    assert_eq!(kept[49], "line 54\n");

    // a repeated pass with no growth is a no-op
    let before = kept.clone();
    truncator.truncate(&mut store);
    assert_eq!(logs_of(&store), before);
}

#[test]
fn truncation_within_the_ceiling_is_a_no_op() {
    let mut consumer = WidgetDataStore::new(fresh_store(), TopTruncator::new(50));
    for i in 0..7 {
        consumer.handle_event(TUIEvent::AddLog(format!("line {}\n", i)));
    }
    let mut store = consumer.store.clone();
    let before = logs_of(&store);
    TopTruncator::new(50).truncate(&mut store);
    assert_eq!(logs_of(&store), before);
}

#[test]
fn truncator_polls_on_its_interval() {
    let mut truncator = TopTruncator::new(50);
    truncator.start(0);
    assert!(!truncator.poll(3));
    assert!(!truncator.poll(5));
    assert!(truncator.poll(6));
    // the clock was reset by the fired poll
    assert!(!truncator.poll(10));
    assert!(truncator.poll(12));
}

#[test]
fn noop_truncator_changes_nothing() {
    let mut consumer = WidgetDataStore::new(fresh_store(), TopTruncator::new(2));
    for i in 0..9 {
        consumer.handle_event(TUIEvent::AddLog(format!("line {}\n", i)));
    }
    let mut store = consumer.store.clone();
    let before = logs_of(&store);
    let mut noop = NoopTruncator::new();
    noop.truncate(&mut store);
    assert_eq!(logs_of(&store), before);
    assert!(!noop.poll(100));
}
