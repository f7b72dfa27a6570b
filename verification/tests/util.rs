//! Tests for the line splitter, the task registry, the command builders,
//! the intent dispatcher and the text utilities.

use kube_dash_core::action_handler::ActionHandler;
use kube_dash_core::aws_api::{AwsAPI, AwsApiCommandsProvider, CommandsProvider};
use kube_dash_core::event_thread::{add_to, event_thread};
use kube_dash_core::line_reader::LineSplitter;
use kube_dash_core::structs::{
    DataStream, KubeEnv, KubeEnvData, Store, StreamType, TUIAction, TUIEvent, UserInput,
};
use kube_dash_core::widgets::{
    BodyWidget, CliWidget, CliWidgetData, CliWidgetId, ColorScheme, ErrorActionWidget,
    HeaderWidget,
};
use kube_dash_core::strutil::{i32_to_string, str_contains, u64_to_string};
use kube_dash_core::thread_manager::{ThreadManager, WidgetTaskId};
use kube_dash_core::ui::{handle_direction_keys, handle_primary_keys};

#[test]
fn splitter_delivers_lines_in_order_one_byte_at_a_time() {
    let mut splitter = LineSplitter::new();
    for c in "first line\nsecond line\npartial".chars() {
        splitter.push_char(c);
    }
    assert_eq!(
        splitter.lines,
        vec!["first line\n".to_string(), "second line\n".to_string()]
    );
    assert_eq!(splitter.pending, "partial".chars().collect::<Vec<char>>());

    // the same stream fed as one chunk gives exactly the same lines
    let mut chunked = LineSplitter::new();
    chunked.push_chars(&"first line\nsecond line\npartial".chars().collect());
    assert_eq!(chunked.lines, splitter.lines);
    assert_eq!(chunked.pending, splitter.pending);
}

#[test]
fn splitter_joins_chunks_across_boundaries() {
    let mut splitter = LineSplitter::new();
    splitter.push_chars(&"ab".chars().collect());
    assert!(splitter.lines.is_empty());
    splitter.push_chars(&"c\nde".chars().collect());
    assert_eq!(splitter.lines, vec!["abc\n".to_string()]);
    splitter.push_chars(&"f\n".chars().collect());
    assert_eq!(
        splitter.lines,
        vec!["abc\n".to_string(), "def\n".to_string()]
    );

    let taken = splitter.take_lines();
    assert_eq!(taken, vec!["abc\n".to_string(), "def\n".to_string()]);
    assert!(splitter.lines.is_empty());
    // what was taken is not delivered again
    splitter.push_chars(&"g\n".chars().collect());
    assert_eq!(splitter.lines, vec!["g\n".to_string()]);
}

#[test]
fn registry_keeps_at_most_one_run_per_identity() {
    let mut registry = ThreadManager::new();
    assert!(registry.start_if_absent(WidgetTaskId::GetLogs));
    // a second start in rapid succession is a silent no-op
    assert!(!registry.start_if_absent(WidgetTaskId::GetLogs));
    assert!(registry.is_running(WidgetTaskId::GetLogs));
    // other identities are untouched
    assert!(!registry.is_running(WidgetTaskId::GetPods));
    assert!(registry.start_if_absent(WidgetTaskId::GetPods));

    registry.stop(WidgetTaskId::GetLogs);
    assert!(!registry.is_running(WidgetTaskId::GetLogs));
    assert!(registry.start_if_absent(WidgetTaskId::GetLogs));

    registry.stop_threads();
    assert!(!registry.is_running(WidgetTaskId::GetLogs));
    assert!(!registry.is_running(WidgetTaskId::GetPods));
}

#[test]
fn duplicate_stream_run_is_ignored_while_live() {
    let mut aws_api = AwsAPI::new();
    aws_api.thread_manager.start_if_absent(WidgetTaskId::GetLogs);
    // the identity is live: the run is not started a second time
    let items = vec![];
    assert!(!aws_api.get_logs(&items, true));
    assert!(aws_api.handler.events.is_empty());
}

#[test]
fn login_command_is_parameterized_by_the_environment() {
    let provider = AwsApiCommandsProvider::new();
    let dev = KubeEnvData::for_env(KubeEnv::Dev);
    let cmd = provider.login_command(&dev);
    assert_eq!(cmd.program, "aws");
    assert_eq!(
        cmd.args,
        vec![
            "sso".to_string(),
            "login".to_string(),
            "--profile".to_string(),
            "myccv-lab-non-prod-myccv-lab-developer".to_string(),
        ]
    );
}

#[test]
fn cluster_commands_use_the_environment_namespace() {
    let provider = AwsApiCommandsProvider::new();
    let prod = KubeEnvData::for_env(KubeEnv::Prod);
    let pods = provider.get_pods_command(&prod);
    assert_eq!(pods.program, "kubectl");
    assert_eq!(
        pods.args,
        vec![
            "get".to_string(),
            "-n".to_string(),
            "myccv-salespoint".to_string(),
            "pods".to_string(),
        ]
    );

    let logs = provider.get_logs_command(&prod);
    assert_eq!(logs.program, "kubectl");
    assert_eq!(logs.args[0], "logs");
    assert_eq!(logs.args[2], "myccv-salespoint");

    let aws_api = AwsAPI::new();
    let update = aws_api.update_config_command(&prod);
    assert_eq!(update.program, "aws");
    assert_eq!(
        update.args,
        vec![
            "eks".to_string(),
            "--profile".to_string(),
            "eks-prod-myccv-lab-developer".to_string(),
            "update-kubeconfig".to_string(),
            "--name".to_string(),
            "shared-prod-2".to_string(),
        ]
    );
}

#[test]
fn connectivity_outcomes_follow_the_dispatch_table() {
    let mut handler = ActionHandler::new();
    handler.on_check_connectivity(true);
    assert_eq!(
        handler.aws_api.handler.events,
        vec![TUIEvent::IsConnected, TUIEvent::ClearError]
    );

    let mut handler = ActionHandler::new();
    handler.on_check_connectivity(false);
    assert_eq!(
        handler.aws_api.handler.events,
        vec![TUIEvent::RequestLoginStart]
    );
}

#[test]
fn env_change_installs_the_new_environment_only_on_full_success() {
    let mut handler = ActionHandler::new();
    handler.aws_api.thread_manager.start_if_absent(WidgetTaskId::GetLogs);
    handler.on_change_env(KubeEnv::Prod, true, Some(true));
    assert_eq!(
        handler.aws_api.handler.events,
        vec![TUIEvent::IsConnected, TUIEvent::ClearError]
    );
    assert_eq!(
        handler.aws_api.kube_env.namespace,
        "myccv-salespoint".to_string()
    );
    // switching stopped the live streams so they restart against Prod
    assert!(!handler.aws_api.thread_manager.is_running(WidgetTaskId::GetLogs));

    let mut handler = ActionHandler::new();
    handler.on_change_env(KubeEnv::Prod, false, None);
    assert_eq!(
        handler.aws_api.handler.events,
        vec![TUIEvent::RequestLoginStart]
    );
    assert_eq!(
        handler.aws_api.kube_env.namespace,
        "myccv-dev-salespoint".to_string()
    );

    let mut handler = ActionHandler::new();
    handler.on_change_env(KubeEnv::Prod, true, Some(false));
    assert_eq!(
        handler.aws_api.handler.events,
        vec![TUIEvent::RequestLoginStart]
    );
    assert_eq!(
        handler.aws_api.kube_env.namespace,
        "myccv-dev-salespoint".to_string()
    );
}

#[test]
fn event_thread_reports_snapshots_and_actions() {
    let (store2, snapshots, actions) = event_thread(
        empty_store(),
        vec![TUIEvent::RequestLoginStart, TUIEvent::CheckConnectivity],
    );
    assert!(!store2.request_login);
    assert_eq!(snapshots.len(), 3);
    assert!(snapshots[1].request_login);
    assert!(!snapshots[2].request_login);
    assert_eq!(actions, vec![TUIAction::CheckConnectivity]);
}

fn empty_store() -> Store {
    let data = |id: CliWidgetId| CliWidgetData::new(id, DataStream::new(StreamType::Once, None));
    Store::new(
        HeaderWidget::new(CliWidget::unbordered(
            CliWidgetId::Header,
            data(CliWidgetId::Header),
            ColorScheme::Black,
        )),
        BodyWidget::new(
            true,
            CliWidget::bordered(
                CliWidgetId::GetLoginLogs,
                "Logging in...",
                0,
                data(CliWidgetId::GetLoginLogs),
                ColorScheme::White,
            ),
        ),
        BodyWidget::new(
            false,
            CliWidget::bordered(
                CliWidgetId::GetLogs,
                "Salespoint Logs",
                0,
                data(CliWidgetId::GetLogs),
                ColorScheme::Black,
            ),
        ),
        BodyWidget::new(
            false,
            CliWidget::bordered(
                CliWidgetId::GetPods,
                "Salespoint pods",
                1,
                data(CliWidgetId::GetPods),
                ColorScheme::Black,
            ),
        ),
        ErrorActionWidget::new(CliWidget::bordered(
            CliWidgetId::LoginRequest,
            "",
            1,
            data(CliWidgetId::RequestLogin),
            ColorScheme::Black,
        )),
    )
}

#[test]
fn add_to_accumulates_transcript_chunks() {
    let mut logs: Option<String> = None;
    add_to(&mut logs, "first".to_string());
    assert_eq!(logs, Some("first".to_string()));
    add_to(&mut logs, " second".to_string());
    assert_eq!(logs, Some("first second".to_string()));
}

#[test]
fn substring_search_matches_std() {
    assert!(str_contains("Successfully logged in", "Successfully"));
    assert!(!str_contains("successfully", "Successfully"));
    assert!(str_contains("abcabd", "abd"));
    assert!(!str_contains("ab", "abc"));
    assert!(str_contains("anything", ""));
}

#[test]
fn decimal_rendering_is_exact() {
    assert_eq!(u64_to_string(0), "0");
    assert_eq!(u64_to_string(12345), "12345");
    assert_eq!(i32_to_string(1), "1");
    assert_eq!(i32_to_string(-123), "-123");
    assert_eq!(i32_to_string(i32::MIN), i32::MIN.to_string());
}

#[test]
fn key_classification_matches_the_keymap() {
    assert_eq!(handle_primary_keys('q'), Some(UserInput::Quit));
    assert_eq!(handle_primary_keys('E'), Some(UserInput::ChangeEnv));
    assert_eq!(handle_primary_keys('x'), None);
    assert!(matches!(
        handle_direction_keys('h'),
        Some(UserInput::Direction(_))
    ));
    assert_eq!(handle_direction_keys('q'), None);
}

#[test]
fn commands_provider_tags_pick_the_right_scripts() {
    let dev = KubeEnvData::for_env(KubeEnv::Dev);
    let c = CommandsProvider::TestSucceed.login_command(&dev);
    assert_eq!(c.program, "sh");
    assert_eq!(
        c.args,
        vec!["-C".to_string(), "test_res/test_login_succeed.sh".to_string()]
    );
    let c = CommandsProvider::TestFail.get_logs_command(&dev);
    assert_eq!(c.program, "sh");
    assert_eq!(
        c.args,
        vec![
            "-C".to_string(),
            "test_res/long_living_process_quits_unexpectedly.sh".to_string(),
        ]
    );
    let c = CommandsProvider::TestSucceed.get_logs_command(&dev);
    assert_eq!(c.program, "tail");
}
