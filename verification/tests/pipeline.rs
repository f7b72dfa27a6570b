//! Scenario tests for the streaming pipeline: login transcripts, log
//! streams, and the timeout monitor, driven with the same transcripts the
//! real cluster commands produce.

use kube_dash_core::aws_api::{AwsAPI, CommandsProvider, StreamItem};
use kube_dash_core::monitor::{
    wait_error_message, wait_for_output_with_timeout, ChildPoll, WaitError,
};
use kube_dash_core::structs::{TUIError, TUIEvent};

fn login_transcript() -> Vec<StreamItem> {
    vec![
        StreamItem::Out(
            "Attempting to automatically open the SSO authorization page in your default browser.\n"
                .to_string(),
        ),
        StreamItem::Out(
            "If the browser does not open or you wish to use a different device to authorize this request, open the following URL:\n"
                .to_string(),
        ),
        StreamItem::Out("\n".to_string()),
        StreamItem::Out("https://device.sso.eu-west-1.amazonaws.com/\n".to_string()),
        StreamItem::Out("\n".to_string()),
        StreamItem::Out("Then enter the code:\n".to_string()),
        StreamItem::Out("\n".to_string()),
        StreamItem::Out("MQBJ-XSZB\n".to_string()),
        StreamItem::Out("Successfully\n".to_string()),
    ]
}

fn lorem_lines() -> Vec<String> {
    vec![
        "Lorem ipsum dolor sit amet, consectetur adipiscing elit. Mauris vitae efficitur elit, sit amet euismod magna. \n".to_string(),
        "Nulla mattis eros vel erat varius elementum a nec ex. \n".to_string(),
        "Vestibulum ante ipsum primis in faucibus orci luctus et ultrices posuere cubilia curae; Donec sit amet porttitor lorem. \n".to_string(),
        "Pellentesque consectetur orci sit amet turpis auctor, ac pretium arcu consectetur. \n".to_string(),
        "Duis blandit nisl non sem mattis, eget mattis enim lacinia. \n".to_string(),
        "Cras vestibulum efficitur lacus. Vivamus ac ultrices libero. \n".to_string(),
        "Integer venenatis convallis massa vitae tempus. Pellentesque a commodo lectus, ac maximus lectus. \n".to_string(),
        "Quisque ex magna, vulputate nec porttitor sed, ullamcorper sit amet nisi. \n".to_string(),
        "Nullam placerat metus lectus, congue commodo mi commodo in. \n".to_string(),
        "Nullam volutpat magna ut leo auctor, sollicitudin pharetra tellus malesuada.\n".to_string(),
    ]
}

#[test]
fn test_login_succeed() {
    let mut aws_api = AwsAPI::new();
    aws_api.set_commands_provider(CommandsProvider::TestSucceed);
    let fresh = aws_api.login(&login_transcript(), true);
    assert!(fresh);

    let check_events = vec![
            TUIEvent::AddLoginLog("Attempting to automatically open the SSO authorization page in your default browser.\n".to_string()),
            TUIEvent::AddLoginLog("If the browser does not open or you wish to use a different device to authorize this request, open the following URL:\n".to_string()),
            TUIEvent::AddLoginLog("\n".to_string()),
            TUIEvent::AddLoginLog("https://device.sso.eu-west-1.amazonaws.com/\n".to_string()),
            TUIEvent::AddLoginLog("\n".to_string()),
            TUIEvent::AddLoginLog("Then enter the code:\n".to_string()),
            TUIEvent::AddLoginLog("\n".to_string()),
            TUIEvent::AddLoginLog("MQBJ-XSZB\n".to_string()),
            TUIEvent::DisplayLoginCode("MQBJ-XSZB".to_string()),
            TUIEvent::AddLoginLog("Successfully\n".to_string()),
            TUIEvent::IsLoggedIn];

    assert!(
        aws_api.handler.events == check_events,
        "events was: {:?}",
        aws_api.handler.events
    );
}

#[test]
fn test_login_fail() {
    let mut aws_api = AwsAPI::new();
    aws_api.set_commands_provider(CommandsProvider::TestFail);
    let items = vec![StreamItem::ErrLine("this is an unusual error\n".to_string())];
    let fresh = aws_api.login(&items, false);
    assert!(fresh);

    let check_events = vec![
        TUIEvent::Error(TUIError::API("this is an unusual error\n".to_string())),
        TUIEvent::Error(TUIError::API("process experienced some errors".to_string())),
    ];

    assert!(
        aws_api.handler.events == check_events,
        "events was: {:?}",
        aws_api.handler.events
    );
}

#[test]
fn test_open_log_channel() {
    let mut aws_api = AwsAPI::new();
    aws_api.set_commands_provider(CommandsProvider::TestFail);
    let items = vec![StreamItem::Out("Beginning...\n".to_string())];
    let fresh = aws_api.get_logs(&items, false);
    assert!(fresh);

    let check_events = vec![
        TUIEvent::AddLog("Beginning...\n".to_string()),
        TUIEvent::Error(TUIError::API("process experienced some errors".to_string())),
    ];

    assert!(
        aws_api.handler.events == check_events,
        "events was: {:?}",
        aws_api.handler.events
    );
}

#[test]
fn test_get_logs() {
    let mut aws_api = AwsAPI::new();
    aws_api.set_commands_provider(CommandsProvider::TestSucceed);
    let items: Vec<StreamItem> = lorem_lines().into_iter().map(StreamItem::Out).collect();
    let fresh = aws_api.get_logs(&items, true);
    assert!(fresh);

    let check_events: Vec<TUIEvent> = lorem_lines().into_iter().map(TUIEvent::AddLog).collect();

    assert!(
        aws_api.handler.events == check_events,
        "events was: {:?}",
        aws_api.handler.events
    );
}

#[test]
fn test_wait_with_output_timeout() {
    let output: String = lorem_lines().concat();
    let polls = vec![
        ChildPoll::Pending { elapsed_secs: 2 },
        ChildPoll::Exited { success: true, exit_code: 0, stdout: Some(output.clone()) },
    ];
    let (events, result) = wait_for_output_with_timeout(&polls, 1, 60);

    let check_events = vec![TUIEvent::Error(TUIError::VPN)];
    assert!(events == check_events, "events was: {:?}", events);
    assert!(result == Some(Ok(output.clone())), "output was {:?}", result);
}

#[test]
fn test_wait_with_output_timeout_fail() {
    let polls = vec![
        ChildPoll::Pending { elapsed_secs: 2 },
        ChildPoll::Exited { success: false, exit_code: 1, stdout: None },
    ];
    let (events, result) = wait_for_output_with_timeout(&polls, 1, 60);

    let check_events = vec![TUIEvent::Error(TUIError::VPN)];
    assert!(events == check_events, "events was: {:?}", events);
    let error = match result {
        Some(Err(e)) => e,
        other => panic!("expected an exit-code failure, got {:?}", other),
    };
    let message = wait_error_message(&error);
    assert!(message == "Exit code 1", "error was: {:?}", message);
}

#[test]
fn monitor_warns_at_most_once_and_never_before_grace() {
    let polls = vec![
        ChildPoll::Pending { elapsed_secs: 0 },
        ChildPoll::Pending { elapsed_secs: 1 },
        ChildPoll::Pending { elapsed_secs: 2 },
        ChildPoll::Pending { elapsed_secs: 30 },
        ChildPoll::Exited { success: true, exit_code: 0, stdout: Some("done\n".to_string()) },
    ];
    let (events, result) = wait_for_output_with_timeout(&polls, 1, 60);
    assert_eq!(events, vec![TUIEvent::Error(TUIError::VPN)]);
    assert_eq!(result, Some(Ok("done\n".to_string())));

    let quick = vec![ChildPoll::Exited {
        success: true,
        exit_code: 0,
        stdout: Some("fast\n".to_string()),
    }];
    let (events, result) = wait_for_output_with_timeout(&quick, 1, 60);
    assert!(events.is_empty(), "no warning within the grace period");
    assert_eq!(result, Some(Ok("fast\n".to_string())));
}

#[test]
fn monitor_warns_before_hard_timeout() {
    let polls = vec![ChildPoll::Pending { elapsed_secs: 61 }];
    let (events, result) = wait_for_output_with_timeout(&polls, 1, 60);
    assert_eq!(events, vec![TUIEvent::Error(TUIError::VPN)]);
    assert_eq!(result, Some(Err(WaitError::Timeout)));
    assert_eq!(wait_error_message(&WaitError::Timeout), "timeout");
}

#[test]
fn monitor_undecided_without_decisive_poll() {
    let polls = vec![ChildPoll::Pending { elapsed_secs: 0 }];
    let (events, result) = wait_for_output_with_timeout(&polls, 1, 60);
    assert!(events.is_empty());
    assert_eq!(result, None);
}

#[test]
fn wait_error_messages_are_exact() {
    assert_eq!(wait_error_message(&WaitError::ExitCode(1)), "Exit code 1");
    assert_eq!(wait_error_message(&WaitError::ExitCode(-7)), "Exit code -7");
    assert_eq!(wait_error_message(&WaitError::Timeout), "timeout");
    assert_eq!(
        wait_error_message(&WaitError::WaitOutput),
        "Error wait_with_output"
    );
    assert_eq!(wait_error_message(&WaitError::PollFailed), "error");
}

#[test]
fn login_code_is_displayed_before_logged_in() {
    let mut aws_api = AwsAPI::new();
    let fresh = aws_api.login(&login_transcript(), true);
    assert!(fresh);
    let events = &aws_api.handler.events;
    let code_pos = events
        .iter()
        .position(|e| matches!(e, TUIEvent::DisplayLoginCode(_)))
        .expect("a login code is displayed");
    let logged_in_pos = events
        .iter()
        .position(|e| *e == TUIEvent::IsLoggedIn)
        .expect("the login succeeds");
    assert!(code_pos < logged_in_pos);
    let code = match &events[code_pos] {
        TUIEvent::DisplayLoginCode(c) => c.clone(),
        _ => unreachable!(),
    };
    assert_eq!(code, "MQBJ-XSZB");
    let chars: Vec<char> = code.chars().collect();
    assert_eq!(chars.len(), 9);
    assert!(chars[0..4].iter().all(|c| c.is_ascii_alphabetic()));
    assert_eq!(chars[4], '-');
    assert!(chars[5..9].iter().all(|c| c.is_ascii_alphabetic()));
}

#[test]
fn failed_stream_releases_the_task_entry() {
    let mut aws_api = AwsAPI::new();
    let items = vec![StreamItem::Out("only line\n".to_string())];
    assert!(aws_api.get_logs(&items, false));
    assert!(aws_api
        .handler
        .events
        .iter()
        .any(|e| matches!(e, TUIEvent::Error(_))));
    // the registry entry was released, so a fresh run launches
    assert!(aws_api.get_logs(&items, true));
}

#[test]
fn get_pods_outcomes() {
    let mut aws_api = AwsAPI::new();
    aws_api.get_pods(&Ok("NAME  READY  STATUS\n".to_string()));
    assert_eq!(
        aws_api.handler.events,
        vec![TUIEvent::AddPods("NAME  READY  STATUS\n".to_string())]
    );

    let mut aws_api = AwsAPI::new();
    aws_api.get_pods(&Err("Exit code 1".to_string()));
    assert_eq!(
        aws_api.handler.events,
        vec![
            TUIEvent::Error(TUIError::API("Exit code 1".to_string())),
            TUIEvent::RequestLoginStart,
        ]
    );
}
