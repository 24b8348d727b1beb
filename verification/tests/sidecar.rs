use ark::sidecar::child_exit_step;
use ark::sidecar::drain_step;
use ark::sidecar::kernel_args;
use ark::sidecar::kernel_log_path;
use ark::sidecar::registration_json;
use ark::sidecar::shutdown_reply_step;
use ark::sidecar::ChildExitStep;
use ark::sidecar::ChildStatus;
use ark::sidecar::ControlEvent;
use ark::sidecar::ControlStep;
use ark::sidecar::DrainEvent;
use ark::sidecar::DrainStep;
use ark::sidecar::KernelShutdown;
use ark::sidecar::Registration;
use ark::sidecar::ShutdownAction;
use ark::sidecar::ShutdownEvent;

#[test]
fn kernel_log_sits_next_to_bridge_log() {
    assert_eq!(kernel_log_path(Some("/tmp/logs/bridge.log"), "/tmp/private"), "/tmp/logs/kernel.log");
}

#[test]
fn kernel_log_goes_to_temp_dir_without_bridge_log() {
    assert_eq!(kernel_log_path(None, "/tmp/private"), "/tmp/private/kernel.log");
}

#[test]
fn kernel_log_goes_to_temp_dir_for_bare_file_name() {
    assert_eq!(kernel_log_path(Some("bridge.log"), "/tmp/private"), "/tmp/private/kernel.log");
}

#[test]
fn kernel_log_goes_to_temp_dir_for_root_or_empty() {
    assert_eq!(kernel_log_path(Some("/"), "/tmp/private"), "/tmp/private/kernel.log");
    assert_eq!(kernel_log_path(Some(""), "/tmp/private"), "/tmp/private/kernel.log");
}

#[test]
fn kernel_log_relative_dir() {
    assert_eq!(kernel_log_path(Some("logs/bridge.log"), "/tmp/private"), "logs/kernel.log");
}

#[test]
fn kernel_child_arguments() {
    assert_eq!(kernel_args("/tmp/x/connection.json", "/tmp/x/kernel.log", &vec![]), vec![
        "--connection_file",
        "/tmp/x/connection.json",
        "--session-mode",
        "background",
        "--log",
        "/tmp/x/kernel.log",
    ]);
}

#[test]
fn kernel_child_gets_r_arguments_after_separator() {
    let r_args = vec!["--vanilla".to_string(), "--no-echo".to_string()];
    assert_eq!(kernel_args("c.json", "k.log", &r_args), vec![
        "--connection_file",
        "c.json",
        "--session-mode",
        "background",
        "--log",
        "k.log",
        "--",
        "--vanilla",
        "--no-echo",
    ]);
}

#[test]
fn child_exit_steps() {
    assert_eq!(child_exit_step(ChildStatus::Exited, false), ChildExitStep::Done);
    assert_eq!(child_exit_step(ChildStatus::Exited, true), ChildExitStep::Done);
    assert_eq!(child_exit_step(ChildStatus::Running, false), ChildExitStep::SleepAndRetry);
    assert_eq!(child_exit_step(ChildStatus::Running, true), ChildExitStep::KillAndReap);
    assert_eq!(child_exit_step(ChildStatus::CheckFailed, false), ChildExitStep::KillAndReap);
}

#[test]
fn shutdown_reply_steps() {
    assert_eq!(shutdown_reply_step(ControlEvent::DeadlineReached), ControlStep::TimedOut);
    assert_eq!(shutdown_reply_step(ControlEvent::PollIdle), ControlStep::Poll);
    assert_eq!(shutdown_reply_step(ControlEvent::PollReady), ControlStep::ReadMessage);
    assert_eq!(shutdown_reply_step(ControlEvent::PollFailed), ControlStep::GiveUp);
    assert_eq!(shutdown_reply_step(ControlEvent::ReadShutdownReply), ControlStep::ReplyReceived);
    assert_eq!(shutdown_reply_step(ControlEvent::ReadOther), ControlStep::Poll);
    assert_eq!(shutdown_reply_step(ControlEvent::ReadFailed), ControlStep::Poll);
}

#[test]
fn drain_steps() {
    assert_eq!(drain_step(DrainEvent::StopRequested, true), DrainStep::Stop);
    assert_eq!(drain_step(DrainEvent::PollIdle, false), DrainStep::Poll);
    assert_eq!(drain_step(DrainEvent::PollReady, false), DrainStep::ReadMessage);
    assert_eq!(drain_step(DrainEvent::PollFailed, true), DrainStep::Stop);
    assert_eq!(drain_step(DrainEvent::Received, true), DrainStep::Forward);
    assert_eq!(drain_step(DrainEvent::Received, false), DrainStep::Discard);
    assert_eq!(drain_step(DrainEvent::ReadFailed, true), DrainStep::Poll);
}

#[test]
fn shutdown_runs_once() {
    let mut shutdown = KernelShutdown::new();
    assert!(!shutdown.has_begun());
    assert_eq!(shutdown.begin(), ShutdownAction::SendRequest);
    assert!(shutdown.has_begun());
    assert_eq!(shutdown.begin(), ShutdownAction::Nothing);
    assert_eq!(shutdown.step(ShutdownEvent::RequestSent), ShutdownAction::AwaitReply);
    assert_eq!(shutdown.step(ShutdownEvent::ReplyWaitOver), ShutdownAction::AwaitChildExit);
    assert_eq!(shutdown.step(ShutdownEvent::ChildGone), ShutdownAction::StopDrain);
    assert_eq!(shutdown.step(ShutdownEvent::DrainStopped), ShutdownAction::Finished);
    assert_eq!(shutdown.begin(), ShutdownAction::Nothing);
}

#[test]
fn failed_request_skips_waiting_for_reply() {
    let mut shutdown = KernelShutdown::new();
    assert_eq!(shutdown.begin(), ShutdownAction::SendRequest);
    assert_eq!(shutdown.step(ShutdownEvent::RequestFailed), ShutdownAction::AwaitChildExit);
}

#[test]
fn registration_file_is_pretty_json_of_all_fields() {
    let registration = Registration {
        transport: "tcp".to_string(),
        signature_scheme: "hmac-sha256".to_string(),
        ip: "127.0.0.1".to_string(),
        key: "0123abcd".to_string(),
        registration_port: 40123,
    };
    let text = registration_json(&registration).unwrap();
    let value: serde_json::Value = serde_json::from_str(&text).unwrap();
    assert_eq!(value["transport"], "tcp");
    assert_eq!(value["signature_scheme"], "hmac-sha256");
    assert_eq!(value["ip"], "127.0.0.1");
    assert_eq!(value["key"], "0123abcd");
    assert_eq!(value["registration_port"], 40123);
    assert_eq!(value.as_object().unwrap().len(), 5);
    assert!(text.contains('\n'));
}
