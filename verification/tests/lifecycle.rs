use ark::lifecycle::Lifecycle;
use ark::lifecycle::RunAction;
use ark::lifecycle::RunEvent;
use ark::pump::Ending;

/// Feed `events` to a new bridge and collect every action it takes.
fn actions_for(events: &[RunEvent]) -> Vec<RunAction> {
    let mut lifecycle = Lifecycle::new();
    let mut actions = vec![lifecycle.first_action()];
    for event in events {
        actions.push(lifecycle.step(*event));
    }
    actions
}

#[test]
fn stdin_eof_shuts_down_and_exits_cleanly() {
    let actions = actions_for(&[
        RunEvent::KernelReady,
        RunEvent::LspConnected,
        RunEvent::PumpStarted,
        RunEvent::PumpEnded(Ending::StdinClosed),
        RunEvent::KernelStopped,
        RunEvent::StdoutDrained,
    ]);
    assert_eq!(actions, vec![
        RunAction::BootKernel,
        RunAction::ConnectLsp,
        RunAction::StartPump,
        RunAction::AwaitEnding,
        RunAction::StopKernel,
        RunAction::DrainStdout,
        RunAction::Exit { success: true },
    ]);
}

#[test]
fn tcp_close_follows_the_same_shutdown() {
    let by_stdin = actions_for(&[
        RunEvent::KernelReady,
        RunEvent::LspConnected,
        RunEvent::PumpStarted,
        RunEvent::PumpEnded(Ending::StdinClosed),
        RunEvent::KernelStopped,
        RunEvent::StdoutDrained,
    ]);
    let by_tcp = actions_for(&[
        RunEvent::KernelReady,
        RunEvent::LspConnected,
        RunEvent::PumpStarted,
        RunEvent::PumpEnded(Ending::TcpClosed),
        RunEvent::KernelStopped,
        RunEvent::StdoutDrained,
    ]);
    assert_eq!(by_stdin, by_tcp);
}

#[test]
fn boot_failure_exits_with_failure_at_once() {
    let actions = actions_for(&[RunEvent::BootFailed]);
    assert_eq!(actions, vec![RunAction::BootKernel, RunAction::Exit { success: false }]);
}

#[test]
fn connect_failure_stops_kernel_then_fails() {
    let actions = actions_for(&[
        RunEvent::KernelReady,
        RunEvent::ConnectFailed,
        RunEvent::KernelStopped,
    ]);
    assert_eq!(actions, vec![
        RunAction::BootKernel,
        RunAction::ConnectLsp,
        RunAction::StopKernel,
        RunAction::Exit { success: false },
    ]);
}

#[test]
fn pump_start_failure_stops_kernel_then_fails() {
    let actions = actions_for(&[
        RunEvent::KernelReady,
        RunEvent::LspConnected,
        RunEvent::PumpStartFailed,
        RunEvent::KernelStopped,
    ]);
    assert_eq!(actions, vec![
        RunAction::BootKernel,
        RunAction::ConnectLsp,
        RunAction::StartPump,
        RunAction::StopKernel,
        RunAction::Exit { success: false },
    ]);
}
