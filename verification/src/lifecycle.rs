//! The lifecycle of `ark lsp`: boot the sidecar kernel, connect to its LSP
//! server, pump bytes between stdio and the LSP stream until one side ends,
//! then shut the kernel down and drain what is left for stdout.
//!
//! [`Lifecycle`] decides each next step from what the last one gave; the code
//! that owns the kernel, the stream and the pump performs the steps.

use vstd::prelude::*;
use crate::pump::Ending;

verus! {

/// Where the bridge stands.
#[derive(Clone, Copy, Debug, PartialEq, Eq, Structural)]
pub enum RunPhase {
    /// Booting the sidecar kernel.
    Booting,
    /// The kernel is up; opening the LSP comm and connecting to its port.
    Connecting,
    /// Connected; starting the two pump directions.
    StartingPump,
    /// Pumping until one direction ends.
    Pumping,
    /// Shutting the kernel down; `drain` tells whether the stdout pump is
    /// still to be joined afterwards.
    StoppingKernel { success: bool, drain: bool },
    /// Joining the stdout pump so trailing bytes reach stdout.
    Draining { success: bool },
    /// Done; the process exits with success or failure.
    Exited { success: bool },
}

/// What the last step reported.
#[derive(Clone, Copy, Debug, PartialEq, Eq, Structural)]
pub enum RunEvent {
    /// The kernel booted and completed the handshake.
    KernelReady,
    /// Booting the kernel failed.
    BootFailed,
    /// The LSP server started and the TCP stream is connected.
    LspConnected,
    /// Opening the comm, waiting for the port or connecting failed.
    ConnectFailed,
    /// Both pump directions are running.
    PumpStarted,
    /// The pump could not be started.
    PumpStartFailed,
    /// One pump direction reached its end.
    PumpEnded(Ending),
    /// The kernel has been shut down.
    KernelStopped,
    /// The stdout pump has been joined.
    StdoutDrained,
}

/// What the bridge does next.
#[derive(Clone, Copy, Debug, PartialEq, Eq, Structural)]
pub enum RunAction {
    /// Boot the sidecar kernel.
    BootKernel,
    /// Start the LSP server inside the kernel and connect to it.
    ConnectLsp,
    /// Start pumping between stdio and the LSP stream.
    StartPump,
    /// Wait until one pump direction ends.
    AwaitEnding,
    /// Shut the kernel down.
    StopKernel,
    /// Join the stdout pump.
    DrainStdout,
    /// Exit, successfully or not.
    Exit { success: bool },
}

/// The decisions of the bridge's lifecycle.
pub struct Lifecycle {
    phase: RunPhase,
    /// Whether a kernel child was ever started.
    kernel_started: Ghost<bool>,
    /// Whether that kernel has been shut down.
    kernel_stopped: Ghost<bool>,
    /// Whether the pump was ever started.
    pump_started: Ghost<bool>,
    /// Whether the stdout pump has been joined.
    stdout_drained: Ghost<bool>,
}

impl Lifecycle {
    pub closed spec fn phase(&self) -> RunPhase {
        self.phase
    }

    pub closed spec fn kernel_started(&self) -> bool {
        self.kernel_started@
    }

    pub closed spec fn kernel_stopped(&self) -> bool {
        self.kernel_stopped@
    }

    pub closed spec fn pump_started(&self) -> bool {
        self.pump_started@
    }

    pub closed spec fn stdout_drained(&self) -> bool {
        self.stdout_drained@
    }

    /// How the phase and the history of the bridge fit together.
    pub closed spec fn wf(&self) -> bool {
        &&& self.stdout_drained@ ==> self.pump_started@
        &&& self.pump_started@ ==> self.kernel_started@
        &&& self.kernel_stopped@ ==> self.kernel_started@
        &&& match self.phase {
            RunPhase::Booting => !self.kernel_started@ && !self.pump_started@,
            RunPhase::Connecting | RunPhase::StartingPump => self.kernel_started@
                && !self.kernel_stopped@ && !self.pump_started@,
            RunPhase::Pumping => self.pump_started@ && !self.kernel_stopped@
                && !self.stdout_drained@,
            RunPhase::StoppingKernel { success, drain } => {
                &&& self.kernel_started@
                &&& !self.kernel_stopped@
                &&& !self.stdout_drained@
                &&& drain == self.pump_started@
                &&& success == self.pump_started@
            },
            RunPhase::Draining { success } => {
                &&& self.kernel_stopped@
                &&& self.pump_started@
                &&& !self.stdout_drained@
                &&& success
            },
            RunPhase::Exited { success } => {
                &&& self.kernel_started@ ==> self.kernel_stopped@
                &&& self.pump_started@ ==> self.stdout_drained@
                &&& success == self.pump_started@
            },
        }
    }

    /// Whether `event` reports on the action that the phase stands for.
    pub open spec fn accepts(&self, event: RunEvent) -> bool {
        match self.phase() {
            RunPhase::Booting => event == RunEvent::KernelReady || event == RunEvent::BootFailed,
            RunPhase::Connecting => event == RunEvent::LspConnected || event
                == RunEvent::ConnectFailed,
            RunPhase::StartingPump => event == RunEvent::PumpStarted || event
                == RunEvent::PumpStartFailed,
            RunPhase::Pumping => event is PumpEnded,
            RunPhase::StoppingKernel { .. } => event == RunEvent::KernelStopped,
            RunPhase::Draining { .. } => event == RunEvent::StdoutDrained,
            RunPhase::Exited { .. } => false,
        }
    }

    /// A bridge that has not started anything; its first action is
    /// [`RunAction::BootKernel`].
    pub fn new() -> (lifecycle: Self)
        ensures
            lifecycle.wf(),
            lifecycle.phase() == RunPhase::Booting,
            !lifecycle.kernel_started(),
            !lifecycle.pump_started(),
    {
        Lifecycle {
            phase: RunPhase::Booting,
            kernel_started: Ghost(false),
            kernel_stopped: Ghost(false),
            pump_started: Ghost(false),
            stdout_drained: Ghost(false),
        }
    }

    /// The first action of a new bridge.
    pub fn first_action(&self) -> (action: RunAction)
        requires
            self.phase() == RunPhase::Booting,
        ensures
            action == RunAction::BootKernel,
    {
        RunAction::BootKernel
    }

    /// Take in what the last action gave and decide the next one.
    ///
    /// A failure while booting exits with failure at once (no kernel runs
    /// yet). A failure after the kernel booted first shuts the kernel down,
    /// then exits with failure. When either pump direction ends, whichever it
    /// is, the kernel is shut down, the stdout pump is drained, and the bridge
    /// exits successfully.
    pub fn step(&mut self, event: RunEvent) -> (action: RunAction)
        requires
            old(self).wf(),
            old(self).accepts(event),
        ensures
            final(self).wf(),
            match (old(self).phase(), event) {
                (RunPhase::Booting, RunEvent::KernelReady) => action == RunAction::ConnectLsp
                    && final(self).phase() == RunPhase::Connecting,
                (RunPhase::Booting, RunEvent::BootFailed) => action == (RunAction::Exit {
                    success: false,
                }) && final(self).phase() == (RunPhase::Exited { success: false }),
                (RunPhase::Connecting, RunEvent::LspConnected) => action == RunAction::StartPump
                    && final(self).phase() == RunPhase::StartingPump,
                (RunPhase::Connecting, RunEvent::ConnectFailed) => action == RunAction::StopKernel
                    && final(self).phase() == (RunPhase::StoppingKernel {
                    success: false,
                    drain: false,
                }),
                (RunPhase::StartingPump, RunEvent::PumpStarted) => action == RunAction::AwaitEnding
                    && final(self).phase() == RunPhase::Pumping,
                (RunPhase::StartingPump, RunEvent::PumpStartFailed) => action
                    == RunAction::StopKernel && final(self).phase() == (RunPhase::StoppingKernel {
                    success: false,
                    drain: false,
                }),
                (RunPhase::Pumping, RunEvent::PumpEnded(_)) => action == RunAction::StopKernel
                    && final(self).phase() == (RunPhase::StoppingKernel {
                    success: true,
                    drain: true,
                }),
                (RunPhase::StoppingKernel { success, drain }, _) => if drain {
                    action == RunAction::DrainStdout && final(self).phase() == (RunPhase::Draining {
                        success,
                    })
                } else {
                    action == (RunAction::Exit { success }) && final(self).phase() == (
                    RunPhase::Exited { success })
                },
                (RunPhase::Draining { success }, _) => action == (RunAction::Exit { success })
                    && final(self).phase() == (RunPhase::Exited { success }),
                (_, _) => false,
            },
    {
        match (self.phase, event) {
            (RunPhase::Booting, RunEvent::KernelReady) => {
                self.phase = RunPhase::Connecting;
                proof {
                    self.kernel_started@ = true;
                }
                RunAction::ConnectLsp
            },
            (RunPhase::Booting, _) => {
                self.phase = RunPhase::Exited { success: false };
                RunAction::Exit { success: false }
            },
            (RunPhase::Connecting, RunEvent::LspConnected) => {
                self.phase = RunPhase::StartingPump;
                RunAction::StartPump
            },
            (RunPhase::Connecting, _) => {
                self.phase = RunPhase::StoppingKernel { success: false, drain: false };
                RunAction::StopKernel
            },
            (RunPhase::StartingPump, RunEvent::PumpStarted) => {
                self.phase = RunPhase::Pumping;
                proof {
                    self.pump_started@ = true;
                }
                RunAction::AwaitEnding
            },
            (RunPhase::StartingPump, _) => {
                self.phase = RunPhase::StoppingKernel { success: false, drain: false };
                RunAction::StopKernel
            },
            (RunPhase::Pumping, _) => {
                self.phase = RunPhase::StoppingKernel { success: true, drain: true };
                RunAction::StopKernel
            },
            (RunPhase::StoppingKernel { success, drain }, _) => {
                proof {
                    self.kernel_stopped@ = true;
                }
                if drain {
                    self.phase = RunPhase::Draining { success };
                    RunAction::DrainStdout
                } else {
                    self.phase = RunPhase::Exited { success };
                    RunAction::Exit { success }
                }
            },
            (RunPhase::Draining { success }, _) => {
                proof {
                    self.stdout_drained@ = true;
                }
                self.phase = RunPhase::Exited { success };
                RunAction::Exit { success }
            },
            (RunPhase::Exited { success }, _) => RunAction::Exit { success },
        }
    }

    /// Law: the bridge never leaves anything behind. Once it exits, the
    /// kernel child it booted (if any) has been shut down and the stdout pump
    /// it started (if any) has been drained; and it exits successfully exactly
    /// when the pump ran, that is, when booting and connecting succeeded.
    pub proof fn lemma_exit_leaves_nothing_behind(&self)
        requires
            self.wf(),
            self.phase() is Exited,
        ensures
            self.kernel_started() ==> self.kernel_stopped(),
            self.pump_started() ==> self.stdout_drained(),
            self.phase() == (RunPhase::Exited { success: self.pump_started() }),
    {
    }

    /// Law: while the bridge is pumping, the kernel it booted is running: it
    /// has been started and not shut down.
    pub proof fn lemma_kernel_alive_while_pumping(&self)
        requires
            self.wf(),
            self.phase() == RunPhase::Pumping,
        ensures
            self.kernel_started(),
            !self.kernel_stopped(),
    {
    }
}

} // verus!
