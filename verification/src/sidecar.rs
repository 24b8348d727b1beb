//! Booting, watching and shutting down the sidecar kernel.
//!
//! The bridge spawns its own executable as an ark kernel child process and
//! talks Jupyter to it. The process, socket and thread work happens outside
//! this module; here is what decides it: where the kernel logs, which
//! arguments it gets, and what each polling loop does next.

use vstd::prelude::*;
use crate::json::flat_object_view;
use crate::json::is_flat_object;
use crate::json::pretty_object_text;
use crate::json::to_pretty_object_text;
use crate::json::JsonNumber;
use crate::json::JsonScalar;
use crate::json::JsonValue;

verus! {

/// How long the drain thread blocks on the iopub socket before looping back to
/// re-check its stop flag, in milliseconds.
pub const IOPUB_POLL_MS: i64 = 250;

/// How long one poll of the control socket lasts while waiting for the
/// shutdown reply, in milliseconds.
pub const CONTROL_POLL_MS: i64 = 50;

/// How long to sleep between checks of whether the kernel child exited, in
/// milliseconds.
pub const CHILD_EXIT_POLL_MS: u64 = 20;

/// Total budget for a graceful shutdown, in seconds: waiting for the kernel's
/// shutdown reply and for the child process to exit, before resorting to
/// killing it.
pub const SHUTDOWN_BUDGET_SECS: u64 = 5;

/// `Path::new(path).parent()`, as text.
pub uninterp spec fn path_parent(path: Seq<char>) -> Option<Seq<char>>;

/// `Path::new(base).join(name)`, as text.
pub uninterp spec fn path_join(base: Seq<char>, name: Seq<char>) -> Seq<char>;

/// The parent directory of `path`: std's `Path::parent`.
///
/// Trusted: the result is std's, named by [`path_parent`]; as std documents,
/// an empty path has no parent. The parent of a path given as text is a
/// prefix of that text, so turning it back into a `String` loses nothing.
#[verifier::external_body]
fn parent_of(path: &str) -> (parent: Option<String>)
    ensures
        parent.deep_view() == path_parent(path@),
        path@.len() == 0 ==> parent is None,
{
    match std::path::Path::new(path).parent() {
        Some(dir) => Some(dir.to_string_lossy().into_owned()),
        None => None,
    }
}

/// `base` joined with `name`: std's `Path::join`.
///
/// Trusted: the result is std's, named by [`path_join`]; both parts are text,
/// so the joined path is text too and nothing is lost converting it back.
#[verifier::external_body]
fn join_path(base: &str, name: &str) -> (joined: String)
    ensures
        joined@ == path_join(base@, name@),
{
    std::path::Path::new(base).join(name).to_string_lossy().into_owned()
}

/// The directory the kernel log goes to: the directory of the bridge's log
/// file when it has a non-empty one, otherwise the private temp directory.
pub open spec fn kernel_log_dir(bridge_log_file: Option<Seq<char>>, temp_dir: Seq<char>) -> Seq<char> {
    match bridge_log_file {
        Some(file) => match path_parent(file) {
            Some(dir) => if dir.len() > 0 {
                dir
            } else {
                temp_dir
            },
            None => temp_dir,
        },
        None => temp_dir,
    }
}

/// Where the kernel child should write its log.
///
/// It sits next to the bridge log when there is one, otherwise in the private
/// temp dir.
pub fn kernel_log_path(bridge_log_file: Option<&str>, temp_dir: &str) -> (path: String)
    ensures
        path@ == path_join(
            kernel_log_dir(
                match bridge_log_file {
                    Some(file) => Some(file@),
                    None => None,
                },
                temp_dir@,
            ),
            "kernel.log"@,
        ),
{
    let dir = match bridge_log_file {
        Some(file) => match parent_of(file) {
            Some(parent) => if parent.as_str().is_empty() {
                None
            } else {
                Some(parent)
            },
            None => None,
        },
        None => None,
    };
    match dir {
        Some(dir) => join_path(dir.as_str(), "kernel.log"),
        None => join_path(temp_dir, "kernel.log"),
    }
}

/// The options the kernel child is started with: its connection file, the
/// background session mode, and its log file.
pub open spec fn kernel_args_spec(connection_file: Seq<char>, kernel_log: Seq<char>) -> Seq<Seq<char>> {
    seq![
        "--connection_file"@,
        connection_file,
        "--session-mode"@,
        "background"@,
        "--log"@,
        kernel_log,
    ]
}

/// The arguments to start the kernel child with: its options, then, if
/// there are any arguments to pass through to R, `--` and those arguments.
pub fn kernel_args(connection_file: &str, kernel_log: &str, r_args: &Vec<String>) -> (args: Vec<String>)
    ensures
        r_args@.len() == 0 ==> args.deep_view() == kernel_args_spec(connection_file@, kernel_log@),
        r_args@.len() > 0 ==> args.deep_view() == kernel_args_spec(connection_file@, kernel_log@)
            + seq!["--"@] + r_args.deep_view(),
{
    let mut args: Vec<String> = Vec::new();
    args.push(String::from_str("--connection_file"));
    args.push(String::from_str(connection_file));
    args.push(String::from_str("--session-mode"));
    args.push(String::from_str("background"));
    args.push(String::from_str("--log"));
    args.push(String::from_str(kernel_log));
    assert(args.deep_view() =~= kernel_args_spec(connection_file@, kernel_log@));
    if r_args.len() == 0 {
        return args;
    }
    args.push(String::from_str("--"));
    let ghost options = kernel_args_spec(connection_file@, kernel_log@) + seq!["--"@];
    assert(args.deep_view() =~= options);
    let mut i: usize = 0;
    while i < r_args.len()
        invariant
            i <= r_args.len(),
            args.deep_view() == options + r_args.deep_view().take(i as int),
        decreases r_args.len() - i,
    {
        let ghost before = args.deep_view();
        let arg = r_args[i].clone();
        args.push(arg);
        assert(args.deep_view() =~= before.push(r_args.deep_view()[i as int]));
        assert(r_args.deep_view().take(i + 1) =~= r_args.deep_view().take(i as int).push(
            r_args.deep_view()[i as int],
        ));
        i = i + 1;
    }
    assert(r_args.deep_view().take(r_args.len() as int) =~= r_args.deep_view());
    args
}

/// The registration information the kernel child reads from its connection
/// file to complete the handshake.
pub struct Registration {
    pub transport: String,
    pub signature_scheme: String,
    pub ip: String,
    pub key: String,
    pub registration_port: u16,
}

/// The members of the connection file's JSON object: the five registration
/// fields under their names, the port as a number.
pub open spec fn registration_members(registration: Registration) -> Seq<(Seq<char>, JsonScalar)> {
    seq![
        ("transport"@, JsonScalar::Str(registration.transport@)),
        ("signature_scheme"@, JsonScalar::Str(registration.signature_scheme@)),
        ("ip"@, JsonScalar::Str(registration.ip@)),
        ("key"@, JsonScalar::Str(registration.key@)),
        ("registration_port"@, JsonScalar::PosInt(registration.registration_port as u64)),
    ]
}

/// The contents of the connection file handed to the kernel child: the
/// registration information as a pretty-printed JSON object with the members
/// `transport`, `signature_scheme`, `ip`, `key` and `registration_port`.
/// Serializing it always succeeds.
pub fn registration_json(registration: &Registration) -> (text: Option<String>)
    ensures
        text matches Some(t) && t@ == pretty_object_text(registration_members(*registration)),
{
    let mut members: Vec<(String, JsonValue)> = Vec::new();
    members.push((String::from_str("transport"), JsonValue::String(registration.transport.clone())));
    members.push(
        (
            String::from_str("signature_scheme"),
            JsonValue::String(registration.signature_scheme.clone()),
        ),
    );
    members.push((String::from_str("ip"), JsonValue::String(registration.ip.clone())));
    members.push((String::from_str("key"), JsonValue::String(registration.key.clone())));
    members.push(
        (
            String::from_str("registration_port"),
            JsonValue::Number(JsonNumber::PosInt(registration.registration_port as u64)),
        ),
    );
    assert(is_flat_object(members@));
    assert(flat_object_view(members@) =~= registration_members(*registration));
    to_pretty_object_text(&members)
}

/// What a non-blocking check of the kernel child found.
#[derive(Clone, Copy, Debug, PartialEq, Eq, Structural)]
pub enum ChildStatus {
    /// The child has exited.
    Exited,
    /// The child is still running.
    Running,
    /// The check itself failed.
    CheckFailed,
}

/// What to do next while waiting for the kernel child to exit.
#[derive(Clone, Copy, Debug, PartialEq, Eq, Structural)]
pub enum ChildExitStep {
    /// The child is gone; stop waiting.
    Done,
    /// Sleep [`CHILD_EXIT_POLL_MS`] and check again.
    SleepAndRetry,
    /// Kill the child and reap it.
    KillAndReap,
}

/// The decision after checking on the kernel child.
pub open spec fn child_exit_spec(status: ChildStatus, deadline_passed: bool) -> ChildExitStep {
    match status {
        ChildStatus::Exited => ChildExitStep::Done,
        ChildStatus::Running => if deadline_passed {
            ChildExitStep::KillAndReap
        } else {
            ChildExitStep::SleepAndRetry
        },
        ChildStatus::CheckFailed => ChildExitStep::KillAndReap,
    }
}

/// Decide what to do after checking on the kernel child: stop once it has
/// exited, keep polling while it runs and the deadline has not passed, and
/// kill it if it overstays or if checking on it fails.
pub fn child_exit_step(status: ChildStatus, deadline_passed: bool) -> (step: ChildExitStep)
    ensures
        step == child_exit_spec(status, deadline_passed),
{
    match status {
        ChildStatus::Exited => ChildExitStep::Done,
        ChildStatus::Running => if deadline_passed {
            ChildExitStep::KillAndReap
        } else {
            ChildExitStep::SleepAndRetry
        },
        ChildStatus::CheckFailed => ChildExitStep::KillAndReap,
    }
}

/// Law: the wait for the kernel child ends by the deadline. Once it has
/// passed, the wait never sleeps again: the child is either seen gone or
/// killed; and a child that is not known to have exited is never left
/// alone then.
pub proof fn lemma_child_wait_ends_at_deadline(status: ChildStatus)
    ensures
        child_exit_spec(status, true) != ChildExitStep::SleepAndRetry,
        status != ChildStatus::Exited ==> child_exit_spec(status, true) == ChildExitStep::KillAndReap,
{
}

/// What one round of waiting for the kernel's `shutdown_reply` on the control
/// socket observed.
#[derive(Clone, Copy, Debug, PartialEq, Eq, Structural)]
pub enum ControlEvent {
    /// The shutdown deadline has passed.
    DeadlineReached,
    /// The poll found nothing to read.
    PollIdle,
    /// The poll found a message to read.
    PollReady,
    /// Polling failed.
    PollFailed,
    /// The message read was the `shutdown_reply`.
    ReadShutdownReply,
    /// The message read was something else.
    ReadOther,
    /// Reading the message failed.
    ReadFailed,
}

/// What to do next while waiting for the `shutdown_reply`.
#[derive(Clone, Copy, Debug, PartialEq, Eq, Structural)]
pub enum ControlStep {
    /// Poll again (for [`CONTROL_POLL_MS`]).
    Poll,
    /// Read the waiting message.
    ReadMessage,
    /// The reply arrived; stop waiting.
    ReplyReceived,
    /// The socket failed; stop waiting.
    GiveUp,
    /// The deadline passed without a reply; stop waiting and warn.
    TimedOut,
}

/// The decision after one round of waiting for the `shutdown_reply`.
pub open spec fn control_step_spec(event: ControlEvent) -> ControlStep {
    match event {
        ControlEvent::DeadlineReached => ControlStep::TimedOut,
        ControlEvent::PollIdle => ControlStep::Poll,
        ControlEvent::PollReady => ControlStep::ReadMessage,
        ControlEvent::PollFailed => ControlStep::GiveUp,
        ControlEvent::ReadShutdownReply => ControlStep::ReplyReceived,
        ControlEvent::ReadOther => ControlStep::Poll,
        ControlEvent::ReadFailed => ControlStep::Poll,
    }
}

/// Decide what to do after one round of waiting for the kernel's
/// `shutdown_reply`: other messages and read errors are skipped, and the wait
/// ends at the reply, at a polling failure, or at the deadline.
pub fn shutdown_reply_step(event: ControlEvent) -> (step: ControlStep)
    ensures
        step == control_step_spec(event),
{
    match event {
        ControlEvent::DeadlineReached => ControlStep::TimedOut,
        ControlEvent::PollIdle => ControlStep::Poll,
        ControlEvent::PollReady => ControlStep::ReadMessage,
        ControlEvent::PollFailed => ControlStep::GiveUp,
        ControlEvent::ReadShutdownReply => ControlStep::ReplyReceived,
        ControlEvent::ReadOther => ControlStep::Poll,
        ControlEvent::ReadFailed => ControlStep::Poll,
    }
}

/// What one round of the iopub drain observed.
#[derive(Clone, Copy, Debug, PartialEq, Eq, Structural)]
pub enum DrainEvent {
    /// The drain has been asked to stop.
    StopRequested,
    /// The poll found nothing to read.
    PollIdle,
    /// The poll found a message to read.
    PollReady,
    /// Polling failed.
    PollFailed,
    /// A message was read.
    Received,
    /// Reading the message failed.
    ReadFailed,
}

/// What the iopub drain does next.
#[derive(Clone, Copy, Debug, PartialEq, Eq, Structural)]
pub enum DrainStep {
    /// Check the stop flag, then poll again (for [`IOPUB_POLL_MS`]).
    Poll,
    /// Read the waiting message.
    ReadMessage,
    /// Hand the message to the active subscriber, then poll again.
    Forward,
    /// Discard the message, then poll again.
    Discard,
    /// Stop draining.
    Stop,
}

/// The decision after one round of the iopub drain.
pub open spec fn drain_step_spec(event: DrainEvent, has_subscriber: bool) -> DrainStep {
    match event {
        DrainEvent::StopRequested => DrainStep::Stop,
        DrainEvent::PollIdle => DrainStep::Poll,
        DrainEvent::PollReady => DrainStep::ReadMessage,
        DrainEvent::PollFailed => DrainStep::Stop,
        DrainEvent::Received => if has_subscriber {
            DrainStep::Forward
        } else {
            DrainStep::Discard
        },
        DrainEvent::ReadFailed => DrainStep::Poll,
    }
}

/// Decide what the iopub drain does next. Every message read goes to the
/// active subscriber when there is one and is discarded otherwise, so the
/// kernel's bounded iopub queue never fills up.
pub fn drain_step(event: DrainEvent, has_subscriber: bool) -> (step: DrainStep)
    ensures
        step == drain_step_spec(event, has_subscriber),
{
    match event {
        DrainEvent::StopRequested => DrainStep::Stop,
        DrainEvent::PollIdle => DrainStep::Poll,
        DrainEvent::PollReady => DrainStep::ReadMessage,
        DrainEvent::PollFailed => DrainStep::Stop,
        DrainEvent::Received => if has_subscriber {
            DrainStep::Forward
        } else {
            DrainStep::Discard
        },
        DrainEvent::ReadFailed => DrainStep::Poll,
    }
}

/// Law: the drain never holds on to a message. Every message it reads is
/// either handed to the subscriber or discarded, and it is handed on exactly
/// when a subscription is active.
pub proof fn lemma_drain_consumes_every_message(has_subscriber: bool)
    ensures
        drain_step_spec(DrainEvent::Received, has_subscriber) == if has_subscriber {
            DrainStep::Forward
        } else {
            DrainStep::Discard
        },
        drain_step_spec(DrainEvent::Received, has_subscriber) != DrainStep::Stop,
{
}

/// Where the shutdown of the kernel stands.
#[derive(Clone, Copy, Debug, PartialEq, Eq, Structural)]
pub enum ShutdownPhase {
    /// No shutdown has been asked for yet.
    Running,
    /// Sending the Jupyter `shutdown_request`.
    Requesting,
    /// Waiting (until the deadline) for the `shutdown_reply`.
    AwaitingReply,
    /// Waiting (until the deadline) for the child to exit, killing it if it
    /// overstays.
    AwaitingExit,
    /// Stopping and joining the iopub drain thread.
    StoppingDrain,
    /// The shutdown has completed.
    Done,
}

/// What the last shutdown step reported.
#[derive(Clone, Copy, Debug, PartialEq, Eq, Structural)]
pub enum ShutdownEvent {
    /// The `shutdown_request` was sent.
    RequestSent,
    /// Sending the `shutdown_request` failed.
    RequestFailed,
    /// The wait for the `shutdown_reply` is over (reply, failure or deadline).
    ReplyWaitOver,
    /// The child has exited or been killed and reaped.
    ChildGone,
    /// The drain thread has stopped and been joined.
    DrainStopped,
}

/// What the shutdown does next.
#[derive(Clone, Copy, Debug, PartialEq, Eq, Structural)]
pub enum ShutdownAction {
    /// Send the Jupyter `shutdown_request` on the control socket.
    SendRequest,
    /// Wait for the `shutdown_reply`.
    AwaitReply,
    /// Wait for the child to exit.
    AwaitChildExit,
    /// Stop and join the iopub drain thread.
    StopDrain,
    /// The shutdown is complete.
    Finished,
    /// Nothing to do: the shutdown already ran.
    Nothing,
}

/// What asking for the shutdown does in `phase`: the first time it moves to
/// sending the request, every later time it does nothing.
pub open spec fn begin_spec(phase: ShutdownPhase) -> (ShutdownPhase, ShutdownAction) {
    match phase {
        ShutdownPhase::Running => (ShutdownPhase::Requesting, ShutdownAction::SendRequest),
        _ => (phase, ShutdownAction::Nothing),
    }
}

/// The next phase and action of the shutdown after `event` in `phase`.
pub open spec fn shutdown_step_spec(phase: ShutdownPhase, event: ShutdownEvent) -> (ShutdownPhase, ShutdownAction) {
    match (phase, event) {
        (ShutdownPhase::Requesting, ShutdownEvent::RequestSent) => (
            ShutdownPhase::AwaitingReply,
            ShutdownAction::AwaitReply,
        ),
        (ShutdownPhase::Requesting, _) => (ShutdownPhase::AwaitingExit, ShutdownAction::AwaitChildExit),
        (ShutdownPhase::AwaitingReply, _) => (
            ShutdownPhase::AwaitingExit,
            ShutdownAction::AwaitChildExit,
        ),
        (ShutdownPhase::AwaitingExit, _) => (ShutdownPhase::StoppingDrain, ShutdownAction::StopDrain),
        (_, _) => (ShutdownPhase::Done, ShutdownAction::Finished),
    }
}

/// The shutdown sequence of the sidecar kernel. It runs at most once: asking
/// again once it has begun does nothing.
pub struct KernelShutdown {
    phase: ShutdownPhase,
}

impl KernelShutdown {
    pub closed spec fn phase(&self) -> ShutdownPhase {
        self.phase
    }

    /// Whether `event` reports on the action that the phase stands for.
    pub open spec fn accepts(&self, event: ShutdownEvent) -> bool {
        match self.phase() {
            ShutdownPhase::Requesting => event == ShutdownEvent::RequestSent || event
                == ShutdownEvent::RequestFailed,
            ShutdownPhase::AwaitingReply => event == ShutdownEvent::ReplyWaitOver,
            ShutdownPhase::AwaitingExit => event == ShutdownEvent::ChildGone,
            ShutdownPhase::StoppingDrain => event == ShutdownEvent::DrainStopped,
            _ => false,
        }
    }

    /// A kernel that has not been asked to shut down.
    pub fn new() -> (shutdown: Self)
        ensures
            shutdown.phase() == ShutdownPhase::Running,
    {
        KernelShutdown { phase: ShutdownPhase::Running }
    }

    /// Whether the shutdown has begun (and so will not run again).
    pub fn has_begun(&self) -> (begun: bool)
        ensures
            begun == (self.phase() != ShutdownPhase::Running),
    {
        match self.phase {
            ShutdownPhase::Running => false,
            _ => true,
        }
    }

    /// Ask for the shutdown. The first time, it begins by sending the
    /// `shutdown_request`; every later time it does nothing.
    pub fn begin(&mut self) -> (action: ShutdownAction)
        ensures
            (final(self).phase(), action) == begin_spec(old(self).phase()),
    {
        match self.phase {
            ShutdownPhase::Running => {
                self.phase = ShutdownPhase::Requesting;
                ShutdownAction::SendRequest
            },
            _ => ShutdownAction::Nothing,
        }
    }

    /// Take in what the last shutdown action gave and decide the next one: a
    /// sent request is followed by waiting for its reply, a failed one goes
    /// straight to waiting for the child to exit; then the drain thread is
    /// stopped.
    pub fn step(&mut self, event: ShutdownEvent) -> (action: ShutdownAction)
        requires
            old(self).accepts(event),
        ensures
            (final(self).phase(), action) == shutdown_step_spec(old(self).phase(), event),
    {
        match (self.phase, event) {
            (ShutdownPhase::Requesting, ShutdownEvent::RequestSent) => {
                self.phase = ShutdownPhase::AwaitingReply;
                ShutdownAction::AwaitReply
            },
            (ShutdownPhase::Requesting, _) | (ShutdownPhase::AwaitingReply, _) => {
                self.phase = ShutdownPhase::AwaitingExit;
                ShutdownAction::AwaitChildExit
            },
            (ShutdownPhase::AwaitingExit, _) => {
                self.phase = ShutdownPhase::StoppingDrain;
                ShutdownAction::StopDrain
            },
            _ => {
                self.phase = ShutdownPhase::Done;
                ShutdownAction::Finished
            },
        }
    }
}

/// Law: shutting down is idempotent. Asking a second time, right after the
/// first or at any later stage of the sequence, sends nothing and changes
/// nothing; and no stage of the sequence leads back to a kernel that could
/// be shut down again.
pub proof fn lemma_shutdown_idempotent(phase: ShutdownPhase, event: ShutdownEvent)
    ensures
        begin_spec(begin_spec(phase).0) == (begin_spec(phase).0, ShutdownAction::Nothing),
        phase != ShutdownPhase::Running ==> begin_spec(phase) == (phase, ShutdownAction::Nothing),
        phase != ShutdownPhase::Running ==> shutdown_step_spec(phase, event).0
            != ShutdownPhase::Running,
{
}

/// Law: a stop request always ends the drain, whether or not a subscription
/// is active, and so does a failure to poll; nothing else does.
pub proof fn lemma_drain_stops_on_request(event: DrainEvent, has_subscriber: bool)
    ensures
        drain_step_spec(DrainEvent::StopRequested, has_subscriber) == DrainStep::Stop,
        drain_step_spec(DrainEvent::PollFailed, has_subscriber) == DrainStep::Stop,
        drain_step_spec(event, has_subscriber) == DrainStep::Stop ==> (event
            == DrainEvent::StopRequested || event == DrainEvent::PollFailed),
{
}

/// Law: the kernel log goes next to the bridge log whenever the bridge log
/// has a non-empty parent directory, and into the temp dir otherwise.
pub proof fn lemma_kernel_log_next_to_bridge_log(file: Seq<char>, temp_dir: Seq<char>)
    ensures
        path_parent(file) matches Some(dir) ==> (dir.len() > 0 ==> kernel_log_dir(Some(file), temp_dir)
            == dir),
        path_parent(file) matches Some(dir) ==> (dir.len() == 0 ==> kernel_log_dir(Some(file), temp_dir)
            == temp_dir),
        path_parent(file) is None ==> kernel_log_dir(Some(file), temp_dir) == temp_dir,
        kernel_log_dir(None, temp_dir) == temp_dir,
{
}

} // verus!
