//! Starting ark's LSP server inside the sidecar kernel.
//!
//! The bridge opens a comm for the `"lsp"` target with a fresh id, reads iopub
//! messages until the kernel's `server_started` message for that comm carries
//! the port, and connects to `127.0.0.1:<port>`. This module decides what to
//! send, what each iopub message means, and where to connect; the socket work
//! happens outside it.

use vstd::prelude::*;
use crate::json::flat_object_view;
use crate::json::is_flat_object;
use crate::json::JsonScalar;
use crate::json::JsonValue;
use crate::json::json_as_str;
use crate::json::json_as_u64;
use crate::json::json_get;
use crate::json::json_index;

verus! {

/// An iopub message from the kernel, as far as the bridge reads it.
pub enum IopubMessage {
    /// A `comm_msg` for the comm `comm_id`, carrying `data`.
    CommMsg { comm_id: String, data: JsonValue },
    /// Any other message (status updates and the like).
    Other,
}

/// Why the LSP server could not be reached.
#[derive(Clone, Copy, Debug, PartialEq, Eq, Structural)]
pub enum ServerStartError {
    /// The kernel's `server_started` message has no integer port.
    MissingPort,
    /// The deadline passed before the kernel reported the port.
    TimedOut,
    /// The iopub stream closed before the kernel reported the port.
    IopubClosed,
}

/// The description of each error; `timeout` is the printed form of how long
/// the wait for the port lasted.
pub open spec fn server_start_error_text(err: ServerStartError, timeout: Seq<char>) -> Seq<char> {
    match err {
        ServerStartError::MissingPort => "`server_started` message from the kernel is missing the port"@,
        ServerStartError::TimedOut => "Timed out after "@ + timeout
            + " waiting for the LSP server to start"@,
        ServerStartError::IopubClosed => "The kernel iopub stream closed before the LSP server started"@,
    }
}

impl ServerStartError {
    /// The human-readable description of the error, given the printed form
    /// of the wait's timeout (which only the timed-out error mentions).
    pub fn message(&self, timeout: &str) -> (msg: String)
        ensures
            msg@ == server_start_error_text(*self, timeout@),
    {
        match self {
            ServerStartError::MissingPort => String::from_str(
                "`server_started` message from the kernel is missing the port",
            ),
            ServerStartError::TimedOut => {
                let mut msg = String::from_str("Timed out after ");
                msg.append(timeout);
                msg.append(" waiting for the LSP server to start");
                msg
            },
            ServerStartError::IopubClosed => String::from_str(
                "The kernel iopub stream closed before the LSP server started",
            ),
        }
    }
}

/// Whether `data` names the `server_started` method.
pub open spec fn names_server_started(data: JsonValue) -> bool {
    match json_get(data, "method"@) {
        Some(method) => json_as_str(method) == Some("server_started"@),
        None => false,
    }
}

/// Whether `message` is the comm `comm_id`'s `server_started` message.
pub open spec fn is_server_started_message(message: IopubMessage, comm_id: Seq<char>) -> bool {
    match message {
        IopubMessage::CommMsg { comm_id: id, data } => id@ == comm_id && names_server_started(data),
        IopubMessage::Other => false,
    }
}

/// What `message` says about the LSP server of the comm `comm_id`: the port
/// of its `server_started` message (truncated to 16 bits, as the port is
/// taken), nothing for any other traffic, and an error only for a
/// `server_started` message without an integer port.
pub open spec fn server_started_port_spec(message: IopubMessage, comm_id: Seq<char>) -> Result<Option<u16>, ServerStartError> {
    match message {
        IopubMessage::CommMsg { comm_id: id, data } => {
            if id@ != comm_id {
                Ok(None)
            } else if !names_server_started(data) {
                Ok(None)
            } else {
                match json_as_u64(json_index(json_index(data, "params"@), "port"@)) {
                    Some(port) => Ok(Some(port as u16)),
                    None => Err(ServerStartError::MissingPort),
                }
            }
        },
        IopubMessage::Other => Ok(None),
    }
}

/// Extract the LSP port from our comm's `server_started` message.
///
/// Returns `Ok(None)` for the surrounding status messages and any other
/// traffic, and an error only for a malformed `server_started` message.
pub fn server_started_port(message: &IopubMessage, comm_id: &str) -> (result: Result<Option<u16>, ServerStartError>)
    ensures
        result == server_started_port_spec(*message, comm_id@),
{
    match message {
        IopubMessage::CommMsg { comm_id: id, data } => {
            let ours = String::from_str(comm_id);
            if *id != ours {
                return Ok(None);
            }
            let is_server_started = match data.get("method") {
                Some(method) => match method.as_str() {
                    Some(name) => {
                        let name = String::from_str(name);
                        let expected = String::from_str("server_started");
                        name == expected
                    },
                    None => false,
                },
                None => false,
            };
            if !is_server_started {
                return Ok(None);
            }
            let params = match data.get("params") {
                Some(params) => params,
                None => &JsonValue::Null,
            };
            let port = match params.get("port") {
                Some(port) => port.as_u64(),
                None => None,
            };
            match port {
                Some(port) => Ok(Some(port as u16)),
                None => Err(ServerStartError::MissingPort),
            }
        },
        IopubMessage::Other => Ok(None),
    }
}

/// What one round of waiting for the `server_started` message observed.
pub enum IopubEvent {
    /// The deadline has passed.
    DeadlineReached,
    /// No message arrived before the remaining time ran out.
    RecvTimedOut,
    /// The iopub stream closed.
    Disconnected,
    /// A message arrived.
    Received(IopubMessage),
}

/// What the wait does after a round.
#[derive(Clone, Copy, Debug, PartialEq, Eq, Structural)]
pub enum WaitStep {
    /// Wait for the next message.
    KeepWaiting,
    /// The LSP server listens on this port.
    Started(u16),
    /// Give up with this error.
    Failed(ServerStartError),
}

/// The decision after one round of waiting for the comm `comm_id`'s
/// `server_started` message.
pub open spec fn wait_step_spec(event: IopubEvent, comm_id: Seq<char>) -> WaitStep {
    match event {
        IopubEvent::DeadlineReached => WaitStep::Failed(ServerStartError::TimedOut),
        IopubEvent::RecvTimedOut => WaitStep::KeepWaiting,
        IopubEvent::Disconnected => WaitStep::Failed(ServerStartError::IopubClosed),
        IopubEvent::Received(message) => match server_started_port_spec(message, comm_id) {
            Ok(Some(port)) => WaitStep::Started(port),
            Ok(None) => WaitStep::KeepWaiting,
            Err(err) => WaitStep::Failed(err),
        },
    }
}

/// Decide, after one round of reading iopub messages, whether the LSP server
/// of the comm `comm_id` has started, whether to keep waiting, or whether to
/// give up.
pub fn server_started_step(event: IopubEvent, comm_id: &str) -> (step: WaitStep)
    ensures
        step == wait_step_spec(event, comm_id@),
{
    match event {
        IopubEvent::DeadlineReached => WaitStep::Failed(ServerStartError::TimedOut),
        IopubEvent::RecvTimedOut => WaitStep::KeepWaiting,
        IopubEvent::Disconnected => WaitStep::Failed(ServerStartError::IopubClosed),
        IopubEvent::Received(message) => match server_started_port(&message, comm_id) {
            Ok(Some(port)) => WaitStep::Started(port),
            Ok(None) => WaitStep::KeepWaiting,
            Err(err) => WaitStep::Failed(err),
        },
    }
}

/// Law: traffic that is not our comm's `server_started` message never ends
/// the wait: status messages, other comms' messages and our comm's other
/// messages are all skipped.
pub proof fn lemma_other_traffic_keeps_waiting(message: IopubMessage, comm_id: Seq<char>)
    requires
        !is_server_started_message(message, comm_id),
    ensures
        wait_step_spec(IopubEvent::Received(message), comm_id) == WaitStep::KeepWaiting,
{
}

/// Law: once our comm's `server_started` message carries an integer port,
/// the wait ends with that port (truncated to 16 bits); without one it fails.
pub proof fn lemma_server_started_ends_wait(id: String, data: JsonValue)
    requires
        names_server_started(data),
    ensures
        wait_step_spec(IopubEvent::Received(IopubMessage::CommMsg { comm_id: id, data }), id@)
            == match json_as_u64(json_index(json_index(data, "params"@), "port"@)) {
            Some(port) => WaitStep::Started(port as u16),
            None => WaitStep::Failed(ServerStartError::MissingPort),
        },
{
}

/// The `comm_open` request that starts ark's LSP server.
pub struct CommOpenRequest {
    /// The id of the comm to open.
    pub comm_id: String,
    /// The comm target the kernel registers its LSP server under.
    pub target_name: String,
    /// The request's data: the loopback address the kernel binds the LSP
    /// server to, as the `ip_address` member of an object.
    pub data: JsonValue,
}

/// The data of the LSP `comm_open` request: `{"ip_address": "127.0.0.1"}`.
pub open spec fn lsp_comm_data(data: JsonValue) -> bool {
    &&& data matches JsonValue::Object(members)
    &&& is_flat_object(members@)
    &&& flat_object_view(members@) == seq![("ip_address"@, JsonScalar::Str("127.0.0.1"@))]
}

/// Build the `comm_open` request for the `"lsp"` target with the comm id
/// `comm_id` (a fresh one, drawn by the caller) and the loopback address as
/// its data.
pub fn lsp_comm_open(comm_id: String) -> (request: CommOpenRequest)
    ensures
        request.comm_id == comm_id,
        request.target_name@ == "lsp"@,
        lsp_comm_data(request.data),
{
    let mut members: Vec<(String, JsonValue)> = Vec::new();
    members.push((String::from_str("ip_address"), JsonValue::String(String::from_str("127.0.0.1"))));
    assert(is_flat_object(members@));
    assert(flat_object_view(members@) =~= seq![("ip_address"@, JsonScalar::Str("127.0.0.1"@))]);
    CommOpenRequest {
        comm_id,
        target_name: String::from_str("lsp"),
        data: JsonValue::Object(members),
    }
}

/// The decimal digit `d`, for `d < 10`.
pub open spec fn digit_char(d: nat) -> char {
    (48 + d) as char
}

/// The decimal text of `n`, without leading zeros.
pub open spec fn decimal_text(n: nat) -> Seq<char>
    decreases n,
{
    if n < 10 {
        seq![digit_char(n)]
    } else {
        decimal_text(n / 10) + seq![digit_char(n % 10)]
    }
}

/// The one-character text of the decimal digit `d`.
fn digit_text(d: u16) -> (text: &'static str)
    requires
        d < 10,
    ensures
        text@ == seq![digit_char(d as nat)],
{
    proof {
        reveal_strlit("0");
        reveal_strlit("1");
        reveal_strlit("2");
        reveal_strlit("3");
        reveal_strlit("4");
        reveal_strlit("5");
        reveal_strlit("6");
        reveal_strlit("7");
        reveal_strlit("8");
        reveal_strlit("9");
    }
    if d == 0 {
        "0"
    } else if d == 1 {
        "1"
    } else if d == 2 {
        "2"
    } else if d == 3 {
        "3"
    } else if d == 4 {
        "4"
    } else if d == 5 {
        "5"
    } else if d == 6 {
        "6"
    } else if d == 7 {
        "7"
    } else if d == 8 {
        "8"
    } else {
        "9"
    }
}

/// The decimal text of `n`, without leading zeros.
fn decimal(n: u16) -> (text: String)
    ensures
        text@ == decimal_text(n as nat),
    decreases n,
{
    if n < 10 {
        String::from_str(digit_text(n))
    } else {
        let mut text = decimal(n / 10);
        text.append(digit_text(n % 10));
        text
    }
}

/// The address of the LSP server that listens on `port`: `127.0.0.1:<port>`.
pub fn lsp_address(port: u16) -> (address: String)
    ensures
        address@ == "127.0.0.1:"@ + decimal_text(port as nat),
{
    let mut address = String::from_str("127.0.0.1:");
    let digits = decimal(port);
    address.append(digits.as_str());
    address
}

/// The number that the decimal digits `s` spell.
pub open spec fn decimal_value(s: Seq<char>) -> int
    decreases s.len(),
{
    if s.len() == 0 {
        0
    } else {
        decimal_value(s.drop_last()) * 10 + (s.last() as int - 48)
    }
}

/// Law: the port is written in ordinary decimal. Its text is non-empty, has
/// no leading zero unless it is `0`, consists of the characters `0` to `9`
/// only, and read back in base ten gives the number itself.
pub proof fn lemma_decimal_text_reads_back(n: nat)
    ensures
        decimal_text(n).len() > 0,
        forall|i: int|
            0 <= i < decimal_text(n).len() ==> '0' <= #[trigger] decimal_text(n)[i] && decimal_text(
                n,
            )[i] <= '9',
        n > 0 ==> decimal_text(n)[0] != '0',
        decimal_value(decimal_text(n)) == n,
    decreases n,
{
    if n < 10 {
        assert(decimal_text(n) == seq![digit_char(n)]);
        assert(decimal_text(n).drop_last() =~= Seq::<char>::empty());
        assert(digit_char(n) as int == 48 + n);
        assert(decimal_value(decimal_text(n)) == decimal_value(Seq::<char>::empty()) * 10 + (
        digit_char(n) as int - 48));
    } else {
        lemma_decimal_text_reads_back(n / 10);
        let front = decimal_text(n / 10);
        let d = digit_char(n % 10);
        assert(decimal_text(n) == front + seq![d]);
        assert((front + seq![d]).drop_last() =~= front);
        assert(d as int == 48 + n % 10);
        assert((n / 10) * 10 + n % 10 == n) by (nonlinear_arith);
        assert(decimal_value(front + seq![d]) == decimal_value(front) * 10 + (d as int - 48));
        assert(decimal_value(front) * 10 == (n / 10) * 10);
        assert forall|i: int| 0 <= i < decimal_text(n).len() implies '0' <= #[trigger] decimal_text(
            n,
        )[i] && decimal_text(n)[i] <= '9' by {
            if i < front.len() {
                assert(decimal_text(n)[i] == front[i]);
            }
        }
        assert(decimal_text(n)[0] == front[0]);
    }
}

/// Law: the address to connect to is `127.0.0.1:` followed by the port's
/// decimal text, which reads back as the port.
pub proof fn lemma_lsp_address_reads_back(port: u16, address: Seq<char>)
    requires
        address == "127.0.0.1:"@ + decimal_text(port as nat),
    ensures
        address.skip("127.0.0.1:"@.len() as int) == decimal_text(port as nat),
        decimal_value(address.skip("127.0.0.1:"@.len() as int)) == port,
{
    lemma_decimal_text_reads_back(port as nat);
    assert(address.skip("127.0.0.1:"@.len() as int) =~= decimal_text(port as nat));
}

} // verus!
