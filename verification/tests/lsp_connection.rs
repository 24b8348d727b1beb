use ark::lsp_connection::lsp_address;
use ark::lsp_connection::lsp_comm_open;
use ark::lsp_connection::server_started_port;
use ark::lsp_connection::server_started_step;
use ark::json::JsonNumber;
use ark::json::JsonValue;
use ark::lsp_connection::IopubEvent;
use ark::lsp_connection::IopubMessage;
use ark::lsp_connection::ServerStartError;
use ark::lsp_connection::WaitStep;

fn object(entries: Vec<(&str, JsonValue)>) -> JsonValue {
    JsonValue::Object(entries.into_iter().map(|(k, v)| (k.to_string(), v)).collect())
}

fn text(s: &str) -> JsonValue {
    JsonValue::String(s.to_string())
}

fn server_started(comm_id: &str, port: JsonValue) -> IopubMessage {
    IopubMessage::CommMsg {
        comm_id: comm_id.to_string(),
        data: object(vec![
            ("method", text("server_started")),
            ("params", object(vec![("port", port)])),
        ]),
    }
}

#[test]
fn server_started_carries_port() {
    let message = server_started("abc", JsonValue::Number(JsonNumber::PosInt(41234)));
    assert_eq!(server_started_port(&message, "abc"), Ok(Some(41234)));
}

#[test]
fn server_started_port_is_truncated_to_u16() {
    let message = server_started("abc", JsonValue::Number(JsonNumber::PosInt(65536 + 80)));
    assert_eq!(server_started_port(&message, "abc"), Ok(Some(80)));
}

#[test]
fn other_comm_is_ignored() {
    let message = server_started("other", JsonValue::Number(JsonNumber::PosInt(41234)));
    assert_eq!(server_started_port(&message, "abc"), Ok(None));
}

#[test]
fn status_message_is_ignored() {
    assert_eq!(server_started_port(&IopubMessage::Other, "abc"), Ok(None));
}

#[test]
fn other_method_is_ignored() {
    let message = IopubMessage::CommMsg {
        comm_id: "abc".to_string(),
        data: object(vec![("method", text("something_else"))]),
    };
    assert_eq!(server_started_port(&message, "abc"), Ok(None));
}

#[test]
fn non_string_method_is_ignored() {
    let message = IopubMessage::CommMsg {
        comm_id: "abc".to_string(),
        data: object(vec![("method", JsonValue::Bool(true))]),
    };
    assert_eq!(server_started_port(&message, "abc"), Ok(None));
}

#[test]
fn missing_port_is_an_error() {
    let message = IopubMessage::CommMsg {
        comm_id: "abc".to_string(),
        data: object(vec![("method", text("server_started"))]),
    };
    assert_eq!(server_started_port(&message, "abc"), Err(ServerStartError::MissingPort));
}

#[test]
fn negative_or_float_port_is_an_error() {
    let negative = server_started("abc", JsonValue::Number(JsonNumber::NegInt(-1)));
    assert_eq!(server_started_port(&negative, "abc"), Err(ServerStartError::MissingPort));
    let float = server_started("abc", JsonValue::Number(JsonNumber::Float));
    assert_eq!(server_started_port(&float, "abc"), Err(ServerStartError::MissingPort));
    let string = server_started("abc", text("8080"));
    assert_eq!(server_started_port(&string, "abc"), Err(ServerStartError::MissingPort));
}

#[test]
fn params_not_an_object_is_an_error() {
    let message = IopubMessage::CommMsg {
        comm_id: "abc".to_string(),
        data: object(vec![("method", text("server_started")), ("params", JsonValue::Null)]),
    };
    assert_eq!(server_started_port(&message, "abc"), Err(ServerStartError::MissingPort));
}

#[test]
fn wait_steps() {
    assert_eq!(
        server_started_step(IopubEvent::DeadlineReached, "abc"),
        WaitStep::Failed(ServerStartError::TimedOut)
    );
    assert_eq!(server_started_step(IopubEvent::RecvTimedOut, "abc"), WaitStep::KeepWaiting);
    assert_eq!(
        server_started_step(IopubEvent::Disconnected, "abc"),
        WaitStep::Failed(ServerStartError::IopubClosed)
    );
    assert_eq!(
        server_started_step(IopubEvent::Received(IopubMessage::Other), "abc"),
        WaitStep::KeepWaiting
    );
    let message = server_started("abc", JsonValue::Number(JsonNumber::PosInt(5000)));
    assert_eq!(server_started_step(IopubEvent::Received(message), "abc"), WaitStep::Started(5000));
}

#[test]
fn error_messages() {
    assert_eq!(
        ServerStartError::MissingPort.message("30s"),
        "`server_started` message from the kernel is missing the port"
    );
    assert_eq!(
        ServerStartError::IopubClosed.message("30s"),
        "The kernel iopub stream closed before the LSP server started"
    );
    assert_eq!(
        ServerStartError::TimedOut.message("30s"),
        "Timed out after 30s waiting for the LSP server to start"
    );
}

#[test]
fn json_get_finds_members() {
    let value = object(vec![("a", text("x")), ("b", JsonValue::Number(JsonNumber::PosInt(3)))]);
    assert_eq!(value.get("b").and_then(|v| v.as_u64()), Some(3));
    assert_eq!(value.get("a").and_then(|v| v.as_str()), Some("x"));
    assert!(value.get("c").is_none());
    assert!(JsonValue::Array(vec![]).get("a").is_none());
}

#[test]
fn comm_open_targets_lsp_on_loopback() {
    let request = lsp_comm_open("67e55044-10b1-426f-9247-bb680e5fe0c8".to_string());
    assert_eq!(request.comm_id, "67e55044-10b1-426f-9247-bb680e5fe0c8");
    assert_eq!(request.target_name, "lsp");
    match &request.data {
        JsonValue::Object(members) => {
            assert_eq!(members.len(), 1);
            assert_eq!(members[0].0, "ip_address");
            assert!(matches!(&members[0].1, JsonValue::String(ip) if ip == "127.0.0.1"));
        },
        _ => panic!("expected an object"),
    }
    assert_eq!(request.data.get("ip_address").and_then(|v| v.as_str()), Some("127.0.0.1"));
}

#[test]
fn lsp_address_formats_port() {
    assert_eq!(lsp_address(8080), "127.0.0.1:8080");
    assert_eq!(lsp_address(0), "127.0.0.1:0");
    assert_eq!(lsp_address(65535), "127.0.0.1:65535");
    assert_eq!(lsp_address(9), "127.0.0.1:9");
    assert_eq!(lsp_address(10), "127.0.0.1:10");
    assert_eq!(lsp_address(40100), "127.0.0.1:40100");
}
