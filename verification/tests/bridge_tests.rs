//! Stdio framing: line classification, the JSON-RPC error reply, and the
//! message-log records.

use authful_mcp_proxy_ng::bridge::{
    classify_line, jsonrpc_error_reply, log_record, LineAction, LogDirection,
};

#[test]
fn test_invalid_json_line_draws_warning() {
    // The malformed line is not forwarded and not answered.
    assert!(matches!(classify_line("{not json\n"), LineAction::Warn));
    // The next well-formed line is processed normally.
    match classify_line("{\"jsonrpc\":\"2.0\",\"id\":1}\n") {
        LineAction::Forward(body) => assert_eq!(body, "{\"jsonrpc\":\"2.0\",\"id\":1}"),
        _ => panic!("a well-formed line must be forwarded"),
    }
}

#[test]
fn test_empty_lines_skipped() {
    assert!(matches!(classify_line("\n"), LineAction::Skip));
    assert!(matches!(classify_line(""), LineAction::Skip));
    assert!(matches!(classify_line("\r\n"), LineAction::Skip));
}

#[test]
fn test_line_ending_stripped_exactly_once() {
    match classify_line("42\r\n") {
        LineAction::Forward(body) => assert_eq!(body, "42"),
        _ => panic!("a bare JSON number is a JSON document"),
    }
}

#[test]
fn test_jsonrpc_error_reply_shape() {
    assert_eq!(
        jsonrpc_error_reply("Proxy error", "connection refused"),
        "{\"jsonrpc\":\"2.0\",\"error\":{\"code\":-32603,\"message\":\"Proxy error: connection refused\"},\"id\":null}"
    );
}

#[test]
fn test_jsonrpc_error_reply_escapes_message() {
    let reply = jsonrpc_error_reply("Backend error", "a \"quoted\" \\ thing\nnext");
    // The reply itself must stay one well-formed JSON document.
    let v: serde_json::Value = serde_json::from_str(&reply).unwrap();
    assert_eq!(v["error"]["code"], -32603);
    assert_eq!(v["error"]["message"], "Backend error: a \"quoted\" \\ thing\nnext");
    assert!(v["id"].is_null());
    assert!(!reply.contains('\n'));
}

#[test]
fn test_log_record_format() {
    assert_eq!(
        log_record(LogDirection::ClientToProxy, 12, 7, "hello"),
        "[12.007] CLIENT → PROXY: hello\n"
    );
    assert_eq!(
        log_record(LogDirection::BackendToProxy, 1700000000, 42, "x"),
        "[1700000000.042] BACKEND → PROXY: x\n"
    );
    assert_eq!(
        log_record(LogDirection::ProxyToClient, 3, 999, "y"),
        "[3.999] PROXY → CLIENT: y\n"
    );
}
