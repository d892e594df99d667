//! The wire codec seen from outside: round trips, the canonical line
//! shapes, compatibility with a general JSON reader, and rejection of
//! malformed lines.

use voice_input::ipc::IpcCmd;
use voice_input::ipc::IpcResp;
use voice_input::ipc::encode_cmd;
use voice_input::ipc::encode_resp;
use voice_input::ipc::parse_cmd;
use voice_input::ipc::parse_resp;

#[test]
fn roundtrip_start_paste_false_direct_input_true() {
    let cmd = IpcCmd::Start { paste: false, prompt: None, direct_input: true };
    let line = encode_cmd(&cmd);
    let back = parse_cmd(&line).expect("canonical line must parse");
    match back {
        IpcCmd::Start { paste, prompt, direct_input } => {
            assert_eq!(paste, false);
            assert_eq!(prompt, None);
            assert_eq!(direct_input, true);
        }
        _ => panic!("wrong variant"),
    }
}

#[test]
fn start_encodes_to_canonical_json() {
    let cmd = IpcCmd::Start { paste: false, prompt: None, direct_input: true };
    let line = encode_cmd(&cmd);
    assert_eq!(
        line,
        "{\"Start\":{\"paste\":false,\"prompt\":null,\"direct_input\":true}}"
    );
}

#[test]
fn bare_commands_encode_and_parse() {
    for (cmd, expected) in [
        (IpcCmd::Stop, "\"Stop\""),
        (IpcCmd::Status, "\"Status\""),
        (IpcCmd::ListDevices, "\"ListDevices\""),
        (IpcCmd::Health, "\"Health\""),
    ] {
        let line = encode_cmd(&cmd);
        assert_eq!(line, expected);
        let back = parse_cmd(&line).expect("bare command must parse");
        assert_eq!(encode_cmd(&back), expected);
    }
}

#[test]
fn roundtrip_toggle_with_prompt_and_escapes() {
    let prompt = "say \"hi\",\nthen\ttab \\ and \u{1} control; unicode: 日本語 🎉";
    let cmd = IpcCmd::Toggle {
        paste: true,
        prompt: Some(prompt.to_string()),
        direct_input: false,
    };
    let line = encode_cmd(&cmd);
    let back = parse_cmd(&line).expect("canonical line must parse");
    match back {
        IpcCmd::Toggle { paste, prompt: p, direct_input } => {
            assert_eq!(paste, true);
            assert_eq!(p.as_deref(), Some(prompt));
            assert_eq!(direct_input, false);
        }
        _ => panic!("wrong variant"),
    }
}

#[test]
fn encoding_agrees_with_a_general_json_reader() {
    let cmd = IpcCmd::Start {
        paste: true,
        prompt: Some("quote \" backslash \\ newline \n".to_string()),
        direct_input: false,
    };
    let line = encode_cmd(&cmd);
    let v: serde_json::Value = serde_json::from_str(&line).expect("valid JSON");
    assert_eq!(v["Start"]["paste"], serde_json::Value::Bool(true));
    assert_eq!(
        v["Start"]["prompt"],
        serde_json::Value::String("quote \" backslash \\ newline \n".to_string())
    );
    assert_eq!(v["Start"]["direct_input"], serde_json::Value::Bool(false));
}

#[test]
fn parser_accepts_a_line_a_derive_based_peer_would_send() {
    let line = "{\"Toggle\":{\"paste\":true,\"prompt\":\"hello\",\"direct_input\":false}}";
    let cmd = parse_cmd(line).expect("peer line must parse");
    match cmd {
        IpcCmd::Toggle { paste, prompt, direct_input } => {
            assert!(paste);
            assert_eq!(prompt.as_deref(), Some("hello"));
            assert!(!direct_input);
        }
        _ => panic!("wrong variant"),
    }
}

#[test]
fn command_parser_rejects_malformed_lines() {
    for line in [
        "",
        "Stop",
        "\"stop\"",
        "\"Stop\" ",
        "{\"Start\":{}}",
        "{\"Start\":{\"paste\":false,\"prompt\":null,\"direct_input\":true}",
        "{\"Start\":{\"paste\":maybe,\"prompt\":null,\"direct_input\":true}}",
        "{\"Begin\":{\"paste\":false,\"prompt\":null,\"direct_input\":true}}",
        "{\"Start\":{\"paste\":false,\"prompt\":\"unterminated,\"direct_input\":true}}",
    ] {
        assert!(parse_cmd(line).is_none(), "must reject: {line}");
    }
}

#[test]
fn roundtrip_response() {
    let resp = IpcResp { ok: false, msg: "daemon said \"no\"\n".to_string() };
    let line = encode_resp(&resp);
    let back = parse_resp(&line).expect("canonical line must parse");
    assert_eq!(back.ok, false);
    assert_eq!(back.msg, "daemon said \"no\"\n");
}

#[test]
fn response_encodes_to_canonical_json() {
    let resp = IpcResp { ok: true, msg: "Idle".to_string() };
    assert_eq!(encode_resp(&resp), "{\"ok\":true,\"msg\":\"Idle\"}");
    let v: serde_json::Value = serde_json::from_str(&encode_resp(&resp)).expect("valid JSON");
    assert_eq!(v["ok"], serde_json::Value::Bool(true));
    assert_eq!(v["msg"], serde_json::Value::String("Idle".to_string()));
}

#[test]
fn response_parser_rejects_malformed_lines() {
    for line in ["", "{}", "{\"ok\":true}", "{\"ok\":1,\"msg\":\"x\"}", "{\"ok\":true,\"msg\":\"x\"} "] {
        assert!(parse_resp(line).is_none(), "must reject: {line}");
    }
}
