use wsipc::interp::{check_command_reply, parse_outputs, parse_workspaces};
use wsipc::IpcError;

#[test]
fn parses_output_listing() {
    let payload: Vec<u8> =
        br#"[{"name":"eDP-1","focused":true},{"name":"HDMI-1","focused":false}]"#.to_vec();
    let outputs = parse_outputs(&payload).unwrap();
    assert_eq!(outputs.len(), 2);
    assert_eq!(outputs[0].name, "eDP-1");
    assert!(outputs[0].focused);
    assert_eq!(outputs[1].name, "HDMI-1");
    assert!(!outputs[1].focused);
}

#[test]
fn parses_outputs_with_extra_fields() {
    let payload: Vec<u8> =
        br#"[{"name":"eDP-1","rect":{"x":0,"y":0},"scale":1.5,"focused":true}]"#.to_vec();
    let outputs = parse_outputs(&payload).unwrap();
    assert_eq!(outputs.len(), 1);
    assert_eq!(outputs[0].name, "eDP-1");
}

#[test]
fn parses_empty_output_listing() {
    let payload: Vec<u8> = b"[]".to_vec();
    let outputs = parse_outputs(&payload).unwrap();
    assert_eq!(outputs.len(), 0);
}

#[test]
fn rejects_invalid_utf8_payload() {
    let payload: Vec<u8> = vec![0xFF, 0xFE, 0x80];
    assert_eq!(parse_outputs(&payload).unwrap_err(), IpcError::EncodingError);
}

#[test]
fn rejects_text_that_is_not_json() {
    let payload: Vec<u8> = b"not json at all".to_vec();
    assert_eq!(parse_outputs(&payload).unwrap_err(), IpcError::SchemaError);
}

#[test]
fn rejects_non_listing_payload() {
    let payload: Vec<u8> = br#"{"name":"eDP-1","focused":true}"#.to_vec();
    assert_eq!(parse_outputs(&payload).unwrap_err(), IpcError::SchemaError);
}

#[test]
fn rejects_output_missing_focused() {
    let payload: Vec<u8> = br#"[{"name":"eDP-1"}]"#.to_vec();
    assert_eq!(parse_outputs(&payload).unwrap_err(), IpcError::SchemaError);
}

#[test]
fn rejects_output_with_mistyped_name() {
    let payload: Vec<u8> = br#"[{"name":7,"focused":true}]"#.to_vec();
    assert_eq!(parse_outputs(&payload).unwrap_err(), IpcError::SchemaError);
}

#[test]
fn parses_workspace_listing() {
    let payload: Vec<u8> = br#"[
        {"name":"1","output":"eDP-1","visible":true,"focused":true},
        {"name":"mail","output":"HDMI-1","visible":false,"focused":false}
    ]"#
    .to_vec();
    let workspaces = parse_workspaces(&payload).unwrap();
    assert_eq!(workspaces.len(), 2);
    assert_eq!(workspaces[0].name, "1");
    assert_eq!(workspaces[0].output, "eDP-1");
    assert!(workspaces[0].visible);
    assert!(workspaces[0].focused);
    assert_eq!(workspaces[1].name, "mail");
    assert!(!workspaces[1].visible);
}

#[test]
fn rejects_workspace_missing_output() {
    let payload: Vec<u8> = br#"[{"name":"1","visible":true,"focused":true}]"#.to_vec();
    assert_eq!(parse_workspaces(&payload).unwrap_err(), IpcError::SchemaError);
}

#[test]
fn rejects_workspace_with_mistyped_visible() {
    let payload: Vec<u8> =
        br#"[{"name":"1","output":"eDP-1","visible":"yes","focused":true}]"#.to_vec();
    assert_eq!(parse_workspaces(&payload).unwrap_err(), IpcError::SchemaError);
}

#[test]
fn accepts_successful_command_reply() {
    let payload: Vec<u8> = br#"[{"success": true}]"#.to_vec();
    assert!(check_command_reply(&payload).is_ok());
}

#[test]
fn fails_on_success_false() {
    let payload: Vec<u8> = br#"[{"success": false}]"#.to_vec();
    assert_eq!(check_command_reply(&payload).unwrap_err(), IpcError::CommandFailed);
}

#[test]
fn fails_on_success_absent() {
    let payload: Vec<u8> = br#"[{"error": "nope"}]"#.to_vec();
    assert_eq!(check_command_reply(&payload).unwrap_err(), IpcError::CommandFailed);
}

#[test]
fn fails_on_success_not_boolean() {
    let payload: Vec<u8> = br#"[{"success": "true"}]"#.to_vec();
    assert_eq!(check_command_reply(&payload).unwrap_err(), IpcError::CommandFailed);
}

#[test]
fn fails_on_empty_envelope() {
    let payload: Vec<u8> = b"[]".to_vec();
    assert_eq!(check_command_reply(&payload).unwrap_err(), IpcError::CommandFailed);
}

#[test]
fn fails_on_envelope_that_is_no_listing() {
    let payload: Vec<u8> = br#"{"success": true}"#.to_vec();
    assert_eq!(check_command_reply(&payload).unwrap_err(), IpcError::CommandFailed);
}

#[test]
fn fails_on_envelope_that_is_not_json() {
    let payload: Vec<u8> = b"ok".to_vec();
    assert_eq!(check_command_reply(&payload).unwrap_err(), IpcError::SchemaError);
}

#[test]
fn inspects_only_the_first_envelope_entry() {
    let payload: Vec<u8> = br#"[{"success": true}, {"success": false}]"#.to_vec();
    assert!(check_command_reply(&payload).is_ok());
}
