//! Requests between processes.

use project_launcher::ipc::{
    encode, forward_outcome, forward_run_profile, payload_text, ForwardOutcome, IpcError,
    IpcRequest, FORWARD_TIMEOUT_MS, IPC_MAGIC, MAX_IPC_BYTES,
};
use serde_json::Value;

/// Reads a request from its JSON document.
fn read_request(json: &str) -> Result<IpcRequest, String> {
    let value: Value = serde_json::from_str(json).map_err(|e| e.to_string())?;
    let object = value.as_object().ok_or("not an object")?;
    if object.get("type").and_then(|v| v.as_str()) != Some("run_profile") {
        return Err("unknown variant".to_string());
    }
    if object.len() != 2 {
        return Err("unknown field".to_string());
    }
    match object.get("profile").and_then(|v| v.as_str()) {
        Some(profile) => Ok(IpcRequest::RunProfile { profile: profile.to_string() }),
        None => Err("missing field `profile`".to_string()),
    }
}

fn decode(dw_data: usize, data: &[u16]) -> Result<IpcRequest, IpcError> {
    project_launcher::ipc::decode(dw_data, data, read_request)
}

fn decode_encoded(request: &IpcRequest) -> Result<IpcRequest, IpcError> {
    let payload = encode(request).unwrap();
    decode(IPC_MAGIC, &payload)
}

#[test]
fn run_profile_roundtrip() {
    let req = decode_encoded(&IpcRequest::RunProfile {
        profile: "{11111111-2222-3333-4444-555555555555}".to_string(),
    })
    .unwrap();
    match req {
        IpcRequest::RunProfile { profile } => {
            assert_eq!(profile, "{11111111-2222-3333-4444-555555555555}");
        }
    }
}

#[test]
fn rejects_wrong_magic() {
    let payload = encode(&IpcRequest::RunProfile {
        profile: "x".to_string(),
    })
    .unwrap();
    let err = decode(0xDEAD, &payload).unwrap_err();
    assert!(matches!(err, IpcError::BadMagic(0xDEAD)));
}

#[test]
fn rejects_empty_payload() {
    let err = decode(IPC_MAGIC, &[]).unwrap_err();
    assert!(matches!(err, IpcError::MalformedPayload));
}

/// A lone NUL is no content either.
#[test]
fn rejects_a_payload_without_content() {
    let err = decode(IPC_MAGIC, &[0]).unwrap_err();
    assert!(matches!(err, IpcError::MalformedPayload));
    // Only one NUL is stripped.
    assert!(matches!(decode(IPC_MAGIC, &[0, 0]).unwrap_err(), IpcError::BadJson(_)));
}

#[test]
fn rejects_oversized_payload() {
    let big = vec![0u16; (MAX_IPC_BYTES as usize / 2) + 1];
    let err = decode(IPC_MAGIC, &big).unwrap_err();
    assert!(matches!(err, IpcError::Oversized(_)));
}

#[test]
fn rejects_invalid_utf16() {
    // Lone surrogate: not representable as UTF-16 text.
    let err = decode(IPC_MAGIC, &[0xD800, 0]).unwrap_err();
    assert!(matches!(err, IpcError::NotUtf16));
}

#[test]
fn rejects_bad_json_and_unknown_fields() {
    let not_json = to_wide_lossy("{ not json");
    assert!(matches!(
        decode(IPC_MAGIC, &not_json).unwrap_err(),
        IpcError::BadJson(_)
    ));

    let extra = to_wide_lossy(r#"{"type":"run_profile","profile":"x","extra":1}"#);
    assert!(matches!(
        decode(IPC_MAGIC, &extra).unwrap_err(),
        IpcError::BadJson(_)
    ));

    let unknown = to_wide_lossy(r#"{"type":"quit"}"#);
    assert!(matches!(
        decode(IPC_MAGIC, &unknown).unwrap_err(),
        IpcError::BadJson(_)
    ));
}

/// A sender that omits the trailing NUL still decodes.
#[test]
fn accepts_payload_without_trailing_nul() {
    let payload = encode(&IpcRequest::RunProfile {
        profile: "x".to_string(),
    })
    .unwrap();
    let stripped = &payload[..payload.len() - 1];
    assert!(decode(IPC_MAGIC, stripped).is_ok());
}

fn to_wide_lossy(s: &str) -> Vec<u16> {
    s.encode_utf16().collect()
}

fn request(profile: &str) -> IpcRequest {
    IpcRequest::RunProfile { profile: profile.to_string() }
}

#[test]
fn payloads_are_the_documented_json() {
    let text = |profile: &str| payload_text(IPC_MAGIC, &encode(&request(profile)).unwrap()).unwrap();
    assert_eq!(
        text("{11111111-2222-3333-4444-555555555555}"),
        "{\"type\":\"run_profile\",\"profile\":\"{11111111-2222-3333-4444-555555555555}\"}"
    );
    assert_eq!(
        text("a\"b\\c\n\u{1}\u{1f}\u{7f}\u{8}\u{c}\r\t/é😀"),
        "{\"type\":\"run_profile\",\"profile\":\"a\\\"b\\\\c\\n\\u0001\\u001f\u{7f}\\b\\f\\r\\t/é😀\"}"
    );
    assert_eq!(*encode(&request("x")).unwrap().last().unwrap(), 0);
}

#[test]
fn payloads_read_back_as_they_were_sent() {
    for profile in ["", "x", "a\"b\\c", "\0", "\u{1b}[0m", "日本語🦀"] {
        let payload = encode(&request(profile)).unwrap();
        let IpcRequest::RunProfile { profile: read } = decode(IPC_MAGIC, &payload).unwrap();
        assert_eq!(read, profile);
    }
}

#[test]
fn ipc_errors_have_exact_messages() {
    assert_eq!(IpcError::BadMagic(0xDEAD).message(), "unexpected IPC magic 0xdead");
    assert_eq!(IpcError::BadMagic(0).message(), "unexpected IPC magic 0x0");
    assert_eq!(IpcError::MalformedPayload.message(), "empty or malformed IPC payload");
    let big = vec![0u16; 4097];
    assert_eq!(
        decode(IPC_MAGIC, &big).unwrap_err().message(),
        "IPC payload of 8194 bytes exceeds the 8192 byte limit"
    );
    assert_eq!(
        decode(IPC_MAGIC, &[0xDC00]).unwrap_err().message(),
        "IPC payload is not valid UTF-16"
    );
    assert_eq!(
        IpcError::BadJson("x".to_string()).message(),
        "IPC payload is not valid protocol JSON: x"
    );
    // Exactly the limit is decoded.
    let full = vec![65u16; 4096];
    assert_eq!(payload_text(IPC_MAGIC, &full).unwrap().len(), 4096);
}

#[test]
fn forwarding_sorts_the_answers() {
    assert_eq!(forward_outcome(None), ForwardOutcome::NoResident);
    assert_eq!(forward_outcome(Some((1, 1))), ForwardOutcome::Delivered);
    assert_eq!(forward_outcome(Some((0, 1))), ForwardOutcome::Rejected);
    assert_eq!(forward_outcome(Some((1, 0))), ForwardOutcome::Rejected);
    assert_eq!(FORWARD_TIMEOUT_MS, 3000);
    let mut sent = Vec::new();
    let outcome = forward_run_profile("p", |payload: &Vec<u16>| {
        sent = payload.clone();
        Some((1, 1))
    });
    assert_eq!(outcome.unwrap(), ForwardOutcome::Delivered);
    assert_eq!(sent, encode(&request("p")).unwrap());
}
