use ferricord::connection::{FrameStep, WsFrame};
use std::io::Write;

use ferricord::connection::{ZlibBuffer, gateway_url};
use ferricord::error::Error;
use ferricord::gateway::{GatewayEvent, GatewayPayload, HelloEvent, Intents};
use ferricord::shard::{DispatchKind, PayloadStep, RunOutcome, Shard, ShardAction, ShardConfig, continue_running, dispatch_kind};

fn shard() -> Shard {
    Shard::new(ShardConfig::new("token".to_string(), Intents::default_intents()))
}

fn payload(op: u8, d: Option<serde_json::Value>, s: Option<u64>, t: Option<&str>) -> GatewayPayload {
    GatewayPayload { op, d_bool: d.as_ref().and_then(|v| v.as_bool()), d, s, t: t.map(|x| x.to_string()) }
}

#[test]
fn gateway_url_query() {
    assert_eq!(
        gateway_url("wss://gateway.discord.gg"),
        "wss://gateway.discord.gg/?v=10&encoding=json&compress=zlib-stream"
    );
    assert_eq!(
        gateway_url("wss://gateway.discord.gg/"),
        "wss://gateway.discord.gg/?v=10&encoding=json&compress=zlib-stream"
    );
    assert_eq!(
        gateway_url("wss://g.example?x=1"),
        "wss://g.example?x=1&v=10&encoding=json&compress=zlib-stream"
    );
}

#[test]
fn zlib_frames_are_joined_and_inflated() {
    let mut encoder = flate2::write::ZlibEncoder::new(Vec::new(), flate2::Compression::default());
    encoder.write_all(b"{\"op\":11}").unwrap();
    let mut bytes = encoder.finish().unwrap();
    bytes.extend_from_slice(&[0u8, 0, 0xff, 0xff]);
    let mut buffer = ZlibBuffer::new();
    let (first, second) = bytes.split_at(3);
    assert!(buffer.push_binary(first).unwrap().is_none());
    let text = buffer.push_binary(second).unwrap();
    assert_eq!(text.as_deref(), Some("{\"op\":11}"));
    // the buffer starts over after a whole message
    assert!(buffer.push_binary(&[1, 2]).unwrap().is_none());
}

#[test]
fn zlib_stream_cut_at_sync_flush_is_incomplete() {
    let mut encoder = flate2::write::ZlibEncoder::new(Vec::new(), flate2::Compression::default());
    encoder.write_all(b"hello").unwrap();
    encoder.flush().unwrap();
    let bytes = encoder.get_ref().clone();
    assert_eq!(&bytes[bytes.len() - 4..], &[0u8, 0, 0xff, 0xff]);
    let mut buffer = ZlibBuffer::new();
    match buffer.push_binary(&bytes) {
        Err(Error::WebSocket(m)) => assert!(m.starts_with("Decompression failed: ")),
        other => panic!("unexpected {:?}", other),
    }
}

#[test]
fn zlib_garbage_is_an_error() {
    let mut buffer = ZlibBuffer::new();
    let r = buffer.push_binary(&[1, 2, 3, 0, 0, 0xff, 0xff]);
    assert!(matches!(r, Err(Error::WebSocket(_))));
}

#[test]
fn zlib_buffer_limit() {
    let mut buffer = ZlibBuffer::new();
    let big = vec![1u8; 10485761];
    match buffer.push_binary(&big) {
        Err(Error::WebSocket(m)) => assert_eq!(m, "Zlib buffer exceeded maximum size of 10485760 bytes"),
        other => panic!("unexpected {:?}", other),
    }
}

#[test]
fn heartbeat_needs_acknowledgement() {
    let mut s = shard();
    assert_eq!(s.heartbeat_delay_ms(), 60000);
    match s.send_heartbeat(1000) {
        Ok(ShardAction::SendHeartbeat { sequence }) => assert_eq!(sequence, None),
        other => panic!("unexpected {:?}", other),
    }
    match s.send_heartbeat(2000) {
        Err(Error::Gateway(m)) => assert_eq!(m, "Heartbeat ACK not received"),
        other => panic!("unexpected {:?}", other),
    }
    let ack = s.handle_payload(payload(11, None, None, None), 2500).unwrap();
    assert!(matches!(ack, PayloadStep::Done(ref a) if a.is_empty()));
    assert!(s.send_heartbeat(3000).is_ok());
}

#[test]
fn hello_identifies_then_ready_resumes() {
    let mut s = shard();
    let step = s.handle_payload(payload(10, Some(serde_json::Value::Null), Some(3), None), 0);
    assert!(matches!(step, Ok(PayloadStep::Hello(_))));
    let actions = s.handle_hello(HelloEvent { heartbeat_interval: 41250 });
    assert_eq!(actions.len(), 2);
    match &actions[1] {
        ShardAction::SendIdentify(p) => {
            assert_eq!(p.token, "token");
            assert_eq!(p.intents, 0x3317efd);
        },
        other => panic!("unexpected {:?}", other),
    }
    assert_eq!(s.heartbeat_delay_ms(), 41250);
    assert!(s.resume().is_err());
}

#[test]
fn unknown_opcode_is_an_error() {
    let mut s = shard();
    match s.handle_payload(payload(5, None, Some(9), None), 0) {
        Err(Error::Gateway(m)) => assert_eq!(m, "Unknown opcode: 5"),
        other => panic!("unexpected {:?}", other),
    }
}

#[test]
fn invalid_session_reads_resumable_flag() {
    let mut s = shard();
    match s.handle_payload(payload(9, Some(serde_json::Value::Bool(true)), None, None), 0) {
        Ok(PayloadStep::Done(a)) => {
            assert!(matches!(a[0], ShardAction::Emit(GatewayEvent::InvalidSession(true))))
        },
        other => panic!("unexpected {:?}", other),
    }
    match s.handle_payload(payload(9, None, None, None), 0) {
        Ok(PayloadStep::Done(a)) => {
            assert!(matches!(a[0], ShardAction::Emit(GatewayEvent::InvalidSession(false))))
        },
        other => panic!("unexpected {:?}", other),
    }
}

#[test]
fn dispatch_names() {
    assert_eq!(dispatch_kind("READY"), DispatchKind::Ready);
    assert_eq!(dispatch_kind("MESSAGE_CREATE"), DispatchKind::MessageCreate);
    assert_eq!(dispatch_kind("SOMETHING_ELSE"), DispatchKind::Unknown);
    let mut s = shard();
    match s.handle_payload(payload(0, None, Some(1), None), 0) {
        Ok(PayloadStep::Dispatch { name, kind, data }) => {
            assert_eq!(name, "UNKNOWN");
            assert_eq!(kind, DispatchKind::Unknown);
            assert!(data.is_null());
        },
        other => panic!("unexpected {:?}", other),
    }
}

#[test]
fn websocket_messages() {
    let mut buffer = ZlibBuffer::new();
    match buffer.handle_message(WsFrame::Text("{\"op\":11}".to_string())) {
        Ok(FrameStep::Payload(t)) => assert_eq!(t, "{\"op\":11}"),
        other => panic!("unexpected {:?}", other),
    }
    match buffer.handle_message(WsFrame::Ping(vec![1, 2])) {
        Ok(FrameStep::Pong(d)) => assert_eq!(d, vec![1, 2]),
        other => panic!("unexpected {:?}", other),
    }
    assert!(matches!(buffer.handle_message(WsFrame::Close), Ok(FrameStep::Closed)));
    assert!(matches!(buffer.handle_message(WsFrame::Pong), Ok(FrameStep::Nothing)));
    assert!(matches!(buffer.handle_message(WsFrame::Binary(vec![9])), Ok(FrameStep::Nothing)));
}

#[test]
fn payload_data_is_handed_on() {
    let mut s = shard();
    let mut obj = serde_json::Map::new();
    obj.insert("heartbeat_interval".to_string(), serde_json::Value::from(41250u64));
    let hello = serde_json::Value::Object(obj);
    match s.handle_payload(payload(10, Some(hello.clone()), None, None), 0) {
        Ok(PayloadStep::Hello(d)) => assert_eq!(d, hello),
        other => panic!("unexpected {:?}", other),
    }
    let ready = serde_json::Value::String("session".to_string());
    match s.handle_payload(payload(0, Some(ready.clone()), Some(2), Some("READY")), 0) {
        Ok(PayloadStep::Dispatch { name, kind, data }) => {
            assert_eq!(name, "READY");
            assert_eq!(kind, DispatchKind::Ready);
            assert_eq!(data, ready);
        },
        other => panic!("unexpected {:?}", other),
    }
}

#[test]
fn invalid_session_false_or_non_boolean_is_not_resumable() {
    let mut s = shard();
    for d in [serde_json::Value::Bool(false), serde_json::Value::from(1u64)] {
        match s.handle_payload(payload(9, Some(d), None, None), 0) {
            Ok(PayloadStep::Done(a)) => {
                assert!(matches!(a[0], ShardAction::Emit(GatewayEvent::InvalidSession(false))))
            },
            other => panic!("unexpected {:?}", other),
        }
    }
}

#[test]
fn run_loop_stops_only_on_failures_and_disconnects() {
    assert!(continue_running(RunOutcome::HeartbeatSent));
    assert!(!continue_running(RunOutcome::HeartbeatFailed));
    assert!(continue_running(RunOutcome::PayloadHandled));
    assert!(continue_running(RunOutcome::PayloadFailed));
    assert!(continue_running(RunOutcome::NoPayload { disconnected: false }));
    assert!(!continue_running(RunOutcome::NoPayload { disconnected: true }));
    assert!(!continue_running(RunOutcome::ReceiveFailed));
}

#[test]
fn bad_zlib_stream_reports_decompression_failure() {
    let mut buffer = ZlibBuffer::new();
    match buffer.push_binary(&[1, 2, 3, 4, 0x00, 0x00, 0xff, 0xff]) {
        Err(Error::WebSocket(m)) => assert!(m.starts_with("Decompression failed: ")),
        other => panic!("unexpected {:?}", other),
    }
}

#[test]
fn refused_heartbeat_request_gives_its_reason() {
    let mut s = shard();
    assert!(s.send_heartbeat(1000).is_ok());
    match s.handle_payload(payload(1, None, None, None), 2000) {
        Err(Error::Gateway(m)) => assert_eq!(m, "Heartbeat ACK not received"),
        other => panic!("unexpected {:?}", other),
    }
}
