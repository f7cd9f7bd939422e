use ghosttype::asr::{
    create_engine, AsrConfig, AsrContext, CloudProvider, StopDecision, WebSocketAsrEngine,
};
use ghosttype::protocol::ServerEvent;

fn started_engine(trace_id: &str) -> WebSocketAsrEngine {
    let mut engine = WebSocketAsrEngine::new("ws://127.0.0.1:8000/ws".to_string());
    engine
        .start(trace_id.to_string(), 16000, &AsrContext::default())
        .expect("start");
    engine
}

#[test]
fn create_engine_builds_only_the_websocket_backend() {
    assert!(create_engine(&AsrConfig::WebSocket { endpoint: "ws://x/ws".to_string() }).is_ok());
    assert!(create_engine(&AsrConfig::Native).is_err());
    assert!(create_engine(&AsrConfig::Cloud {
        provider: CloudProvider::Deepgram,
        api_key: "k".to_string(),
        region: None,
    })
    .is_err());
}

#[test]
fn start_refuses_rates_off_the_whitelist() {
    let mut engine = WebSocketAsrEngine::new("ws://x/ws".to_string());
    assert!(engine.start("t".to_string(), 44100, &AsrContext::default()).is_err());
    assert!(engine.start("t".to_string(), 16000, &AsrContext::default()).is_ok());
}

#[test]
fn session_audio_is_framed_at_twenty_ms() {
    let mut engine = started_engine("t1");
    // 16000 Hz / 50 = 320 samples per frame.
    let frames = engine.feed_audio(&vec![0i16; 650]);
    assert_eq!(frames.len(), 2);
    assert_eq!(frames[0].len(), 320);
    assert_eq!(frames[1].len(), 320);
    let frames = engine.feed_audio(&vec![0i16; 310]);
    assert_eq!(frames.len(), 1);
}

#[test]
fn no_audio_is_consumed_outside_a_session() {
    let mut engine = WebSocketAsrEngine::new("ws://x/ws".to_string());
    let frames = engine.feed_audio(&vec![0i16; 4000]);
    assert!(frames.is_empty());
}

#[test]
fn heartbeats_never_end_the_wait() {
    let mut engine = started_engine("t1");
    engine.stop_request();
    assert!(matches!(
        engine.on_server_event(&ServerEvent::Pong),
        StopDecision::Continue
    ));
    assert!(matches!(
        engine.on_server_event(&ServerEvent::Pong),
        StopDecision::Continue
    ));
}

#[test]
fn foreign_trace_ids_never_end_the_wait() {
    let mut engine = started_engine("t1");
    engine.stop_request();

    let stale_text = ServerEvent::FastText {
        trace_id: Some("t0".to_string()),
        content: "stale".to_string(),
        is_final: Some(true),
    };
    assert!(matches!(
        engine.on_server_event(&stale_text),
        StopDecision::Continue
    ));

    let stale_error = ServerEvent::Error {
        trace_id: Some("t0".to_string()),
        message: "stale failure".to_string(),
    };
    assert!(matches!(
        engine.on_server_event(&stale_error),
        StopDecision::Continue
    ));

    let matching = ServerEvent::FastText {
        trace_id: Some("t1".to_string()),
        content: "fresh".to_string(),
        is_final: Some(true),
    };
    match engine.on_server_event(&matching) {
        StopDecision::Finished { transcript } => assert_eq!(transcript, "fresh"),
        other => panic!("unexpected decision: {other:?}"),
    }
}

#[test]
fn a_missing_trace_id_counts_as_matching() {
    let mut engine = started_engine("t1");
    engine.stop_request();
    let anonymous = ServerEvent::FastText {
        trace_id: None,
        content: "hello".to_string(),
        is_final: None,
    };
    match engine.on_server_event(&anonymous) {
        StopDecision::Finished { transcript } => assert_eq!(transcript, "hello"),
        other => panic!("unexpected decision: {other:?}"),
    }
}

#[test]
fn a_matching_error_fails_the_session_and_resets() {
    let mut engine = started_engine("t1");
    engine.stop_request();
    let failure = ServerEvent::Error {
        trace_id: Some("t1".to_string()),
        message: "decode failed".to_string(),
    };
    match engine.on_server_event(&failure) {
        StopDecision::Failed { message } => assert_eq!(message, "decode failed"),
        other => panic!("unexpected decision: {other:?}"),
    }
    // The client is fully reset and can start again.
    assert!(engine.trace_id.is_none());
    assert!(engine.start("t2".to_string(), 16000, &AsrContext::default()).is_ok());
}

#[test]
fn a_dropped_connection_mid_wait_leaves_the_client_ready() {
    let mut engine = started_engine("t1");
    engine.stop_request();
    // The transport reports the socket closed before any matching message.
    engine.on_connection_closed();
    assert!(engine.trace_id.is_none());
    let frame = engine
        .start("t2".to_string(), 16000, &AsrContext::default())
        .expect("start after drop");
    assert!(frame.contains("\"trace_id\":\"t2\""));
}

#[test]
fn corrections_do_not_end_the_stop_wait() {
    let mut engine = started_engine("t1");
    engine.stop_request();
    let correction = ServerEvent::Correction {
        trace_id: Some("t1".to_string()),
        replaced_text: "x".to_string(),
        delete_count: 1,
    };
    assert!(matches!(
        engine.on_server_event(&correction),
        StopDecision::Continue
    ));
}

#[test]
fn the_partial_result_flag_is_reserved_but_unused() {
    let mut engine = started_engine("t1");
    engine.stop_request();
    let not_final = ServerEvent::FastText {
        trace_id: Some("t1".to_string()),
        content: "hello".to_string(),
        is_final: Some(false),
    };
    match engine.on_server_event(&not_final) {
        StopDecision::Finished { transcript } => assert_eq!(transcript, "hello"),
        other => panic!("unexpected decision: {other:?}"),
    }
}
