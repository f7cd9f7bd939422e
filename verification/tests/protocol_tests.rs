use ghosttype::protocol::{
    is_pong, parse_server_event, ping_frame, start_frame, stop_frame, version_reply_healthy,
    ClientContext, ServerEvent,
};

#[test]
fn start_frame_is_the_exact_wire_text() {
    let context = ClientContext {
        app_name: "Editor".to_string(),
        window_title: "notes.txt".to_string(),
    };
    let frame = start_frame(&"t1".to_string(), 16000, &context, false);
    assert_eq!(
        frame,
        "{\"type\":\"start\",\"trace_id\":\"t1\",\"sample_rate\":16000,\
         \"context\":{\"app_name\":\"Editor\",\"window_title\":\"notes.txt\"},\
         \"use_cloud_api\":false}"
    );
}

#[test]
fn start_frame_escapes_context_text() {
    let context = ClientContext {
        app_name: "A\"B\\C".to_string(),
        window_title: "line1\nline2\ttab".to_string(),
    };
    let frame = start_frame(&"x".to_string(), 48000, &context, true);
    assert_eq!(
        frame,
        "{\"type\":\"start\",\"trace_id\":\"x\",\"sample_rate\":48000,\
         \"context\":{\"app_name\":\"A\\\"B\\\\C\",\"window_title\":\"line1\\nline2\\ttab\"},\
         \"use_cloud_api\":true}"
    );
}

#[test]
fn stop_frame_carries_the_trace_id_only_when_known() {
    assert_eq!(
        stop_frame(&Some("t9".to_string())),
        "{\"type\":\"stop\",\"trace_id\":\"t9\"}"
    );
    assert_eq!(stop_frame(&None), "{\"type\":\"stop\"}");
}

#[test]
fn pong_and_fast_text_frames_parse() {
    assert!(matches!(
        parse_server_event("{\"type\":\"pong\"}"),
        Some(ServerEvent::Pong)
    ));

    let event = parse_server_event(
        "{\"type\":\"fast_text\",\"trace_id\":\"t1\",\"content\":\"hello\",\"is_final\":true}",
    );
    match event {
        Some(ServerEvent::FastText { trace_id, content, is_final }) => {
            assert_eq!(trace_id.as_deref(), Some("t1"));
            assert_eq!(content, "hello");
            assert_eq!(is_final, Some(true));
        }
        other => panic!("unexpected event: {other:?}"),
    }
}

#[test]
fn optional_fields_may_be_absent_or_null() {
    let event = parse_server_event("{\"type\":\"fast_text\",\"content\":\"hi\"}");
    match event {
        Some(ServerEvent::FastText { trace_id, content, is_final }) => {
            assert!(trace_id.is_none());
            assert_eq!(content, "hi");
            assert!(is_final.is_none());
        }
        other => panic!("unexpected event: {other:?}"),
    }

    let event = parse_server_event(
        "{ \"type\" : \"error\" , \"trace_id\" : null , \"message\" : \"boom\" }",
    );
    match event {
        Some(ServerEvent::Error { trace_id, message }) => {
            assert!(trace_id.is_none());
            assert_eq!(message, "boom");
        }
        other => panic!("unexpected event: {other:?}"),
    }
}

#[test]
fn escaped_text_is_decoded() {
    let event = parse_server_event(
        "{\"type\":\"fast_text\",\"content\":\"\\u4f60\\u597d\\n\\\"quoted\\\"\"}",
    );
    match event {
        Some(ServerEvent::FastText { content, .. }) => {
            assert_eq!(content, "你好\n\"quoted\"");
        }
        other => panic!("unexpected event: {other:?}"),
    }
}

#[test]
fn surrogate_pairs_decode_and_halves_alone_fail() {
    let event = parse_server_event(
        "{\"type\":\"fast_text\",\"content\":\"\\ud83d\\ude00ok\"}",
    );
    match event {
        Some(ServerEvent::FastText { content, .. }) => {
            assert_eq!(content, "\u{1F600}ok");
        }
        other => panic!("unexpected event: {other:?}"),
    }
    assert!(parse_server_event("{\"type\":\"fast_text\",\"content\":\"\\ud83d\"}").is_none());
    assert!(parse_server_event("{\"type\":\"fast_text\",\"content\":\"\\ude00\"}").is_none());
}

#[test]
fn correction_frames_parse_with_their_counts() {
    let event = parse_server_event(
        "{\"type\":\"correction\",\"trace_id\":\"t2\",\"original_text\":\"ab\",\
         \"replaced_text\":\"cd\",\"delete_count\":2}",
    );
    match event {
        Some(ServerEvent::Correction { trace_id, replaced_text, delete_count }) => {
            assert_eq!(trace_id.as_deref(), Some("t2"));
            assert_eq!(replaced_text, "cd");
            assert_eq!(delete_count, 2);
        }
        other => panic!("unexpected event: {other:?}"),
    }
}

#[test]
fn unreadable_frames_mean_nothing() {
    assert!(parse_server_event("").is_none());
    assert!(parse_server_event("not json").is_none());
    assert!(parse_server_event("[1,2,3]").is_none());
    assert!(parse_server_event("{\"type\":\"mystery\"}").is_none());
    assert!(parse_server_event("{\"type\":\"fast_text\"}").is_none());
    assert!(parse_server_event("{\"type\":\"fast_text\",\"content\":7}").is_none());
    assert!(parse_server_event("{\"type\":\"pong\"} trailing").is_none());
    assert!(parse_server_event("{\"type\":\"pong\",}").is_none());
}

#[test]
fn unknown_flat_fields_are_tolerated() {
    let event = parse_server_event(
        "{\"extra\":123,\"type\":\"fast_text\",\"content\":\"ok\",\"note\":null}",
    );
    match event {
        Some(ServerEvent::FastText { content, .. }) => assert_eq!(content, "ok"),
        other => panic!("unexpected event: {other:?}"),
    }
}

#[test]
fn outbound_frames_parse_back_as_objects() {
    let context = ClientContext {
        app_name: "团队 IM".to_string(),
        window_title: "对话\t窗口".to_string(),
    };
    let frame = start_frame(&"深t1".to_string(), 16000, &context, false);
    let value: Result<serde_json::Value, _> = serde_json::from_str(&frame);
    let value = value.expect("the start frame is valid JSON");
    assert_eq!(value["type"], "start");
    assert_eq!(value["trace_id"], "深t1");
    assert_eq!(value["sample_rate"], 16000);
    assert_eq!(value["context"]["app_name"], "团队 IM");
    assert_eq!(value["context"]["window_title"], "对话\t窗口");
    assert_eq!(value["use_cloud_api"], false);
}

#[test]
fn the_connectivity_probe_round_trips() {
    assert_eq!(ping_frame(), "{\"type\":\"ping\"}");
    assert!(is_pong("{\"type\":\"pong\"}"));
    assert!(is_pong(" { \"type\" : \"pong\" } "));
    assert!(!is_pong("{\"type\":\"ping\"}"));
    assert!(!is_pong("junk"));
}

#[test]
fn version_replies_decide_service_health() {
    assert!(version_reply_healthy("{\"version\":\"0.5.1\"}"));
    assert!(!version_reply_healthy("{\"version\":\"   \"}"));
    assert!(!version_reply_healthy("{\"version\":7}"));
    assert!(!version_reply_healthy("{}"));
    assert!(!version_reply_healthy("not json"));
}

#[test]
fn duplicate_keys_read_as_their_first_occurrence() {
    let event = parse_server_event(
        "{\"type\":\"fast_text\",\"content\":\"first\",\"content\":\"second\"}",
    );
    match event {
        Some(ServerEvent::FastText { content, .. }) => assert_eq!(content, "first"),
        other => panic!("unexpected event: {other:?}"),
    }
}

#[test]
fn absurdly_large_numbers_fail_the_frame() {
    assert!(parse_server_event(
        "{\"type\":\"correction\",\"replaced_text\":\"x\",\"delete_count\":999999999999999999999}"
    )
    .is_none());
}
