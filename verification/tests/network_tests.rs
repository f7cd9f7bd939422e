use ghosttype::asr::AsrError;
use ghosttype::input::InjectCommand;
use ghosttype::llm::LlmError;
use ghosttype::network::{
    dispatch_server_text, next_backoff, tray_icon, TrayAction, TrayIcon, TrayMode,
    INITIAL_BACKOFF_MS,
};
use ghosttype::pipeline::{encode_trace_id, generate_trace_id};
use ghosttype::platform::{
    ensure_accessibility, open_accessibility_settings, open_microphone_settings,
    open_sound_settings,
};

#[test]
fn backoff_doubles_up_to_the_cap() {
    let mut delay = INITIAL_BACKOFF_MS;
    let mut seen = Vec::new();
    for _ in 0..6 {
        delay = next_backoff(delay);
        seen.push(delay);
    }
    assert_eq!(seen, vec![400, 800, 1600, 3200, 5000, 5000]);
}

#[test]
fn recognized_text_is_typed_and_clears_the_icon() {
    let (cmds, action) = dispatch_server_text(
        "{\"type\":\"fast_text\",\"trace_id\":\"t1\",\"content\":\"hello\"}",
    );
    assert!(matches!(action, TrayAction::SetIdle));
    assert_eq!(cmds.len(), 1);
    match &cmds[0] {
        InjectCommand::TypeText { trace_id, text } => {
            assert_eq!(trace_id.as_deref(), Some("t1"));
            assert_eq!(text, "hello");
        }
        other => panic!("unexpected command: {other:?}"),
    }
}

#[test]
fn empty_trace_ids_are_dropped_from_typed_text() {
    let (cmds, _) =
        dispatch_server_text("{\"type\":\"fast_text\",\"trace_id\":\"\",\"content\":\"x\"}");
    match &cmds[0] {
        InjectCommand::TypeText { trace_id, .. } => assert!(trace_id.is_none()),
        other => panic!("unexpected command: {other:?}"),
    }
}

#[test]
fn server_corrections_delete_then_retype() {
    let (cmds, action) = dispatch_server_text(
        "{\"type\":\"correction\",\"trace_id\":\"t3\",\"replaced_text\":\"good\",\"delete_count\":4}",
    );
    assert!(matches!(action, TrayAction::SetIdle));
    assert_eq!(cmds.len(), 2);
    match &cmds[0] {
        InjectCommand::Backspace { count, .. } => assert_eq!(*count, 4),
        other => panic!("unexpected command: {other:?}"),
    }
    match &cmds[1] {
        InjectCommand::TypeText { text, .. } => assert_eq!(text, "good"),
        other => panic!("unexpected command: {other:?}"),
    }
}

#[test]
fn service_errors_only_flip_the_icon() {
    let (cmds, action) =
        dispatch_server_text("{\"type\":\"error\",\"message\":\"overloaded\"}");
    assert!(cmds.is_empty());
    assert!(matches!(action, TrayAction::SetError));
}

#[test]
fn heartbeats_and_noise_do_nothing() {
    let (cmds, action) = dispatch_server_text("{\"type\":\"pong\"}");
    assert!(cmds.is_empty());
    assert!(matches!(action, TrayAction::Nothing));
    let (cmds, action) = dispatch_server_text("###");
    assert!(cmds.is_empty());
    assert!(matches!(action, TrayAction::Nothing));
}

#[test]
fn trace_ids_are_six_base62_characters() {
    assert_eq!(encode_trace_id(0), "000000");
    assert_eq!(encode_trace_id(9), "000009");
    assert_eq!(encode_trace_id(10), "00000a");
    assert_eq!(encode_trace_id(35), "00000z");
    assert_eq!(encode_trace_id(36), "00000A");
    assert_eq!(encode_trace_id(61), "00000Z");
    assert_eq!(encode_trace_id(62), "000010");
    assert_eq!(encode_trace_id(62 * 62 + 1), "000101");
    let id = generate_trace_id();
    assert_eq!(id.chars().count(), 6);
}

#[test]
fn command_trace_ids_format_for_logs() {
    let with = InjectCommand::TypeText {
        trace_id: Some("t1".to_string()),
        text: "x".to_string(),
    };
    assert_eq!(with.trace_id_for_log(), "t1");
    let without = InjectCommand::Backspace { trace_id: None, count: 1 };
    assert_eq!(without.trace_id_for_log(), "");
}

#[test]
fn platform_helpers_answer_as_documented() {
    assert!(ensure_accessibility(false));
    assert!(ensure_accessibility(true));
    assert!(open_accessibility_settings().is_err());
    assert!(open_microphone_settings().is_err());
    assert!(open_sound_settings().is_err());
}

#[test]
fn error_messages_name_their_cause() {
    assert_eq!(LlmError::EmptyEndpoint.message(), "LLM endpoint 不能为空");
    assert_eq!(LlmError::EmptyApiKey.message(), "LLM api_key 不能为空");
    assert_eq!(LlmError::EmptyModel.message(), "LLM model 不能为空");
    assert_eq!(AsrError::NativeUnavailable.message(), "系统原生 ASR 尚未实现");
    assert_eq!(
        AsrError::UnsupportedSampleRate { sample_rate: 44100 }.message(),
        "不支持的 Opus 采样率 | Unsupported Opus sample rate"
    );
}

#[test]
fn the_recording_icon_outranks_the_error_flag() {
    assert_eq!(tray_icon(TrayMode::Recording, true), TrayIcon::Recording);
    assert_eq!(tray_icon(TrayMode::Recording, false), TrayIcon::Recording);
    assert_eq!(tray_icon(TrayMode::Idle, true), TrayIcon::Error);
    assert_eq!(tray_icon(TrayMode::Processing, true), TrayIcon::Error);
    assert_eq!(tray_icon(TrayMode::Processing, false), TrayIcon::Processing);
    assert_eq!(tray_icon(TrayMode::Idle, false), TrayIcon::Idle);
}
