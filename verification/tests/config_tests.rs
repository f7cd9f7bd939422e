use ghosttype::asr::{default_websocket_endpoint, AsrConfig};
use ghosttype::config::{
    default_hotkey, default_schema_version, normalize_legacy_config, parse_hotkey, ClientConfig,
    HotkeyKey,
};
use ghosttype::llm::{default_timeout_ms, LlmConfig, OllamaEngine, OpenAiCompatEngine};

#[test]
fn legacy_server_endpoints_overrides_default_asr_endpoint() {
    let config = ClientConfig {
        schema_version: default_schema_version(),
        hotkey: "f8".to_string(),
        audio_device: None,
        asr: AsrConfig::default(),
        llm: LlmConfig::default(),
        server_endpoints: vec!["ws://10.0.0.1:8000/ws".to_string()],
        use_cloud_api: false,
    };

    let normalized = normalize_legacy_config(config);
    match normalized.asr {
        AsrConfig::WebSocket { endpoint } => assert_eq!(endpoint, "ws://10.0.0.1:8000/ws"),
        other => panic!("unexpected asr config: {other:?}"),
    }
}

#[test]
fn legacy_does_not_override_custom_asr_endpoint() {
    let config = ClientConfig {
        schema_version: default_schema_version(),
        hotkey: "f8".to_string(),
        audio_device: None,
        asr: AsrConfig::WebSocket {
            endpoint: "ws://192.168.1.8:8000/ws".to_string(),
        },
        llm: LlmConfig::default(),
        server_endpoints: vec!["ws://10.0.0.1:8000/ws".to_string()],
        use_cloud_api: false,
    };

    let normalized = normalize_legacy_config(config);
    match normalized.asr {
        AsrConfig::WebSocket { endpoint } => assert_eq!(endpoint, "ws://192.168.1.8:8000/ws"),
        other => panic!("unexpected asr config: {other:?}"),
    }
}

#[test]
fn legacy_blank_endpoint_is_overridden() {
    let config = ClientConfig {
        asr: AsrConfig::WebSocket {
            endpoint: "   ".to_string(),
        },
        server_endpoints: vec!["  ws://10.0.0.2:8000/ws  ".to_string()],
        ..ClientConfig::default()
    };

    let normalized = normalize_legacy_config(config);
    match normalized.asr {
        AsrConfig::WebSocket { endpoint } => assert_eq!(endpoint, "ws://10.0.0.2:8000/ws"),
        other => panic!("unexpected asr config: {other:?}"),
    }
}

#[test]
fn legacy_blank_candidate_is_ignored() {
    let config = ClientConfig {
        server_endpoints: vec!["   ".to_string()],
        ..ClientConfig::default()
    };

    let normalized = normalize_legacy_config(config);
    match normalized.asr {
        AsrConfig::WebSocket { endpoint } => assert_eq!(endpoint, "ws://127.0.0.1:8000/ws"),
        other => panic!("unexpected asr config: {other:?}"),
    }
}

#[test]
fn defaults_match_the_documented_values() {
    assert_eq!(default_schema_version(), 210);
    assert_eq!(default_hotkey(), "capslock");
    assert_eq!(default_websocket_endpoint(), "ws://127.0.0.1:8000/ws");
    assert_eq!(default_timeout_ms(), 3000);
    let config = ClientConfig::default();
    assert_eq!(config.schema_version, 210);
    assert!(config.audio_device.is_none());
    assert!(config.server_endpoints.is_empty());
    assert!(!config.use_cloud_api);
    assert!(matches!(config.llm, LlmConfig::Disabled));
}

#[test]
fn ollama_engine_new_validates_required_fields() {
    assert!(OllamaEngine::new("".to_string(), "m".to_string(), 3000).is_err());
    assert!(OllamaEngine::new("http://localhost:11434".to_string(), "".to_string(), 3000).is_err());
}

#[test]
fn openai_compat_engine_new_validates_required_fields() {
    assert!(OpenAiCompatEngine::new("".to_string(), "k".to_string(), "m".to_string(), 3000).is_err());
    assert!(OpenAiCompatEngine::new("https://x".to_string(), "".to_string(), "m".to_string(), 3000).is_err());
    assert!(OpenAiCompatEngine::new("https://x".to_string(), "k".to_string(), "".to_string(), 3000).is_err());
}

#[test]
fn engine_new_cleans_its_settings() {
    let engine = OpenAiCompatEngine::new(
        "  https://api.example.com/v1//  ".to_string(),
        " key ".to_string(),
        " model ".to_string(),
        50,
    )
    .expect("valid settings");
    assert_eq!(engine.endpoint, "https://api.example.com/v1");
    assert_eq!(engine.api_key, "key");
    assert_eq!(engine.model, "model");
    assert_eq!(engine.timeout_ms, 200);

    let ollama = OllamaEngine::new("http://localhost:11434/".to_string(), "qwen".to_string(), 9000)
        .expect("valid settings");
    assert_eq!(ollama.endpoint, "http://localhost:11434");
    assert_eq!(ollama.model, "qwen");
    assert_eq!(ollama.timeout_ms, 9000);
}

#[test]
fn hotkeys_parse_case_insensitively_with_fallback() {
    assert_eq!(parse_hotkey("f8"), HotkeyKey::F8);
    assert_eq!(parse_hotkey("  F8  "), HotkeyKey::F8);
    assert_eq!(parse_hotkey("CapsLock"), HotkeyKey::CapsLock);
    assert_eq!(parse_hotkey("caps lock"), HotkeyKey::CapsLock);
    assert_eq!(parse_hotkey("rshift"), HotkeyKey::ShiftRight);
    assert_eq!(parse_hotkey("left shift"), HotkeyKey::ShiftLeft);
    assert_eq!(parse_hotkey("f12"), HotkeyKey::F12);
    assert_eq!(parse_hotkey("no such key"), HotkeyKey::CapsLock);
}
