//! Client configuration: defaults, the hotkey table, and the migration of
//! legacy fields into the current shape.

use vstd::prelude::*;

use crate::asr::{AsrConfig, CloudProvider};
use crate::llm::LlmConfig;
use crate::text::{chars_of, eq_chars, trim_of, trim_str};

verus! {

/// An ASR configuration, as specifications see it.
pub enum SpecAsrConfig {
    Native,
    Cloud { provider: CloudProvider, api_key: Seq<char>, region: Option<Seq<char>> },
    WebSocket { endpoint: Seq<char> },
}

impl View for AsrConfig {
    type V = SpecAsrConfig;

    open spec fn view(&self) -> SpecAsrConfig {
        match self {
            AsrConfig::Native => SpecAsrConfig::Native,
            AsrConfig::Cloud { provider, api_key, region } => SpecAsrConfig::Cloud {
                provider: *provider,
                api_key: api_key@,
                region: crate::protocol::opt_string_view(region),
            },
            AsrConfig::WebSocket { endpoint } => SpecAsrConfig::WebSocket { endpoint: endpoint@ },
        }
    }
}

/// The configuration schema version written by this client.
pub fn default_schema_version() -> (r: u32)
    ensures
        r == 210,
{
    210
}

/// The default push-to-talk key name.
pub fn default_hotkey() -> (r: String)
    ensures
        r@ == "capslock"@,
{
    "capslock".to_owned()
}

/// The client configuration, with the legacy fields still readable.
pub struct ClientConfig {
    pub schema_version: u32,
    pub hotkey: String,
    pub audio_device: Option<String>,
    pub asr: AsrConfig,
    pub llm: LlmConfig,
    pub server_endpoints: Vec<String>,
    pub use_cloud_api: bool,
}

impl Default for ClientConfig {
    fn default() -> (r: ClientConfig)
        ensures
            r.schema_version == 210,
            r.hotkey@ == "capslock"@,
            r.audio_device is None,
            r.asr@ matches SpecAsrConfig::WebSocket { endpoint } && endpoint
                == "ws://127.0.0.1:8000/ws"@,
            r.llm is Disabled,
            r.server_endpoints@.len() == 0,
            !r.use_cloud_api,
    {
        ClientConfig {
            schema_version: default_schema_version(),
            hotkey: default_hotkey(),
            audio_device: None,
            asr: AsrConfig::default(),
            llm: LlmConfig::default(),
            server_endpoints: Vec::new(),
            use_cloud_api: false,
        }
    }
}

/// When the stored recognizer endpoint is blank or still the default, a
/// legacy `server_endpoints` entry, if present and non-blank, takes its
/// place.
pub open spec fn legacy_endpoint_applies(config: ClientConfig) -> bool {
    &&& config.asr@ matches SpecAsrConfig::WebSocket { endpoint } && (trim_of(endpoint).len() == 0
        || trim_of(endpoint) == "ws://127.0.0.1:8000/ws"@)
    &&& config.server_endpoints@.len() > 0
    &&& trim_of(config.server_endpoints@[0]@).len() > 0
}

/// Migrate legacy fields: an old `server_endpoints` list overrides a
/// recognizer endpoint that was blank or left at its default, and nothing
/// else changes.
pub fn normalize_legacy_config(config: ClientConfig) -> (r: ClientConfig)
    ensures
        legacy_endpoint_applies(config) ==> {
            &&& r.asr@ matches SpecAsrConfig::WebSocket { endpoint } && endpoint == trim_of(
                config.server_endpoints@[0]@,
            )
        },
        !legacy_endpoint_applies(config) ==> r.asr@ == config.asr@,
        r.schema_version == config.schema_version,
        r.hotkey@ == config.hotkey@,
        r.llm == config.llm,
        r.server_endpoints@ == config.server_endpoints@,
        r.use_cloud_api == config.use_cloud_api,
{
    let mut config = config;
    let applies: bool = match &config.asr {
        AsrConfig::WebSocket { endpoint } => {
            let trimmed = trim_str(endpoint.as_str());
            let is_default = trimmed.as_str().is_empty() || trimmed == default_websocket_endpoint_string();
            if is_default && config.server_endpoints.len() > 0 {
                let candidate = trim_str(config.server_endpoints[0].as_str());
                !candidate.as_str().is_empty()
            } else {
                false
            }
        },
        _ => false,
    };
    if applies {
        let endpoint = trim_str(config.server_endpoints[0].as_str());
        config.asr = AsrConfig::WebSocket { endpoint };
    }
    config
}

fn default_websocket_endpoint_string() -> (r: String)
    ensures
        r@ == "ws://127.0.0.1:8000/ws"@,
{
    crate::asr::default_websocket_endpoint()
}

/// The push-to-talk keys the client understands.
#[derive(Clone, Copy, Debug, PartialEq, Eq, Structural)]
pub enum HotkeyKey {
    CapsLock,
    F1,
    F2,
    F3,
    F4,
    F5,
    F6,
    F7,
    F8,
    F9,
    F10,
    F11,
    F12,
    ShiftLeft,
    ShiftRight,
}

/// `c` lowered to ASCII lowercase.
pub open spec fn ascii_lower_char(c: char) -> char {
    if 65 <= c as u32 <= 90 {
        ((c as u32 + 32) as u32) as char
    } else {
        c
    }
}

pub open spec fn ascii_lower(s: Seq<char>) -> Seq<char> {
    s.map_values(|c: char| ascii_lower_char(c))
}

/// Lower every ASCII uppercase letter.
fn to_ascii_lower(s: &Vec<char>) -> (r: Vec<char>)
    ensures
        r@ == ascii_lower(s@),
{
    let mut out: Vec<char> = Vec::new();
    let mut i: usize = 0;
    while i < s.len()
        invariant
            0 <= i <= s@.len(),
            out@ =~= ascii_lower(s@.take(i as int)),
        decreases s@.len() - i,
    {
        let c = s[i];
        let u = c as u32;
        if 65 <= u && u <= 90 {
            let Some(lower) = crate::json::char_from_u32(u + 32) else {
                proof {
                    assert(false);
                }
                return out;
            };
            proof {
                vstd::utf8::char_u32_cast(lower, (u + 32) as u32);
            }
            out.push(lower);
        } else {
            out.push(c);
        }
        proof {
            assert(out@ =~= ascii_lower(s@.take(i + 1)));
        }
        i += 1;
    }
    proof {
        assert(s@.take(s@.len() as int) =~= s@);
    }
    out
}

/// The key a configured name selects.
pub open spec fn spec_parse_hotkey(k: Seq<char>) -> HotkeyKey {
    if k == "capslock"@ || k == "caps_lock"@ || k == "caps lock"@ || k == "caps"@ {
        HotkeyKey::CapsLock
    } else if k == "f1"@ {
        HotkeyKey::F1
    } else if k == "f2"@ {
        HotkeyKey::F2
    } else if k == "f3"@ {
        HotkeyKey::F3
    } else if k == "f4"@ {
        HotkeyKey::F4
    } else if k == "f5"@ {
        HotkeyKey::F5
    } else if k == "f6"@ {
        HotkeyKey::F6
    } else if k == "f7"@ {
        HotkeyKey::F7
    } else if k == "f8"@ {
        HotkeyKey::F8
    } else if k == "f9"@ {
        HotkeyKey::F9
    } else if k == "f10"@ {
        HotkeyKey::F10
    } else if k == "f11"@ {
        HotkeyKey::F11
    } else if k == "f12"@ {
        HotkeyKey::F12
    } else if k == "right_shift"@ || k == "right shift"@ || k == "rshift"@ {
        HotkeyKey::ShiftRight
    } else if k == "left_shift"@ || k == "left shift"@ || k == "lshift"@ {
        HotkeyKey::ShiftLeft
    } else {
        HotkeyKey::CapsLock
    }
}

fn key_name_is(k: &Vec<char>, name: &str) -> (r: bool)
    ensures
        r == (k@ == name@),
{
    let n = chars_of(name);
    eq_chars(k, &n)
}

/// Map a configured key name, case-insensitively and with surrounding
/// whitespace ignored, to the key it selects; unknown names fall back to
/// the default key.
pub fn parse_hotkey(raw: &str) -> (r: HotkeyKey)
    ensures
        r == spec_parse_hotkey(ascii_lower(trim_of(raw@))),
{
    let trimmed = trim_str(raw);
    let chars = chars_of(trimmed.as_str());
    let k = to_ascii_lower(&chars);
    if key_name_is(&k, "capslock") || key_name_is(&k, "caps_lock") || key_name_is(&k, "caps lock")
        || key_name_is(&k, "caps") {
        HotkeyKey::CapsLock
    } else if key_name_is(&k, "f1") {
        HotkeyKey::F1
    } else if key_name_is(&k, "f2") {
        HotkeyKey::F2
    } else if key_name_is(&k, "f3") {
        HotkeyKey::F3
    } else if key_name_is(&k, "f4") {
        HotkeyKey::F4
    } else if key_name_is(&k, "f5") {
        HotkeyKey::F5
    } else if key_name_is(&k, "f6") {
        HotkeyKey::F6
    } else if key_name_is(&k, "f7") {
        HotkeyKey::F7
    } else if key_name_is(&k, "f8") {
        HotkeyKey::F8
    } else if key_name_is(&k, "f9") {
        HotkeyKey::F9
    } else if key_name_is(&k, "f10") {
        HotkeyKey::F10
    } else if key_name_is(&k, "f11") {
        HotkeyKey::F11
    } else if key_name_is(&k, "f12") {
        HotkeyKey::F12
    } else if key_name_is(&k, "right_shift") || key_name_is(&k, "right shift") || key_name_is(
        &k,
        "rshift",
    ) {
        HotkeyKey::ShiftRight
    } else if key_name_is(&k, "left_shift") || key_name_is(&k, "left shift") || key_name_is(
        &k,
        "lshift",
    ) {
        HotkeyKey::ShiftLeft
    } else {
        HotkeyKey::CapsLock
    }
}

} // verus!
