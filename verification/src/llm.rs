//! Best-effort text correction: configuration, input validation for the
//! backends, and the exact meaning of a correction reply. The HTTP exchange
//! itself is the caller's, as are the clocks; everything that decides is
//! here.

use vstd::prelude::*;

use crate::text::{chars_of, string_of, strip_trailing, strip_trailing_chars, trim_of, trim_str};

verus! {

/// The default timeout for one correction exchange, in milliseconds.
pub fn default_timeout_ms() -> (r: u64)
    ensures
        r == 3000,
{
    3000
}

/// The outcome of one correction attempt. `changed` being false, or a
/// corrected text that is blank once trimmed, means nothing should be
/// replaced.
#[derive(Debug)]
pub struct CorrectionResult {
    pub original: String,
    pub corrected: String,
    pub changed: bool,
    pub latency_ms: u64,
}

/// A correction outcome, as specifications see it.
pub struct SpecCorrectionResult {
    pub original: Seq<char>,
    pub corrected: Seq<char>,
    pub changed: bool,
    pub latency_ms: u64,
}

impl View for CorrectionResult {
    type V = SpecCorrectionResult;

    open spec fn view(&self) -> SpecCorrectionResult {
        SpecCorrectionResult {
            original: self.original@,
            corrected: self.corrected@,
            changed: self.changed,
            latency_ms: self.latency_ms,
        }
    }
}

/// The capability every correction backend offers: refine a transcript,
/// and answer whether the service is reachable.
pub trait LlmEngine {
    fn correct(&self, text: &str) -> Result<CorrectionResult, LlmError>;

    fn health_check(&self) -> bool;
}

/// Which correction backend runs, if any.
#[derive(Debug)]
pub enum LlmConfig {
    Disabled,
    OpenAiCompat { endpoint: String, api_key: String, model: String, timeout_ms: u64 },
    Ollama { endpoint: String, model: String, timeout_ms: u64 },
}

impl Default for LlmConfig {
    fn default() -> (r: LlmConfig)
        ensures
            r is Disabled,
    {
        LlmConfig::Disabled
    }
}

/// Why a correction backend could not be built.
#[derive(Debug)]
pub enum LlmError {
    EmptyEndpoint,
    EmptyApiKey,
    EmptyModel,
}

impl LlmError {
    /// A user-readable description of the error.
    pub fn message(&self) -> (r: String)
        ensures
            *self is EmptyEndpoint ==> r@ == "LLM endpoint 不能为空"@,
            *self is EmptyApiKey ==> r@ == "LLM api_key 不能为空"@,
            *self is EmptyModel ==> r@ == "LLM model 不能为空"@,
    {
        match self {
            LlmError::EmptyEndpoint => "LLM endpoint 不能为空".to_owned(),
            LlmError::EmptyApiKey => "LLM api_key 不能为空".to_owned(),
            LlmError::EmptyModel => "LLM model 不能为空".to_owned(),
        }
    }
}

/// An endpoint as configured, cleaned for use: trimmed, with trailing
/// slashes removed.
pub open spec fn cleaned_endpoint(s: Seq<char>) -> Seq<char> {
    strip_trailing(trim_of(s), '/')
}

/// Trim `s` and strip trailing slashes.
fn clean_endpoint(s: &str) -> (r: String)
    ensures
        r@ == cleaned_endpoint(s@),
{
    let trimmed = trim_str(s);
    let mut chars = chars_of(trimmed.as_str());
    strip_trailing_chars(&mut chars, '/');
    string_of(&chars)
}

/// A backend that never changes anything: correction disabled.
pub struct DisabledEngine;

/// The outcome when no correction is attempted or the reply is unusable:
/// the text stands as it is and nothing changed.
pub fn blank_correction(text: &str) -> (r: CorrectionResult)
    ensures
        r@.original == text@,
        r@.corrected == text@,
        !r@.changed,
        r@.latency_ms == 0,
{
    CorrectionResult {
        original: text.to_owned(),
        corrected: text.to_owned(),
        changed: false,
        latency_ms: 0,
    }
}

/// What a correction reply means. The reply is trimmed; a blank reply
/// falls back to the trimmed input; `changed` holds exactly when the
/// corrected text differs from the trimmed input.
pub fn correction_outcome(text: &str, reply: &str, latency_ms: u64) -> (r: CorrectionResult)
    ensures
        r@.original == trim_of(text@),
        r@.corrected == if trim_of(reply@).len() == 0 {
            trim_of(text@)
        } else {
            trim_of(reply@)
        },
        r@.changed == (r@.corrected != trim_of(text@)),
        r@.latency_ms == latency_ms,
{
    let input = trim_str(text);
    let trimmed_reply = trim_str(reply);
    let corrected: String = if trimmed_reply.as_str().is_empty() {
        input.clone()
    } else {
        trimmed_reply
    };
    let changed = !(corrected == input);
    CorrectionResult { original: input, corrected, changed, latency_ms }
}

impl DisabledEngine {
    /// Correction disabled: hand the text back unchanged, immediately.
    pub fn correct_value(&self, text: &str) -> (r: CorrectionResult)
        ensures
            r@.original == text@,
            r@.corrected == text@,
            !r@.changed,
            r@.latency_ms == 0,
    {
        blank_correction(text)
    }
}

impl LlmEngine for DisabledEngine {
    fn correct(&self, text: &str) -> Result<CorrectionResult, LlmError> {
        Ok(self.correct_value(text))
    }

    fn health_check(&self) -> bool {
        true
    }
}

/// The validated settings for an OpenAI-compatible correction service; the
/// HTTP client that uses them lives with the caller.
pub struct OpenAiCompatEngine {
    pub endpoint: String,
    pub api_key: String,
    pub model: String,
    pub timeout_ms: u64,
}

impl OpenAiCompatEngine {
    /// Validate the configuration: endpoint, key and model must be
    /// non-blank; the timeout is raised to at least 200 ms.
    pub fn new(endpoint: String, api_key: String, model: String, timeout_ms: u64) -> (r: Result<
        OpenAiCompatEngine,
        LlmError,
    >)
        ensures
            cleaned_endpoint(endpoint@).len() == 0 ==> r matches Err(LlmError::EmptyEndpoint),
            cleaned_endpoint(endpoint@).len() > 0 && trim_of(api_key@).len() == 0 ==> r matches Err(
                LlmError::EmptyApiKey,
            ),
            cleaned_endpoint(endpoint@).len() > 0 && trim_of(api_key@).len() > 0 && trim_of(
                model@,
            ).len() == 0 ==> r matches Err(LlmError::EmptyModel),
            cleaned_endpoint(endpoint@).len() > 0 && trim_of(api_key@).len() > 0 && trim_of(
                model@,
            ).len() > 0 ==> {
                &&& r matches Ok(e)
                &&& e.endpoint@ == cleaned_endpoint(endpoint@)
                &&& e.api_key@ == trim_of(api_key@)
                &&& e.model@ == trim_of(model@)
                &&& e.timeout_ms == if timeout_ms >= 200 {
                    timeout_ms
                } else {
                    200u64
                }
            },
    {
        let endpoint = clean_endpoint(endpoint.as_str());
        if endpoint.as_str().is_empty() {
            return Err(LlmError::EmptyEndpoint);
        }
        let api_key = trim_str(api_key.as_str());
        if api_key.as_str().is_empty() {
            return Err(LlmError::EmptyApiKey);
        }
        let model = trim_str(model.as_str());
        if model.as_str().is_empty() {
            return Err(LlmError::EmptyModel);
        }
        let timeout = if timeout_ms >= 200 {
            timeout_ms
        } else {
            200
        };
        Ok(OpenAiCompatEngine { endpoint, api_key, model, timeout_ms: timeout })
    }
}

/// The validated settings for a local Ollama correction service.
pub struct OllamaEngine {
    pub endpoint: String,
    pub model: String,
    pub timeout_ms: u64,
}

impl OllamaEngine {
    /// Validate the configuration: endpoint and model must be non-blank;
    /// the timeout is raised to at least 200 ms.
    pub fn new(endpoint: String, model: String, timeout_ms: u64) -> (r: Result<
        OllamaEngine,
        LlmError,
    >)
        ensures
            cleaned_endpoint(endpoint@).len() == 0 ==> r matches Err(LlmError::EmptyEndpoint),
            cleaned_endpoint(endpoint@).len() > 0 && trim_of(model@).len() == 0 ==> r matches Err(
                LlmError::EmptyModel,
            ),
            cleaned_endpoint(endpoint@).len() > 0 && trim_of(model@).len() > 0 ==> {
                &&& r matches Ok(e)
                &&& e.endpoint@ == cleaned_endpoint(endpoint@)
                &&& e.model@ == trim_of(model@)
                &&& e.timeout_ms == if timeout_ms >= 200 {
                    timeout_ms
                } else {
                    200u64
                }
            },
    {
        let endpoint = clean_endpoint(endpoint.as_str());
        if endpoint.as_str().is_empty() {
            return Err(LlmError::EmptyEndpoint);
        }
        let model = trim_str(model.as_str());
        if model.as_str().is_empty() {
            return Err(LlmError::EmptyModel);
        }
        let timeout = if timeout_ms >= 200 {
            timeout_ms
        } else {
            200
        };
        Ok(OllamaEngine { endpoint, model, timeout_ms: timeout })
    }
}

/// The backend an `LlmConfig` selects, with its settings validated.
pub enum LlmSelection {
    Disabled(DisabledEngine),
    OpenAiCompat(OpenAiCompatEngine),
    Ollama(OllamaEngine),
}

/// Build the correction backend that the configuration selects, validating
/// its settings.
pub fn create_engine(config: &LlmConfig) -> (r: Result<LlmSelection, LlmError>)
    ensures
        config is Disabled ==> r matches Ok(LlmSelection::Disabled(_)),
        config matches LlmConfig::OpenAiCompat { endpoint, api_key, model, timeout_ms } ==> match r {
            Ok(sel) => sel matches LlmSelection::OpenAiCompat(e) && e.endpoint@
                == cleaned_endpoint(endpoint@) && e.api_key@ == trim_of(api_key@) && e.model@
                == trim_of(model@),
            Err(_) => cleaned_endpoint(endpoint@).len() == 0 || trim_of(api_key@).len() == 0
                || trim_of(model@).len() == 0,
        },
        config matches LlmConfig::Ollama { endpoint, model, timeout_ms } ==> match r {
            Ok(sel) => sel matches LlmSelection::Ollama(e) && e.endpoint@ == cleaned_endpoint(
                endpoint@,
            ) && e.model@ == trim_of(model@),
            Err(_) => cleaned_endpoint(endpoint@).len() == 0 || trim_of(model@).len() == 0,
        },
{
    match config {
        LlmConfig::Disabled => Ok(LlmSelection::Disabled(DisabledEngine)),
        LlmConfig::OpenAiCompat { endpoint, api_key, model, timeout_ms } => {
            match OpenAiCompatEngine::new(
                endpoint.clone(),
                api_key.clone(),
                model.clone(),
                *timeout_ms,
            ) {
                Ok(e) => Ok(LlmSelection::OpenAiCompat(e)),
                Err(e) => Err(e),
            }
        },
        LlmConfig::Ollama { endpoint, model, timeout_ms } => {
            match OllamaEngine::new(endpoint.clone(), model.clone(), *timeout_ms) {
                Ok(e) => Ok(LlmSelection::Ollama(e)),
                Err(e) => Err(e),
            }
        },
    }
}

} // verus!
