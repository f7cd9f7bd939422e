//! The streaming recognition session client: one session at a time over a
//! connection the caller owns. The client builds the control frames, cuts
//! fed PCM into codec-sized frames in order, and decides, for every inbound
//! frame while a stop is pending, whether the wait is over.

use vstd::prelude::*;

use crate::audio::{
    chunked, frame_rem, frame_size_for, frames_views, is_supported_rate, supported_rate,
    FrameBuffer,
};
use crate::protocol::{
    opt_string_view, spec_start_frame, spec_stop_frame, start_frame, stop_frame, ClientContext,
    ServerEvent, SpecServerEvent,
};

verus! {

/// The capture context handed to the service when a session starts.
pub struct AsrContext {
    pub app_name: String,
    pub window_title: String,
}

impl Default for AsrContext {
    fn default() -> (r: AsrContext)
        ensures
            r.app_name@ == Seq::<char>::empty(),
            r.window_title@ == Seq::<char>::empty(),
    {
        AsrContext { app_name: String::new(), window_title: String::new() }
    }
}

/// A recognition event surfaced to observers; partial results are reserved
/// by the protocol but unused.
pub enum AsrEvent {
    Partial { text: String },
    Final { text: String },
    Error { message: String },
}

#[derive(Clone, Copy, Debug, PartialEq, Eq, Structural)]
pub enum CloudProvider {
    Deepgram,
    Xfyun,
    Aliyun,
}

/// How recognition is performed: the platform's own recognizer, a cloud
/// vendor, or a self-hosted service spoken to over a persistent connection.
#[derive(Debug)]
pub enum AsrConfig {
    Native,
    Cloud { provider: CloudProvider, api_key: String, region: Option<String> },
    WebSocket { endpoint: String },
}

pub fn default_websocket_endpoint() -> (r: String)
    ensures
        r@ == "ws://127.0.0.1:8000/ws"@,
{
    "ws://127.0.0.1:8000/ws".to_owned()
}

impl Default for AsrConfig {
    fn default() -> (r: AsrConfig)
        ensures
            r matches AsrConfig::WebSocket { endpoint } && endpoint@ == "ws://127.0.0.1:8000/ws"@,
    {
        AsrConfig::WebSocket { endpoint: default_websocket_endpoint() }
    }
}

/// Why a session could not start or an engine could not be built.
#[derive(Debug)]
pub enum AsrError {
    NativeUnavailable,
    CloudUnavailable { provider: CloudProvider },
    UnsupportedSampleRate { sample_rate: u32 },
}

impl AsrError {
    /// A user-readable description of the error.
    pub fn message(&self) -> (r: String)
        ensures
            *self is NativeUnavailable ==> r@ == "系统原生 ASR 尚未实现"@,
            *self is CloudUnavailable ==> r@ == "云端 ASR 尚未实现"@,
            *self is UnsupportedSampleRate ==> r@
                == "不支持的 Opus 采样率 | Unsupported Opus sample rate"@,
    {
        match self {
            AsrError::NativeUnavailable => "系统原生 ASR 尚未实现".to_owned(),
            AsrError::CloudUnavailable { .. } => "云端 ASR 尚未实现".to_owned(),
            AsrError::UnsupportedSampleRate { .. } => {
                "不支持的 Opus 采样率 | Unsupported Opus sample rate".to_owned()
            },
        }
    }
}

/// Where the client stands in the session exchange.
#[derive(Debug)]
pub enum SessionPhase {
    Inactive,
    Active,
    AwaitingFinal,
}

/// What one inbound frame means for a pending stop.
#[derive(Debug)]
pub enum StopDecision {
    Continue,
    Finished { transcript: String },
    Failed { message: String },
}

/// A trace id on an inbound frame contradicts the session's own: both are
/// present and differ. An absent id is treated as matching.
pub open spec fn trace_mismatch(mine: Option<Seq<char>>, got: Option<Seq<char>>) -> bool {
    mine is Some && got is Some && mine->0 != got->0
}

fn trace_mismatch_check(mine: &Option<String>, got: &Option<String>) -> (r: bool)
    ensures
        r == trace_mismatch(opt_string_view(mine), opt_string_view(got)),
{
    match (mine, got) {
        (Some(t), Some(g)) => !(*t == *g),
        _ => false,
    }
}

/// The session client for the self-hosted recognizer. It holds no socket:
/// the caller performs connection, sending and receiving, and this type
/// decides what to send and what inbound frames mean.
pub struct WebSocketAsrEngine {
    pub endpoint: String,
    pub trace_id: Option<String>,
    pub sample_rate: u32,
    pub buffer: FrameBuffer,
    pub phase: SessionPhase,
}

impl WebSocketAsrEngine {
    pub open spec fn wf(&self) -> bool {
        self.phase is Active ==> (self.trace_id is Some && is_supported_rate(self.sample_rate)
            && self.buffer.frame_size == self.sample_rate as int / 50)
    }

    pub fn new(endpoint: String) -> (r: WebSocketAsrEngine)
        ensures
            r.wf(),
            r.endpoint@ == endpoint@,
            r.phase is Inactive,
            r.trace_id is None,
            r.buffer.buf@.len() == 0,
    {
        WebSocketAsrEngine {
            endpoint,
            trace_id: None,
            sample_rate: 0,
            buffer: FrameBuffer::new(1),
            phase: SessionPhase::Inactive,
        }
    }

    /// Begin a session: any prior session state is discarded, and on
    /// success the returned start frame must be sent on a freshly built
    /// connection. A sample rate outside the codec whitelist is refused and
    /// the client stays out of any session.
    pub fn start(&mut self, trace_id: String, sample_rate: u32, context: &AsrContext) -> (r:
        Result<String, AsrError>)
        ensures
            final(self).wf(),
            final(self).endpoint@ == old(self).endpoint@,
            !is_supported_rate(sample_rate) ==> {
                &&& r matches Err(AsrError::UnsupportedSampleRate { sample_rate: sr }) && sr
                    == sample_rate
                &&& final(self).phase is Inactive
                &&& final(self).trace_id is None
            },
            is_supported_rate(sample_rate) ==> {
                &&& r matches Ok(frame) && frame@ == spec_start_frame(
                    trace_id@,
                    sample_rate,
                    context.app_name@,
                    context.window_title@,
                    false,
                )
                &&& final(self).phase is Active
                &&& final(self).trace_id matches Some(t) && t@ == trace_id@
                &&& final(self).sample_rate == sample_rate
                &&& final(self).buffer.buf@.len() == 0
                &&& final(self).buffer.frame_size == sample_rate as int / 50
            },
    {
        self.trace_id = None;
        self.phase = SessionPhase::Inactive;
        if !supported_rate(sample_rate) {
            return Err(AsrError::UnsupportedSampleRate { sample_rate });
        }
        let frame_size = frame_size_for(sample_rate);
        self.buffer = FrameBuffer::new(frame_size);
        self.sample_rate = sample_rate;
        let client_context = ClientContext {
            app_name: context.app_name.clone(),
            window_title: context.window_title.clone(),
        };
        let frame = start_frame(&trace_id, sample_rate, &client_context, false);
        self.trace_id = Some(trace_id);
        self.phase = SessionPhase::Active;
        Ok(frame)
    }

    /// Feed captured PCM. While a session is active, the samples join the
    /// session's buffer and every whole codec frame now available comes
    /// back, oldest first, for the caller to encode and send in this exact
    /// order. Outside a session nothing is consumed.
    pub fn feed_audio(&mut self, pcm: &Vec<i16>) -> (frames: Vec<Vec<i16>>)
        requires
            old(self).wf(),
        ensures
            final(self).wf(),
            final(self).endpoint@ == old(self).endpoint@,
            old(self).phase is Active ==> {
                &&& frames_views(frames@) == chunked(
                    old(self).buffer.buf@ + pcm@,
                    old(self).buffer.frame_size as nat,
                )
                &&& frames_views(frames@).flatten() + final(self).buffer.buf@ == old(self).buffer.buf@ + pcm@
                &&& final(self).buffer.buf@ == frame_rem(
                    old(self).buffer.buf@ + pcm@,
                    old(self).buffer.frame_size as nat,
                )
                &&& forall|i: int|
                    0 <= i < frames@.len() ==> (#[trigger] frames@[i])@.len() == old(self).buffer.frame_size
                &&& final(self).phase is Active
                &&& final(self).trace_id == old(self).trace_id
                &&& final(self).sample_rate == old(self).sample_rate
                &&& final(self).buffer.frame_size == old(self).buffer.frame_size
            },
            !(old(self).phase is Active) ==> frames@.len() == 0 && *final(self) == *old(self),
    {
        match self.phase {
            SessionPhase::Active => self.buffer.push(pcm),
            _ => Vec::new(),
        }
    }

    /// Ask for the session's result: the returned stop frame must be sent,
    /// and the client then waits for a final transcript or error.
    pub fn stop_request(&mut self) -> (r: String)
        ensures
            final(self).wf(),
            r@ == spec_stop_frame(opt_string_view(&old(self).trace_id)),
            final(self).phase is AwaitingFinal,
            final(self).trace_id == old(self).trace_id,
            final(self).endpoint@ == old(self).endpoint@,
    {
        let frame = stop_frame(&self.trace_id);
        self.phase = SessionPhase::AwaitingFinal;
        frame
    }

    /// Forget any session in progress; the caller drops the connection
    /// alongside. The client is ready for the next start.
    pub fn reset(&mut self)
        ensures
            final(self).wf(),
            final(self).phase is Inactive,
            final(self).trace_id is None,
            final(self).buffer.buf@.len() == 0,
            final(self).endpoint@ == old(self).endpoint@,
    {
        self.trace_id = None;
        self.phase = SessionPhase::Inactive;
        self.buffer.buf.clear();
    }

    /// Decide what one inbound frame means while a stop is pending. A
    /// heartbeat or a server-driven correction never ends the wait; a
    /// transcript or error bearing a different trace id never ends it
    /// either. A transcript or error whose trace id matches -- or carries
    /// none, which counts as matching -- ends the session, and the client
    /// forgets all session state.
    pub fn on_server_event(&mut self, event: &ServerEvent) -> (r: StopDecision)
        requires
            old(self).phase is AwaitingFinal,
        ensures
            final(self).wf(),
            final(self).endpoint@ == old(self).endpoint@,
            (event@ is Pong || event@ is Correction) ==> r is Continue && *final(self) == *old(self),
            event@ matches SpecServerEvent::FastText { trace_id: g, content, is_final } ==> (
            if trace_mismatch(opt_string_view(&old(self).trace_id), g) {
                r is Continue && *final(self) == *old(self)
            } else {
                (r matches StopDecision::Finished { transcript } && transcript@ == content)
                    && final(self).phase is Inactive && final(self).trace_id is None && final(self).buffer.buf@.len() == 0
            }),
            event@ matches SpecServerEvent::Error { trace_id: g, message } ==> (
            if trace_mismatch(opt_string_view(&old(self).trace_id), g) {
                r is Continue && *final(self) == *old(self)
            } else {
                (r matches StopDecision::Failed { message: m } && m@ == message) && final(self).phase is Inactive && final(self).trace_id is None && final(self).buffer.buf@.len() == 0
            }),
    {
        match event {
            ServerEvent::Pong => StopDecision::Continue,
            ServerEvent::Correction { .. } => StopDecision::Continue,
            ServerEvent::FastText { trace_id, content, is_final: _ } => {
                if trace_mismatch_check(&self.trace_id, trace_id) {
                    StopDecision::Continue
                } else {
                    self.reset();
                    StopDecision::Finished { transcript: content.clone() }
                }
            },
            ServerEvent::Error { trace_id, message } => {
                if trace_mismatch_check(&self.trace_id, trace_id) {
                    StopDecision::Continue
                } else {
                    self.reset();
                    StopDecision::Failed { message: message.clone() }
                }
            },
        }
    }

    /// The connection dropped while a result was pending: the wait is over,
    /// the session is forgotten, and the client is ready for the next
    /// start.
    pub fn on_connection_closed(&mut self)
        ensures
            final(self).wf(),
            final(self).phase is Inactive,
            final(self).trace_id is None,
            final(self).buffer.buf@.len() == 0,
            final(self).endpoint@ == old(self).endpoint@,
    {
        self.reset();
    }
}

/// Build the session client that the configuration selects; native and
/// cloud recognition are declared but not provided.
pub fn create_engine(config: &AsrConfig) -> (r: Result<WebSocketAsrEngine, AsrError>)
    ensures
        config matches AsrConfig::WebSocket { endpoint } ==> r matches Ok(engine)
            && engine.endpoint@ == endpoint@ && engine.phase is Inactive
            && engine.trace_id is None && engine.wf(),
        config is Native ==> r matches Err(AsrError::NativeUnavailable),
        config matches AsrConfig::Cloud { provider, .. } ==> r matches Err(
            AsrError::CloudUnavailable { provider: p },
        ) && p == provider,
{
    match config {
        AsrConfig::WebSocket { endpoint } => Ok(WebSocketAsrEngine::new(endpoint.clone())),
        AsrConfig::Native => Err(AsrError::NativeUnavailable),
        AsrConfig::Cloud { provider, .. } => Err(
            AsrError::CloudUnavailable { provider: *provider },
        ),
    }
}

} // verus!
