//! The session orchestrator: one recording episode at a time, each under a
//! fresh, strictly increasing generation number. Starting a session
//! supersedes everything still running under an older generation; stopping
//! one turns the final transcript into an optimistic insert and hands the
//! rest to a correction task keyed to the session's generation.

use vstd::prelude::*;

use crate::asr::{
    create_engine, AsrConfig, AsrContext, AsrError, StopDecision, WebSocketAsrEngine,
};
use crate::audio::{chunked, frame_rem, frames_views};
use crate::correction::{CorrectionTask, MIN_REPLACE_DELAY_MS};
use crate::input::{cmds_view, InjectCommand, SpecInjectCommand};
use crate::llm::{create_engine as create_llm_engine, LlmConfig, LlmError, LlmSelection};
use crate::protocol::{opt_string_view, spec_stop_frame, ServerEvent};
use crate::text::{chars_of, trim_of, trim_str};

verus! {

/// Why the pipeline could not be built or a session could not start.
#[derive(Debug)]
pub enum PipelineError {
    Asr(AsrError),
    Llm(LlmError),
}

/// Where the orchestrator stands: waiting for a press, recording, or
/// handling a finished recording.
#[derive(Debug)]
pub enum PipelineState {
    Idle,
    Recording,
    Processing,
}

/// What starting a session yields: the generation that now supersedes all
/// older work, and the start frame to send on a fresh connection.
pub struct StartOutput {
    pub generation: u64,
    pub start_frame: String,
}

/// What finishing a session yields: the optimistic insert to emit, if the
/// transcript was not blank, and the correction task to run after it.
pub struct StopOutcome {
    pub commands: Vec<InjectCommand>,
    pub correction: Option<CorrectionTask>,
}

/// The session orchestrator.
pub struct Pipeline {
    pub asr: WebSocketAsrEngine,
    pub llm: LlmSelection,
    pub generation: u64,
    pub trace_id: Option<String>,
    pub injected_len: usize,
    pub state: PipelineState,
}

impl Pipeline {
    pub open spec fn wf(&self) -> bool {
        &&& self.asr.wf()
        &&& self.state is Recording ==> self.asr.phase is Active
    }

    /// Build the pipeline from its configuration; both engines must be
    /// buildable.
    pub fn new(asr_config: &AsrConfig, llm_config: &LlmConfig) -> (r: Result<
        Pipeline,
        PipelineError,
    >)
        ensures
            r matches Ok(p) ==> {
                &&& p.wf()
                &&& p.generation == 0
                &&& p.state is Idle
                &&& p.trace_id is None
                &&& p.injected_len == 0
            },
            r matches Ok(p) ==> (asr_config matches AsrConfig::WebSocket { endpoint }
                && p.asr.endpoint@ == endpoint@),
            asr_config is Native || asr_config is Cloud ==> r matches Err(PipelineError::Asr(_)),
    {
        let asr = match create_engine(asr_config) {
            Ok(engine) => engine,
            Err(e) => { return Err(PipelineError::Asr(e)) },
        };
        let llm = match create_llm_engine(llm_config) {
            Ok(engine) => engine,
            Err(e) => { return Err(PipelineError::Llm(e)) },
        };
        Ok(
            Pipeline {
                asr,
                llm,
                generation: 0,
                trace_id: None,
                injected_len: 0,
                state: PipelineState::Idle,
            },
        )
    }

    /// The current session's trace id, while one is being handled.
    pub fn trace_id(&self) -> (r: Option<&str>)
        ensures
            r matches Some(t) ==> self.trace_id matches Some(mine) && t@ == mine@,
            r is None ==> self.trace_id is None,
    {
        match &self.trace_id {
            Some(t) => Some(t.as_str()),
            None => None,
        }
    }

    /// Whether a press may start a session now; a press while one is
    /// already running is ignored by the caller.
    pub fn press_allowed(&self) -> (r: bool)
        ensures
            r == (self.state is Idle),
    {
        matches!(self.state, PipelineState::Idle)
    }

    /// Whether a release has a session to stop; a release while idle is
    /// ignored by the caller.
    pub fn release_allowed(&self) -> (r: bool)
        ensures
            r == (self.state is Recording),
    {
        matches!(self.state, PipelineState::Recording)
    }

    /// Start a session: the generation advances — which by itself
    /// supersedes every task still holding an older generation — and the
    /// recognition session begins. On failure the pipeline stays idle, but
    /// the generation stays advanced: older work remains superseded.
    pub fn start(&mut self, trace_id: String, sample_rate: u32, context: &AsrContext) -> (r:
        Result<StartOutput, AsrError>)
        requires
            old(self).wf(),
            old(self).state is Idle,
            old(self).generation < u64::MAX,
        ensures
            final(self).wf(),
            final(self).generation == old(self).generation + 1,
            r matches Ok(out) ==> {
                &&& out.generation == final(self).generation
                &&& final(self).state is Recording
                &&& final(self).trace_id matches Some(t) && t@ == trace_id@
                &&& final(self).injected_len == 0
                &&& final(self).asr.phase is Active
                &&& out.start_frame@ == crate::protocol::spec_start_frame(
                    trace_id@,
                    sample_rate,
                    context.app_name@,
                    context.window_title@,
                    false,
                )
            },
            r is Err ==> final(self).state is Idle && final(self).trace_id is None,
            r is Err <==> !crate::audio::is_supported_rate(sample_rate),
    {
        let generation = self.generation + 1;
        self.generation = generation;
        self.trace_id = Some(trace_id.clone());
        self.injected_len = 0;
        match self.asr.start(trace_id, sample_rate, context) {
            Ok(start_frame) => {
                self.state = PipelineState::Recording;
                Ok(StartOutput { generation, start_frame })
            },
            Err(e) => {
                self.trace_id = None;
                self.state = PipelineState::Idle;
                Err(e)
            },
        }
    }

    /// Feed captured PCM to the session; every whole codec frame now
    /// available comes back, oldest first, to be encoded and sent in this
    /// exact order.
    pub fn feed_audio(&mut self, pcm: &Vec<i16>) -> (frames: Vec<Vec<i16>>)
        requires
            old(self).wf(),
            old(self).state is Recording,
        ensures
            final(self).wf(),
            final(self).state == old(self).state,
            final(self).generation == old(self).generation,
            frames_views(frames@) == chunked(
                old(self).asr.buffer.buf@ + pcm@,
                old(self).asr.buffer.frame_size as nat,
            ),
            frames_views(frames@).flatten() + final(self).asr.buffer.buf@ == old(
                self,
            ).asr.buffer.buf@ + pcm@,
            final(self).asr.buffer.buf@ == frame_rem(
                old(self).asr.buffer.buf@ + pcm@,
                old(self).asr.buffer.frame_size as nat,
            ),
            forall|i: int|
                0 <= i < frames@.len() ==> (#[trigger] frames@[i])@.len() == old(
                    self,
                ).asr.buffer.frame_size,
    {
        self.asr.feed_audio(pcm)
    }

    /// Ask the recognizer for the session's result; the returned stop
    /// frame must be sent, and inbound frames then go to
    /// `on_server_event` until one of them ends the wait.
    pub fn stop_request(&mut self) -> (r: String)
        requires
            old(self).wf(),
            old(self).state is Recording,
        ensures
            final(self).wf(),
            r@ == spec_stop_frame(opt_string_view(&old(self).asr.trace_id)),
            final(self).state is Processing,
            final(self).generation == old(self).generation,
            final(self).trace_id == old(self).trace_id,
    {
        self.state = PipelineState::Processing;
        self.asr.stop_request()
    }

    /// Decide what one inbound frame means for the pending stop; see the
    /// session client for the trace-id matching rule.
    pub fn on_server_event(&mut self, event: &ServerEvent) -> (r: StopDecision)
        requires
            old(self).wf(),
            old(self).state is Processing,
            old(self).asr.phase is AwaitingFinal,
        ensures
            final(self).wf(),
            final(self).state is Processing,
            final(self).generation == old(self).generation,
            final(self).trace_id == old(self).trace_id,
            (event@ is Pong || event@ is Correction) ==> r is Continue,
            event@ matches crate::protocol::SpecServerEvent::FastText { trace_id: g, content, .. }
                ==> (if crate::asr::trace_mismatch(
                opt_string_view(&old(self).asr.trace_id),
                g,
            ) {
                r is Continue
            } else {
                r matches StopDecision::Finished { transcript } && transcript@ == content
            }),
            event@ matches crate::protocol::SpecServerEvent::Error { trace_id: g, message } ==> (
            if crate::asr::trace_mismatch(opt_string_view(&old(self).asr.trace_id), g) {
                r is Continue
            } else {
                r matches StopDecision::Failed { message: m } && m@ == message
            }),
    {
        self.asr.on_server_event(event)
    }

    /// The wait ended with a transcript: trim it; a blank transcript does
    /// nothing further, and anything else becomes one optimistic insert
    /// plus a correction task under this session's generation, injected at
    /// `now_ms`.
    pub fn finish(&mut self, session_gen: u64, transcript: &str, now_ms: u64) -> (r: StopOutcome)
        requires
            old(self).wf(),
            old(self).state is Processing,
            now_ms + MIN_REPLACE_DELAY_MS <= u64::MAX,
        ensures
            final(self).wf(),
            final(self).state is Idle,
            final(self).trace_id is None,
            final(self).injected_len == 0,
            final(self).generation == old(self).generation,
            trim_of(transcript@).len() == 0 ==> r.commands@.len() == 0 && r.correction is None,
            trim_of(transcript@).len() > 0 ==> {
                &&& cmds_view(r.commands@) == seq![
                    SpecInjectCommand::TypeText {
                        trace_id: opt_string_view(&old(self).trace_id),
                        text: trim_of(transcript@),
                    },
                ]
                &&& r.correction matches Some(task)
                &&& task.wf()
                &&& task.session_gen == session_gen
                &&& task.injected_at_ms == now_ms
                &&& task.injected_len == trim_of(transcript@).len()
                &&& task.phase is AwaitingCorrection
                &&& opt_string_view(&task.trace_id) == opt_string_view(&old(self).trace_id)
            },
    {
        self.state = PipelineState::Idle;
        let trimmed = trim_str(transcript);
        if trimmed.as_str().is_empty() {
            self.trace_id = None;
            self.injected_len = 0;
            return StopOutcome { commands: Vec::new(), correction: None };
        }
        let trimmed_chars = chars_of(trimmed.as_str());
        let injected_len = trimmed_chars.len();
        self.injected_len = injected_len;
        let trace_id = self.trace_id.clone();
        let mut commands: Vec<InjectCommand> = Vec::new();
        commands.push(InjectCommand::TypeText { trace_id: trace_id.clone(), text: trimmed });
        let task = CorrectionTask::new(session_gen, trace_id, now_ms, injected_len);
        self.trace_id = None;
        self.injected_len = 0;
        proof {
            assert(cmds_view(commands@) =~= seq![
                SpecInjectCommand::TypeText {
                    trace_id: opt_string_view(&old(self).trace_id),
                    text: trim_of(transcript@),
                },
            ]);
        }
        StopOutcome { commands, correction: Some(task) }
    }

    /// The wait ended in an error, or the connection dropped: clear the
    /// session and return to idle, ready for the next press.
    pub fn abort(&mut self)
        ensures
            final(self).wf(),
            final(self).state is Idle,
            final(self).trace_id is None,
            final(self).injected_len == 0,
            final(self).generation == old(self).generation,
    {
        self.asr.on_connection_closed();
        self.state = PipelineState::Idle;
        self.trace_id = None;
        self.injected_len = 0;
    }
}

/// The character standing for one base-62 digit: the decimal digits, then
/// the lowercase letters, then the uppercase letters.
pub open spec fn base62_digit(n: nat) -> char
    recommends
        n < 62,
{
    if n < 10 {
        ((48 + n) as u32) as char
    } else if n < 36 {
        ((87 + n) as u32) as char
    } else {
        ((29 + n) as u32) as char
    }
}

/// The last `width` base-62 digits of `n`, most significant first,
/// zero-padded.
pub open spec fn base62_fixed(n: nat, width: nat) -> Seq<char>
    decreases width,
{
    if width == 0 {
        Seq::empty()
    } else {
        base62_fixed(n / 62, (width - 1) as nat).push(base62_digit(n % 62))
    }
}

pub proof fn lemma_base62_fixed_len(n: nat, width: nat)
    ensures
        base62_fixed(n, width).len() == width,
    decreases width,
{
    if width > 0 {
        lemma_base62_fixed_len(n / 62, (width - 1) as nat);
    }
}

fn push_base62_digit(out: &mut Vec<char>, n: u64)
    requires
        n < 62,
    ensures
        final(out)@ == old(out)@.push(base62_digit(n as nat)),
{
    let v: u32 = if n < 10 {
        48 + n as u32
    } else if n < 36 {
        87 + n as u32
    } else {
        29 + n as u32
    };
    let Some(c) = crate::json::char_from_u32(v) else {
        proof {
            assert(false);
        }
        return ;
    };
    proof {
        vstd::utf8::char_u32_cast(c, v);
    }
    out.push(c);
}

fn push_base62(out: &mut Vec<char>, n: u64, width: usize)
    ensures
        final(out)@ == old(out)@ + base62_fixed(n as nat, width as nat),
    decreases width,
{
    if width == 0 {
        proof {
            assert(out@ =~= out@ + base62_fixed(n as nat, 0));
        }
        return ;
    }
    push_base62(out, n / 62, width - 1);
    push_base62_digit(out, n % 62);
    proof {
        assert(out@ =~= old(out)@ + base62_fixed(n as nat, width as nat));
    }
}

/// Write `micros` as six base-62 digits, most significant first.
pub fn encode_trace_id(micros: u64) -> (r: String)
    ensures
        r@ == base62_fixed(micros as nat, 6),
        r@.len() == 6,
{
    let mut out: Vec<char> = Vec::new();
    push_base62(&mut out, micros, 6);
    proof {
        lemma_base62_fixed_len(micros as nat, 6);
    }
    crate::text::string_of(&out)
}

/// Relies on SystemTime::now and duration_since: the number of
/// microseconds since the Unix epoch, or zero when the clock stands before
/// it.
#[verifier::external_body]
fn unix_micros() -> u64 {
    std::time::SystemTime::now().duration_since(std::time::UNIX_EPOCH).map(
        |d| d.as_micros() as u64,
    ).unwrap_or(0)
}

/// A fresh six-character session trace id drawn from the clock.
pub fn generate_trace_id() -> (r: String)
    ensures
        r@.len() == 6,
{
    encode_trace_id(unix_micros())
}

} // verus!
