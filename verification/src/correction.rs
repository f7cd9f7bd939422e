//! The correction scheduler: after a transcript has been optimistically
//! typed, a correction may replace it — but never before a minimum dwell
//! time has passed since the optimistic insert, never for a superseded
//! session, and never when the correction changed nothing.
//!
//! The task holds no clock and no timers: the caller reports when the
//! correction arrived and when a requested sleep has elapsed, and the task
//! decides what, if anything, to emit.

use vstd::prelude::*;

use crate::input::{InjectCommand, SpecInjectCommand};
use crate::llm::{CorrectionResult, SpecCorrectionResult};
use crate::protocol::opt_string_view;
use crate::text::{trim_of, trim_str};

verus! {

/// The least time, in milliseconds, that must pass between the optimistic
/// insert and any replacement of it.
pub const MIN_REPLACE_DELAY_MS: u64 = 500;

/// How long the task must still wait at `now_ms` before it may replace
/// text injected at `injected_at_ms`.
pub open spec fn spec_remaining_delay(injected_at_ms: int, now_ms: int) -> int {
    if now_ms < injected_at_ms + MIN_REPLACE_DELAY_MS {
        injected_at_ms + MIN_REPLACE_DELAY_MS - now_ms
    } else {
        0
    }
}

/// Replacement happens exactly when the session is still current, the
/// correction succeeded and reported a change, and the corrected text is
/// not blank once trimmed.
pub open spec fn spec_should_replace(
    outcome: Option<SpecCorrectionResult>,
    current_gen: u64,
    session_gen: u64,
) -> bool {
    &&& current_gen == session_gen
    &&& outcome matches Some(c) && c.changed && trim_of(c.corrected).len() > 0
}

/// The replacement pair for a correction: delete exactly the characters
/// that were optimistically inserted, then type the corrected text.
pub open spec fn spec_replacement_shape(
    cmds: Seq<SpecInjectCommand>,
    trace_id: Option<Seq<char>>,
    injected_len: usize,
    corrected: Seq<char>,
) -> bool {
    &&& cmds.len() == 2
    &&& cmds[0] == (SpecInjectCommand::Backspace { trace_id, count: injected_len })
    &&& cmds[1] == (SpecInjectCommand::TypeText { trace_id, text: trim_of(corrected) })
}

/// Where the correction task stands: waiting for the correction reply,
/// waiting out the dwell time with the reply in hand, or finished.
pub enum CorrectionTaskPhase {
    AwaitingCorrection,
    AwaitingDelay { wake_at_ms: u64, outcome: Option<CorrectionResult> },
    Done,
}

/// One session's correction task. `outcome` of `None` stands for a failed
/// correction call, which is swallowed: it never surfaces and never emits.
pub struct CorrectionTask {
    pub session_gen: u64,
    pub trace_id: Option<String>,
    pub injected_at_ms: u64,
    pub injected_len: usize,
    pub phase: CorrectionTaskPhase,
}

impl CorrectionTask {
    pub open spec fn wf(&self) -> bool {
        &&& self.injected_at_ms + MIN_REPLACE_DELAY_MS <= u64::MAX
        &&& self.phase matches CorrectionTaskPhase::AwaitingDelay { wake_at_ms, .. }
            ==> wake_at_ms == self.injected_at_ms + MIN_REPLACE_DELAY_MS
    }

    /// Begin a correction task for text injected at `injected_at_ms`,
    /// `injected_len` characters long, under the given session generation.
    pub fn new(
        session_gen: u64,
        trace_id: Option<String>,
        injected_at_ms: u64,
        injected_len: usize,
    ) -> (r: CorrectionTask)
        requires
            injected_at_ms + MIN_REPLACE_DELAY_MS <= u64::MAX,
        ensures
            r.wf(),
            r.session_gen == session_gen,
            opt_string_view(&r.trace_id) == opt_string_view(&trace_id),
            r.injected_at_ms == injected_at_ms,
            r.injected_len == injected_len,
            r.phase is AwaitingCorrection,
    {
        CorrectionTask {
            session_gen,
            trace_id,
            injected_at_ms,
            injected_len,
            phase: CorrectionTaskPhase::AwaitingCorrection,
        }
    }

    /// A new session superseded this one while the task was suspended: the
    /// task unwinds without emitting anything, and that is not an error.
    pub fn on_cancelled(&mut self)
        ensures
            final(self).phase is Done,
            final(self).session_gen == old(self).session_gen,
            final(self).injected_at_ms == old(self).injected_at_ms,
    {
        self.phase = CorrectionTaskPhase::Done;
    }

    fn decide(&mut self, outcome: Option<CorrectionResult>, now_ms: u64, current_gen: u64) -> (r:
        Vec<InjectCommand>)
        requires
            old(self).wf(),
        ensures
            final(self).wf(),
            final(self).phase is Done,
            final(self).injected_at_ms == old(self).injected_at_ms,
            final(self).session_gen == old(self).session_gen,
            final(self).injected_len == old(self).injected_len,
            opt_string_view(&final(self).trace_id) == opt_string_view(&old(self).trace_id),
            if spec_should_replace(
                match outcome {
                    Some(c) => Some(c@),
                    None => None,
                },
                current_gen,
                old(self).session_gen,
            ) {
                spec_replacement_shape(
                    crate::input::cmds_view(r@),
                    opt_string_view(&old(self).trace_id),
                    old(self).injected_len,
                    outcome->0@.corrected,
                )
            } else {
                r@.len() == 0
            },
    {
        self.phase = CorrectionTaskPhase::Done;
        let mut cmds: Vec<InjectCommand> = Vec::new();
        if current_gen != self.session_gen {
            return cmds;
        }
        let Some(correction) = outcome else { return cmds };
        if !correction.changed {
            return cmds;
        }
        let corrected = trim_str(correction.corrected.as_str());
        if corrected.as_str().is_empty() {
            return cmds;
        }
        cmds.push(
            InjectCommand::Backspace { trace_id: self.trace_id.clone(), count: self.injected_len },
        );
        cmds.push(InjectCommand::TypeText { trace_id: self.trace_id.clone(), text: corrected });
        proof {
            assert(crate::input::cmds_view(cmds@) =~= Seq::<SpecInjectCommand>::empty().push(
                cmds@[0]@,
            ).push(cmds@[1]@));
        }
        cmds
    }

    /// The correction call came back, or failed, at `now_ms`. If the dwell
    /// time has not yet passed, the task asks to sleep for exactly the
    /// remainder and emits nothing now; otherwise it decides at once. No
    /// extra delay is added when the correction itself was slow.
    pub fn on_correction(
        &mut self,
        outcome: Option<CorrectionResult>,
        now_ms: u64,
        current_gen: u64,
    ) -> (r: Option<Vec<InjectCommand>>)
        requires
            old(self).wf(),
            old(self).phase is AwaitingCorrection,
            now_ms >= old(self).injected_at_ms,
        ensures
            final(self).wf(),
            final(self).session_gen == old(self).session_gen,
            final(self).injected_at_ms == old(self).injected_at_ms,
            final(self).injected_len == old(self).injected_len,
            opt_string_view(&final(self).trace_id) == opt_string_view(&old(self).trace_id),
            spec_remaining_delay(old(self).injected_at_ms as int, now_ms as int) > 0 ==> {
                &&& r is None
                &&& final(self).phase matches CorrectionTaskPhase::AwaitingDelay {
                    wake_at_ms,
                    outcome: stored,
                } && wake_at_ms == old(self).injected_at_ms + MIN_REPLACE_DELAY_MS && stored
                    == outcome
            },
            spec_remaining_delay(old(self).injected_at_ms as int, now_ms as int) == 0 ==> {
                &&& final(self).phase is Done
                &&& r matches Some(cmds)
                &&& if spec_should_replace(
                    match outcome {
                        Some(c) => Some(c@),
                        None => None,
                    },
                    current_gen,
                    old(self).session_gen,
                ) {
                    spec_replacement_shape(
                        crate::input::cmds_view(cmds@),
                        opt_string_view(&old(self).trace_id),
                        old(self).injected_len,
                        outcome->0@.corrected,
                    )
                } else {
                    cmds@.len() == 0
                }
            },
    {
        if now_ms < self.injected_at_ms + MIN_REPLACE_DELAY_MS {
            let wake_at_ms = self.injected_at_ms + MIN_REPLACE_DELAY_MS;
            self.phase = CorrectionTaskPhase::AwaitingDelay { wake_at_ms, outcome };
            None
        } else {
            Some(self.decide(outcome, now_ms, current_gen))
        }
    }

    /// How long the requested sleep is, from `now_ms`: exactly the
    /// remainder of the dwell time.
    pub fn sleep_duration(&self, now_ms: u64) -> (r: u64)
        requires
            self.wf(),
            self.phase is AwaitingDelay,
            now_ms >= self.injected_at_ms,
        ensures
            r == spec_remaining_delay(self.injected_at_ms as int, now_ms as int),
    {
        match &self.phase {
            CorrectionTaskPhase::AwaitingDelay { wake_at_ms, .. } => {
                if now_ms < *wake_at_ms {
                    *wake_at_ms - now_ms
                } else {
                    0
                }
            },
            _ => 0,
        }
    }

    /// The requested sleep has elapsed: the clock now stands at or past the
    /// dwell deadline, and the stored correction is decided. Commands can
    /// only come out of this step when at least the minimum dwell time has
    /// passed since the optimistic insert.
    pub fn on_delay_elapsed(&mut self, now_ms: u64, current_gen: u64) -> (r: Vec<InjectCommand>)
        requires
            old(self).wf(),
            old(self).phase matches CorrectionTaskPhase::AwaitingDelay { wake_at_ms, .. }
                && now_ms >= wake_at_ms,
        ensures
            final(self).phase is Done,
            final(self).injected_at_ms == old(self).injected_at_ms,
            r@.len() > 0 ==> now_ms >= old(self).injected_at_ms + MIN_REPLACE_DELAY_MS,
            old(self).phase matches CorrectionTaskPhase::AwaitingDelay { outcome, .. } ==> if
                spec_should_replace(
                match outcome {
                    Some(c) => Some(c@),
                    None => None,
                },
                current_gen,
                old(self).session_gen,
            ) {
                spec_replacement_shape(
                    crate::input::cmds_view(r@),
                    opt_string_view(&old(self).trace_id),
                    old(self).injected_len,
                    outcome->0@.corrected,
                )
            } else {
                r@.len() == 0
            },
    {
        let mut phase = CorrectionTaskPhase::Done;
        core::mem::swap(&mut self.phase, &mut phase);
        match phase {
            CorrectionTaskPhase::AwaitingDelay { outcome, .. } => {
                self.decide(outcome, now_ms, current_gen)
            },
            _ => Vec::new(),
        }
    }
}

/// However long the correction call takes (any latency at all), waiting
/// out the remaining delay lands at or after the minimum dwell deadline:
/// replacement never comes earlier than the optimistic insert plus the
/// minimum delay.
pub proof fn lemma_replacement_never_early(injected_at_ms: int, now_ms: int)
    requires
        now_ms >= injected_at_ms,
    ensures
        now_ms + spec_remaining_delay(injected_at_ms, now_ms) >= injected_at_ms
            + MIN_REPLACE_DELAY_MS,
        spec_remaining_delay(injected_at_ms, now_ms) == 0 <==> now_ms >= injected_at_ms
            + MIN_REPLACE_DELAY_MS,
{
}

/// A superseded session never replaces: when the live generation has moved
/// past the task's, no outcome can satisfy the replacement condition, so
/// no delete or insert is ever emitted for it.
pub proof fn lemma_superseded_never_replaces(
    outcome: Option<SpecCorrectionResult>,
    current_gen: u64,
    session_gen: u64,
)
    requires
        current_gen != session_gen,
    ensures
        !spec_should_replace(outcome, current_gen, session_gen),
{
}

/// A correction that reports no change, or whose corrected text is blank
/// once trimmed, or that failed outright, replaces nothing.
pub proof fn lemma_no_change_never_replaces(
    outcome: Option<SpecCorrectionResult>,
    current_gen: u64,
    session_gen: u64,
)
    requires
        outcome is None || !outcome->0.changed || trim_of(outcome->0.corrected).len() == 0,
    ensures
        !spec_should_replace(outcome, current_gen, session_gen),
{
}

} // verus!
