use ghosttype::asr::{AsrConfig, AsrContext, StopDecision};
use ghosttype::correction::{CorrectionTask, MIN_REPLACE_DELAY_MS};
use ghosttype::input::InjectCommand;
use ghosttype::llm::{blank_correction, correction_outcome, CorrectionResult, LlmConfig};
use ghosttype::pipeline::Pipeline;
use ghosttype::protocol::ServerEvent;

fn test_pipeline() -> Pipeline {
    Pipeline::new(
        &AsrConfig::WebSocket { endpoint: "ws://127.0.0.1:8000/ws".to_string() },
        &LlmConfig::Disabled,
    )
    .expect("pipeline")
}

fn correction(corrected: &str, changed: bool, latency_ms: u64) -> CorrectionResult {
    CorrectionResult {
        original: "original".to_string(),
        corrected: corrected.to_string(),
        changed,
        latency_ms,
    }
}

#[test]
fn pipeline_replaces_only_after_the_dwell_time() {
    let mut pipeline = test_pipeline();
    let started = pipeline
        .start("t1".to_string(), 16000, &AsrContext::default())
        .expect("start");
    pipeline.stop_request();
    let decision = pipeline.on_server_event(&ServerEvent::FastText {
        trace_id: Some("t1".to_string()),
        content: "你好".to_string(),
        is_final: Some(true),
    });
    let transcript = match decision {
        StopDecision::Finished { transcript } => transcript,
        other => panic!("unexpected decision: {other:?}"),
    };

    let now: u64 = 10_000;
    let outcome = pipeline.finish(started.generation, &transcript, now);
    assert_eq!(outcome.commands.len(), 1);
    match &outcome.commands[0] {
        InjectCommand::TypeText { text, .. } => assert_eq!(text, "你好"),
        other => panic!("unexpected cmd1: {other:?}"),
    }

    let mut task = outcome.correction.expect("correction task");
    // The correction comes back after 100 ms: too early to replace.
    let early = task.on_correction(Some(correction("您好", true, 100)), now + 100, started.generation);
    assert!(early.is_none(), "不应在 500ms 内替换");
    assert_eq!(task.sleep_duration(now + 100), 400);

    // After the remaining 400 ms the replacement pair comes out, in order.
    let cmds = task.on_delay_elapsed(now + MIN_REPLACE_DELAY_MS, started.generation);
    assert_eq!(cmds.len(), 2);
    match &cmds[0] {
        InjectCommand::Backspace { count, .. } => assert_eq!(*count, 2),
        other => panic!("unexpected cmd2: {other:?}"),
    }
    match &cmds[1] {
        InjectCommand::TypeText { text, .. } => assert_eq!(text, "您好"),
        other => panic!("unexpected cmd3: {other:?}"),
    }
}

#[test]
fn pipeline_skips_replace_when_new_session_started() {
    let mut pipeline = test_pipeline();
    let first = pipeline
        .start("t1".to_string(), 16000, &AsrContext::default())
        .expect("start 1");
    pipeline.stop_request();
    let decision = pipeline.on_server_event(&ServerEvent::FastText {
        trace_id: Some("t1".to_string()),
        content: "hello".to_string(),
        is_final: Some(true),
    });
    let transcript = match decision {
        StopDecision::Finished { transcript } => transcript,
        other => panic!("unexpected decision: {other:?}"),
    };
    let now: u64 = 20_000;
    let outcome = pipeline.finish(first.generation, &transcript, now);
    assert_eq!(outcome.commands.len(), 1);
    let mut task = outcome.correction.expect("correction task");

    // The second press arrives 50 ms later, before the correction fires.
    let second = pipeline
        .start("t2".to_string(), 16000, &AsrContext::default())
        .expect("start 2");
    assert!(second.generation > first.generation);

    let early = task.on_correction(
        Some(correction("fixed", true, 50)),
        now + 50,
        pipeline.generation,
    );
    assert!(early.is_none());
    let cmds = task.on_delay_elapsed(now + MIN_REPLACE_DELAY_MS, pipeline.generation);
    assert!(cmds.is_empty(), "新会话开始后不应替换旧结果");
}

#[test]
fn pipeline_no_replace_when_llm_unchanged() {
    let mut task = CorrectionTask::new(1, Some("t1".to_string()), 30_000, 5);
    let cmds = task
        .on_correction(Some(correction("hello", false, 10)), 30_000 + MIN_REPLACE_DELAY_MS, 1)
        .expect("past the dwell time");
    assert!(cmds.is_empty(), "LLM 无变化不应替换");
}

#[test]
fn blank_corrected_text_replaces_nothing() {
    let mut task = CorrectionTask::new(1, None, 40_000, 3);
    let cmds = task
        .on_correction(Some(correction("   ", true, 10)), 40_000 + MIN_REPLACE_DELAY_MS, 1)
        .expect("past the dwell time");
    assert!(cmds.is_empty());
}

#[test]
fn a_failed_correction_is_swallowed() {
    let mut task = CorrectionTask::new(1, None, 50_000, 3);
    let cmds = task
        .on_correction(None, 50_000 + MIN_REPLACE_DELAY_MS + 700, 1)
        .expect("past the dwell time");
    assert!(cmds.is_empty());
}

#[test]
fn cancellation_unwinds_without_commands() {
    let mut task = CorrectionTask::new(7, Some("t7".to_string()), 60_000, 4);
    task.on_cancelled();
    assert!(matches!(
        task.phase,
        ghosttype::correction::CorrectionTaskPhase::Done
    ));
}

#[test]
fn a_slow_correction_adds_no_extra_delay() {
    let mut task = CorrectionTask::new(1, None, 70_000, 2);
    // The correction itself took longer than the dwell time: decide at once.
    let cmds = task
        .on_correction(Some(correction("better", true, 900)), 70_000 + 900, 1)
        .expect("no extra sleep");
    assert_eq!(cmds.len(), 2);
}

#[test]
fn blank_transcripts_inject_nothing() {
    let mut pipeline = test_pipeline();
    let started = pipeline
        .start("t1".to_string(), 16000, &AsrContext::default())
        .expect("start");
    pipeline.stop_request();
    let outcome = pipeline.finish(started.generation, "   \n  ", 80_000);
    assert!(outcome.commands.is_empty());
    assert!(outcome.correction.is_none());
}

#[test]
fn correction_outcomes_follow_the_reply() {
    let used = correction_outcome(" 你好 ", " 您好 ", 120);
    assert_eq!(used.original, "你好");
    assert_eq!(used.corrected, "您好");
    assert!(used.changed);
    assert_eq!(used.latency_ms, 120);

    let same = correction_outcome("hello", "hello", 5);
    assert!(!same.changed);

    let blank_reply = correction_outcome("hello", "   ", 5);
    assert_eq!(blank_reply.corrected, "hello");
    assert!(!blank_reply.changed);

    let disabled = blank_correction(" text ");
    assert_eq!(disabled.original, " text ");
    assert_eq!(disabled.corrected, " text ");
    assert!(!disabled.changed);
    assert_eq!(disabled.latency_ms, 0);
}

#[test]
fn presses_and_releases_are_guarded_by_state() {
    let mut pipeline = test_pipeline();
    assert!(pipeline.press_allowed());
    assert!(!pipeline.release_allowed());
    pipeline
        .start("t1".to_string(), 16000, &AsrContext::default())
        .expect("start");
    assert!(!pipeline.press_allowed());
    assert!(pipeline.release_allowed());
    pipeline.stop_request();
    assert!(!pipeline.press_allowed());
    assert!(!pipeline.release_allowed());
    pipeline.abort();
    assert!(pipeline.press_allowed());
}

#[test]
fn the_pipeline_requires_a_buildable_recognizer() {
    assert!(Pipeline::new(&AsrConfig::Native, &LlmConfig::Disabled).is_err());
}
