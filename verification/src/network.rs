//! The standing-connection side of the client: reconnection backoff, and
//! what each inbound text frame asks of the injector and the status icon.
//! The connection itself, and the loop that drives it, belong to the
//! caller.

use vstd::prelude::*;

use crate::input::{cmds_view, InjectCommand, SpecInjectCommand};
use crate::protocol::{parse_server_event, spec_parse_event, ServerEvent, SpecServerEvent};

verus! {

/// The delay before the first reconnection attempt, in milliseconds.
pub const INITIAL_BACKOFF_MS: u64 = 200;

/// The longest delay between reconnection attempts, in milliseconds.
pub const MAX_BACKOFF_MS: u64 = 5000;

/// The delay after one more failed attempt: doubled, capped at the
/// maximum.
pub fn next_backoff(current_ms: u64) -> (r: u64)
    ensures
        r == if 2 * current_ms < MAX_BACKOFF_MS {
            2 * current_ms
        } else {
            MAX_BACKOFF_MS as int
        },
        r <= MAX_BACKOFF_MS,
{
    if current_ms < 2500 {
        current_ms * 2
    } else {
        MAX_BACKOFF_MS
    }
}

/// What the status icon should do after an inbound frame.
#[derive(Debug)]
pub enum TrayAction {
    Nothing,
    SetIdle,
    SetError,
}

/// A trace id as attached to injection commands: an empty id counts as
/// none.
pub open spec fn spec_filtered_trace(t: Option<Seq<char>>) -> Option<Seq<char>> {
    match t {
        Some(s) => if s.len() > 0 {
            Some(s)
        } else {
            None
        },
        None => None,
    }
}

fn filter_trace(t: Option<String>) -> (r: Option<String>)
    ensures
        crate::protocol::opt_string_view(&r) == spec_filtered_trace(
            match t {
                Some(s) => Some(s@),
                None => None,
            },
        ),
{
    match t {
        Some(s) => {
            if s.as_str().is_empty() {
                None
            } else {
                Some(s)
            }
        },
        None => None,
    }
}

/// The injection commands an inbound frame asks for, and the status-icon
/// change beside them. A recognized transcript is typed as it stands; a
/// server-driven correction deletes and retypes; a service error only
/// flips the icon; anything unreadable does nothing.
pub fn dispatch_server_text(text: &str) -> (r: (Vec<InjectCommand>, TrayAction))
    ensures
        match spec_parse_event(text@) {
            Some(SpecServerEvent::FastText { trace_id, content, .. }) => {
                &&& cmds_view(r.0@) == seq![
                    SpecInjectCommand::TypeText {
                        trace_id: spec_filtered_trace(trace_id),
                        text: content,
                    },
                ]
                &&& r.1 is SetIdle
            },
            Some(SpecServerEvent::Correction { trace_id, replaced_text, delete_count }) => if
                delete_count <= usize::MAX {
                &&& cmds_view(r.0@) == seq![
                    SpecInjectCommand::Backspace { trace_id, count: delete_count as usize },
                    SpecInjectCommand::TypeText { trace_id, text: replaced_text },
                ]
                &&& r.1 is SetIdle
            } else {
                r.0@.len() == 0 && r.1 is Nothing
            },
            Some(SpecServerEvent::Error { .. }) => r.0@.len() == 0 && r.1 is SetError,
            Some(SpecServerEvent::Pong) => r.0@.len() == 0 && r.1 is Nothing,
            None => r.0@.len() == 0 && r.1 is Nothing,
        },
{
    let mut commands: Vec<InjectCommand> = Vec::new();
    let Some(event) = parse_server_event(text) else { return (commands, TrayAction::Nothing) };
    match event {
        ServerEvent::Pong => (commands, TrayAction::Nothing),
        ServerEvent::FastText { trace_id, content, is_final: _ } => {
            let trace_id = filter_trace(trace_id);
            commands.push(InjectCommand::TypeText { trace_id, text: content });
            proof {
                assert(cmds_view(commands@) =~= seq![commands@[0]@]);
            }
            (commands, TrayAction::SetIdle)
        },
        ServerEvent::Correction { trace_id, replaced_text, delete_count } => {
            if delete_count > usize::MAX as u64 {
                return (commands, TrayAction::Nothing);
            }
            let count = delete_count as usize;
            let trace_for_delete = trace_id.clone();
            commands.push(InjectCommand::Backspace { trace_id: trace_for_delete, count });
            commands.push(InjectCommand::TypeText { trace_id, text: replaced_text });
            proof {
                assert(cmds_view(commands@) =~= seq![commands@[0]@, commands@[1]@]);
            }
            (commands, TrayAction::SetIdle)
        },
        ServerEvent::Error { .. } => (commands, TrayAction::SetError),
    }
}

/// What the client is doing, as the status icon shows it.
#[derive(Clone, Copy, Debug, PartialEq, Eq, Structural)]
pub enum TrayMode {
    Idle,
    Recording,
    Processing,
}

/// The icon drawn for the client's state.
#[derive(Clone, Copy, Debug, PartialEq, Eq, Structural)]
pub enum TrayIcon {
    Idle,
    Recording,
    Processing,
    Error,
}

/// Which icon a mode and error flag select: recording always shows as
/// recording, otherwise an error wins, then the mode shows as itself.
pub fn tray_icon(mode: TrayMode, error: bool) -> (r: TrayIcon)
    ensures
        mode is Recording ==> r is Recording,
        !(mode is Recording) && error ==> r is Error,
        mode is Processing && !error ==> r is Processing,
        mode is Idle && !error ==> r is Idle,
{
    match (mode, error) {
        (TrayMode::Recording, _) => TrayIcon::Recording,
        (_, true) => TrayIcon::Error,
        (TrayMode::Processing, false) => TrayIcon::Processing,
        (TrayMode::Idle, false) => TrayIcon::Idle,
    }
}

} // verus!
