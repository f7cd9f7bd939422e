//! Commands for the keystroke injector: an ordered stream of "type this
//! text" and "delete this many characters" actions, applied serially by a
//! single consumer so that no two sessions' edits interleave.

use vstd::prelude::*;

use crate::protocol::opt_string_view;

verus! {

/// One injection command, as specifications see it.
pub enum SpecInjectCommand {
    TypeText { trace_id: Option<Seq<char>>, text: Seq<char> },
    Backspace { trace_id: Option<Seq<char>>, count: usize },
}

/// One injection command: type text at the focus, or delete characters
/// before it.
#[derive(Debug)]
pub enum InjectCommand {
    TypeText { trace_id: Option<String>, text: String },
    Backspace { trace_id: Option<String>, count: usize },
}

impl View for InjectCommand {
    type V = SpecInjectCommand;

    open spec fn view(&self) -> SpecInjectCommand {
        match self {
            InjectCommand::TypeText { trace_id, text } => SpecInjectCommand::TypeText {
                trace_id: opt_string_view(trace_id),
                text: text@,
            },
            InjectCommand::Backspace { trace_id, count } => SpecInjectCommand::Backspace {
                trace_id: opt_string_view(trace_id),
                count: *count,
            },
        }
    }
}

/// The commands a vector holds, as specifications see them.
pub open spec fn cmds_view(s: Seq<InjectCommand>) -> Seq<SpecInjectCommand> {
    s.map_values(|c: InjectCommand| c@)
}

impl InjectCommand {
    /// The command's trace id for logging, or the empty string when none is
    /// attached.
    pub fn trace_id_for_log(&self) -> (r: &str)
        ensures
            r@ == match self@ {
                SpecInjectCommand::TypeText { trace_id, .. } => match trace_id {
                    Some(t) => t,
                    None => ""@,
                },
                SpecInjectCommand::Backspace { trace_id, .. } => match trace_id {
                    Some(t) => t,
                    None => ""@,
                },
            },
    {
        match self {
            InjectCommand::TypeText { trace_id, .. } => match trace_id {
                Some(t) => t.as_str(),
                None => "",
            },
            InjectCommand::Backspace { trace_id, .. } => match trace_id {
                Some(t) => t.as_str(),
                None => "",
            },
        }
    }
}

} // verus!
