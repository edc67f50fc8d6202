//! Following one chat run on the assistant gateway: the run's events are
//! folded into the reply, or the reason it failed.

use vstd::prelude::*;

use crate::text::{push_str, str_eq};

verus! {

/// A finished chat run: its session, its run and the reply text.
#[derive(Clone, Debug, PartialEq, Eq)]
pub struct ChatReply {
    pub session_id: String,
    pub run_id: String,
    pub content: String,
}

/// Where a chat run stands, as the gateway reports it.
#[derive(Clone, Copy, Debug, PartialEq, Eq, Structural)]
pub enum AgentRunStatus {
    Accepted,
    Queued,
    Thinking,
    ToolCall,
    Streaming,
    Completed,
    Failed,
    Cancelled,
}

/// The name a run status is reported under.
pub open spec fn spec_status_name(status: AgentRunStatus) -> &'static str {
    match status {
        AgentRunStatus::Accepted => "Accepted",
        AgentRunStatus::Queued => "Queued",
        AgentRunStatus::Thinking => "Thinking",
        AgentRunStatus::ToolCall => "ToolCall",
        AgentRunStatus::Streaming => "Streaming",
        AgentRunStatus::Completed => "Completed",
        AgentRunStatus::Failed => "Failed",
        AgentRunStatus::Cancelled => "Cancelled",
    }
}

/// Return the name a run status is reported under.
pub fn status_name(status: AgentRunStatus) -> (name: &'static str)
    ensures
        name == spec_status_name(status),
{
    match status {
        AgentRunStatus::Accepted => "Accepted",
        AgentRunStatus::Queued => "Queued",
        AgentRunStatus::Thinking => "Thinking",
        AgentRunStatus::ToolCall => "ToolCall",
        AgentRunStatus::Streaming => "Streaming",
        AgentRunStatus::Completed => "Completed",
        AgentRunStatus::Failed => "Failed",
        AgentRunStatus::Cancelled => "Cancelled",
    }
}

/// What a run event leaves to do.
#[derive(Clone, Debug, PartialEq, Eq)]
pub enum ChatStep {
    /// Wait for more events.
    Pending,
    /// The run completed with this reply.
    Completed(ChatReply),
    /// The run failed for this reason.
    Failed(String),
}

/// A chat run being followed: its session and run, and the newest content.
#[derive(Clone, Debug)]
pub struct ChatRun {
    pub session_id: String,
    pub run_id: String,
    pub latest_content: String,
}

/// Why a run that ended without an error message failed.
pub open spec fn spec_status_error(status: AgentRunStatus) -> Seq<char> {
    "chat run ended with status "@ + spec_status_name(status)@
}

impl ChatRun {
    /// Start following run `run_id` of session `session_id`, with no content yet.
    pub fn new(session_id: String, run_id: String) -> (run: Self)
        ensures
            run.session_id == session_id,
            run.run_id == run_id,
            run.latest_content@.len() == 0,
    {
        ChatRun { session_id, run_id, latest_content: String::new() }
    }

    /// Take one agent event: events of other runs change nothing; content
    /// replaces the newest content; `Completed` ends with the reply,
    /// `Failed` and `Cancelled` end with the event's error or one naming
    /// the status; any other status waits for more.
    pub fn on_agent_event(
        &mut self,
        event_run_id: &str,
        content: Option<String>,
        status: AgentRunStatus,
        error: Option<String>,
    ) -> (step: ChatStep)
        ensures
            event_run_id@ != old(self).run_id@ ==> step == ChatStep::Pending && final(self).latest_content
                == old(self).latest_content,
            event_run_id@ == old(self).run_id@ ==> {
                &&& final(self).latest_content@ == match content {
                    Some(c) => c@,
                    None => old(self).latest_content@,
                }
                &&& match status {
                    AgentRunStatus::Completed => step matches ChatStep::Completed(r) && r.session_id@
                        == old(self).session_id@ && r.run_id@ == old(self).run_id@ && r.content@
                        == final(self).latest_content@,
                    AgentRunStatus::Failed | AgentRunStatus::Cancelled => step matches ChatStep::Failed(e) && e@
                        == match error {
                        Some(m) => m@,
                        None => spec_status_error(status),
                    },
                    _ => step == ChatStep::Pending,
                }
            },
            final(self).session_id == old(self).session_id,
            final(self).run_id == old(self).run_id,
    {
        if !str_eq(event_run_id, self.run_id.as_str()) {
            return ChatStep::Pending;
        }
        if let Some(c) = content {
            self.latest_content = c;
        }
        match status {
            AgentRunStatus::Completed => ChatStep::Completed(
                ChatReply {
                    session_id: crate::text::chars_to_string(crate::text::str_to_chars(self.session_id.as_str()).as_slice()),
                    run_id: crate::text::chars_to_string(crate::text::str_to_chars(self.run_id.as_str()).as_slice()),
                    content: crate::text::chars_to_string(
                        crate::text::str_to_chars(self.latest_content.as_str()).as_slice(),
                    ),
                },
            ),
            AgentRunStatus::Failed | AgentRunStatus::Cancelled => {
                match error {
                    Some(m) => ChatStep::Failed(m),
                    None => {
                        let mut message = "chat run ended with status ".to_string();
                        push_str(&mut message, status_name(status));
                        ChatStep::Failed(message)
                    },
                }
            },
            _ => ChatStep::Pending,
        }
    }
}

} // verus!
