//! Agent sessions, actions and events.

use vstd::prelude::*;

verus! {

/// Whether an agent session is working.
#[derive(Copy, Clone, Debug, PartialEq, Eq, Structural)]
pub enum AgentSessionStatus {
    Idle,
    Running,
    Interrupted,
}

/// Whether an agent action is in effect.
#[derive(Copy, Clone, Debug, PartialEq, Eq, Structural)]
pub enum AgentActionState {
    Applied,
    Undone,
}

/// How much an agent may do without asking.
#[derive(Copy, Clone, Debug, PartialEq, Eq, Structural)]
pub enum AgentPermissionMode {
    Standard,
    Ask,
    BypassAll,
}

/// One entry of an agent session's transcript.
#[derive(Clone, Debug, PartialEq, Eq)]
pub enum AgentEventKind {
    UserMessage { content: String },
    AssistantMessage { content: String, interrupted: bool },
    ToolCall { tool_name: String, arguments_json: String },
    ToolResult { tool_name: String, result_json: String, failed: bool },
    Approval { tool_name: String, approved: bool },
    Warning { content: String },
}

/// The persona an agent session runs with.
#[derive(Clone, Debug, PartialEq, Eq)]
pub struct AgentPersonaSnapshot {
    pub display_name: String,
    pub instructions: String,
    pub v5_prompt_guidance: String,
    pub tag_prompt_guidance: String,
}

} // verus!
