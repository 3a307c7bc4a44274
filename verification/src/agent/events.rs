//! The stored form of an agent session's transcript events and persona.

use vstd::prelude::*;

use crate::domain::agent::{AgentEventKind, AgentPersonaSnapshot};

verus! {

/// Stored form of an [`AgentEventKind`].
#[derive(Clone, Debug)]
pub enum StoredEventKind {
    UserMessage { content: String },
    AssistantMessage { content: String, interrupted: bool },
    ToolCall { tool_name: String, arguments_json: String },
    ToolResult { tool_name: String, result_json: String, failed: bool },
    Approval { tool_name: String, approved: bool },
    Warning { content: String },
}

/// The stored form of `value`: the same variant with the same fields.
pub open spec fn stored_event(value: AgentEventKind) -> StoredEventKind {
    match value {
        AgentEventKind::UserMessage { content } => StoredEventKind::UserMessage { content },
        AgentEventKind::AssistantMessage { content, interrupted } =>
            StoredEventKind::AssistantMessage { content, interrupted },
        AgentEventKind::ToolCall { tool_name, arguments_json } =>
            StoredEventKind::ToolCall { tool_name, arguments_json },
        AgentEventKind::ToolResult { tool_name, result_json, failed } =>
            StoredEventKind::ToolResult { tool_name, result_json, failed },
        AgentEventKind::Approval { tool_name, approved } => StoredEventKind::Approval { tool_name, approved },
        AgentEventKind::Warning { content } => StoredEventKind::Warning { content },
    }
}

/// The event `stored` holds.
pub open spec fn decoded_event(stored: StoredEventKind) -> AgentEventKind {
    match stored {
        StoredEventKind::UserMessage { content } => AgentEventKind::UserMessage { content },
        StoredEventKind::AssistantMessage { content, interrupted } =>
            AgentEventKind::AssistantMessage { content, interrupted },
        StoredEventKind::ToolCall { tool_name, arguments_json } =>
            AgentEventKind::ToolCall { tool_name, arguments_json },
        StoredEventKind::ToolResult { tool_name, result_json, failed } =>
            AgentEventKind::ToolResult { tool_name, result_json, failed },
        StoredEventKind::Approval { tool_name, approved } => AgentEventKind::Approval { tool_name, approved },
        StoredEventKind::Warning { content } => AgentEventKind::Warning { content },
    }
}

impl StoredEventKind {
    /// The stored form of `value`.
    pub fn from_domain(value: &AgentEventKind) -> (stored: Self)
        ensures
            stored == stored_event(*value),
    {
        match value {
            AgentEventKind::UserMessage { content } => StoredEventKind::UserMessage { content: content.clone() },
            AgentEventKind::AssistantMessage { content, interrupted } =>
                StoredEventKind::AssistantMessage { content: content.clone(), interrupted: *interrupted },
            AgentEventKind::ToolCall { tool_name, arguments_json } =>
                StoredEventKind::ToolCall { tool_name: tool_name.clone(), arguments_json: arguments_json.clone() },
            AgentEventKind::ToolResult { tool_name, result_json, failed } => StoredEventKind::ToolResult {
                tool_name: tool_name.clone(),
                result_json: result_json.clone(),
                failed: *failed,
            },
            AgentEventKind::Approval { tool_name, approved } =>
                StoredEventKind::Approval { tool_name: tool_name.clone(), approved: *approved },
            AgentEventKind::Warning { content } => StoredEventKind::Warning { content: content.clone() },
        }
    }

    /// The event `self` holds; every stored event decodes.
    pub fn into_domain(self) -> (value: AgentEventKind)
        ensures
            value == decoded_event(self),
    {
        match self {
            StoredEventKind::UserMessage { content } => AgentEventKind::UserMessage { content },
            StoredEventKind::AssistantMessage { content, interrupted } =>
                AgentEventKind::AssistantMessage { content, interrupted },
            StoredEventKind::ToolCall { tool_name, arguments_json } =>
                AgentEventKind::ToolCall { tool_name, arguments_json },
            StoredEventKind::ToolResult { tool_name, result_json, failed } =>
                AgentEventKind::ToolResult { tool_name, result_json, failed },
            StoredEventKind::Approval { tool_name, approved } => AgentEventKind::Approval { tool_name, approved },
            StoredEventKind::Warning { content } => AgentEventKind::Warning { content },
        }
    }
}

/// Decoding the stored form of an event gives the event back, and storing a
/// decoded event gives the stored form back.
pub proof fn lemma_event_round_trip(value: AgentEventKind, stored: StoredEventKind)
    ensures
        decoded_event(stored_event(value)) == value,
        stored_event(decoded_event(stored)) == stored,
{
}

/// The text that names the kind of `value` in the events table.
pub open spec fn event_kind_text(value: AgentEventKind) -> Seq<char> {
    match value {
        AgentEventKind::UserMessage { .. } => "user_message"@,
        AgentEventKind::AssistantMessage { .. } => "assistant_message"@,
        AgentEventKind::ToolCall { .. } => "tool_call"@,
        AgentEventKind::ToolResult { .. } => "tool_result"@,
        AgentEventKind::Approval { .. } => "approval"@,
        AgentEventKind::Warning { .. } => "warning"@,
    }
}

/// The text that names the kind of `value` in the events table.
pub fn event_kind_as_str(value: &AgentEventKind) -> (text: &'static str)
    ensures
        text@ == event_kind_text(*value),
{
    match value {
        AgentEventKind::UserMessage { .. } => "user_message",
        AgentEventKind::AssistantMessage { .. } => "assistant_message",
        AgentEventKind::ToolCall { .. } => "tool_call",
        AgentEventKind::ToolResult { .. } => "tool_result",
        AgentEventKind::Approval { .. } => "approval",
        AgentEventKind::Warning { .. } => "warning",
    }
}

/// Events of different kinds are named by different texts.
pub proof fn lemma_event_kind_texts_distinct(a: AgentEventKind, b: AgentEventKind)
    requires
        event_kind_text(a) == event_kind_text(b),
    ensures
        a is UserMessage <==> b is UserMessage,
        a is AssistantMessage <==> b is AssistantMessage,
        a is ToolCall <==> b is ToolCall,
        a is ToolResult <==> b is ToolResult,
        a is Approval <==> b is Approval,
        a is Warning <==> b is Warning,
{
    reveal_strlit("user_message");
    reveal_strlit("assistant_message");
    reveal_strlit("tool_call");
    reveal_strlit("tool_result");
    reveal_strlit("approval");
    reveal_strlit("warning");
    assert("user_message"@.len() == 12);
    assert("assistant_message"@.len() == 17);
    assert("tool_call"@.len() == 9);
    assert("tool_result"@.len() == 11);
    assert("approval"@.len() == 8);
    assert("warning"@.len() == 7);
}

/// Stored form of an [`AgentPersonaSnapshot`].
#[derive(Clone, Debug)]
pub struct StoredPersonaSnapshot {
    pub display_name: String,
    pub instructions: String,
    pub v5_prompt_guidance: String,
    pub tag_prompt_guidance: String,
}

impl StoredPersonaSnapshot {
    /// `self` stores exactly `value`.
    pub open spec fn encodes(self, value: AgentPersonaSnapshot) -> bool {
        &&& self.display_name == value.display_name
        &&& self.instructions == value.instructions
        &&& self.v5_prompt_guidance == value.v5_prompt_guidance
        &&& self.tag_prompt_guidance == value.tag_prompt_guidance
    }

    /// The stored form of `value`.
    pub fn from_domain(value: &AgentPersonaSnapshot) -> (stored: Self)
        ensures
            stored.encodes(*value),
    {
        StoredPersonaSnapshot {
            display_name: value.display_name.clone(),
            instructions: value.instructions.clone(),
            v5_prompt_guidance: value.v5_prompt_guidance.clone(),
            tag_prompt_guidance: value.tag_prompt_guidance.clone(),
        }
    }

    /// The persona `self` stores.
    pub fn into_domain(self) -> (value: AgentPersonaSnapshot)
        ensures
            self.encodes(value),
    {
        AgentPersonaSnapshot {
            display_name: self.display_name,
            instructions: self.instructions,
            v5_prompt_guidance: self.v5_prompt_guidance,
            tag_prompt_guidance: self.tag_prompt_guidance,
        }
    }
}

/// A persona and its stored form determine each other.
pub proof fn lemma_persona_round_trip(stored: StoredPersonaSnapshot, value: AgentPersonaSnapshot, other: AgentPersonaSnapshot)
    requires
        stored.encodes(value),
        stored.encodes(other),
    ensures
        value == other,
{
}

} // verus!
