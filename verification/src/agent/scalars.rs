//! Stored texts of the agent vocabulary.

use vstd::prelude::*;

use crate::domain::agent::{AgentActionState, AgentPermissionMode, AgentSessionStatus};
use crate::error::{decode_error, decode_message, DatabaseErrorKind, DatabaseResult};
use crate::text::str_eq;

verus! {

/// The text that stores each [`AgentSessionStatus`] value.
pub open spec fn session_status_text(value: AgentSessionStatus) -> Seq<char> {
    match value {
        AgentSessionStatus::Idle => "idle"@,
        AgentSessionStatus::Running => "running"@,
        AgentSessionStatus::Interrupted => "interrupted"@,
    }
}

/// The [`AgentSessionStatus`] value stored as `text`, if `text` stores one.
pub open spec fn session_status_parse(text: Seq<char>) -> Option<AgentSessionStatus> {
    if text == "idle"@ {
        Some(AgentSessionStatus::Idle)
    } else if text == "running"@ {
        Some(AgentSessionStatus::Running)
    } else if text == "interrupted"@ {
        Some(AgentSessionStatus::Interrupted)
    } else {
        None
    }
}

/// Decoding the stored text of a [`AgentSessionStatus`] gives the value back, and a text
/// decodes to a value only when it is that value's stored text; so distinct
/// values are stored as distinct texts.
pub proof fn lemma_session_status_round_trip(value: AgentSessionStatus, text: Seq<char>)
    ensures
        session_status_parse(session_status_text(value)) == Some(value),
        session_status_parse(text) == Some(value) ==> session_status_text(value) == text,
{
    reveal_strlit("idle");
    assert("idle"@.len() == 4);
    reveal_strlit("running");
    assert("running"@.len() == 7);
    reveal_strlit("interrupted");
    assert("interrupted"@.len() == 11);
    match value {
        AgentSessionStatus::Idle => {
            assert(session_status_parse("idle"@) == Some(AgentSessionStatus::Idle));
        },
        AgentSessionStatus::Running => {
            assert(session_status_parse("running"@) == Some(AgentSessionStatus::Running));
        },
        AgentSessionStatus::Interrupted => {
            assert(session_status_parse("interrupted"@) == Some(AgentSessionStatus::Interrupted));
        },
    }
}

/// The text that stores `value`.
pub fn session_status_as_str(value: AgentSessionStatus) -> (text: &'static str)
    ensures
        text@ == session_status_text(value),
{
    match value {
        AgentSessionStatus::Idle => "idle",
        AgentSessionStatus::Running => "running",
        AgentSessionStatus::Interrupted => "interrupted",
    }
}

/// Decodes a stored [`AgentSessionStatus`]; an unknown text is an error that names it.
pub fn session_status_from_str(value: &str) -> (result: DatabaseResult<AgentSessionStatus>)
    ensures
        (match result {
            Ok(parsed) => session_status_parse(value@) == Some(parsed),
            Err(error) => {
                &&& session_status_parse(value@) is None
                &&& error.spec_kind() == DatabaseErrorKind::Database
                &&& error.spec_message() == decode_message("Agent session status"@, value@)
            },
        }),
{
    if str_eq(value, "idle") {
        Ok(AgentSessionStatus::Idle)
    } else if str_eq(value, "running") {
        Ok(AgentSessionStatus::Running)
    } else if str_eq(value, "interrupted") {
        Ok(AgentSessionStatus::Interrupted)
    } else {
        Err(decode_error("Agent session status", value))
    }
}

/// The text that stores each [`AgentActionState`] value.
pub open spec fn action_state_text(value: AgentActionState) -> Seq<char> {
    match value {
        AgentActionState::Applied => "applied"@,
        AgentActionState::Undone => "undone"@,
    }
}

/// The [`AgentActionState`] value stored as `text`, if `text` stores one.
pub open spec fn action_state_parse(text: Seq<char>) -> Option<AgentActionState> {
    if text == "applied"@ {
        Some(AgentActionState::Applied)
    } else if text == "undone"@ {
        Some(AgentActionState::Undone)
    } else {
        None
    }
}

/// Decoding the stored text of a [`AgentActionState`] gives the value back, and a text
/// decodes to a value only when it is that value's stored text; so distinct
/// values are stored as distinct texts.
pub proof fn lemma_action_state_round_trip(value: AgentActionState, text: Seq<char>)
    ensures
        action_state_parse(action_state_text(value)) == Some(value),
        action_state_parse(text) == Some(value) ==> action_state_text(value) == text,
{
    reveal_strlit("applied");
    assert("applied"@.len() == 7);
    reveal_strlit("undone");
    assert("undone"@.len() == 6);
    match value {
        AgentActionState::Applied => {
            assert(action_state_parse("applied"@) == Some(AgentActionState::Applied));
        },
        AgentActionState::Undone => {
            assert(action_state_parse("undone"@) == Some(AgentActionState::Undone));
        },
    }
}

/// The text that stores `value`.
pub fn action_state_as_str(value: AgentActionState) -> (text: &'static str)
    ensures
        text@ == action_state_text(value),
{
    match value {
        AgentActionState::Applied => "applied",
        AgentActionState::Undone => "undone",
    }
}

/// Decodes a stored [`AgentActionState`]; an unknown text is an error that names it.
pub fn action_state_from_str(value: &str) -> (result: DatabaseResult<AgentActionState>)
    ensures
        (match result {
            Ok(parsed) => action_state_parse(value@) == Some(parsed),
            Err(error) => {
                &&& action_state_parse(value@) is None
                &&& error.spec_kind() == DatabaseErrorKind::Database
                &&& error.spec_message() == decode_message("Agent action state"@, value@)
            },
        }),
{
    if str_eq(value, "applied") {
        Ok(AgentActionState::Applied)
    } else if str_eq(value, "undone") {
        Ok(AgentActionState::Undone)
    } else {
        Err(decode_error("Agent action state", value))
    }
}

/// The text that stores each [`AgentPermissionMode`] value.
pub open spec fn permission_mode_text(value: AgentPermissionMode) -> Seq<char> {
    match value {
        AgentPermissionMode::Standard => "standard"@,
        AgentPermissionMode::Ask => "ask"@,
        AgentPermissionMode::BypassAll => "bypass_all"@,
    }
}

/// The [`AgentPermissionMode`] value stored as `text`, if `text` stores one.
pub open spec fn permission_mode_parse(text: Seq<char>) -> Option<AgentPermissionMode> {
    if text == "standard"@ {
        Some(AgentPermissionMode::Standard)
    } else if text == "ask"@ {
        Some(AgentPermissionMode::Ask)
    } else if text == "bypass_all"@ {
        Some(AgentPermissionMode::BypassAll)
    } else {
        None
    }
}

/// Decoding the stored text of a [`AgentPermissionMode`] gives the value back, and a text
/// decodes to a value only when it is that value's stored text; so distinct
/// values are stored as distinct texts.
pub proof fn lemma_permission_mode_round_trip(value: AgentPermissionMode, text: Seq<char>)
    ensures
        permission_mode_parse(permission_mode_text(value)) == Some(value),
        permission_mode_parse(text) == Some(value) ==> permission_mode_text(value) == text,
{
    reveal_strlit("standard");
    assert("standard"@.len() == 8);
    reveal_strlit("ask");
    assert("ask"@.len() == 3);
    reveal_strlit("bypass_all");
    assert("bypass_all"@.len() == 10);
    match value {
        AgentPermissionMode::Standard => {
            assert(permission_mode_parse("standard"@) == Some(AgentPermissionMode::Standard));
        },
        AgentPermissionMode::Ask => {
            assert(permission_mode_parse("ask"@) == Some(AgentPermissionMode::Ask));
        },
        AgentPermissionMode::BypassAll => {
            assert(permission_mode_parse("bypass_all"@) == Some(AgentPermissionMode::BypassAll));
        },
    }
}

/// The text that stores `value`.
pub fn permission_mode_as_str(value: AgentPermissionMode) -> (text: &'static str)
    ensures
        text@ == permission_mode_text(value),
{
    match value {
        AgentPermissionMode::Standard => "standard",
        AgentPermissionMode::Ask => "ask",
        AgentPermissionMode::BypassAll => "bypass_all",
    }
}

/// Decodes a stored [`AgentPermissionMode`]; an unknown text is an error that names it.
pub fn permission_mode_from_str(value: &str) -> (result: DatabaseResult<AgentPermissionMode>)
    ensures
        (match result {
            Ok(parsed) => permission_mode_parse(value@) == Some(parsed),
            Err(error) => {
                &&& permission_mode_parse(value@) is None
                &&& error.spec_kind() == DatabaseErrorKind::Database
                &&& error.spec_message() == decode_message("Agent permission mode"@, value@)
            },
        }),
{
    if str_eq(value, "standard") {
        Ok(AgentPermissionMode::Standard)
    } else if str_eq(value, "ask") {
        Ok(AgentPermissionMode::Ask)
    } else if str_eq(value, "bypass_all") {
        Ok(AgentPermissionMode::BypassAll)
    } else {
        Err(decode_error("Agent permission mode", value))
    }
}


} // verus!
