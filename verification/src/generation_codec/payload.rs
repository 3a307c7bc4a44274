//! The compilation stage of a submitted generation payload: which version a
//! payload is stored under, and whether a stored compiled snapshot agrees
//! with the request it was compiled for.

use vstd::prelude::*;

use crate::domain::prompt::CompiledPrompt;
use crate::error::{decode_error, decode_message, DatabaseErrorKind, DatabaseResult};
use crate::generation_codec::prompt::{same_trace, CompiledPromptDto};
use crate::text::{decimal_text, str_eq, u64_to_decimal};

verus! {

/// The version of a submitted payload stored without a compiled prompt.
pub const PLAIN_PAYLOAD_VERSION: u32 = 3;

/// The version of a submitted payload stored with its compiled prompt.
pub const COMPILED_PAYLOAD_VERSION: u32 = 4;

/// The version a submitted payload is stored under: the compiled version
/// exactly when it carries a compiled prompt.
pub fn submitted_payload_version(compiled: bool) -> (version: u32)
    ensures
        version == (if compiled { COMPILED_PAYLOAD_VERSION } else { PLAIN_PAYLOAD_VERSION }),
{
    if compiled {
        COMPILED_PAYLOAD_VERSION
    } else {
        PLAIN_PAYLOAD_VERSION
    }
}

/// What a stored submitted payload's version and compiled snapshot decode
/// to, given the prompt of its decoded request: no snapshot under the plain
/// version, the snapshot under the compiled version when it agrees with the
/// request and with its own trace, and an error otherwise.
pub open spec fn snapshot_outcome(
    schema_version: u32,
    compiled: Option<CompiledPromptDto>,
    request_prompt: Seq<char>,
) -> Result<Option<(Seq<char>, Seq<char>)>, Seq<char>> {
    match compiled {
        None => if schema_version == PLAIN_PAYLOAD_VERSION {
            Ok(None)
        } else {
            Err(decode_message("submitted payload version or compiled snapshot"@, decimal_text(schema_version as nat)))
        },
        Some(dto) => if schema_version != COMPILED_PAYLOAD_VERSION {
            Err(decode_message("submitted payload version or compiled snapshot"@, decimal_text(schema_version as nat)))
        } else if dto.expanded_prompt@ != request_prompt || dto.trace.expanded_prompt@ != dto.expanded_prompt@ {
            Err(decode_message("compiled snapshot"@, "prompt mismatch"@))
        } else {
            Ok(Some((dto.expanded_prompt@, dto.trace.expanded_prompt@)))
        },
    }
}

/// Decodes a stored submitted payload's compiled snapshot against its
/// version and the prompt of its decoded request.
pub fn decode_compiled_snapshot(
    schema_version: u32,
    compiled: Option<CompiledPromptDto>,
    request_prompt: &str,
) -> (result: DatabaseResult<Option<CompiledPrompt>>)
    ensures
        match (result, snapshot_outcome(schema_version, compiled, request_prompt@)) {
            (Ok(None), Ok(None)) => true,
            (Ok(Some(prompt)), Ok(Some((expanded, traced)))) => {
                &&& prompt.expanded_prompt@ == expanded
                &&& prompt.trace.expanded_prompt@ == traced
                &&& compiled matches Some(dto) && prompt.expanded_prompt == dto.expanded_prompt
                    && same_trace(dto.trace, prompt.trace)
            },
            (Err(error), Err(message)) => error.spec_kind() == DatabaseErrorKind::Database
                && error.spec_message() == message,
            _ => false,
        },
{
    match compiled {
        None => {
            if schema_version == PLAIN_PAYLOAD_VERSION {
                Ok(None)
            } else {
                let version = u64_to_decimal(schema_version as u64);
                Err(decode_error("submitted payload version or compiled snapshot", version.as_str()))
            }
        },
        Some(dto) => {
            if schema_version != COMPILED_PAYLOAD_VERSION {
                let version = u64_to_decimal(schema_version as u64);
                return Err(decode_error("submitted payload version or compiled snapshot", version.as_str()));
            }
            let prompt = dto.into_domain();
            if !str_eq(prompt.expanded_prompt.as_str(), request_prompt)
                || !str_eq(prompt.trace.expanded_prompt.as_str(), prompt.expanded_prompt.as_str()) {
                return Err(decode_error("compiled snapshot", "prompt mismatch"));
            }
            Ok(Some(prompt))
        },
    }
}

} // verus!
