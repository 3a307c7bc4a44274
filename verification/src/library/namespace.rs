//! Stored texts of the resource library namespaces.

use vstd::prelude::*;

use crate::domain::library::{LibraryNamespace};
use crate::domain::library::{library_value_error, ResourceLibraryErrorKind, ResourceLibraryResult};
use crate::error::decode_message;
use crate::text::str_eq;

verus! {

/// The text that stores each [`LibraryNamespace`] value.
pub open spec fn namespace_text(value: LibraryNamespace) -> Seq<char> {
    match value {
        LibraryNamespace::PromptChunk => "prompt_chunk"@,
        LibraryNamespace::MainPreset => "main_preset"@,
        LibraryNamespace::CharacterPreset => "character_preset"@,
        LibraryNamespace::Vibe => "vibe"@,
    }
}

/// The [`LibraryNamespace`] value stored as `text`, if `text` stores one.
pub open spec fn namespace_parse(text: Seq<char>) -> Option<LibraryNamespace> {
    if text == "prompt_chunk"@ {
        Some(LibraryNamespace::PromptChunk)
    } else if text == "main_preset"@ {
        Some(LibraryNamespace::MainPreset)
    } else if text == "character_preset"@ {
        Some(LibraryNamespace::CharacterPreset)
    } else if text == "vibe"@ {
        Some(LibraryNamespace::Vibe)
    } else {
        None
    }
}

/// Decoding the stored text of a [`LibraryNamespace`] gives the value back, and a text
/// decodes to a value only when it is that value's stored text; so distinct
/// values are stored as distinct texts.
pub proof fn lemma_namespace_round_trip(value: LibraryNamespace, text: Seq<char>)
    ensures
        namespace_parse(namespace_text(value)) == Some(value),
        namespace_parse(text) == Some(value) ==> namespace_text(value) == text,
{
    reveal_strlit("prompt_chunk");
    assert("prompt_chunk"@.len() == 12);
    reveal_strlit("main_preset");
    assert("main_preset"@.len() == 11);
    reveal_strlit("character_preset");
    assert("character_preset"@.len() == 16);
    reveal_strlit("vibe");
    assert("vibe"@.len() == 4);
    match value {
        LibraryNamespace::PromptChunk => {
            assert(namespace_parse("prompt_chunk"@) == Some(LibraryNamespace::PromptChunk));
        },
        LibraryNamespace::MainPreset => {
            assert(namespace_parse("main_preset"@) == Some(LibraryNamespace::MainPreset));
        },
        LibraryNamespace::CharacterPreset => {
            assert(namespace_parse("character_preset"@) == Some(LibraryNamespace::CharacterPreset));
        },
        LibraryNamespace::Vibe => {
            assert(namespace_parse("vibe"@) == Some(LibraryNamespace::Vibe));
        },
    }
}

/// The text that stores `value`.
pub fn namespace_as_str(value: LibraryNamespace) -> (text: &'static str)
    ensures
        text@ == namespace_text(value),
{
    match value {
        LibraryNamespace::PromptChunk => "prompt_chunk",
        LibraryNamespace::MainPreset => "main_preset",
        LibraryNamespace::CharacterPreset => "character_preset",
        LibraryNamespace::Vibe => "vibe",
    }
}

/// Decodes a stored [`LibraryNamespace`]; an unknown text is an error that names it.
pub fn namespace_from_str(value: &str) -> (result: ResourceLibraryResult<LibraryNamespace>)
    ensures
        (match result {
            Ok(parsed) => namespace_parse(value@) == Some(parsed),
            Err(error) => {
                &&& namespace_parse(value@) is None
                &&& error.spec_kind() == ResourceLibraryErrorKind::Repository
                &&& error.spec_message() == decode_message("resource library namespace"@, value@)
            },
        }),
{
    if str_eq(value, "prompt_chunk") {
        Ok(LibraryNamespace::PromptChunk)
    } else if str_eq(value, "main_preset") {
        Ok(LibraryNamespace::MainPreset)
    } else if str_eq(value, "character_preset") {
        Ok(LibraryNamespace::CharacterPreset)
    } else if str_eq(value, "vibe") {
        Ok(LibraryNamespace::Vibe)
    } else {
        Err(library_value_error("resource library namespace", value))
    }
}


} // verus!
