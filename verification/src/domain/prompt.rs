//! Compiled prompts and their traces.

use vstd::prelude::*;

verus! {



/// One prompt function call met while compiling a prompt.
#[derive(Clone, Debug)]
pub struct PromptFunctionTraceEntry {
    pub function_name: String,
    pub raw_call: String,
    pub resolved_arguments: Vec<String>,
    pub result_text: Option<String>,
    pub depth: usize,
    pub call_chain: Vec<String>,
}

/// How a prompt was expanded.
#[derive(Clone, Debug)]
pub struct PromptTrace {
    pub raw_prompt: String,
    pub expanded_prompt: String,
    pub function_calls: Vec<PromptFunctionTraceEntry>,
}

/// A prompt after expansion, with its trace.
#[derive(Clone, Debug)]
pub struct CompiledPrompt {
    pub expanded_prompt: String,
    pub trace: PromptTrace,
}

} // verus!
