//! The stored form of compiled prompts and their traces.

use vstd::prelude::*;

use crate::codec::resource::clone_opt_string;
use crate::domain::prompt::{CompiledPrompt, PromptFunctionTraceEntry, PromptTrace};

verus! {

/// Stored form of a [`PromptFunctionTraceEntry`].
#[derive(Clone, Debug)]
pub struct PromptFunctionTraceEntryDto {
    pub function_name: String,
    pub raw_call: String,
    pub resolved_arguments: Vec<String>,
    pub result_text: Option<String>,
    pub depth: usize,
    pub call_chain: Vec<String>,
}

/// `dto` and `value` hold the same call.
pub open spec fn same_trace_entry(dto: PromptFunctionTraceEntryDto, value: PromptFunctionTraceEntry) -> bool {
    &&& dto.function_name == value.function_name
    &&& dto.raw_call == value.raw_call
    &&& dto.resolved_arguments@ == value.resolved_arguments@
    &&& dto.result_text == value.result_text
    &&& dto.depth == value.depth
    &&& dto.call_chain@ == value.call_chain@
}

impl PromptFunctionTraceEntryDto {
    /// The stored form of `value`.
    pub fn from_domain(value: &PromptFunctionTraceEntry) -> (dto: Self)
        ensures
            same_trace_entry(dto, *value),
    {
        let resolved_arguments = value.resolved_arguments.clone();
        let call_chain = value.call_chain.clone();
        assert(resolved_arguments@ =~= value.resolved_arguments@);
        assert(call_chain@ =~= value.call_chain@);
        PromptFunctionTraceEntryDto {
            function_name: value.function_name.clone(),
            raw_call: value.raw_call.clone(),
            resolved_arguments,
            result_text: clone_opt_string(&value.result_text),
            depth: value.depth,
            call_chain,
        }
    }

    /// The call `self` holds.
    pub fn into_domain(self) -> (value: PromptFunctionTraceEntry)
        ensures
            same_trace_entry(self, value),
    {
        PromptFunctionTraceEntry {
            function_name: self.function_name,
            raw_call: self.raw_call,
            resolved_arguments: self.resolved_arguments,
            result_text: self.result_text,
            depth: self.depth,
            call_chain: self.call_chain,
        }
    }
}

/// Stored form of a [`PromptTrace`].
#[derive(Clone, Debug)]
pub struct PromptTraceDto {
    pub raw_prompt: String,
    pub expanded_prompt: String,
    pub function_calls: Vec<PromptFunctionTraceEntryDto>,
}

/// `dto` and `value` hold the same trace.
pub open spec fn same_trace(dto: PromptTraceDto, value: PromptTrace) -> bool {
    &&& dto.raw_prompt == value.raw_prompt
    &&& dto.expanded_prompt == value.expanded_prompt
    &&& dto.function_calls@.len() == value.function_calls@.len()
    &&& forall|i: int| 0 <= i < dto.function_calls@.len() ==>
        #[trigger] same_trace_entry(dto.function_calls@[i], value.function_calls@[i])
}

impl PromptTraceDto {
    /// The stored form of `value`.
    pub fn from_domain(value: &PromptTrace) -> (dto: Self)
        ensures
            same_trace(dto, *value),
    {
        let mut calls: Vec<PromptFunctionTraceEntryDto> = Vec::new();
        let mut index: usize = 0;
        while index < value.function_calls.len()
            invariant
                index <= value.function_calls@.len(),
                calls@.len() == index,
                forall|i: int| 0 <= i < index ==> #[trigger] same_trace_entry(calls@[i], value.function_calls@[i]),
            decreases value.function_calls.len() - index,
        {
            calls.push(PromptFunctionTraceEntryDto::from_domain(&value.function_calls[index]));
            index = index + 1;
        }
        PromptTraceDto {
            raw_prompt: value.raw_prompt.clone(),
            expanded_prompt: value.expanded_prompt.clone(),
            function_calls: calls,
        }
    }

    /// The trace `self` holds.
    pub fn into_domain(self) -> (value: PromptTrace)
        ensures
            same_trace(self, value),
    {
        let ghost stored = self.function_calls@;
        let mut remaining = self.function_calls;
        let mut calls: Vec<PromptFunctionTraceEntry> = Vec::new();
        while remaining.len() > 0
            invariant
                calls@.len() + remaining@.len() == stored.len(),
                remaining@ == stored.skip(calls@.len() as int),
                forall|i: int| 0 <= i < calls@.len() ==> #[trigger] same_trace_entry(stored[i], calls@[i]),
            decreases remaining.len(),
        {
            let ghost done = calls@.len() as int;
            let next = remaining.remove(0);
            assert(next == stored[done]);
            calls.push(next.into_domain());
            assert(remaining@ =~= stored.skip(calls@.len() as int));
        }
        PromptTrace { raw_prompt: self.raw_prompt, expanded_prompt: self.expanded_prompt, function_calls: calls }
    }
}

/// Stored form of a [`CompiledPrompt`].
#[derive(Clone, Debug)]
pub struct CompiledPromptDto {
    pub expanded_prompt: String,
    pub trace: PromptTraceDto,
}

impl CompiledPromptDto {
    /// The stored form of `value`.
    pub fn from_domain(value: &CompiledPrompt) -> (dto: Self)
        ensures
            dto.expanded_prompt == value.expanded_prompt,
            same_trace(dto.trace, value.trace),
    {
        CompiledPromptDto {
            expanded_prompt: value.expanded_prompt.clone(),
            trace: PromptTraceDto::from_domain(&value.trace),
        }
    }

    /// The compiled prompt `self` holds.
    pub fn into_domain(self) -> (value: CompiledPrompt)
        ensures
            value.expanded_prompt == self.expanded_prompt,
            same_trace(self.trace, value.trace),
    {
        CompiledPrompt { expanded_prompt: self.expanded_prompt, trace: self.trace.into_domain() }
    }
}

} // verus!
