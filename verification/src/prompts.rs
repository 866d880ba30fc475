//! Prompt text handed to the inference backend. The orchestration treats
//! all of it as opaque; nothing downstream depends on the wording.
use vstd::prelude::*;

verus! {

pub(crate) fn mars_system_prompt() -> &'static str {
    "You are one of several independent reasoning agents working on the same problem. Reason carefully and state your final answer on its own line."
}

pub(crate) fn mars_system_prompt_with_thinking() -> &'static str {
    "You are one of several independent reasoning agents working on the same problem. Wrap your reasoning in <think></think> tags, then state your final answer."
}

pub(crate) fn mars_reasoning_prompt() -> &'static str {
    "Solve the following problem step by step. Separate your reasoning from your final answer with a line containing ---."
}

pub(crate) fn verification_system_prompt() -> &'static str {
    "You are a strict verifier. Judge whether the following solution is correct, complete and rigorous. Begin your reply with CORRECT or INCORRECT."
}

pub(crate) fn improvement_prompt() -> &'static str {
    "The following solution did not pass verification. Produce an improved solution. Separate your reasoning from your final answer with a line containing ---."
}

pub(crate) fn strategy_extraction_prompt() -> &'static str {
    "List the key techniques and approaches used in the following solution, one per line."
}

pub(crate) fn aggregation_prompt() -> &'static str {
    "Combine the strongest ideas of the following candidate solutions into one improved solution. Separate your reasoning from your final answer with a line containing ---."
}

pub(crate) fn evaluation_prompt() -> &'static str {
    "Judge whether the following conversation has reached a correct and satisfying resolution. Begin your reply with CORRECT or INCORRECT."
}

} // verus!
