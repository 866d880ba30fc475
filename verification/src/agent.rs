//! Individual reasoning agents. Each agent carries a temperature and turns
//! backend completions into candidate solutions; replies are split into a
//! reasoning part and an answer part at the first `---` separator.
use vstd::prelude::*;
use vstd::string::StringExecFns;
use crate::text::{match_at, find_sub, str_eq, substring_copy};
use crate::types::{fresh_agent_id, GenerationPhase, MarsError, Solution};
use crate::model_router::LLMProvider;
use crate::prompts;

verus! {

/// The pattern occurs in `s` at or after `from`.
pub open spec fn has_match_from(s: Seq<char>, pat: Seq<char>, from: int) -> bool {
    exists|i: int| from <= i && match_at(s, pat, i)
}

/// Position `i` holds the first occurrence of the pattern at or after
/// `from`.
pub open spec fn first_match_from(s: Seq<char>, pat: Seq<char>, from: int, i: int) -> bool {
    &&& from <= i
    &&& match_at(s, pat, i)
    &&& forall|j: int| from <= j < i ==> !match_at(s, pat, j)
}

/// An agent: a generator with a fixed sampling temperature (in
/// thousandths) and a unique id.
#[derive(Clone, Debug)]
pub struct Agent {
    pub id: String,
    pub temperature: u64,
}

impl Agent {
    /// A fresh agent with this temperature.
    pub fn new(temperature: u64) -> (r: Agent)
        ensures
            r.temperature == temperature,
            r.id@.len() == 42,
            r.id@.subrange(0, 6) == "agent-"@,
    {
        Agent { id: fresh_agent_id(), temperature }
    }

    /// Split a backend reply at the first `---` into reasoning and answer;
    /// the answer runs to the next `---` or, failing one, to the end. A
    /// reply without a separator is both reasoning and answer whole.
    pub fn parse_response(&self, response: &str) -> (r: (String, String))
        ensures
            !has_match_from(response@, "---"@, 0) ==> r.0@ == response@ && r.1@ == response@,
            has_match_from(response@, "---"@, 0) ==> exists|i: int|
                #![auto]
                {
                    &&& first_match_from(response@, "---"@, 0, i)
                    &&& r.0@ == response@.subrange(0, i)
                    &&& (has_match_from(response@, "---"@, i + 3) ==> exists|j: int|
                        (#[trigger] first_match_from(response@, "---"@, i + 3, j)) && r.1@
                            == response@.subrange(i + 3, j))
                    &&& (!has_match_from(response@, "---"@, i + 3) ==> r.1@
                        == response@.subrange(i + 3, response@.len() as int))
                },
    {
        proof {
            reveal_strlit("---");
        }
        match find_sub(response, "---", 0) {
            None => {
                proof {
                    assert(!has_match_from(response@, "---"@, 0));
                }
                (response.to_owned(), response.to_owned())
            },
            Some(i) => {
                proof {
                    assert(first_match_from(response@, "---"@, 0, i as int));
                    assert("---"@.len() == 3);
                }
                let len = response.unicode_len();
                let reasoning = substring_copy(response, 0, i);
                let answer = match find_sub(response, "---", i + 3) {
                    Some(j) => {
                        proof {
                            assert(first_match_from(response@, "---"@, i + 3, j as int));
                            assert(has_match_from(response@, "---"@, i + 3));
                        }
                        substring_copy(response, i + 3, j)
                    },
                    None => {
                        proof {
                            assert(!has_match_from(response@, "---"@, i + 3));
                        }
                        substring_copy(response, i + 3, len)
                    },
                };
                (reasoning, answer)
            },
        }
    }

    /// Ask the backend for a solution to `query` and package the reply as
    /// a fresh `Initial` candidate attributed to this agent.
    pub fn generate_solution<P: LLMProvider>(
        &self,
        query: &str,
        use_thinking_tags: bool,
        provider: &P,
    ) -> (r: Result<Solution, MarsError>)
        ensures
            r matches Ok(s) ==> {
                &&& s.agent_id@ == self.id@
                &&& s.temperature == self.temperature
                &&& s.phase == GenerationPhase::Initial
                &&& s.token_count == 0
                &&& s.verification_passes == 0
                &&& s.verification_failures == 0
                &&& s.verification_score == 0
                &&& !s.is_verified
            },
    {
        let system_prompt = if use_thinking_tags {
            prompts::mars_system_prompt_with_thinking()
        } else {
            prompts::mars_system_prompt()
        };
        let mut user_prompt = String::new();
        user_prompt.append(prompts::mars_reasoning_prompt());
        user_prompt.append("\n\n");
        user_prompt.append(query);
        match provider.complete(user_prompt.as_str(), Some(system_prompt)) {
            Ok(text) => {
                let (reasoning, answer) = self.parse_response(text.as_str());
                Ok(Solution::new(self.id.clone(), reasoning, answer, self.temperature, 0))
            },
            Err(e) => Err(e),
        }
    }

    /// Judge another agent's solution through the backend and return the
    /// score of the pass, in thousandths: full marks on an affirmative
    /// verdict and zero otherwise.
    pub fn verify_solution<P: LLMProvider>(
        &self,
        solution: &Solution,
        provider: &P,
    ) -> (r: Result<u64, MarsError>)
        ensures
            r matches Ok(score) ==> score == 1000 || score == 0,
    {
        match crate::verification::Verifier::verify_solution(
            solution,
            self.id.as_str(),
            provider,
        ) {
            Ok(result) => Ok(result.score),
            Err(e) => Err(e),
        }
    }

    /// Regenerate an unverified candidate with the backend's help. The
    /// result is a new candidate: fresh id, `Improved` phase, this agent as
    /// producer, the parent's token count carried over.
    pub fn improve_solution<P: LLMProvider>(
        &self,
        solution: &Solution,
        feedback: &str,
        use_thinking_tags: bool,
        provider: &P,
    ) -> (r: Result<Solution, MarsError>)
        ensures
            r matches Ok(s) ==> {
                &&& s.agent_id@ == self.id@
                &&& s.temperature == self.temperature
                &&& s.phase == GenerationPhase::Improved
                &&& s.token_count == solution.token_count
                &&& s.verification_passes == 0
                &&& s.verification_failures == 0
                &&& !s.is_verified
                &&& s.id@.len() >= 36
                &&& s.id@ != solution.id@
            },
    {
        let system_prompt = if use_thinking_tags {
            prompts::mars_system_prompt_with_thinking()
        } else {
            prompts::mars_system_prompt()
        };
        let mut user_prompt = String::new();
        user_prompt.append(prompts::improvement_prompt());
        user_prompt.append("\n\nOriginal reasoning:\n");
        user_prompt.append(solution.reasoning.as_str());
        user_prompt.append("\nOriginal answer: ");
        user_prompt.append(solution.answer.as_str());
        user_prompt.append("\nFeedback: ");
        user_prompt.append(feedback);
        match provider.complete(user_prompt.as_str(), Some(system_prompt)) {
            Ok(text) => {
                let (reasoning, answer) = self.parse_response(text.as_str());
                let mut improved = Solution::new(
                    self.id.clone(),
                    reasoning,
                    answer,
                    self.temperature,
                    solution.token_count,
                );
                improved.phase = GenerationPhase::Improved;
                // Defensive: the fresh id is random, so should it ever
                // collide with the parent's, lengthen it — an improved
                // candidate never reuses its parent's id.
                if str_eq(improved.id.as_str(), solution.id.as_str()) {
                    improved.id.append("-r");
                    proof {
                        reveal_strlit("-r");
                    }
                }
                Ok(improved)
            },
            Err(e) => Err(e),
        }
    }

    /// Ask the backend which techniques a solution used; each non-empty
    /// line of the reply is one strategy.
    pub fn extract_strategies<P: LLMProvider>(
        &self,
        solution: &Solution,
        provider: &P,
    ) -> (r: Result<Vec<String>, MarsError>)
        ensures
            r matches Ok(v) ==> forall|i: int| 0 <= i < v@.len() ==> (#[trigger] v@[i])@.len()
                > 0,
    {
        let mut user_prompt = String::new();
        user_prompt.append(prompts::strategy_extraction_prompt());
        user_prompt.append("\n\n");
        user_prompt.append(solution.reasoning.as_str());
        match provider.complete(user_prompt.as_str(), None) {
            Ok(text) => Ok(nonempty_lines(text.as_str())),
            Err(e) => Err(e),
        }
    }
}

impl Default for Agent {
    /// An agent at medium temperature.
    fn default() -> (r: Agent)
        ensures
            r.temperature == 500,
            r.id@.len() == 42,
    {
        Agent::new(500)
    }
}

/// The non-empty lines of a text, in order: every returned piece is
/// non-empty and free of newlines, and nothing is returned only when the
/// text consists of newlines alone.
fn nonempty_lines(text: &str) -> (r: Vec<String>)
    ensures
        forall|i: int| 0 <= i < r@.len() ==> (#[trigger] r@[i])@.len() > 0,
        forall|i: int, k: int|
            #![trigger r@[i]@[k]]
            0 <= i < r@.len() && 0 <= k < r@[i]@.len() ==> r@[i]@[k] != '\n',
        r@.len() == 0 ==> forall|k: int| 0 <= k < text@.len() ==> text@[k] == '\n',
{
    proof {
        reveal_strlit("\n");
    }
    let mut out: Vec<String> = Vec::new();
    let len = text.unicode_len();
    let mut start: usize = 0;
    while start < len
        invariant
            len == text@.len(),
            start <= len,
            forall|i: int| 0 <= i < out@.len() ==> (#[trigger] out@[i])@.len() > 0,
            forall|i: int, k: int|
                #![trigger out@[i]@[k]]
                0 <= i < out@.len() && 0 <= k < out@[i]@.len() ==> out@[i]@[k] != '\n',
            out@.len() == 0 ==> forall|k: int| 0 <= k < start ==> text@[k] == '\n',
        ensures
            out@.len() == 0 ==> forall|k: int| 0 <= k < text@.len() ==> text@[k] == '\n',
        decreases len - start,
    {
        let next = match find_sub(text, "\n", start) {
            Some(j) => j,
            None => len,
        };
        proof {
            reveal_strlit("\n");
            assert("\n"@.len() == 1);
            assert forall|q: int| start <= q < next implies text@[q] != '\n' by {
                assert(!match_at(text@, "\n"@, q));
                if text@[q] == '\n' {
                    assert(text@.subrange(q, q + 1) =~= "\n"@);
                }
            }
        }
        if next > start {
            out.push(substring_copy(text, start, next));
        }
        if next >= len {
            break;
        }
        proof {
            reveal_strlit("\n");
            if next == start {
                assert(match_at(text@, "\n"@, next as int));
                assert(text@.subrange(next as int, next + 1) =~= seq![text@[next as int]]);
                assert(text@[next as int] == text@.subrange(next as int, next + 1)[0]);
                assert("\n"@[0] == '\n');
                assert(text@[next as int] == '\n');
            }
        }
        start = next + 1;
    }
    out
}

} // verus!
