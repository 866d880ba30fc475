//! Verification scoring. The correctness judgment itself is delegated to
//! the backend; what is owned here is the verdict parsing, the bookkeeping
//! contract, and best-verified selection.
use vstd::prelude::*;
use vstd::string::StringExecFns;
use crate::text::{match_at, starts_with};
use crate::types::{MarsError, Solution};
use crate::model_router::LLMProvider;
use crate::prompts;

verus! {

/// One verification pass's outcome: the boolean judgment and a score in
/// thousandths.
#[derive(Clone, Copy, Debug)]
pub struct VerificationResult {
    pub is_correct: bool,
    pub score: u64,
}

/// A verdict text is affirmative exactly when it begins with `CORRECT`.
/// (`INCORRECT` begins with `I`, so it is negative.)
pub open spec fn spec_verdict(text: Seq<char>) -> bool {
    match_at(text, "CORRECT"@, 0)
}

/// Cross-agent verification of candidate solutions.
pub struct Verifier {}

impl Verifier {
    /// Read a backend reply as a verification result: affirmative verdicts
    /// score full marks, all others zero.
    pub fn parse_verdict(text: &str) -> (r: VerificationResult)
        ensures
            r.is_correct == spec_verdict(text@),
            r.score == if r.is_correct {
                1000u64
            } else {
                0u64
            },
    {
        let is_correct = starts_with(text, "CORRECT");
        VerificationResult { is_correct, score: if is_correct { 1000 } else { 0 } }
    }

    /// One verification pass: ask the backend to judge the solution and
    /// parse its reply. Whatever the backend answers, a returned result is
    /// internally consistent: full score on a pass, zero on a failure.
    pub fn verify_solution<P: LLMProvider>(
        solution: &Solution,
        verifier_id: &str,
        provider: &P,
    ) -> (r: Result<VerificationResult, MarsError>)
        ensures
            r matches Ok(v) ==> v.score == if v.is_correct {
                1000u64
            } else {
                0u64
            },
    {
        let mut prompt = String::new();
        prompt.append("Verifier ");
        prompt.append(verifier_id);
        prompt.append(", judge this solution.\nReasoning:\n");
        prompt.append(solution.reasoning.as_str());
        prompt.append("\nAnswer: ");
        prompt.append(solution.answer.as_str());
        match provider.complete(prompt.as_str(), Some(prompts::verification_system_prompt())) {
            Ok(reply) => Ok(Self::parse_verdict(reply.as_str())),
            Err(e) => Err(e),
        }
    }

    /// Position `k` holds the first verified solution of maximal
    /// verification score.
    pub open spec fn best_verified_at(sols: Seq<Solution>, k: int) -> bool {
        &&& 0 <= k < sols.len()
        &&& sols[k].is_verified
        &&& forall|j: int|
            0 <= j < sols.len() && (#[trigger] sols[j]).is_verified ==> sols[j].verification_score
                <= sols[k].verification_score
        &&& forall|j: int|
            0 <= j < k && (#[trigger] sols[j]).is_verified ==> sols[j].verification_score
                < sols[k].verification_score
    }

    /// Among the verified solutions, the one with the highest accumulated
    /// verification score; ties go to the earliest. Nothing when no
    /// solution is verified.
    pub fn find_best_verified(solutions: &Vec<Solution>) -> (r: Option<Solution>)
        ensures
            (r is Some) == (exists|i: int|
                0 <= i < solutions@.len() && (#[trigger] solutions@[i]).is_verified),
            r matches Some(s) ==> exists|k: int|
                #![auto]
                Self::best_verified_at(solutions@, k) && s == solutions@[k],
    {
        let mut best: Option<usize> = None;
        let mut i: usize = 0;
        while i < solutions.len()
            invariant
                i <= solutions@.len(),
                match best {
                    Some(b) => {
                        &&& b < i
                        &&& solutions@[b as int].is_verified
                        &&& forall|j: int|
                            0 <= j < i && (#[trigger] solutions@[j]).is_verified
                                ==> solutions@[j].verification_score
                                <= solutions@[b as int].verification_score
                        &&& forall|j: int|
                            0 <= j < b && (#[trigger] solutions@[j]).is_verified
                                ==> solutions@[j].verification_score
                                < solutions@[b as int].verification_score
                    },
                    None => forall|j: int|
                        0 <= j < i ==> !(#[trigger] solutions@[j]).is_verified,
                },
            decreases solutions@.len() - i,
        {
            if solutions[i].is_verified {
                match best {
                    Some(b) => {
                        if solutions[i].verification_score
                            > solutions[b].verification_score {
                            best = Some(i);
                        }
                    },
                    None => {
                        best = Some(i);
                    },
                }
            }
            i = i + 1;
        }
        match best {
            Some(b) => {
                proof {
                    assert(Self::best_verified_at(solutions@, b as int));
                }
                Some(solutions[b].duplicate())
            },
            None => None,
        }
    }
}

} // verus!
