//! The run's shared candidate store. It grows monotonically through `add`;
//! `update` replaces the first candidate carrying the same id and quietly
//! does nothing when the id is absent, which keeps a racing update
//! recoverable rather than fatal.
use vstd::prelude::*;
use vstd::pervasive::VecAdditionalExecFns;
use crate::text::str_eq;
use crate::types::Solution;

verus! {

/// All candidates produced during a run, in insertion order.
pub struct Workspace {
    solutions: Vec<Solution>,
}

impl View for Workspace {
    type V = Seq<Solution>;

    closed spec fn view(&self) -> Seq<Solution> {
        self.solutions@
    }
}

impl Workspace {
    /// An empty workspace.
    pub fn new() -> (r: Workspace)
        ensures
            r@.len() == 0,
    {
        Workspace { solutions: Vec::new() }
    }

    /// How many candidates the workspace holds.
    pub fn count(&self) -> (r: usize)
        ensures
            r == self@.len(),
    {
        self.solutions.len()
    }

    /// Append a candidate. Always succeeds; the caller-supplied id is
    /// trusted as it stands.
    pub fn add_solution(&mut self, solution: Solution)
        ensures
            final(self)@ == old(self)@.push(solution),
    {
        self.solutions.push(solution);
    }

    /// A snapshot of all candidates, in insertion order.
    pub fn get_all_solutions(&self) -> (r: Vec<Solution>)
        ensures
            r@ == self@,
    {
        let mut out: Vec<Solution> = Vec::new();
        let mut i: usize = 0;
        while i < self.solutions.len()
            invariant
                i <= self.solutions@.len(),
                out@ == self.solutions@.subrange(0, i as int),
            decreases self.solutions@.len() - i,
        {
            out.push(self.solutions[i].duplicate());
            proof {
                assert(out@ =~= self.solutions@.subrange(0, i + 1));
            }
            i = i + 1;
        }
        proof {
            assert(out@ =~= self.solutions@);
        }
        out
    }

    /// Replace the first candidate whose id matches; report whether one
    /// was found. An absent id is a soft failure: the store is unchanged.
    pub fn update_solution(&mut self, solution: Solution) -> (r: bool)
        ensures
            r == (exists|i: int|
                0 <= i < old(self)@.len() && (#[trigger] old(self)@[i].id@) == solution.id@),
            r ==> exists|i: int|
                {
                    &&& 0 <= i < old(self)@.len()
                    &&& (#[trigger] old(self)@[i].id@) == solution.id@
                    &&& forall|j: int| 0 <= j < i ==> old(self)@[j].id@ != solution.id@
                    &&& final(self)@ == old(self)@.update(i, solution)
                },
            !r ==> final(self)@ == old(self)@,
    {
        let mut i: usize = 0;
        while i < self.solutions.len()
            invariant
                i <= self.solutions@.len(),
                self.solutions@ == old(self)@,
                forall|j: int| 0 <= j < i ==> old(self)@[j].id@ != solution.id@,
            decreases self.solutions@.len() - i,
        {
            if str_eq(self.solutions[i].id.as_str(), solution.id.as_str()) {
                self.solutions.set(i, solution);
                return true;
            }
            i = i + 1;
        }
        false
    }
}

} // verus!
