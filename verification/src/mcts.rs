//! Monte-Carlo tree search over dialogue states. Nodes live in a flat
//! arena indexed by position; parent and child links are indices. The
//! upper-confidence-bound score is computed in integer fixed point
//! (millionths), with the natural logarithm approximated through the
//! binary logarithm.
use vstd::prelude::*;
use vstd::arithmetic::power2::{pow2, lemma2_to64, lemma2_to64_rest};
use crate::text::{str_eq, starts_with};
use crate::types::MarsError;
use crate::model_router::LLMProvider;
use vstd::string::StringExecFns;

verus! {

/// One turn of a conversation.
#[derive(Clone, Debug)]
pub struct Message {
    pub role: String,
    pub content: String,
}

impl Message {
    /// A message with this role and content.
    pub fn new(role: &str, content: &str) -> (r: Message)
        ensures
            r.role@ == role@,
            r.content@ == content@,
    {
        Message { role: role.to_owned(), content: content.to_owned() }
    }

    /// An exact copy, field for field.
    pub fn duplicate(&self) -> (r: Message)
        ensures
            r == *self,
    {
        Message { role: self.role.clone(), content: self.content.clone() }
    }
}

/// The immutable search domain: a system prompt, the conversation so far,
/// and the query under consideration. Transitions build new states.
#[derive(Clone, Debug)]
pub struct DialogueState {
    pub system_prompt: String,
    pub conversation_history: Vec<Message>,
    pub current_query: String,
}

impl DialogueState {
    /// A state from its three components.
    pub fn new(
        system_prompt: String,
        conversation_history: Vec<Message>,
        current_query: String,
    ) -> (r: DialogueState)
        ensures
            r.system_prompt == system_prompt,
            r.conversation_history == conversation_history,
            r.current_query == current_query,
    {
        DialogueState { system_prompt, conversation_history, current_query }
    }

    /// An exact copy: same prompt, same query, same history.
    pub fn duplicate(&self) -> (r: DialogueState)
        ensures
            r.system_prompt == self.system_prompt,
            r.current_query == self.current_query,
            r.conversation_history@ == self.conversation_history@,
    {
        let mut history: Vec<Message> = Vec::new();
        let mut i: usize = 0;
        while i < self.conversation_history.len()
            invariant
                i <= self.conversation_history@.len(),
                history@ == self.conversation_history@.subrange(0, i as int),
            decreases self.conversation_history@.len() - i,
        {
            history.push(self.conversation_history[i].duplicate());
            proof {
                assert(history@ =~= self.conversation_history@.subrange(0, i + 1));
            }
            i = i + 1;
        }
        proof {
            assert(history@ =~= self.conversation_history@);
        }
        DialogueState {
            system_prompt: self.system_prompt.clone(),
            conversation_history: history,
            current_query: self.current_query.clone(),
        }
    }

    /// A new state with one more turn appended to the history.
    pub fn with_message(&self, role: &str, content: &str) -> (r: DialogueState)
        ensures
            r.system_prompt == self.system_prompt,
            r.current_query == self.current_query,
            r.conversation_history@.len() == self.conversation_history@.len() + 1,
            r.conversation_history@.subrange(0, self.conversation_history@.len() as int)
                == self.conversation_history@,
            r.conversation_history@.last().role@ == role@,
            r.conversation_history@.last().content@ == content@,
    {
        let mut next = self.duplicate();
        next.conversation_history.push(Message::new(role, content));
        proof {
            assert(next.conversation_history@.subrange(
                0,
                self.conversation_history@.len() as int,
            ) =~= self.conversation_history@);
        }
        next
    }
}

/// Tuning of the tree search. Weights and temperatures are in thousandths.
#[derive(Clone, Copy, Debug)]
pub struct MCTSConfig {
    pub simulation_depth: usize,
    pub exploration_weight: u64,
    pub num_simulations: usize,
    pub num_actions: usize,
    pub generation_temperature: u64,
    pub evaluation_temperature: u64,
    pub max_history_length: usize,
}

impl Default for MCTSConfig {
    /// One-turn rollouts, exploration weight 0.2, two simulations, three
    /// candidate actions, and a ten-turn history cap.
    fn default() -> (r: MCTSConfig)
        ensures
            r.simulation_depth == 1,
            r.exploration_weight == 200,
            r.num_simulations == 2,
            r.num_actions == 3,
            r.generation_temperature == 1000,
            r.evaluation_temperature == 100,
            r.max_history_length == 10,
    {
        MCTSConfig {
            simulation_depth: 1,
            exploration_weight: 200,
            num_simulations: 2,
            num_actions: 3,
            generation_temperature: 1000,
            evaluation_temperature: 100,
            max_history_length: 10,
        }
    }
}

/// One node of the search tree: its dialogue state, the utterance that led
/// here from the parent, arena links, and the visit statistics.
#[derive(Debug)]
pub struct MCTSNode {
    pub state: DialogueState,
    /// The candidate next utterance this node stands for; empty at the root.
    pub action: String,
    pub parent: Option<usize>,
    pub children: Vec<usize>,
    pub visits: u64,
    /// Sum of rewards backpropagated through this node, in thousandths.
    pub value: u64,
}

impl MCTSNode {
    /// An unvisited node with no children and no action yet.
    pub fn new(state: DialogueState, parent: Option<usize>) -> (r: MCTSNode)
        ensures
            r.state == state,
            r.parent == parent,
            r.children@.len() == 0,
            r.visits == 0,
            r.value == 0,
            r.action@.len() == 0,
    {
        MCTSNode {
            state,
            action: String::new(),
            parent,
            children: Vec::new(),
            visits: 0,
            value: 0,
        }
    }
}

/// Floor of the binary logarithm; zero for zero and one.
pub open spec fn spec_log2(n: nat) -> nat
    decreases n,
{
    if n <= 1 {
        0
    } else {
        1 + spec_log2(n / 2)
    }
}

proof fn lemma_log2_bound(n: nat, k: nat)
    requires
        n < pow2(k),
    ensures
        spec_log2(n) <= k,
    decreases k,
{
    if k == 0 {
        assert(pow2(0) == 1) by {
            lemma2_to64();
        }
    } else if n <= 1 {
    } else {
        assert(pow2(k) == 2 * pow2((k - 1) as nat)) by {
            vstd::arithmetic::power2::lemma_pow2_unfold(k);
        }
        lemma_log2_bound(n / 2, (k - 1) as nat);
    }
}

/// Floor of the binary logarithm of a machine word.
pub fn log2_floor(n: u64) -> (r: u64)
    ensures
        r == spec_log2(n as nat),
        r <= 64,
{
    let mut x: u64 = n;
    let mut r: u64 = 0;
    proof {
        lemma2_to64();
        lemma2_to64_rest();
        lemma_log2_bound(n as nat, 64);
    }
    while x > 1
        invariant
            r + spec_log2(x as nat) == spec_log2(n as nat),
            spec_log2(n as nat) <= 64,
        decreases x,
    {
        x = x / 2;
        r = r + 1;
    }
    r
}

/// The greatest `j <= k` whose square does not exceed `n`.
pub open spec fn isqrt_helper(n: nat, k: nat) -> nat
    decreases k,
{
    if k * k <= n {
        k
    } else if k == 0 {
        0
    } else {
        isqrt_helper(n, (k - 1) as nat)
    }
}

/// Integer square root: the greatest `r` with `r * r <= n`.
pub open spec fn spec_isqrt(n: nat) -> nat {
    isqrt_helper(n, n)
}

proof fn lemma_isqrt_helper(n: nat, k: nat, r: nat)
    requires
        r <= k,
        r * r <= n,
        (r + 1) * (r + 1) > n,
    ensures
        isqrt_helper(n, k) == r,
    decreases k,
{
    if k == r {
    } else {
        assert(k >= r + 1);
        assert(k * k >= (r + 1) * (r + 1)) by (nonlinear_arith)
            requires
                k >= r + 1,
        ;
        lemma_isqrt_helper(n, (k - 1) as nat, r);
    }
}

proof fn lemma_isqrt_char(n: nat, r: nat)
    requires
        r * r <= n,
        (r + 1) * (r + 1) > n,
    ensures
        spec_isqrt(n) == r,
{
    assert(r <= n) by (nonlinear_arith)
        requires
            r * r <= n,
    ;
    lemma_isqrt_helper(n, n, r);
}

/// Integer square root of a machine word.
pub fn isqrt_u64(n: u64) -> (r: u64)
    ensures
        r == spec_isqrt(n as nat),
        r * r <= n,
{
    let mut r: u64 = 0;
    loop
        invariant
            r * r <= n,
            r <= n,
            r < 0x1_0000_0000,
        ensures
            r * r <= n,
            (r + 1) * (r + 1) > n,
        decreases n - r,
    {
        let rp: u128 = r as u128 + 1;
        proof {
            assert(rp * rp <= 0x1_0000_0000_0000_0000) by (nonlinear_arith)
                requires
                    rp <= 0x1_0000_0000,
            ;
        }
        let sq: u128 = rp * rp;
        if sq > n as u128 {
            break;
        }
        proof {
            assert((r + 1) * (r + 1) <= n);
            assert(r + 1 <= n) by (nonlinear_arith)
                requires
                    (r + 1) * (r + 1) <= n,
            ;
            assert(r + 1 < 0x1_0000_0000) by (nonlinear_arith)
                requires
                    (r + 1) * (r + 1) <= n < 0x1_0000_0000_0000_0000,
            ;
        }
        r = r + 1;
    }
    proof {
        lemma_isqrt_char(n as nat, r as nat);
    }
    r
}

/// The upper-confidence-bound score of a child, in millionths: the
/// exploitation term `value / visits` plus the exploration term
/// `weight * sqrt(ln(parent visits) / visits)`, with `ln` approximated as
/// `0.693 * log2`.
pub open spec fn ucb_micros(value: nat, visits: nat, parent_visits: nat, ew: nat) -> nat
    recommends
        visits >= 1,
{
    (value * 1000) / (if visits == 0 {
        1
    } else {
        visits
    }) + ew * spec_isqrt((693 * spec_log2(parent_visits) * 1000) / (if visits == 0 {
        1
    } else {
        visits
    }))
}

/// The UCB score of a visited child, computed exactly in 128-bit integers.
pub fn ucb_micros_exec(value: u64, visits: u64, parent_visits: u64, ew: u64) -> (r: u128)
    requires
        visits >= 1,
    ensures
        r == ucb_micros(value as nat, visits as nat, parent_visits as nat, ew as nat),
{
    let exploit: u128 = (value as u128 * 1000) / (visits as u128);
    proof {
        assert(exploit <= value as int * 1000) by (nonlinear_arith)
            requires
                visits >= 1,
                exploit as int == (value as int * 1000) / (visits as int),
        ;
    }
    let lg: u64 = log2_floor(parent_visits);
    let num: u128 = 693u128 * lg as u128 * 1000;
    proof {
        assert(num <= 44_352_000);
    }
    let ratio: u128 = num / (visits as u128);
    proof {
        assert(ratio <= num) by (nonlinear_arith)
            requires
                visits >= 1,
                ratio as int == (num as int) / (visits as int),
        ;
    }
    let root: u64 = isqrt_u64(ratio as u64);
    proof {
        assert(root <= 6660) by (nonlinear_arith)
            requires
                root * root <= 44_352_000,
        ;
        assert(ew as int * root as int <= u64::MAX as int * 6660) by (nonlinear_arith)
            requires
                ew <= u64::MAX,
                root <= 6660,
        ;
    }
    let explore: u128 = ew as u128 * root as u128;
    exploit + explore
}

/// A dialogue state is terminal when its history is longer than the cap or
/// its query is a closing signal.
pub open spec fn spec_terminal(s: DialogueState, max_history_length: int) -> bool {
    ||| s.conversation_history@.len() > max_history_length
    ||| s.current_query@ == "goodbye"@
}

/// Arena node `i` is well formed: its parent comes before it and all its
/// children come after it and lie inside the arena.
pub open spec fn wf_node(nodes: Seq<MCTSNode>, i: int) -> bool {
    &&& (nodes[i].parent matches Some(p) ==> p < i)
    &&& forall|k: int|
        0 <= k < nodes[i].children@.len() ==> i < (#[trigger] nodes[i].children@[k]) as int
            && nodes[i].children@[k] < nodes.len()
}

/// Every node of the arena is well formed.
pub open spec fn wf_arena(nodes: Seq<MCTSNode>) -> bool {
    forall|i: int| 0 <= i < nodes.len() ==> #[trigger] wf_node(nodes, i)
}

/// Every node has been visited at most `cap` times and carries at most
/// 1000 value units per visit.
pub open spec fn stats_bounded(nodes: Seq<MCTSNode>, cap: nat) -> bool {
    forall|i: int|
        0 <= i < nodes.len() ==> (#[trigger] nodes[i].visits) as nat <= cap && nodes[i].value
            <= nodes[i].visits * 1000
}

/// The UCB score of the child at position `j` of the child list `ch`.
pub open spec fn child_ucb(nodes: Seq<MCTSNode>, ch: Seq<usize>, j: int, pv: nat, ew: nat) -> nat {
    ucb_micros(nodes[ch[j] as int].value as nat, nodes[ch[j] as int].visits as nat, pv, ew)
}

/// Position `k` holds the first never-visited child.
pub open spec fn zero_visit_choice(nodes: Seq<MCTSNode>, ch: Seq<usize>, k: int) -> bool {
    &&& 0 <= k < ch.len()
    &&& nodes[ch[k] as int].visits == 0
    &&& forall|j: int| 0 <= j < k ==> nodes[(#[trigger] ch[j]) as int].visits != 0
}

/// Every child has been visited at least once.
pub open spec fn all_visited(nodes: Seq<MCTSNode>, ch: Seq<usize>) -> bool {
    forall|j: int| 0 <= j < ch.len() ==> nodes[(#[trigger] ch[j]) as int].visits >= 1
}

/// Position `k` holds the first child of maximal UCB score.
pub open spec fn max_ucb_choice(
    nodes: Seq<MCTSNode>,
    ch: Seq<usize>,
    k: int,
    pv: nat,
    ew: nat,
) -> bool {
    &&& 0 <= k < ch.len()
    &&& forall|j: int|
        0 <= j < ch.len() ==> #[trigger] child_ucb(nodes, ch, j, pv, ew) <= child_ucb(
            nodes,
            ch,
            k,
            pv,
            ew,
        )
    &&& forall|j: int|
        0 <= j < k ==> #[trigger] child_ucb(nodes, ch, j, pv, ew) < child_ucb(
            nodes,
            ch,
            k,
            pv,
            ew,
        )
}

/// Among never-visited children the selected position is unique, so UCB
/// selection never wavers between two zero-visit children: it always takes
/// the first-encountered one.
pub proof fn lemma_zero_visit_choice_unique(
    nodes: Seq<MCTSNode>,
    ch: Seq<usize>,
    k1: int,
    k2: int,
)
    requires
        zero_visit_choice(nodes, ch, k1),
        zero_visit_choice(nodes, ch, k2),
    ensures
        k1 == k2,
{
    if k1 < k2 {
        assert(nodes[ch[k1] as int].visits != 0);
    }
    if k2 < k1 {
        assert(nodes[ch[k2] as int].visits != 0);
    }
}

/// The first-of-maximal-visits choice is unique: the action a finished
/// search returns is determined by the tree alone.
pub proof fn lemma_most_visited_choice_unique(
    nodes: Seq<MCTSNode>,
    ch: Seq<usize>,
    k1: int,
    k2: int,
)
    requires
        most_visited_choice(nodes, ch, k1),
        most_visited_choice(nodes, ch, k2),
    ensures
        k1 == k2,
{
    if k1 < k2 {
        assert(nodes[ch[k1] as int].visits < nodes[ch[k2] as int].visits);
        assert(nodes[ch[k2] as int].visits <= nodes[ch[k1] as int].visits);
    }
    if k2 < k1 {
        assert(nodes[ch[k2] as int].visits < nodes[ch[k1] as int].visits);
        assert(nodes[ch[k1] as int].visits <= nodes[ch[k2] as int].visits);
    }
}

/// Position `k` holds the first child of maximal visit count.
pub open spec fn most_visited_choice(nodes: Seq<MCTSNode>, ch: Seq<usize>, k: int) -> bool {
    &&& 0 <= k < ch.len()
    &&& forall|j: int|
        0 <= j < ch.len() ==> nodes[(#[trigger] ch[j]) as int].visits <= nodes[ch[k] as int].visits
    &&& forall|j: int|
        0 <= j < k ==> nodes[(#[trigger] ch[j]) as int].visits < nodes[ch[k] as int].visits
}

/// Increment one node's visit count and add a reward to its value,
/// touching nothing else in the arena.
fn bump_stats(nodes: &mut Vec<MCTSNode>, b: usize, reward: u64)
    requires
        b < old(nodes)@.len(),
        reward <= 1000,
        old(nodes)@[b as int].visits <= 1_000_000_000,
        old(nodes)@[b as int].value <= old(nodes)@[b as int].visits * 1000,
    ensures
        final(nodes)@.len() == old(nodes)@.len(),
        forall|i: int|
            0 <= i < old(nodes)@.len() && i != b ==> final(nodes)@[i] == old(nodes)@[i],
        final(nodes)@[b as int].visits == old(nodes)@[b as int].visits + 1,
        final(nodes)@[b as int].value == old(nodes)@[b as int].value + reward,
        final(nodes)@[b as int].value <= final(nodes)@[b as int].visits * 1000,
        final(nodes)@[b as int].state == old(nodes)@[b as int].state,
        final(nodes)@[b as int].action == old(nodes)@[b as int].action,
        final(nodes)@[b as int].parent == old(nodes)@[b as int].parent,
        final(nodes)@[b as int].children == old(nodes)@[b as int].children,
{
    let node = &mut nodes[b];
    node.visits = node.visits + 1;
    node.value = node.value + reward;
}

/// Append a fresh child node to the arena and link it under `idx`.
fn attach_child(nodes: &mut Vec<MCTSNode>, idx: usize, child: MCTSNode) -> (ci: usize)
    requires
        wf_arena(old(nodes)@),
        idx < old(nodes)@.len(),
        child.parent == Some(idx),
        child.children@.len() == 0,
        child.visits == 0,
        child.value == 0,
    ensures
        ci == old(nodes)@.len(),
        final(nodes)@.len() == old(nodes)@.len() + 1,
        wf_arena(final(nodes)@),
        forall|i: int|
            0 <= i < old(nodes)@.len() && i != idx ==> final(nodes)@[i] == old(nodes)@[i],
        final(nodes)@[idx as int].children@ == old(nodes)@[idx as int].children@.push(ci),
        final(nodes)@[idx as int].state == old(nodes)@[idx as int].state,
        final(nodes)@[idx as int].action == old(nodes)@[idx as int].action,
        final(nodes)@[idx as int].parent == old(nodes)@[idx as int].parent,
        final(nodes)@[idx as int].visits == old(nodes)@[idx as int].visits,
        final(nodes)@[idx as int].value == old(nodes)@[idx as int].value,
        final(nodes)@[ci as int] == child,
{
    let ci = nodes.len();
    nodes.push(child);
    let node = &mut nodes[idx];
    node.children.push(ci);
    proof {
        let after = final(nodes)@;
        let before = old(nodes)@;
        assert forall|i: int| 0 <= i < after.len() implies #[trigger] wf_node(after, i) by {
            if i == idx {
                assert(wf_node(before, i));
                assert(after[i].children@ == before[i].children@.push(ci));
                assert forall|k: int|
                    0 <= k < after[i].children@.len() implies i < (
                #[trigger] after[i].children@[k]) as int && after[i].children@[k]
                    < after.len() by {
                    if k < before[i].children@.len() {
                        assert(after[i].children@[k] == before[i].children@[k]);
                    } else {
                        assert(after[i].children@[k] == ci);
                    }
                }
            } else if i == ci {
                assert(after[i] == child);
            } else {
                assert(wf_node(before, i));
                assert(after[i] == before[i]);
            }
        }
    }
    ci
}

/// The tree-search engine: configuration plus a running count of backend
/// completions made during search — the usage unit recorded, since the
/// provider contract returns text without token counts.
pub struct MCTS {
    pub config: MCTSConfig,
    pub completion_tokens: u64,
}

impl MCTS {
    /// An engine with this configuration and no tokens spent yet.
    pub fn new(config: MCTSConfig) -> (r: MCTS)
        ensures
            r.config == config,
            r.completion_tokens == 0,
    {
        MCTS { config, completion_tokens: 0 }
    }

    /// A state is terminal exactly when its history exceeds the configured
    /// cap, or its query signals closing, regardless of the other
    /// condition.
    pub fn is_terminal(&self, state: &DialogueState) -> (r: bool)
        ensures
            r == spec_terminal(*state, self.config.max_history_length as int),
    {
        if state.conversation_history.len() > self.config.max_history_length {
            true
        } else {
            str_eq(state.current_query.as_str(), "goodbye")
        }
    }

    /// UCB selection among the children of `idx`: the first never-visited
    /// child if one exists — so selection among unvisited children is
    /// deterministic — otherwise the first child of maximal UCB score.
    pub fn select_child(&self, nodes: &Vec<MCTSNode>, idx: usize) -> (r: usize)
        requires
            wf_arena(nodes@),
            idx < nodes@.len(),
            nodes@[idx as int].children@.len() > 0,
        ensures
            idx < r < nodes@.len(),
            ({
                let ch = nodes@[idx as int].children@;
                let pv = nodes@[idx as int].visits as nat;
                let ew = self.config.exploration_weight as nat;
                exists|k: int|
                    #![auto]
                    0 <= k < ch.len() && r == ch[k] && (zero_visit_choice(nodes@, ch, k) || (
                    all_visited(nodes@, ch) && max_ucb_choice(nodes@, ch, k, pv, ew)))
            }),
    {
        proof {
            assert(wf_node(nodes@, idx as int));
        }
        let n_children = nodes[idx].children.len();
        let mut k: usize = 0;
        while k < n_children
            invariant
                wf_arena(nodes@),
                idx < nodes@.len(),
                n_children == nodes@[idx as int].children@.len(),
                k <= n_children,
                wf_node(nodes@, idx as int),
                forall|j: int|
                    0 <= j < k ==> nodes@[(#[trigger] nodes@[idx as int].children@[j]) as int].visits
                        != 0,
            decreases n_children - k,
        {
            let c = nodes[idx].children[k];
            if nodes[c].visits == 0 {
                proof {
                    let ch = nodes@[idx as int].children@;
                    assert(zero_visit_choice(nodes@, ch, k as int));
                }
                return c;
            }
            k = k + 1;
        }
        let pv = nodes[idx].visits;
        let ew = self.config.exploration_weight;
        let c0 = nodes[idx].children[0];
        let mut best_k: usize = 0;
        let mut best_c: usize = c0;
        let mut best_u: u128 = ucb_micros_exec(nodes[c0].value, nodes[c0].visits, pv, ew);
        let mut j: usize = 1;
        while j < n_children
            invariant
                wf_arena(nodes@),
                idx < nodes@.len(),
                wf_node(nodes@, idx as int),
                n_children == nodes@[idx as int].children@.len(),
                n_children > 0,
                pv == nodes@[idx as int].visits,
                ew == self.config.exploration_weight,
                all_visited(nodes@, nodes@[idx as int].children@),
                best_k < j <= n_children,
                best_c == nodes@[idx as int].children@[best_k as int],
                best_u == child_ucb(
                    nodes@,
                    nodes@[idx as int].children@,
                    best_k as int,
                    pv as nat,
                    ew as nat,
                ),
                forall|q: int|
                    0 <= q < j ==> #[trigger] child_ucb(
                        nodes@,
                        nodes@[idx as int].children@,
                        q,
                        pv as nat,
                        ew as nat,
                    ) <= best_u,
                forall|q: int|
                    0 <= q < best_k ==> #[trigger] child_ucb(
                        nodes@,
                        nodes@[idx as int].children@,
                        q,
                        pv as nat,
                        ew as nat,
                    ) < best_u,
            decreases n_children - j,
        {
            let c = nodes[idx].children[j];
            let u = ucb_micros_exec(nodes[c].value, nodes[c].visits, pv, ew);
            if u > best_u {
                best_k = j;
                best_c = c;
                best_u = u;
            }
            j = j + 1;
        }
        proof {
            let ch = nodes@[idx as int].children@;
            assert(max_ucb_choice(nodes@, ch, best_k as int, pv as nat, ew as nat));
        }
        best_c
    }

    /// The first child of `idx` with the greatest visit count.
    pub fn best_child(&self, nodes: &Vec<MCTSNode>, idx: usize) -> (r: usize)
        requires
            wf_arena(nodes@),
            idx < nodes@.len(),
            nodes@[idx as int].children@.len() > 0,
        ensures
            idx < r < nodes@.len(),
            ({
                let ch = nodes@[idx as int].children@;
                exists|k: int|
                    #![auto]
                    0 <= k < ch.len() && r == ch[k] && most_visited_choice(nodes@, ch, k)
            }),
    {
        proof {
            assert(wf_node(nodes@, idx as int));
        }
        let n_children = nodes[idx].children.len();
        let c0 = nodes[idx].children[0];
        let mut best_k: usize = 0;
        let mut best_c: usize = c0;
        let mut best_v: u64 = nodes[c0].visits;
        let mut j: usize = 1;
        while j < n_children
            invariant
                wf_arena(nodes@),
                idx < nodes@.len(),
                wf_node(nodes@, idx as int),
                n_children == nodes@[idx as int].children@.len(),
                n_children > 0,
                best_k < j <= n_children,
                best_c == nodes@[idx as int].children@[best_k as int],
                best_v == nodes@[nodes@[idx as int].children@[best_k as int] as int].visits,
                forall|q: int|
                    0 <= q < j ==> nodes@[(#[trigger] nodes@[idx as int].children@[q]) as int].visits
                        <= best_v,
                forall|q: int|
                    0 <= q < best_k ==> nodes@[(
                    #[trigger] nodes@[idx as int].children@[q]) as int].visits < best_v,
            decreases n_children - j,
        {
            let c = nodes[idx].children[j];
            let v = nodes[c].visits;
            if v > best_v {
                best_k = j;
                best_c = c;
                best_v = v;
            }
            j = j + 1;
        }
        proof {
            let ch = nodes@[idx as int].children@;
            assert(most_visited_choice(nodes@, ch, best_k as int));
        }
        best_c
    }

    /// Count one backend completion towards the search's usage total; the
    /// provider contract returns no token counts, so calls are the unit
    /// recorded, saturating at the largest machine word.
    fn note_backend_call(&mut self)
        ensures
            final(self).config == old(self).config,
            final(self).completion_tokens >= old(self).completion_tokens,
    {
        if self.completion_tokens < u64::MAX {
            self.completion_tokens = self.completion_tokens + 1;
        }
    }

    /// Run the configured number of simulations from `initial_state` and
    /// return the action of the root's most-visited child. Each simulation
    /// selects a path by UCB, expands a non-terminal leaf with up to
    /// `num_actions` generated utterances, rolls the dialogue forward up to
    /// `simulation_depth` turns, judges the reached state, and walks the
    /// reward back to the root. Every backend completion made during search
    /// raises the usage counter. A backend failure is fatal: search is only
    /// run as an explicitly requested aggregation step. A search that can
    /// never create an action — zero simulations, zero actions per
    /// expansion, or a terminal initial state — fails rather than answer.
    #[verifier::loop_isolation(false)]
    pub fn search<P: LLMProvider>(&mut self, initial_state: DialogueState, provider: &P) -> (r:
        Result<String, MarsError>)
        requires
            old(self).config.num_simulations <= 1_000_000_000,
        ensures
            final(self).config == old(self).config,
            final(self).completion_tokens >= old(self).completion_tokens,
            (old(self).config.num_simulations == 0 || old(self).config.num_actions == 0
                || spec_terminal(initial_state, old(self).config.max_history_length as int))
                ==> r is Err,
    {
        let mut nodes: Vec<MCTSNode> = Vec::new();
        nodes.push(MCTSNode::new(initial_state, None));
        let num_sims = self.config.num_simulations;
        let ghost dead = num_sims == 0 || self.config.num_actions == 0 || spec_terminal(
            initial_state,
            self.config.max_history_length as int,
        );
        let mut sim: usize = 0;
        while sim < num_sims
            invariant
                nodes@.len() >= 1,
                wf_arena(nodes@),
                stats_bounded(nodes@, sim as nat),
                sim <= num_sims,
                self.config == old(self).config,
                self.completion_tokens >= old(self).completion_tokens,
                nodes@[0].state.conversation_history@ == initial_state.conversation_history@,
                nodes@[0].state.current_query == initial_state.current_query,
                dead ==> nodes@[0].children@.len() == 0,
            decreases num_sims - sim,
        {
            // Selection: descend along UCB-best children to a leaf or a
            // terminal node.
            let mut idx: usize = 0;
            while nodes[idx].children.len() > 0 && !self.is_terminal(&nodes[idx].state)
                invariant
                    idx < nodes@.len(),
                    dead ==> idx == 0,
                decreases nodes@.len() - idx,
            {
                idx = self.select_child(&nodes, idx);
            }
            // Expansion: give a non-terminal leaf its candidate actions.
            if nodes[idx].children.len() == 0 && !self.is_terminal(&nodes[idx].state) {
                let num_actions = self.config.num_actions;
                let mut a: usize = 0;
                while a < num_actions
                    invariant
                        idx < nodes@.len(),
                        wf_arena(nodes@),
                        stats_bounded(nodes@, sim as nat),
                        self.config == old(self).config,
                        self.completion_tokens >= old(self).completion_tokens,
                        nodes@[0].state.conversation_history@
                            == initial_state.conversation_history@,
                        nodes@[0].state.current_query == initial_state.current_query,
                        dead ==> nodes@[0].children@.len() == 0,
                    decreases num_actions - a,
                {
                    let prompt = render_state_prompt(&nodes[idx].state);
                    self.note_backend_call();
                    match provider.complete(
                        prompt.as_str(),
                        Some(crate::prompts::mars_system_prompt()),
                    ) {
                        Ok(text) => {
                            let child_state = nodes[idx].state.with_message(
                                "assistant",
                                text.as_str(),
                            );
                            let mut child = MCTSNode::new(child_state, Some(idx));
                            child.action = text;
                            let ci = attach_child(&mut nodes, idx, child);
                        },
                        Err(e) => {
                            return Err(e);
                        },
                    }
                    a = a + 1;
                }
                if nodes[idx].children.len() > 0 {
                    proof {
                        assert(wf_node(nodes@, idx as int));
                    }
                    idx = nodes[idx].children[0];
                }
            }
            // Simulation: roll the dialogue forward up to the configured
            // depth, stopping early at a terminal state.
            let mut sim_state = nodes[idx].state.duplicate();
            let depth = self.config.simulation_depth;
            let mut d: usize = 0;
            while d < depth
                invariant
                    self.config == old(self).config,
                    self.completion_tokens >= old(self).completion_tokens,
                decreases depth - d,
            {
                if self.is_terminal(&sim_state) {
                    break;
                }
                let aprompt = render_state_prompt(&sim_state);
                self.note_backend_call();
                let atext = match provider.complete(
                    aprompt.as_str(),
                    Some(crate::prompts::mars_system_prompt()),
                ) {
                    Ok(t) => t,
                    Err(e) => {
                        return Err(e);
                    },
                };
                let with_action = sim_state.with_message("assistant", atext.as_str());
                let rprompt = render_state_prompt(&with_action);
                self.note_backend_call();
                let rtext = match provider.complete(
                    rprompt.as_str(),
                    Some(crate::prompts::mars_system_prompt()),
                ) {
                    Ok(t) => t,
                    Err(e) => {
                        return Err(e);
                    },
                };
                sim_state = with_action.with_message("user", rtext.as_str());
                d = d + 1;
            }
            // Evaluation: judge the reached state; the reward is full for a
            // verdict that begins with CORRECT and zero otherwise.
            let eprompt = render_state_prompt(&sim_state);
            self.note_backend_call();
            let etext = match provider.complete(
                eprompt.as_str(),
                Some(crate::prompts::evaluation_prompt()),
            ) {
                Ok(t) => t,
                Err(e) => {
                    return Err(e);
                },
            };
            let reward: u64 = if starts_with(etext.as_str(), "CORRECT") {
                1000
            } else {
                0
            };
            // Backpropagation: every ancestor of the reached node gains one
            // visit and the reward.
            let mut b: usize = idx;
            let mut more: usize = 1;
            while more == 1
                invariant
                    b < nodes@.len(),
                    wf_arena(nodes@),
                    more <= 1,
                    more == 1 ==> forall|i: int|
                        0 <= i <= b ==> (#[trigger] nodes@[i].visits) as nat <= sim as nat
                            && nodes@[i].value <= nodes@[i].visits * 1000,
                    more == 0 ==> forall|i: int|
                        0 <= i <= b ==> (#[trigger] nodes@[i].visits) as nat <= sim as nat + 1
                            && nodes@[i].value <= nodes@[i].visits * 1000,
                    forall|i: int|
                        b < i < nodes@.len() ==> (#[trigger] nodes@[i].visits) as nat <= sim as nat
                            + 1 && nodes@[i].value <= nodes@[i].visits * 1000,
                    nodes@[0].state.conversation_history@
                        == initial_state.conversation_history@,
                    nodes@[0].state.current_query == initial_state.current_query,
                    dead ==> nodes@[0].children@.len() == 0,
                decreases b, more,
            {
                let ghost before = nodes@;
                bump_stats(&mut nodes, b, reward);
                proof {
                    assert forall|i: int| 0 <= i < nodes@.len() implies #[trigger] wf_node(
                        nodes@,
                        i,
                    ) by {
                        assert(wf_node(before, i));
                        assert(nodes@[i].parent == before[i].parent);
                        assert(nodes@[i].children == before[i].children);
                    }
                }
                let parent = nodes[b].parent;
                match parent {
                    Some(p) => {
                        proof {
                            assert(wf_node(nodes@, b as int));
                            assert(p < b);
                            assert forall|i: int| 0 <= i <= p implies (
                            #[trigger] nodes@[i].visits) as nat <= sim as nat && nodes@[i].value
                                <= nodes@[i].visits * 1000 by {
                                assert(nodes@[i] == before[i]);
                            }
                            assert forall|i: int| p < i < nodes@.len() implies (
                            #[trigger] nodes@[i].visits) as nat <= sim as nat + 1
                                && nodes@[i].value <= nodes@[i].visits * 1000 by {
                                if i != b {
                                    assert(nodes@[i] == before[i]);
                                }
                            }
                        }
                        b = p;
                    },
                    None => {
                        proof {
                            assert forall|i: int| 0 <= i <= b implies (
                            #[trigger] nodes@[i].visits) as nat <= sim as nat + 1
                                && nodes@[i].value <= nodes@[i].visits * 1000 by {
                                if i != b {
                                    assert(nodes@[i] == before[i]);
                                }
                            }
                        }
                        more = 0;
                    },
                }
            }
            proof {
                assert(stats_bounded(nodes@, sim as nat + 1));
            }
            sim = sim + 1;
        }
        // Decision: the root's most-visited child's action is the next step.
        if nodes[0].children.len() == 0 {
            return Err(
                MarsError::AggregationError("tree search produced no actions".to_owned()),
            );
        }
        let best = self.best_child(&nodes, 0);
        Ok(nodes[best].action.clone())
    }
}

/// The prompt shown to the backend for a dialogue state: the history, one
/// turn per line, then the current query.
fn render_state_prompt(state: &DialogueState) -> String {
    let mut out = String::new();
    out.append("Conversation so far:\n");
    let mut i: usize = 0;
    while i < state.conversation_history.len()
        invariant
            i <= state.conversation_history@.len(),
        decreases state.conversation_history@.len() - i,
    {
        out.append(state.conversation_history[i].role.as_str());
        out.append(": ");
        out.append(state.conversation_history[i].content.as_str());
        out.append("\n");
        i = i + 1;
    }
    out.append("Current query: ");
    out.append(state.current_query.as_str());
    out
}

} // verus!

