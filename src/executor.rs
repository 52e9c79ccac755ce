use vstd::prelude::*;

use crate::execution::{
    after_outputs, resolution, step_indices, successors, ExecutionStep, ExecutionStepError,
};
use crate::graph::{Graph, GraphNode, NodeIndex};
use crate::nodes::{NodeError, SyncNode};
use crate::value::Value;

verus! {

/// Drives a worklist of steps over a graph. The step taken next is the one
/// scheduled last, so branches are followed depth first.
pub struct Executor {
    pub steps: Vec<ExecutionStep>,
}

/// Whether `nodes`, `after` and `r` are what taking the last step of `before`
/// on `g` gives: the step is removed, its node run, and on success its
/// successors are scheduled; an empty worklist gives `Ok(false)`.
pub open spec fn advanced<S, A>(
    g: Graph<S, A>,
    before: Seq<ExecutionStep>,
    nodes: Seq<GraphNode<S, A>>,
    after: Seq<ExecutionStep>,
    r: Result<bool, ExecutionStepError>,
) -> bool {
    if before.len() == 0 {
        &&& r == Ok::<bool, ExecutionStepError>(false)
        &&& nodes == g.nodes@
        &&& after == before
    } else {
        let t = before.last().0;
        let failed = nodes == g.nodes@ && after == before.drop_last();
        match resolution(g, t) {
            Err(e) => failed && r == Err::<bool, ExecutionStepError>(e),
            Ok(_) => if g.nodes@[t as int] is AsyncNode {
                failed && r == Err::<bool, ExecutionStepError>(ExecutionStepError::InvalidWeight)
            } else {
                ||| failed && exists|e: NodeError|
                    r == Err::<bool, ExecutionStepError>(ExecutionStepError::NodeError(e))
                ||| r == Ok::<bool, ExecutionStepError>(true) && step_indices(after) == step_indices(
                    before.drop_last(),
                ) + successors(g, t) && exists|outs: Vec<Value>|
                    nodes == after_outputs(g, t, #[trigger] outs@)
            },
        }
    }
}

/// Whether the graphs `gs` and worklists `ss` are a run of successful steps:
/// each step is what `advanced` allows from the state before it, and the
/// edges never change.
pub open spec fn is_trace<S, A>(gs: Seq<Graph<S, A>>, ss: Seq<Seq<ExecutionStep>>) -> bool {
    &&& gs.len() == ss.len()
    &&& gs.len() > 0
    &&& forall|i: int| 0 <= i < gs.len() ==> (#[trigger] gs[i]).edges@ == gs[0].edges@
    &&& forall|i: int|
        0 <= i < gs.len() - 1 ==> advanced(
            #[trigger] gs[i],
            ss[i],
            gs[i + 1].nodes@,
            ss[i + 1],
            Ok::<bool, ExecutionStepError>(true),
        )
}

/// Whether `k` successful steps lead from graph `g0` with worklist `s0` to
/// graph `g` with worklist `s`.
pub open spec fn ran<S, A>(
    g0: Graph<S, A>,
    s0: Seq<ExecutionStep>,
    g: Graph<S, A>,
    s: Seq<ExecutionStep>,
    k: nat,
) -> bool {
    exists|gs: Seq<Graph<S, A>>, ss: Seq<Seq<ExecutionStep>>|
        #[trigger] is_trace(gs, ss) && gs.len() == k + 1 && gs[0].nodes@ == g0.nodes@
            && gs[0].edges@ == g0.edges@ && ss[0] == s0 && gs[k as int].nodes@ == g.nodes@
            && g.edges@ == g0.edges@ && ss[k as int] == s
}

/// No step is a run.
proof fn lemma_ran_start<S, A>(g0: Graph<S, A>, s0: Seq<ExecutionStep>)
    ensures
        ran(g0, s0, g0, s0, 0),
{
    let gs = seq![g0];
    let ss = seq![s0];
    assert(is_trace(gs, ss));
}

/// One more successful step extends a run.
proof fn lemma_ran_step<S, A>(
    g0: Graph<S, A>,
    s0: Seq<ExecutionStep>,
    mid: Graph<S, A>,
    ms: Seq<ExecutionStep>,
    g: Graph<S, A>,
    s: Seq<ExecutionStep>,
    k: nat,
)
    requires
        ran(g0, s0, mid, ms, k),
        mid.edges@ == g.edges@,
        advanced(mid, ms, g.nodes@, s, Ok::<bool, ExecutionStepError>(true)),
    ensures
        ran(g0, s0, g, s, k + 1),
{
    let (gs, ss) = choose|gs: Seq<Graph<S, A>>, ss: Seq<Seq<ExecutionStep>>|
        #[trigger] is_trace(gs, ss) && gs.len() == k + 1 && gs[0].nodes@ == g0.nodes@
            && gs[0].edges@ == g0.edges@ && ss[0] == s0 && gs[k as int].nodes@ == mid.nodes@
            && mid.edges@ == g0.edges@ && ss[k as int] == ms;
    let gs2 = gs.update(k as int, mid).push(g);
    let ss2 = ss.push(s);
    assert(gs2[k as int] == mid);
    assert forall|i: int| 0 <= i < gs2.len() implies (#[trigger] gs2[i]).edges@ == gs2[0].edges@ by {
        if k == 0 {
            assert(gs2[0] == mid);
        } else {
            assert(gs2[0] == gs[0]);
        }
        if i < k {
            assert(gs2[i] == gs[i]);
        }
    }
    assert forall|i: int| 0 <= i < gs2.len() - 1 implies advanced(
        #[trigger] gs2[i],
        ss2[i],
        gs2[i + 1].nodes@,
        ss2[i + 1],
        Ok::<bool, ExecutionStepError>(true),
    ) by {
        if i < k {
            assert(gs2[i] == gs[i]);
            assert(advanced(gs[i], ss[i], gs[i + 1].nodes@, ss[i + 1], Ok::<bool, ExecutionStepError>(true)));
            if i + 1 == k {
                assert(gs2[i + 1].nodes@ == gs[i + 1].nodes@);
            } else {
                assert(gs2[i + 1] == gs[i + 1]);
            }
        }
    }
    assert(is_trace(gs2, ss2));
}

/// Whether a pass of at most `budget` steps from graph `g0` with worklist
/// `s0` ends in graph `g` with worklist `s` and result `r`: some number of
/// steps succeed; then either the worklist is empty (`Ok(true)`), the budget
/// is spent (`Ok(false)`, or `Ok(true)` if the worklist is empty as well), or
/// the next step fails and its error is returned.
pub open spec fn passed<S, A>(
    g0: Graph<S, A>,
    s0: Seq<ExecutionStep>,
    g: Graph<S, A>,
    s: Seq<ExecutionStep>,
    budget: nat,
    r: Result<bool, ExecutionStepError>,
) -> bool {
    exists|k: nat, mid: Graph<S, A>, ms: Seq<ExecutionStep>|
        k <= budget && #[trigger] ran(g0, s0, mid, ms, k) && mid.edges@ == g.edges@ && match r {
            Ok(done) => {
                &&& g.nodes@ == mid.nodes@
                &&& s == ms
                &&& done == (ms.len() == 0)
                &&& k < budget ==> done
            },
            Err(_) => k < budget && ms.len() > 0 && advanced(mid, ms, g.nodes@, s, r),
        }
}

impl Executor {
    /// A worklist holding the step at `start`.
    pub fn new(start: NodeIndex) -> (r: Self)
        ensures
            r.steps@ == seq![ExecutionStep(start)],
    {
        let mut steps: Vec<ExecutionStep> = Vec::new();
        steps.push(ExecutionStep(start));
        assert(steps@ =~= seq![ExecutionStep(start)]);
        Executor { steps }
    }

    /// Whether no step is left.
    pub fn is_done(&self) -> (r: bool)
        ensures
            r == (self.steps@.len() == 0),
    {
        self.steps.len() == 0
    }

    /// Takes the step scheduled last, if any.
    pub fn next_step(&mut self) -> (r: Option<ExecutionStep>)
        ensures
            old(self).steps@.len() == 0 ==> r is None && final(self).steps@ == old(self).steps@,
            old(self).steps@.len() > 0 ==> r == Some(old(self).steps@.last())
                && final(self).steps@ == old(self).steps@.drop_last(),
    {
        self.steps.pop()
    }

    /// Schedules `next` after the steps already waiting.
    pub fn schedule(&mut self, next: Vec<ExecutionStep>)
        ensures
            final(self).steps@ == old(self).steps@ + next@,
    {
        let mut next = next;
        self.steps.append(&mut next);
    }

    /// Takes one step: runs the node of the step scheduled last and schedules
    /// its successors. Returns `Ok(false)` when no step was left.
    pub fn advance<S: SyncNode, A>(&mut self, graph: &mut Graph<S, A>) -> (r: Result<
        bool,
        ExecutionStepError,
    >)
        requires
            old(graph).wf(),
        ensures
            final(graph).wf(),
            final(graph).edges@ == old(graph).edges@,
            advanced(*old(graph), old(self).steps@, final(graph).nodes@, final(self).steps@, r),
    {
        let step = match self.next_step() {
            Some(step) => step,
            None => {
                return Ok(false);
            },
        };
        let ghost rest = self.steps@;
        match step.execute(graph) {
            Ok(next) => {
                self.schedule(next);
                proof {
                    assert(step_indices(self.steps@) =~= step_indices(rest) + step_indices(next@));
                    let res = choose|res: Result<Vec<Value>, NodeError>|
                        crate::execution::completes(*old(graph), step.0, res, graph.nodes@, Ok::<
                            Vec<ExecutionStep>,
                            ExecutionStepError,
                        >(next));
                    let outs = res->Ok_0;
                    assert(graph.nodes@ == after_outputs(*old(graph), step.0, outs@));
                }
                Ok(true)
            },
            Err(e) => Err(e),
        }
    }

    /// Takes steps until the worklist is empty, a step fails, or `budget`
    /// steps were taken. Returns whether the worklist was drained; the first
    /// failure ends the pass and is returned.
    pub fn run<S: SyncNode, A>(&mut self, graph: &mut Graph<S, A>, budget: usize) -> (r: Result<
        bool,
        ExecutionStepError,
    >)
        requires
            old(graph).wf(),
        ensures
            final(graph).wf(),
            final(graph).edges@ == old(graph).edges@,
            passed(
                *old(graph),
                old(self).steps@,
                *final(graph),
                final(self).steps@,
                budget as nat,
                r,
            ),
    {
        let ghost g0 = *graph;
        let ghost s0 = self.steps@;
        let mut taken: usize = 0;
        proof {
            lemma_ran_start(g0, s0);
        }
        while taken < budget
            invariant
                graph.wf(),
                graph.edges@ == g0.edges@,
                taken <= budget,
                g0 == *old(graph),
                s0 == old(self).steps@,
                ran(g0, s0, *graph, self.steps@, taken as nat),
            decreases budget - taken,
        {
            if self.steps.len() == 0 {
                assert(passed(g0, s0, *graph, self.steps@, budget as nat, Ok(true))) by {
                    assert(ran(g0, s0, *graph, self.steps@, taken as nat));
                }
                return Ok(true);
            }
            let ghost before = *graph;
            let ghost steps_before = self.steps@;
            let stepped = self.advance(graph);
            match stepped {
                Ok(_) => {
                    assert(stepped == Ok::<bool, ExecutionStepError>(true));
                    proof {
                        lemma_ran_step(
                            g0,
                            s0,
                            before,
                            steps_before,
                            *graph,
                            self.steps@,
                            taken as nat,
                        );
                    }
                },
                Err(e) => {
                    assert(passed(
                        g0,
                        s0,
                        *graph,
                        self.steps@,
                        budget as nat,
                        Err::<bool, ExecutionStepError>(e),
                    )) by {
                        assert(ran(g0, s0, before, steps_before, taken as nat));
                    }
                    return Err(e);
                },
            }
            taken = taken + 1;
        }
        let done = self.steps.len() == 0;
        assert(passed(g0, s0, *graph, self.steps@, budget as nat, Ok(done))) by {
            assert(ran(g0, s0, *graph, self.steps@, taken as nat));
        }
        Ok(done)
    }

    /// Runs the graph from the node at `start`, taking at most `budget` steps.
    /// Returns whether every scheduled step was taken; the first failure ends
    /// the pass and is returned.
    pub fn execute<S: SyncNode, A>(
        graph: &mut Graph<S, A>,
        start: NodeIndex,
        budget: usize,
    ) -> (r: Result<bool, ExecutionStepError>)
        requires
            old(graph).wf(),
        ensures
            final(graph).wf(),
            final(graph).edges@ == old(graph).edges@,
            exists|s: Seq<ExecutionStep>|
                passed(*old(graph), seq![ExecutionStep(start)], *final(graph), s, budget as nat, r),
    {
        let mut executor = Executor::new(start);
        executor.run(graph, budget)
    }
}

} // verus!
