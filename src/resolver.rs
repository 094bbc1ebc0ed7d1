//! Dependency resolution: a depth-first traversal that lists every package
//! reachable from the requested roots after all of its dependencies.

use vstd::prelude::*;

verus! {

/// Every edge of `g` leads to a node of `g`.
pub open spec fn graph_wf(g: Seq<Seq<usize>>) -> bool {
    forall|i: int, k: int| 0 <= i < g.len() && 0 <= k < g[i].len() ==> #[trigger] g[i][k] < g.len()
}

/// `p` is a walk of `g` that follows dependency edges.
pub open spec fn is_walk(g: Seq<Seq<usize>>, p: Seq<usize>) -> bool {
    &&& p.len() > 0
    &&& forall|i: int| 0 <= i < p.len() ==> #[trigger] p[i] < g.len()
    &&& forall|i: int| 0 <= i < p.len() - 1 ==> g[#[trigger] p[i] as int].contains(p[i + 1])
}

/// `x` is a root or a transitive dependency of one.
pub open spec fn reachable(g: Seq<Seq<usize>>, roots: Seq<usize>, x: usize) -> bool {
    exists|p: Seq<usize>| is_walk(g, p) && roots.contains(p[0]) && #[trigger] p.last() == x
}

/// Following dependency edges from `x` leads back to `x`.
pub open spec fn on_cycle(g: Seq<Seq<usize>>, x: usize) -> bool {
    exists|c: Seq<usize>| is_walk(g, c) && c[0] == x && #[trigger] g[c.last() as int].contains(x)
}

/// `d` stands in `order` before position `i`.
pub open spec fn earlier(order: Seq<usize>, i: int, d: usize) -> bool {
    exists|j: int| 0 <= j < i && order[j] == d
}

/// Every dependency of each element of `order` stands earlier in `order`.
pub open spec fn deps_first(g: Seq<Seq<usize>>, order: Seq<usize>) -> bool {
    forall|i: int, k: int|
        0 <= i < order.len() && 0 <= k < g[order[i] as int].len() ==> #[trigger] earlier(
            order,
            i,
            g[order[i] as int][k],
        )
}

/// `order` lists each root and each transitive dependency of the roots exactly
/// once, nothing else, and every element after all of its dependencies.
pub open spec fn valid_order(g: Seq<Seq<usize>>, roots: Seq<usize>, order: Seq<usize>) -> bool {
    &&& order.no_duplicates()
    &&& forall|x: usize| order.contains(x) <==> reachable(g, roots, x)
    &&& deps_first(g, order)
}

/// Nodes of `g` that a sequence names.
pub open spec fn within(g: Seq<Seq<usize>>, s: Seq<usize>) -> bool {
    forall|i: int| 0 <= i < s.len() ==> #[trigger] s[i] < g.len()
}

/// A graph of dependencies between numbered nodes: `edges[i]` lists the
/// direct dependencies of node `i`.
pub struct DependencyGraph {
    pub edges: Vec<Vec<usize>>,
}

impl View for DependencyGraph {
    type V = Seq<Seq<usize>>;

    open spec fn view(&self) -> Seq<Seq<usize>> {
        self.edges@.map_values(|e: Vec<usize>| e@)
    }
}

/// A sequence without repeats over `0..n` is at most `n` long.
proof fn lemma_distinct_bounded(s: Seq<usize>, n: nat)
    requires
        s.no_duplicates(),
        forall|i: int| 0 <= i < s.len() ==> #[trigger] s[i] < n,
    ensures
        s.len() <= n,
    decreases n,
{
    if n == 0 {
        if s.len() > 0 {
            assert(s[0] < 0);
        }
    } else {
        let top = (n - 1) as usize;
        if s.contains(top) {
            let p = choose|p: int| 0 <= p < s.len() && s[p] == top;
            let t = s.remove(p);
            assert forall|i: int| 0 <= i < t.len() implies #[trigger] t[i] < n - 1 by {
                if i < p {
                    assert(t[i] == s[i]);
                } else {
                    assert(t[i] == s[i + 1]);
                }
            }
            assert forall|i: int, j: int| 0 <= i < t.len() && 0 <= j < t.len() && i != j implies t[i]
                != t[j] by {
                let si = if i < p { i } else { i + 1 };
                let sj = if j < p { j } else { j + 1 };
                assert(t[i] == s[si]);
                assert(t[j] == s[sj]);
            }
            lemma_distinct_bounded(t, (n - 1) as nat);
        } else {
            assert forall|i: int| 0 <= i < s.len() implies #[trigger] s[i] < n - 1 by {
                assert(s[i] != top);
            }
            lemma_distinct_bounded(s, (n - 1) as nat);
        }
    }
}

/// The traversal's bookkeeping: `marks[x]` is 2 for a finished node, 1 for a
/// node on the current path `stack`, and 0 otherwise.
pub open spec fn dfs_state(
    g: Seq<Seq<usize>>,
    roots: Seq<usize>,
    marks: Seq<u8>,
    order: Seq<usize>,
    stack: Seq<usize>,
) -> bool {
    &&& marks.len() == g.len()
    &&& within(g, order)
    &&& within(g, stack)
    &&& order.no_duplicates()
    &&& stack.no_duplicates()
    &&& forall|x: usize| x < g.len() ==> (marks[x as int] == 2 <==> #[trigger] order.contains(x))
    &&& forall|x: usize| x < g.len() ==> (marks[x as int] == 1 <==> #[trigger] stack.contains(x))
    &&& deps_first(g, order)
    &&& forall|i: int| 0 <= i < order.len() ==> reachable(g, roots, #[trigger] order[i])
    &&& forall|i: int| 0 <= i < stack.len() ==> reachable(g, roots, #[trigger] stack[i])
    &&& forall|i: int|
        0 <= i < stack.len() - 1 ==> g[#[trigger] stack[i] as int].contains(stack[i + 1])
}

/// `a` starts with `b`.
pub open spec fn extends(a: Seq<usize>, b: Seq<usize>) -> bool {
    b.len() <= a.len() && a.subrange(0, b.len() as int) == b
}

/// The traversal from `id` as a function of the bookkeeping it starts from:
/// a finished node adds nothing, a node on the current path is a cycle, and
/// any other node has its dependencies visited in order before it is
/// appended. `fuel` bounds the depth of the path.
pub open spec fn visit_spec(
    g: Seq<Seq<usize>>,
    fuel: nat,
    marks: Seq<u8>,
    order: Seq<usize>,
    id: usize,
) -> Result<(Seq<u8>, Seq<usize>), usize>
    decreases fuel, g[id as int].len() + 1,
{
    if marks[id as int] == 2 {
        Ok((marks, order))
    } else if marks[id as int] == 1 || fuel == 0 {
        Err(id)
    } else {
        match deps_spec(g, fuel, marks.update(id as int, 1), order, id, 0) {
            Ok((m, o)) => Ok((m.update(id as int, 2), o.push(id))),
            Err(x) => Err(x),
        }
    }
}

/// The traversal of the dependencies of `id` from the `k`-th on.
pub open spec fn deps_spec(
    g: Seq<Seq<usize>>,
    fuel: nat,
    marks: Seq<u8>,
    order: Seq<usize>,
    id: usize,
    k: nat,
) -> Result<(Seq<u8>, Seq<usize>), usize>
    decreases fuel, g[id as int].len() - k,
{
    if k >= g[id as int].len() {
        Ok((marks, order))
    } else if fuel == 0 {
        Err(id)
    } else {
        match visit_spec(g, (fuel - 1) as nat, marks, order, g[id as int][k as int]) {
            Ok((m, o)) => deps_spec(g, fuel, m, o, id, k + 1),
            Err(x) => Err(x),
        }
    }
}

/// The traversal from the roots from the `i`-th on.
pub open spec fn roots_spec(
    g: Seq<Seq<usize>>,
    marks: Seq<u8>,
    order: Seq<usize>,
    roots: Seq<usize>,
    i: nat,
) -> Result<Seq<usize>, usize>
    decreases roots.len() - i,
{
    if i >= roots.len() {
        Ok(order)
    } else {
        match visit_spec(g, g.len(), marks, order, roots[i as int]) {
            Ok((m, o)) => roots_spec(g, m, o, roots, i + 1),
            Err(x) => Err(x),
        }
    }
}

/// What resolving `roots` in `g` yields: the order of the depth-first
/// traversal from each root in turn, or the first node found on a cycle.
pub open spec fn resolution(g: Seq<Seq<usize>>, roots: Seq<usize>) -> Result<Seq<usize>, usize> {
    roots_spec(g, Seq::new(g.len(), |x: int| 0u8), Seq::empty(), roots, 0)
}

fn visit(
    graph: &DependencyGraph,
    id: usize,
    marks: &mut Vec<u8>,
    order: &mut Vec<usize>,
    Ghost(roots): Ghost<Seq<usize>>,
    Ghost(stack): Ghost<Seq<usize>>,
) -> (r: Result<(), usize>)
    requires
        graph_wf(graph@),
        id < graph@.len(),
        dfs_state(graph@, roots, old(marks)@, old(order)@, stack),
        reachable(graph@, roots, id),
        stack.len() > 0 ==> graph@[stack.last() as int].contains(id),
    ensures
        r is Ok ==> {
            &&& dfs_state(graph@, roots, final(marks)@, final(order)@, stack)
            &&& final(marks)@[id as int] == 2
            &&& extends(final(order)@, old(order)@)
        },
        r matches Err(x) ==> on_cycle(graph@, x) && reachable(graph@, roots, x),
        r is Ok ==> visit_spec(
            graph@,
            (graph@.len() - stack.len()) as nat,
            old(marks)@,
            old(order)@,
            id,
        ) == Ok::<(Seq<u8>, Seq<usize>), usize>((final(marks)@, final(order)@)),
        r matches Err(x) ==> visit_spec(
            graph@,
            (graph@.len() - stack.len()) as nat,
            old(marks)@,
            old(order)@,
            id,
        ) == Err::<(Seq<u8>, Seq<usize>), usize>(x),
    decreases graph@.len() - stack.len(),
{
    let ghost g = graph@;
    let ghost fuel = (graph@.len() - stack.len()) as nat;
    let ghost entry_marks = marks@;
    let ghost entry_order = order@;
    proof {
        lemma_distinct_bounded(stack, g.len());
    }
    if marks[id] == 2 {
        assert(order@.subrange(0, order@.len() as int) =~= order@);
        return Ok(());
    }
    if marks[id] == 1 {
        proof {
            assert(stack.contains(id));
            let p = choose|p: int| 0 <= p < stack.len() && stack[p] == id;
            assert(reachable(g, roots, stack[p]));
            let c = stack.subrange(p, stack.len() as int);
            assert(c[0] == id);
            assert(c.last() == stack.last());
            assert(is_walk(g, c)) by {
                assert forall|i: int| 0 <= i < c.len() - 1 implies g[#[trigger] c[i] as int].contains(
                    c[i + 1],
                ) by {
                    assert(c[i] == stack[p + i]);
                    assert(c[i + 1] == stack[p + i + 1]);
                }
            }
        }
        return Err(id);
    }
    let ghost inner = stack.push(id);
    proof {
        lemma_distinct_bounded(stack, g.len());
        assert(!stack.contains(id));
    }
    marks.set(id, 1);
    assert(dfs_state(g, roots, marks@, order@, inner)) by {
        assert forall|x: usize| x < g.len() implies (marks@[x as int] == 1 <==> #[trigger] inner.contains(x)) by {
            if x != id {
                if stack.contains(x) {
                    let q = choose|q: int| 0 <= q < stack.len() && stack[q] == x;
                    assert(inner[q] == x);
                }
                if inner.contains(x) {
                    let q = choose|q: int| 0 <= q < inner.len() && inner[q] == x;
                    assert(stack[q] == x);
                }
            } else {
                assert(inner[inner.len() - 1] == id);
            }
        }
        assert forall|i: int| 0 <= i < inner.len() - 1 implies g[#[trigger] inner[i] as int].contains(
            inner[i + 1],
        ) by {
            if i < stack.len() - 1 {
                assert(inner[i + 1] == stack[i + 1]);
            }
        }
    }
    let ghost start_order = order@;
    let ghost start_marks = marks@;
    assert(order@.subrange(0, order@.len() as int) =~= order@);
    proof {
        lemma_distinct_bounded(inner, g.len());
    }
    let deps = &graph.edges[id];
    assert(deps@ == g[id as int]);
    let mut k: usize = 0;
    while k < deps.len()
        invariant
            graph_wf(g),
            g == graph@,
            deps@ == g[id as int],
            id < g.len(),
            k <= deps@.len(),
            reachable(g, roots, id),
            inner == stack.push(id),
            inner.len() <= g.len(),
            start_marks.len() == g.len(),
            dfs_state(g, roots, marks@, order@, inner),
            marks@[id as int] == 1,
            extends(order@, start_order),
            forall|x: usize| x < g.len() && start_marks[x as int] == 2 ==> #[trigger] marks@[x as int] == 2,
            forall|j: int| 0 <= j < k ==> marks@[#[trigger] deps@[j] as int] == 2,
            fuel == g.len() - stack.len(),
            fuel >= 1,
            entry_marks.len() == g.len(),
            entry_marks == old(marks)@,
            entry_order == old(order)@,
            start_marks == entry_marks.update(id as int, 1),
            start_order == entry_order,
            entry_marks[id as int] != 1,
            entry_marks[id as int] != 2,
            deps_spec(g, fuel, marks@, order@, id, k as nat) == deps_spec(
                g,
                fuel,
                start_marks,
                start_order,
                id,
                0,
            ),
        decreases deps@.len() - k,
    {
        let dep = deps[k];
        proof {
            assert(g[id as int][k as int] < g.len());
            let p = choose|p: Seq<usize>| is_walk(g, p) && roots.contains(p[0]) && #[trigger] p.last() == id;
            let q = p.push(dep);
            assert(q.last() == dep);
            assert(q[0] == p[0]);
            assert(is_walk(g, q)) by {
                assert forall|i: int| 0 <= i < q.len() - 1 implies g[#[trigger] q[i] as int].contains(q[i + 1]) by {
                    if i < p.len() - 1 {
                        assert(q[i] == p[i] && q[i + 1] == p[i + 1]);
                    } else {
                        assert(q[i] == id);
                        assert(g[id as int][k as int] == dep);
                    }
                }
            }
            assert(g[inner.last() as int].contains(dep)) by {
                assert(g[id as int][k as int] == dep);
            }
        }
        let ghost before_order = order@;
        let ghost before_marks = marks@;
        match visit(graph, dep, marks, order, Ghost(roots), Ghost(inner)) {
            Err(x) => {
                proof {
                    assert(deps_spec(g, fuel, before_marks, before_order, id, k as nat) == Err::<
                        (Seq<u8>, Seq<usize>),
                        usize,
                    >(x));
                    assert(deps_spec(g, fuel, start_marks, start_order, id, 0) == Err::<
                        (Seq<u8>, Seq<usize>),
                        usize,
                    >(x));
                    assert(visit_spec(g, fuel, entry_marks, entry_order, id) == Err::<
                        (Seq<u8>, Seq<usize>),
                        usize,
                    >(x));
                }
                return Err(x);
            },
            Ok(()) => {},
        }
        assert(deps_spec(g, fuel, before_marks, before_order, id, k as nat) == deps_spec(
            g,
            fuel,
            marks@,
            order@,
            id,
            (k + 1) as nat,
        ));
        proof {
            assert forall|x: usize| x < g.len() && before_marks[x as int] == 2 implies #[trigger] marks@[x as int] == 2 by {
                assert(before_order.contains(x));
                let q = choose|q: int| 0 <= q < before_order.len() && before_order[q] == x;
                assert(order@.subrange(0, before_order.len() as int)[q] == x);
                assert(order@[q] == x);
                assert(order@.contains(x));
            }
            assert(order@.subrange(0, start_order.len() as int) =~= start_order) by {
                assert(before_order.subrange(0, start_order.len() as int) == start_order);
                assert forall|i: int| 0 <= i < start_order.len() implies order@[i] == start_order[i] by {
                    assert(order@.subrange(0, before_order.len() as int)[i] == before_order[i]);
                    assert(before_order.subrange(0, start_order.len() as int)[i] == start_order[i]);
                }
            }
            assert(marks@[id as int] == 1) by {
                assert(inner.contains(id)) by {
                    assert(inner[inner.len() - 1] == id);
                }
            }
        }
        k += 1;
    }
    let ghost mid_order = order@;
    let ghost mid_marks = marks@;
    assert(deps_spec(g, fuel, mid_marks, mid_order, id, k as nat) == Ok::<
        (Seq<u8>, Seq<usize>),
        usize,
    >((mid_marks, mid_order)));
    marks.set(id, 2);
    order.push(id);
    proof {
        let o = order@;
        assert(!mid_order.contains(id));
        assert(o.no_duplicates()) by {
            assert forall|i: int, j: int| 0 <= i < o.len() && 0 <= j < o.len() && i != j implies o[i] != o[j] by {
                if i == o.len() - 1 && j < mid_order.len() {
                    assert(o[j] == mid_order[j]);
                    assert(mid_order.contains(o[j]));
                } else if j == o.len() - 1 && i < mid_order.len() {
                    assert(o[i] == mid_order[i]);
                    assert(mid_order.contains(o[i]));
                } else {
                    assert(o[i] == mid_order[i] && o[j] == mid_order[j]);
                }
            }
        }
        assert forall|x: usize| x < g.len() implies (marks@[x as int] == 2 <==> #[trigger] o.contains(x)) by {
            if x == id {
                assert(o[o.len() - 1] == id);
            } else {
                if mid_order.contains(x) {
                    let q = choose|q: int| 0 <= q < mid_order.len() && mid_order[q] == x;
                    assert(o[q] == x);
                }
                if o.contains(x) {
                    let q = choose|q: int| 0 <= q < o.len() && o[q] == x;
                    assert(q < mid_order.len());
                    assert(mid_order[q] == x);
                }
            }
        }
        assert forall|x: usize| x < g.len() implies (marks@[x as int] == 1 <==> #[trigger] stack.contains(x)) by {
            if x == id {
                assert(!stack.contains(id));
            } else {
                if stack.contains(x) {
                    let q = choose|q: int| 0 <= q < stack.len() && stack[q] == x;
                    assert(inner[q] == x);
                }
                if inner.contains(x) {
                    let q = choose|q: int| 0 <= q < inner.len() && inner[q] == x;
                    assert(q < stack.len());
                    assert(stack[q] == x);
                }
            }
        }
        assert(deps_first(g, o)) by {
            assert forall|i: int, kk: int|
                0 <= i < o.len() && 0 <= kk < g[o[i] as int].len() implies #[trigger] earlier(
                    o,
                    i,
                    g[o[i] as int][kk],
                ) by {
                if i < mid_order.len() {
                    assert(o[i] == mid_order[i]);
                    assert(earlier(mid_order, i, g[mid_order[i] as int][kk]));
                    let j = choose|j: int| 0 <= j < i && mid_order[j] == g[mid_order[i] as int][kk];
                    assert(o[j] == mid_order[j]);
                    assert(0 <= j < i && o[j] == g[o[i] as int][kk]);
                } else {
                    assert(o[i] == id);
                    let d = g[id as int][kk];
                    assert(deps@[kk] == d);
                    assert(mid_marks[d as int] == 2);
                    assert(mid_order.contains(d));
                    let j = choose|j: int| 0 <= j < mid_order.len() && mid_order[j] == d;
                    assert(o[j] == d);
                    assert(0 <= j < i && o[j] == g[o[i] as int][kk]);
                }
            }
        }
        assert forall|i: int| 0 <= i < o.len() implies reachable(g, roots, #[trigger] o[i]) by {
            if i < mid_order.len() {
                assert(o[i] == mid_order[i]);
            }
        }
        assert(within(g, o)) by {
            assert forall|i: int| 0 <= i < o.len() implies #[trigger] o[i] < g.len() by {
                if i < mid_order.len() {
                    assert(o[i] == mid_order[i]);
                }
            }
        }
        assert forall|i: int| 0 <= i < stack.len() implies reachable(g, roots, #[trigger] stack[i]) by {
            assert(inner[i] == stack[i]);
        }
        assert forall|i: int| 0 <= i < stack.len() - 1 implies g[#[trigger] stack[i] as int].contains(
            stack[i + 1],
        ) by {
            assert(inner[i] == stack[i] && inner[i + 1] == stack[i + 1]);
        }
        assert(o.subrange(0, old(order)@.len() as int) =~= old(order)@) by {
            assert forall|i: int| 0 <= i < old(order)@.len() implies o[i] == old(order)@[i] by {
                assert(mid_order.subrange(0, start_order.len() as int)[i] == start_order[i]);
            }
        }
    }
    Ok(())
}

impl DependencyGraph {
    /// Every edge leads to a node of the graph.
    pub open spec fn well_formed(&self) -> bool {
        graph_wf(self@)
    }

    /// Lists the roots and all their transitive dependencies, each once and
    /// after all of its dependencies; or names a node that lies on a cycle.
    pub fn resolve(&self, roots: &Vec<usize>) -> (r: Result<Vec<usize>, usize>)
        requires
            self.well_formed(),
            within(self@, roots@),
        ensures
            r matches Ok(order) ==> valid_order(self@, roots@, order@),
            r matches Err(x) ==> on_cycle(self@, x) && reachable(self@, roots@, x),
            (forall|x: usize| !on_cycle(self@, x)) ==> r is Ok,
            r matches Ok(order) ==> resolution(self@, roots@) == Ok::<Seq<usize>, usize>(order@),
            r matches Err(x) ==> resolution(self@, roots@) == Err::<Seq<usize>, usize>(x),
    {
        let ghost g = self@;
        let n = self.edges.len();
        let mut marks: Vec<u8> = Vec::new();
        let mut i: usize = 0;
        while i < n
            invariant
                i <= n,
                n == g.len(),
                marks@.len() == i,
                forall|x: int| 0 <= x < i ==> marks@[x] == 0,
            decreases n - i,
        {
            marks.push(0);
            i += 1;
        }
        let mut order: Vec<usize> = Vec::new();
        assert(marks@ =~= Seq::new(g.len(), |x: int| 0u8));
        assert(order@ =~= Seq::<usize>::empty());
        let ghost empty = Seq::<usize>::empty();
        assert(dfs_state(g, roots@, marks@, order@, empty));
        let mut r: usize = 0;
        while r < roots.len()
            invariant
                graph_wf(g),
                g == self@,
                within(g, roots@),
                r <= roots@.len(),
                dfs_state(g, roots@, marks@, order@, empty),
                empty.len() == 0,
                forall|j: int| 0 <= j < r ==> marks@[#[trigger] roots@[j] as int] == 2,
                roots_spec(g, marks@, order@, roots@, r as nat) == resolution(g, roots@),
            decreases roots@.len() - r,
        {
            let root = roots[r];
            proof {
                let p = seq![root];
                assert(is_walk(g, p));
                assert(roots@.contains(p[0])) by {
                    assert(roots@[r as int] == root);
                }
                assert(p.last() == root);
            }
            let ghost before_marks = marks@;
            let ghost before_order = order@;
            match visit(self, root, &mut marks, &mut order, Ghost(roots@), Ghost(empty)) {
                Err(x) => {
                    assert(roots_spec(g, before_marks, before_order, roots@, r as nat) == Err::<
                        Seq<usize>,
                        usize,
                    >(x));
                    return Err(x);
                },
                Ok(()) => {},
            }
            assert(roots_spec(g, before_marks, before_order, roots@, r as nat) == roots_spec(
                g,
                marks@,
                order@,
                roots@,
                (r + 1) as nat,
            ));
            proof {
                assert forall|j: int| 0 <= j < r + 1 implies marks@[#[trigger] roots@[j] as int] == 2 by {
                    if j < r {
                        let x = roots@[j];
                        assert(before_marks[x as int] == 2);
                        assert(before_order.contains(x));
                        let q = choose|q: int| 0 <= q < before_order.len() && before_order[q] == x;
                        assert(order@.subrange(0, before_order.len() as int)[q] == x);
                        assert(order@.contains(x));
                    }
                }
            }
            r += 1;
        }
        proof {
            assert forall|x: usize| order@.contains(x) <==> reachable(g, roots@, x) by {
                if order@.contains(x) {
                    let q = choose|q: int| 0 <= q < order@.len() && order@[q] == x;
                    assert(reachable(g, roots@, order@[q]));
                }
                if reachable(g, roots@, x) {
                    lemma_reachable_closed(g, roots@, order@, x);
                }
            }
        }
        Ok(order)
    }
}

/// A sequence that holds the roots and, before each element, all of its
/// dependencies, holds every node reachable from the roots.
proof fn lemma_reachable_closed(g: Seq<Seq<usize>>, roots: Seq<usize>, order: Seq<usize>, x: usize)
    requires
        forall|j: int| 0 <= j < roots.len() ==> order.contains(#[trigger] roots[j]),
        deps_first(g, order),
        reachable(g, roots, x),
    ensures
        order.contains(x),
{
    let p = choose|p: Seq<usize>| is_walk(g, p) && roots.contains(p[0]) && #[trigger] p.last() == x;
    assert(order.contains(p[0])) by {
        let j = choose|j: int| 0 <= j < roots.len() && roots[j] == p[0];
        assert(order.contains(roots[j]));
    }
    lemma_walk_in_order(g, order, p, p.len() - 1);
}

/// Each node of a walk that starts inside a dependency-closed order is in it.
proof fn lemma_walk_in_order(g: Seq<Seq<usize>>, order: Seq<usize>, p: Seq<usize>, i: int)
    requires
        is_walk(g, p),
        deps_first(g, order),
        order.contains(p[0]),
        0 <= i < p.len(),
    ensures
        order.contains(p[i]),
    decreases i,
{
    if i > 0 {
        lemma_walk_in_order(g, order, p, i - 1);
        assert(g[p[i - 1] as int].contains(p[i]));
        let q = choose|q: int| 0 <= q < order.len() && order[q] == p[i - 1];
        let kk = choose|kk: int| 0 <= kk < g[p[i - 1] as int].len() && #[trigger] g[p[i - 1] as int][kk] == p[i];
        assert(g[order[q] as int][kk] == p[i]);
        assert(earlier(order, q, g[order[q] as int][kk]));
        let j = choose|j: int| 0 <= j < q && order[j] == g[order[q] as int][kk];
        assert(order[j] == p[i]);
    }
}

/// A dependency set in which `a` and `b` depend on each other, with `a`
/// reachable from the roots, has no valid order: `resolve` on it fails and
/// names a node that lies on a cycle.
pub proof fn lemma_two_cycle_has_no_order(
    g: Seq<Seq<usize>>,
    roots: Seq<usize>,
    order: Seq<usize>,
    a: usize,
    b: usize,
)
    requires
        a < g.len(),
        b < g.len(),
        g[a as int].contains(b),
        g[b as int].contains(a),
        reachable(g, roots, a),
    ensures
        !valid_order(g, roots, order),
        on_cycle(g, a),
        on_cycle(g, b),
{
    let c = seq![a, b];
    assert(is_walk(g, c));
    assert(c.last() == b);
    let d = seq![b, a];
    assert(is_walk(g, d));
    assert(d.last() == a);
    if valid_order(g, roots, order) {
        let p = choose|p: Seq<usize>| is_walk(g, p) && roots.contains(p[0]) && #[trigger] p.last() == a;
        let q = p.push(b);
        assert(q.last() == b);
        assert(is_walk(g, q)) by {
            assert forall|i: int| 0 <= i < q.len() - 1 implies g[#[trigger] q[i] as int].contains(q[i + 1]) by {
                if i < p.len() - 1 {
                    assert(q[i] == p[i] && q[i + 1] == p[i + 1]);
                }
            }
        }
        assert(q[0] == p[0]);
        assert(order.contains(a));
        assert(order.contains(b));
        let pa = choose|i: int| 0 <= i < order.len() && order[i] == a;
        let pb = choose|i: int| 0 <= i < order.len() && order[i] == b;
        let ka = choose|k: int| 0 <= k < g[a as int].len() && #[trigger] g[a as int][k] == b;
        let kb = choose|k: int| 0 <= k < g[b as int].len() && #[trigger] g[b as int][k] == a;
        assert(earlier(order, pa, g[order[pa] as int][ka]));
        assert(earlier(order, pb, g[order[pb] as int][kb]));
        let j1 = choose|j: int| 0 <= j < pa && order[j] == b;
        let j2 = choose|j: int| 0 <= j < pb && order[j] == a;
        assert(j1 == pb);
        assert(j2 == pa);
    }
}

/// Where `a` and `b` depend on each other, `a` is reachable from the roots
/// and no other node reachable from them lies on a cycle, `resolve` fails
/// and names `a` or `b`: this holds of every result its contract admits.
pub proof fn lemma_two_cycle_named(
    g: Seq<Seq<usize>>,
    roots: Seq<usize>,
    a: usize,
    b: usize,
    r: Result<Seq<usize>, usize>,
)
    requires
        a < g.len(),
        b < g.len(),
        g[a as int].contains(b),
        g[b as int].contains(a),
        reachable(g, roots, a),
        forall|y: usize| reachable(g, roots, y) && on_cycle(g, y) ==> y == a || y == b,
        r matches Ok(order) ==> valid_order(g, roots, order),
        r matches Err(x) ==> on_cycle(g, x) && reachable(g, roots, x),
    ensures
        r matches Err(x) && (x == a || x == b),
{
    if r is Ok {
        lemma_two_cycle_has_no_order(g, roots, r->Ok_0, a, b);
    }
}

} // verus!
