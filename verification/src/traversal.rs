//! Graph traversal facts and algorithms: cycle existence, reachability from
//! the start nodes, and incoming-degree counting. Each executable function
//! is specified against a path-based mathematical definition.
//!
//! Ids that appear only as edge endpoints are traversed like node ids, so a
//! cycle through a dangling endpoint is still reported.

use vstd::prelude::*;
use vstd::seq_lib::*;
use vstd::set_lib::*;

use crate::types::{string_eq, Edge, Graph, Node, NodeType};

verus! {

/// Some edge leads from id `a` to id `b`.
pub open spec fn edge_connects(edges: Seq<Edge>, a: Seq<char>, b: Seq<char>) -> bool {
    exists|k: int| 0 <= k < edges.len() && edges[k].source@ == a && edges[k].target@ == b
}

/// `c` is a non-empty sequence of ids whose consecutive members are joined
/// by edges, closing back on its first member.
pub open spec fn is_cycle(edges: Seq<Edge>, c: Seq<Seq<char>>) -> bool {
    &&& c.len() >= 1
    &&& forall|i: int| 0 <= i < c.len() - 1 ==> #[trigger] edge_connects(edges, c[i], c[i + 1])
    &&& edge_connects(edges, c[c.len() - 1], c[0])
}

/// The edge list contains a directed cycle.
pub open spec fn has_cycle(edges: Seq<Edge>) -> bool {
    exists|c: Seq<Seq<char>>| is_cycle(edges, c)
}

/// The id `x` lies on some directed cycle.
pub open spec fn on_cycle(edges: Seq<Edge>, x: Seq<char>) -> bool {
    exists|c: Seq<Seq<char>>| is_cycle(edges, c) && c.contains(x)
}

/// `p` is a non-empty walk: consecutive members are joined by edges.
pub open spec fn is_walk(edges: Seq<Edge>, p: Seq<Seq<char>>) -> bool {
    &&& p.len() >= 1
    &&& forall|i: int| 0 <= i < p.len() - 1 ==> #[trigger] edge_connects(edges, p[i], p[i + 1])
}

/// `x` is the id of a Start-typed node.
pub open spec fn is_start_id(nodes: Seq<Node>, x: Seq<char>) -> bool {
    exists|i: int| 0 <= i < nodes.len() && nodes[i].node_type == NodeType::Start
        && nodes[i].id@ == x
}

/// A walk seeded at some Start node ends at `x`.
pub open spec fn reachable(nodes: Seq<Node>, edges: Seq<Edge>, x: Seq<char>) -> bool {
    exists|p: Seq<Seq<char>>| is_walk(edges, p) && is_start_id(nodes, p[0]) && p[p.len() - 1] == x
}

/// The id `x` occurs in the string list `u`.
pub open spec fn id_in(u: Seq<String>, x: Seq<char>) -> bool {
    exists|i: int| 0 <= i < u.len() && u[i]@ == x
}

/// The views of the string list `u`, pairwise distinct.
pub open spec fn ids_distinct(u: Seq<String>) -> bool {
    forall|i: int, j: int| 0 <= i < j < u.len() ==> u[i]@ != u[j]@
}

/// Number of incoming edges of id `x`.
pub open spec fn in_degree(edges: Seq<Edge>, x: Seq<char>) -> int {
    edges.filter(|e: Edge| e.target@ == x).len() as int
}

/// Incoming edges a node of the given type must have before it can run.
pub open spec fn spec_required_inputs(t: NodeType) -> int {
    match t {
        NodeType::Start => 0,
        NodeType::End => 1,
        NodeType::State => 1,
        NodeType::Logic => 2,
        NodeType::Arithmetic => 2,
        NodeType::External => 1,
        NodeType::Control => 1,
    }
}

/// The required-degree table, keyed by node type.
pub fn required_inputs(t: NodeType) -> (r: u64)
    ensures
        r == spec_required_inputs(t),
{
    match t {
        NodeType::Start => 0,
        NodeType::End => 1,
        NodeType::State => 1,
        NodeType::Logic => 2,
        NodeType::Arithmetic => 2,
        NodeType::External => 1,
        NodeType::Control => 1,
    }
}

/// Does the string list `u` contain the id `x`?
fn contains_id(u: &Vec<String>, x: &String) -> (r: bool)
    ensures
        r == id_in(u@, x@),
{
    let n = u.len();
    let mut i: usize = 0;
    while i < n
        invariant
            n == u@.len(),
            0 <= i <= n,
            forall|j: int| 0 <= j < i ==> u@[j]@ != x@,
        decreases n - i,
    {
        if string_eq(&u[i], x) {
            return true;
        }
        i = i + 1;
    }
    false
}

/// Appending a fresh id keeps the list distinct and keeps every id it
/// already held.
proof fn lemma_push_id(u0: Seq<String>, s: String)
    requires
        ids_distinct(u0),
        forall|j: int| 0 <= j < u0.len() ==> u0[j]@ != s@,
    ensures
        ids_distinct(u0.push(s)),
        id_in(u0.push(s), s@),
        forall|x: Seq<char>| #[trigger] id_in(u0, x) ==> id_in(u0.push(s), x),
{
    let u1 = u0.push(s);
    assert(u1[u0.len() as int] == s);
    assert forall|i: int, j: int| 0 <= i < j < u1.len() implies u1[i]@ != u1[j]@ by {
        if j < u0.len() {
            assert(u1[i] == u0[i] && u1[j] == u0[j]);
        } else {
            assert(u1[i] == u0[i] && u1[j] == s);
        }
    }
    assert forall|x: Seq<char>| #[trigger] id_in(u0, x) implies id_in(u1, x) by {
        let w = choose|w: int| 0 <= w < u0.len() && u0[w]@ == x;
        assert(u1[w] == u0[w]);
    }
}

/// Collect every id the graph mentions: node ids first, then edge
/// endpoints, without repetition.
fn build_universe(g: &Graph) -> (u: Vec<String>)
    ensures
        ids_distinct(u@),
        forall|k: int| 0 <= k < g.nodes@.len() ==> id_in(u@, #[trigger] g.nodes@[k].id@),
        forall|k: int| 0 <= k < g.edges@.len() ==> id_in(u@, #[trigger] g.edges@[k].source@),
        forall|k: int| 0 <= k < g.edges@.len() ==> id_in(u@, #[trigger] g.edges@[k].target@),
{
    let mut u: Vec<String> = Vec::new();
    let n = g.nodes.len();
    let mut i: usize = 0;
    while i < n
        invariant
            n == g.nodes@.len(),
            0 <= i <= n,
            ids_distinct(u@),
            forall|k: int| 0 <= k < i ==> id_in(u@, #[trigger] g.nodes@[k].id@),
        decreases n - i,
    {
        if !contains_id(&u, &g.nodes[i].id) {
            let ghost u0 = u@;
            let fresh = g.nodes[i].id.clone();
            proof {
                lemma_push_id(u0, fresh);
            }
            u.push(fresh);
        }
        i = i + 1;
    }
    let m = g.edges.len();
    let mut j: usize = 0;
    while j < m
        invariant
            m == g.edges@.len(),
            0 <= j <= m,
            ids_distinct(u@),
            forall|k: int| 0 <= k < g.nodes@.len() ==> id_in(u@, #[trigger] g.nodes@[k].id@),
            forall|k: int| 0 <= k < j ==> id_in(u@, #[trigger] g.edges@[k].source@),
            forall|k: int| 0 <= k < j ==> id_in(u@, #[trigger] g.edges@[k].target@),
        decreases m - j,
    {
        if !contains_id(&u, &g.edges[j].source) {
            let ghost u0 = u@;
            let fresh = g.edges[j].source.clone();
            proof {
                lemma_push_id(u0, fresh);
            }
            u.push(fresh);
        }
        if !contains_id(&u, &g.edges[j].target) {
            let ghost u0 = u@;
            let fresh = g.edges[j].target.clone();
            proof {
                lemma_push_id(u0, fresh);
            }
            u.push(fresh);
        }
        j = j + 1;
    }
    u
}

/// A growing list of distinct ids drawn from `u` can never outgrow `u`.
proof fn lemma_distinct_within_len(a: Seq<String>, u: Seq<String>)
    requires
        ids_distinct(a),
        ids_distinct(u),
        forall|i: int| 0 <= i < a.len() ==> id_in(u, #[trigger] a[i]@),
    ensures
        a.len() <= u.len(),
{
    let av = a.map_values(|s: String| s@);
    let uv = u.map_values(|s: String| s@);
    assert(av.no_duplicates());
    assert(uv.no_duplicates());
    assert forall|i: int| 0 <= i < av.len() implies uv.to_set().contains(#[trigger] av[i]) by {
        assert(id_in(u, a[i]@));
        let w = choose|w: int| 0 <= w < u.len() && u[w]@ == a[i]@;
        assert(uv[w] == a[i]@);
        assert(uv.contains(uv[w]));
    }
    av.unique_seq_to_set();
    uv.unique_seq_to_set();
    seq_to_set_is_finite(uv);
    assert(av.to_set().subset_of(uv.to_set()));
    lemma_len_subset(av.to_set(), uv.to_set());
    assert forall|i: int| 0 <= i < av.len() implies av.to_set().contains(#[trigger] av[i]) by {
        assert(av.contains(av[i]));
    }
}

/// Number of `true` entries.
pub closed spec fn count_true(s: Seq<bool>) -> int
    decreases s.len(),
{
    if s.len() == 0 {
        0int
    } else {
        count_true(s.drop_last()) + if s.last() {
            1int
        } else {
            0int
        }
    }
}

proof fn lemma_count_true_nonneg(s: Seq<bool>)
    ensures
        0 <= count_true(s),
    decreases s.len(),
{
    if s.len() > 0 {
        lemma_count_true_nonneg(s.drop_last());
    }
}

/// Turning a `true` entry off lowers the count by one.
proof fn lemma_count_true_update(s: Seq<bool>, i: int)
    requires
        0 <= i < s.len(),
        s[i],
    ensures
        count_true(s.update(i, false)) == count_true(s) - 1,
    decreases s.len(),
{
    if i == s.len() - 1 {
        assert(s.update(i, false).drop_last() =~= s.drop_last());
    } else {
        assert(s.update(i, false).drop_last() =~= s.drop_last().update(i, false));
        lemma_count_true_update(s.drop_last(), i);
    }
}

/// Some still-alive id in `u` feeds an edge into `x`.
pub open spec fn alive_id(u: Seq<String>, alive: Seq<bool>, x: Seq<char>) -> bool {
    exists|j: int| 0 <= j < u.len() && alive[j] && u[j]@ == x
}

/// Some edge into `x` departs from a still-alive id.
pub open spec fn has_alive_in_edge(
    edges: Seq<Edge>,
    u: Seq<String>,
    alive: Seq<bool>,
    x: Seq<char>,
) -> bool {
    exists|k: int| 0 <= k < edges.len() && edges[k].target@ == x && alive_id(
        u,
        alive,
        edges[k].source@,
    )
}

/// Is some still-alive entry of `u` equal to `x`?
fn find_alive_id(u: &Vec<String>, alive: &Vec<bool>, x: &String) -> (r: bool)
    requires
        u@.len() == alive@.len(),
    ensures
        r == alive_id(u@, alive@, x@),
{
    let n = u.len();
    let mut i: usize = 0;
    while i < n
        invariant
            n == u@.len(),
            u@.len() == alive@.len(),
            0 <= i <= n,
            forall|j: int| 0 <= j < i ==> !(alive@[j] && u@[j]@ == x@),
        decreases n - i,
    {
        if alive[i] && string_eq(&u[i], x) {
            return true;
        }
        i = i + 1;
    }
    false
}

/// Does some edge into `x` leave from a still-alive id?
fn find_alive_in_edge(g: &Graph, u: &Vec<String>, alive: &Vec<bool>, x: &String) -> (r: bool)
    requires
        u@.len() == alive@.len(),
    ensures
        r == has_alive_in_edge(g.edges@, u@, alive@, x@),
{
    let m = g.edges.len();
    let mut k: usize = 0;
    while k < m
        invariant
            m == g.edges@.len(),
            u@.len() == alive@.len(),
            0 <= k <= m,
            forall|j: int|
                0 <= j < k ==> !(g.edges@[j].target@ == x@ && alive_id(
                    u@,
                    alive@,
                    g.edges@[j].source@,
                )),
        decreases m - k,
    {
        if string_eq(&g.edges[k].target, x) {
            if find_alive_id(u, alive, &g.edges[k].source) {
                return true;
            }
        }
        k = k + 1;
    }
    false
}

/// Any id on a cycle is the source of some edge.
proof fn lemma_on_cycle_is_source(edges: Seq<Edge>, x: Seq<char>)
    requires
        on_cycle(edges, x),
    ensures
        exists|k: int| 0 <= k < edges.len() && #[trigger] edges[k].source@ == x,
{
    let c = choose|c: Seq<Seq<char>>| is_cycle(edges, c) && c.contains(x);
    let t = choose|t: int| 0 <= t < c.len() && c[t] == x;
    if t < c.len() - 1 {
        assert(edge_connects(edges, c[t], c[t + 1]));
        let k = choose|k: int|
            0 <= k < edges.len() && edges[k].source@ == c[t] && edges[k].target@ == c[t + 1];
        assert(edges[k].source@ == x);
    } else {
        assert(edge_connects(edges, c[c.len() - 1], c[0]));
        let k = choose|k: int|
            0 <= k < edges.len() && edges[k].source@ == c[c.len() - 1] && edges[k].target@ == c[0];
        assert(edges[k].source@ == x);
    }
}

/// Any id on a cycle has a predecessor on the same cycle.
proof fn lemma_on_cycle_pred(edges: Seq<Edge>, x: Seq<char>) -> (p: Seq<char>)
    requires
        on_cycle(edges, x),
    ensures
        on_cycle(edges, p),
        exists|k: int|
            0 <= k < edges.len() && #[trigger] edges[k].source@ == p && edges[k].target@ == x,
{
    let c = choose|c: Seq<Seq<char>>| is_cycle(edges, c) && c.contains(x);
    let t = choose|t: int| 0 <= t < c.len() && c[t] == x;
    let pred = if t == 0 {
        c[c.len() - 1]
    } else {
        c[t - 1]
    };
    if t == 0 {
        assert(edge_connects(edges, c[c.len() - 1], c[0]));
    } else {
        let tm = t - 1;
        assert(edge_connects(edges, c[tm], c[tm + 1]));
    }
    assert(c.contains(pred));
    pred
}

/// A backward chain of alive indices: each member receives an edge from the
/// next. Exists at any length while every alive id has an alive feeder.
proof fn lemma_build_chain(
    edges: Seq<Edge>,
    u: Seq<String>,
    alive: Seq<bool>,
    start: int,
    len: int,
) -> (idx: Seq<int>)
    requires
        u.len() == alive.len(),
        0 <= start < u.len(),
        alive[start],
        len >= 1,
        forall|i: int|
            0 <= i < u.len() && alive[i] ==> has_alive_in_edge(edges, u, alive, #[trigger] u[i]@),
    ensures
        idx.len() == len,
        idx[0] == start,
        forall|t: int| 0 <= t < len ==> 0 <= #[trigger] idx[t] < u.len() && alive[idx[t]],
        forall|t: int| 0 <= t < len - 1 ==> edge_connects(edges, u[idx[t + 1]]@, u[#[trigger] idx[t]]@),
    decreases len,
{
    if len == 1 {
        let idx = seq![start];
        idx
    } else {
        let prev = lemma_build_chain(edges, u, alive, start, len - 1);
        let last = prev[len - 2];
        assert(alive[last]);
        assert(has_alive_in_edge(edges, u, alive, u[last]@));
        let k = choose|k: int|
            0 <= k < edges.len() && edges[k].target@ == u[last]@ && alive_id(
                u,
                alive,
                edges[k].source@,
            );
        let j = choose|j: int| 0 <= j < u.len() && alive[j] && u[j]@ == edges[k].source@;
        let idx = prev.push(j);
        assert(idx[0] == start);
        assert forall|t: int| 0 <= t < len - 1 implies edge_connects(
            edges,
            u[idx[t + 1]]@,
            u[#[trigger] idx[t]]@,
        ) by {
            if t < len - 2 {
                assert(idx[t] == prev[t]);
                assert(idx[t + 1] == prev[t + 1]);
                assert(edge_connects(edges, u[prev[t + 1]]@, u[prev[t]]@));
            } else {
                assert(idx[t] == prev[len - 2]);
                assert(idx[t + 1] == j);
                assert(edges[k].source@ == u[j]@ && edges[k].target@ == u[last]@);
            }
        }
        idx
    }
}

/// In a chain longer than the universe two members coincide.
proof fn lemma_chain_repeat(idx: Seq<int>, n: int) -> (r: (int, int))
    requires
        n >= 0,
        idx.len() == n + 1,
        forall|t: int| 0 <= t < idx.len() ==> 0 <= #[trigger] idx[t] < n,
    ensures
        0 <= r.0 < r.1 < idx.len(),
        idx[r.0] == idx[r.1],
{
    if idx.no_duplicates() {
        idx.unique_seq_to_set();
        assert forall|x: int| idx.to_set().contains(x) implies set_int_range(0, n).contains(x) by {
            let t = choose|t: int| 0 <= t < idx.len() && idx[t] == x;
        }
        lemma_int_range(0, n);
        lemma_len_subset(idx.to_set(), set_int_range(0, n));
        assert(false);
    }
    let (t1, t2) = choose|t1: int, t2: int|
        #![trigger idx[t1], idx[t2]]
        0 <= t1 < t2 < idx.len() && idx[t1] == idx[t2];
    (t1, t2)
}

/// When every alive id keeps an alive feeder, any alive id sits on a cycle.
#[verifier::rlimit(50)]
proof fn lemma_alive_gives_cycle(edges: Seq<Edge>, u: Seq<String>, alive: Seq<bool>, start: int)
    requires
        u.len() == alive.len(),
        0 <= start < u.len(),
        alive[start],
        forall|i: int|
            0 <= i < u.len() && alive[i] ==> has_alive_in_edge(edges, u, alive, #[trigger] u[i]@),
    ensures
        has_cycle(edges),
{
    let n = u.len() as int;
    let idx = lemma_build_chain(edges, u, alive, start, n + 1);
    let (t1, t2) = lemma_chain_repeat(idx, n);
    // Walk the chain backwards from t2 down to t1: that is a forward walk
    // along edges, and it closes because idx[t1] == idx[t2].
    let c = Seq::new((t2 - t1) as nat, |s: int| u[idx[t2 - s]]@);
    assert forall|s: int| 0 <= s < c.len() - 1 implies #[trigger] edge_connects(
        edges,
        c[s],
        c[s + 1],
    ) by {
        let t = t2 - s - 1;
        assert(0 <= t < idx.len() - 1);
        assert(edge_connects(edges, u[idx[t + 1]]@, u[idx[t]]@));
        assert(c[s] == u[idx[t2 - s]]@);
        assert(c[s + 1] == u[idx[t2 - s - 1]]@);
    }
    assert(c.len() >= 1);
    assert(edge_connects(edges, c[c.len() - 1], c[0])) by {
        assert(c[c.len() - 1] == u[idx[t1 + 1]]@);
        assert(c[0] == u[idx[t2]]@);
        assert(edge_connects(edges, u[idx[t1 + 1]]@, u[idx[t1]]@));
        assert(idx[t1] == idx[t2]);
    }
    assert(is_cycle(edges, c));
}

/// Does the graph contain a directed cycle? Ids named only by edges count
/// as vertices, so a cycle through a dangling endpoint is found too.
pub fn has_cycles(g: &Graph) -> (r: bool)
    ensures
        r == has_cycle(g.edges@),
{
    let u = build_universe(g);
    let n = u.len();
    let mut alive: Vec<bool> = Vec::new();
    let mut i: usize = 0;
    while i < n
        invariant
            0 <= i <= n,
            alive@.len() == i,
            forall|j: int| 0 <= j < i ==> alive@[j],
        decreases n - i,
    {
        alive.push(true);
        i = i + 1;
    }
    proof {
        assert forall|x: Seq<char>| on_cycle(g.edges@, x) implies alive_id(u@, alive@, x) by {
            lemma_on_cycle_is_source(g.edges@, x);
            let k = choose|k: int| 0 <= k < g.edges@.len() && g.edges@[k].source@ == x;
            assert(id_in(u@, g.edges@[k].source@));
            let w = choose|w: int| 0 <= w < u@.len() && u@[w]@ == x;
            assert(alive@[w]);
        }
    }
    loop
        invariant
            u@.len() == n,
            alive@.len() == n,
            forall|x: Seq<char>| on_cycle(g.edges@, x) ==> alive_id(u@, alive@, x),
        ensures
            u@.len() == n,
            alive@.len() == n,
            forall|x: Seq<char>| on_cycle(g.edges@, x) ==> alive_id(u@, alive@, x),
            forall|i: int|
                0 <= i < u@.len() && alive@[i] ==> has_alive_in_edge(
                    g.edges@,
                    u@,
                    alive@,
                    #[trigger] u@[i]@,
                ),
        decreases count_true(alive@),
    {
        let mut removed = false;
        let mut i: usize = 0;
        proof {
            lemma_count_true_nonneg(alive@);
        }
        let ghost alive0 = alive@;
        while i < n
            invariant
                u@.len() == n,
                alive@.len() == n,
                0 <= i <= n,
                !removed ==> alive@ == alive0 && (forall|j: int|
                    0 <= j < i && alive@[j] ==> has_alive_in_edge(
                        g.edges@,
                        u@,
                        alive@,
                        #[trigger] u@[j]@,
                    )),
                removed ==> count_true(alive@) < count_true(alive0),
                forall|x: Seq<char>| on_cycle(g.edges@, x) ==> alive_id(u@, alive@, x),
            decreases n - i,
        {
            if !removed && alive[i] {
                if !find_alive_in_edge(g, &u, &alive, &u[i]) {
                    proof {
                        // u[i] cannot lie on any cycle: a cycle predecessor
                        // would be an alive feeder.
                        assert forall|x: Seq<char>| on_cycle(g.edges@, x) implies alive_id(
                            u@,
                            alive@.update(i as int, false),
                            x,
                        ) by {
                            if x == u@[i as int]@ {
                                let p = lemma_on_cycle_pred(g.edges@, x);
                                assert(alive_id(u@, alive@, p));
                                assert(has_alive_in_edge(g.edges@, u@, alive@, u@[i as int]@));
                                assert(false);
                            } else {
                                let w = choose|w: int|
                                    0 <= w < u@.len() && alive@[w] && u@[w]@ == x;
                                assert(w != i);
                                assert(alive@.update(i as int, false)[w]);
                            }
                        }
                        lemma_count_true_update(alive@, i as int);
                    }
                    alive.set(i, false);
                    removed = true;
                }
            }
            i = i + 1;
        }
        proof {
            lemma_count_true_nonneg(alive@);
        }
        if !removed {
            break;
        }
    }
    // Any entry still alive witnesses a cycle; none alive refutes every
    // cycle, since a cycle keeps all its members alive.
    let mut i: usize = 0;
    while i < n
        invariant
            u@.len() == n,
            alive@.len() == n,
            0 <= i <= n,
            forall|j: int| 0 <= j < i ==> !alive@[j],
            forall|x: Seq<char>| on_cycle(g.edges@, x) ==> alive_id(u@, alive@, x),
            forall|j: int|
                0 <= j < u@.len() && alive@[j] ==> has_alive_in_edge(
                    g.edges@,
                    u@,
                    alive@,
                    #[trigger] u@[j]@,
                ),
        decreases n - i,
    {
        if alive[i] {
            proof {
                lemma_alive_gives_cycle(g.edges@, u@, alive@, i as int);
            }
            return true;
        }
        i = i + 1;
    }
    proof {
        if has_cycle(g.edges@) {
            let c = choose|c: Seq<Seq<char>>| is_cycle(g.edges@, c);
            assert(c.contains(c[0]));
            assert(on_cycle(g.edges@, c[0]));
            let w = choose|w: int| 0 <= w < u@.len() && alive@[w] && u@[w]@ == c[0];
            assert(false);
        }
    }
    false
}

/// A list of ids that holds every Start id and is closed under edges holds
/// the last id of every walk that begins at a Start node.
proof fn lemma_walk_in_closed(
    nodes: Seq<Node>,
    edges: Seq<Edge>,
    visited: Seq<String>,
    p: Seq<Seq<char>>,
)
    requires
        is_walk(edges, p),
        is_start_id(nodes, p[0]),
        forall|i: int|
            0 <= i < nodes.len() && nodes[i].node_type == NodeType::Start ==> id_in(
                visited,
                #[trigger] nodes[i].id@,
            ),
        forall|t: int, k: int|
            0 <= t < visited.len() && 0 <= k < edges.len() && #[trigger] edges[k].source@
                == #[trigger] visited[t]@ ==> id_in(visited, edges[k].target@),
    ensures
        id_in(visited, p[p.len() - 1]),
    decreases p.len(),
{
    if p.len() == 1 {
        let i = choose|i: int|
            0 <= i < nodes.len() && nodes[i].node_type == NodeType::Start && nodes[i].id@ == p[0];
        assert(id_in(visited, nodes[i].id@));
    } else {
        let q = p.drop_last();
        assert(q[0] == p[0]);
        assert forall|i: int| 0 <= i < q.len() - 1 implies #[trigger] edge_connects(
            edges,
            q[i],
            q[i + 1],
        ) by {
            assert(edge_connects(edges, p[i], p[i + 1]));
        }
        lemma_walk_in_closed(nodes, edges, visited, q);
        let im = p.len() - 2;
        assert(edge_connects(edges, p[im], p[im + 1]));
        let last = p[p.len() - 1];
        let k = choose|k: int|
            0 <= k < edges.len() && edges[k].source@ == p[p.len() - 2] && edges[k].target@ == last;
        let t = choose|t: int| 0 <= t < visited.len() && visited[t]@ == p[p.len() - 2];
        assert(edges[k].source@ == visited[t]@);
        assert(id_in(visited, edges[k].target@));
    }
}

/// A one-id walk makes every Start id reachable.
proof fn lemma_start_reachable(nodes: Seq<Node>, edges: Seq<Edge>, i: int)
    requires
        0 <= i < nodes.len(),
        nodes[i].node_type == NodeType::Start,
    ensures
        reachable(nodes, edges, nodes[i].id@),
{
    let p = seq![nodes[i].id@];
    assert(is_walk(edges, p));
    assert(is_start_id(nodes, p[0]));
}

/// Extending a walk by one edge keeps its end reachable.
proof fn lemma_reachable_step(nodes: Seq<Node>, edges: Seq<Edge>, x: Seq<char>, k: int)
    requires
        reachable(nodes, edges, x),
        0 <= k < edges.len(),
        edges[k].source@ == x,
    ensures
        reachable(nodes, edges, edges[k].target@),
{
    let p = choose|p: Seq<Seq<char>>|
        is_walk(edges, p) && is_start_id(nodes, p[0]) && p[p.len() - 1] == x;
    let q = p.push(edges[k].target@);
    assert(q[0] == p[0]);
    assert forall|i: int| 0 <= i < q.len() - 1 implies #[trigger] edge_connects(
        edges,
        q[i],
        q[i + 1],
    ) by {
        if i < p.len() - 1 {
            assert(edge_connects(edges, p[i], p[i + 1]));
            assert(q[i] == p[i] && q[i + 1] == p[i + 1]);
        } else {
            assert(q[i] == x && q[i + 1] == edges[k].target@);
        }
    }
    assert(is_walk(edges, q));
    assert(q[q.len() - 1] == edges[k].target@);
}

/// The ids reachable from the Start nodes, by breadth-first traversal
/// seeded with every Start-typed node. The list holds an id exactly when
/// some walk from a Start node ends there; dangling endpoints count.
pub fn reachable_ids(g: &Graph) -> (r: Vec<String>)
    ensures
        forall|x: Seq<char>| #[trigger] id_in(r@, x) ==> reachable(g.nodes@, g.edges@, x),
        forall|x: Seq<char>| #[trigger] reachable(g.nodes@, g.edges@, x) ==> id_in(r@, x),
{
    let u = build_universe(g);
    let mut visited: Vec<String> = Vec::new();
    let mut queue: Vec<String> = Vec::new();
    let n = g.nodes.len();
    let mut i: usize = 0;
    while i < n
        invariant
            n == g.nodes@.len(),
            0 <= i <= n,
            ids_distinct(u@),
            forall|k: int| 0 <= k < g.nodes@.len() ==> id_in(u@, #[trigger] g.nodes@[k].id@),
            ids_distinct(visited@),
            forall|t: int| 0 <= t < visited@.len() ==> id_in(u@, #[trigger] visited@[t]@),
            forall|t: int|
                0 <= t < visited@.len() ==> reachable(g.nodes@, g.edges@, #[trigger] visited@[t]@),
            forall|k: int|
                0 <= k < i && g.nodes@[k].node_type == NodeType::Start ==> id_in(
                    visited@,
                    #[trigger] g.nodes@[k].id@,
                ),
            queue@.len() == visited@.len(),
            forall|t: int| 0 <= t < queue@.len() ==> #[trigger] queue@[t]@ == visited@[t]@,
        decreases n - i,
    {
        if matches!(g.nodes[i].node_type, NodeType::Start) {
            if !contains_id(&visited, &g.nodes[i].id) {
                let ghost v0 = visited@;
                let fresh = g.nodes[i].id.clone();
                proof {
                    lemma_push_id(v0, fresh);
                    lemma_start_reachable(g.nodes@, g.edges@, i as int);
                }
                visited.push(fresh);
                queue.push(g.nodes[i].id.clone());
            }
        }
        i = i + 1;
    }
    proof {
        lemma_distinct_within_len(visited@, u@);
        assert forall|t: int| 0 <= t < visited@.len() implies id_in(
            queue@,
            #[trigger] visited@[t]@,
        ) by {
            assert(queue@[t]@ == visited@[t]@);
        }
    }
    while queue.len() > 0
        invariant
            ids_distinct(u@),
            forall|k: int| 0 <= k < g.edges@.len() ==> id_in(u@, #[trigger] g.edges@[k].target@),
            ids_distinct(visited@),
            visited@.len() <= u@.len(),
            forall|t: int| 0 <= t < visited@.len() ==> id_in(u@, #[trigger] visited@[t]@),
            forall|t: int|
                0 <= t < visited@.len() ==> reachable(g.nodes@, g.edges@, #[trigger] visited@[t]@),
            forall|k: int|
                0 <= k < g.nodes@.len() && g.nodes@[k].node_type == NodeType::Start ==> id_in(
                    visited@,
                    #[trigger] g.nodes@[k].id@,
                ),
            forall|t: int| 0 <= t < queue@.len() ==> id_in(visited@, #[trigger] queue@[t]@),
            forall|t: int, k: int|
                0 <= t < visited@.len() && 0 <= k < g.edges@.len()
                    && #[trigger] g.edges@[k].source@ == #[trigger] visited@[t]@ && !id_in(
                    queue@,
                    visited@[t]@,
                ) ==> id_in(visited@, g.edges@[k].target@),
        decreases u@.len() - visited@.len(), queue@.len(),
    {
        let ghost qpre = queue@;
        let x = queue.pop().unwrap();
        proof {
            assert(id_in(visited@, x@)) by {
                assert(qpre[qpre.len() - 1]@ == x@);
            }
            assert(reachable(g.nodes@, g.edges@, x@)) by {
                let t = choose|t: int| 0 <= t < visited@.len() && visited@[t]@ == x@;
            }
            assert forall|t: int, k2: int|
                0 <= t < visited@.len() && 0 <= k2 < g.edges@.len()
                    && #[trigger] g.edges@[k2].source@ == #[trigger] visited@[t]@ && !id_in(
                    queue@,
                    visited@[t]@,
                ) && visited@[t]@ != x@ implies id_in(visited@, g.edges@[k2].target@) by {
                if id_in(qpre, visited@[t]@) {
                    let w = choose|w: int| 0 <= w < qpre.len() && qpre[w]@ == visited@[t]@;
                    assert(qpre[qpre.len() - 1]@ == x@);
                    assert(w < qpre.len() - 1);
                    assert(queue@[w] == qpre[w]);
                    assert(id_in(queue@, visited@[t]@));
                }
            }
        }
        let ghost qs = queue@;
        let ghost vs = visited@;
        let m = g.edges.len();
        let mut k: usize = 0;
        while k < m
            invariant
                m == g.edges@.len(),
                0 <= k <= m,
                ids_distinct(u@),
                forall|k2: int|
                    0 <= k2 < g.edges@.len() ==> id_in(u@, #[trigger] g.edges@[k2].target@),
                ids_distinct(visited@),
                visited@.len() <= u@.len(),
                reachable(g.nodes@, g.edges@, x@),
                forall|t: int| 0 <= t < visited@.len() ==> id_in(u@, #[trigger] visited@[t]@),
                forall|t: int|
                    0 <= t < visited@.len() ==> reachable(
                        g.nodes@,
                        g.edges@,
                        #[trigger] visited@[t]@,
                    ),
                forall|k2: int|
                    0 <= k2 < g.nodes@.len() && g.nodes@[k2].node_type == NodeType::Start
                        ==> id_in(visited@, #[trigger] g.nodes@[k2].id@),
                forall|t: int| 0 <= t < queue@.len() ==> id_in(visited@, #[trigger] queue@[t]@),
                forall|t: int, k2: int|
                    0 <= t < visited@.len() && 0 <= k2 < g.edges@.len()
                        && #[trigger] g.edges@[k2].source@ == #[trigger] visited@[t]@ && !id_in(
                        queue@,
                        visited@[t]@,
                    ) && visited@[t]@ != x@ ==> id_in(visited@, g.edges@[k2].target@),
                forall|k2: int|
                    0 <= k2 < k && #[trigger] g.edges@[k2].source@ == x@ ==> id_in(
                        visited@,
                        g.edges@[k2].target@,
                    ),
                queue@.len() - qs.len() == visited@.len() - vs.len(),
                qs.len() <= queue@.len(),
            decreases m - k,
        {
            if string_eq(&g.edges[k].source, &x) {
                if !contains_id(&visited, &g.edges[k].target) {
                    let ghost v0 = visited@;
                    let ghost q0 = queue@;
                    let fresh = g.edges[k].target.clone();
                    proof {
                        lemma_push_id(v0, fresh);
                        lemma_reachable_step(g.nodes@, g.edges@, x@, k as int);
                        lemma_distinct_within_len(v0.push(fresh), u@);
                    }
                    visited.push(fresh);
                    queue.push(g.edges[k].target.clone());
                    proof {
                        assert forall|t: int| 0 <= t < queue@.len() implies id_in(
                            visited@,
                            #[trigger] queue@[t]@,
                        ) by {
                            if t < q0.len() {
                                assert(id_in(v0, q0[t]@));
                            } else {
                                assert(queue@[t]@ == g.edges@[k as int].target@);
                                assert(visited@[v0.len() as int]@ == g.edges@[k as int].target@);
                            }
                        }
                        assert forall|t: int, k2: int|
                            0 <= t < visited@.len() && 0 <= k2 < g.edges@.len()
                                && #[trigger] g.edges@[k2].source@ == #[trigger] visited@[t]@
                                && !id_in(queue@, visited@[t]@) && visited@[t]@ != x@ implies id_in(
                            visited@,
                            g.edges@[k2].target@,
                        ) by {
                            if t < v0.len() {
                                assert(visited@[t] == v0[t]);
                                if !id_in(q0, v0[t]@) {
                                    assert(id_in(v0, g.edges@[k2].target@));
                                } else {
                                    let w = choose|w: int|
                                        0 <= w < q0.len() && q0[w]@ == v0[t]@;
                                    assert(queue@[w]@ == visited@[t]@);
                                    assert(id_in(queue@, visited@[t]@));
                                }
                            } else {
                                assert(visited@[t]@ == g.edges@[k as int].target@);
                                assert(queue@[queue@.len() - 1]@ == visited@[t]@);
                                assert(id_in(queue@, visited@[t]@));
                            }
                        }
                        assert forall|k2: int|
                            0 <= k2 < k + 1 && #[trigger] g.edges@[k2].source@ == x@ implies id_in(
                            visited@,
                            g.edges@[k2].target@,
                        ) by {
                            if k2 < k {
                                assert(id_in(v0, g.edges@[k2].target@));
                            } else {
                                assert(visited@[v0.len() as int]@ == g.edges@[k as int].target@);
                            }
                        }
                    }
                } else {
                    proof {
                        assert forall|k2: int|
                            0 <= k2 < k + 1 && #[trigger] g.edges@[k2].source@ == x@ implies id_in(
                            visited@,
                            g.edges@[k2].target@,
                        ) by {
                        }
                    }
                }
            }
            k = k + 1;
        }
        proof {
            assert forall|t: int, k2: int|
                0 <= t < visited@.len() && 0 <= k2 < g.edges@.len()
                    && #[trigger] g.edges@[k2].source@ == #[trigger] visited@[t]@ && !id_in(
                    queue@,
                    visited@[t]@,
                ) implies id_in(visited@, g.edges@[k2].target@) by {
                if visited@[t]@ == x@ {
                    assert(g.edges@[k2].source@ == x@);
                }
            }
        }
    }
    proof {
        assert forall|x: Seq<char>| #[trigger] id_in(visited@, x) implies reachable(
            g.nodes@,
            g.edges@,
            x,
        ) by {
            let t = choose|t: int| 0 <= t < visited@.len() && visited@[t]@ == x;
        }
        assert forall|x: Seq<char>| #[trigger] reachable(g.nodes@, g.edges@, x) implies id_in(
            visited@,
            x,
        ) by {
            let p = choose|p: Seq<Seq<char>>|
                is_walk(g.edges@, p) && is_start_id(g.nodes@, p[0]) && p[p.len() - 1] == x;
            lemma_walk_in_closed(g.nodes@, g.edges@, visited@, p);
        }
    }
    visited
}

/// Keep a node when no walk from a Start node leads to it.
pub open spec fn not_reachable_pred(g: Graph) -> spec_fn(Node) -> bool {
    |n: Node| !reachable(g.nodes@, g.edges@, n.id@)
}

/// A node's id.
pub open spec fn node_id_fn() -> spec_fn(Node) -> String {
    |n: Node| n.id
}

/// The ids of the nodes no walk from a Start node leads to, in node-list
/// order.
pub open spec fn unreachable_ids_spec(g: Graph) -> Seq<String> {
    g.nodes@.filter(not_reachable_pred(g)).map_values(node_id_fn())
}

/// The nodes to which no walk from a Start node leads. Each unreachable
/// node contributes its id once, in node-list order.
pub fn find_unreachable_nodes(g: &Graph) -> (r: Vec<String>)
    ensures
        r@ == unreachable_ids_spec(*g),
{
    let reach = reachable_ids(g);
    let mut out: Vec<String> = Vec::new();
    let n = g.nodes.len();
    let mut i: usize = 0;
    proof {
        assert(g.nodes@.take(0).filter(not_reachable_pred(*g)) =~= Seq::<Node>::empty());
    }
    while i < n
        invariant
            n == g.nodes@.len(),
            0 <= i <= n,
            forall|x: Seq<char>| #[trigger] id_in(reach@, x) ==> reachable(g.nodes@, g.edges@, x),
            forall|x: Seq<char>| #[trigger] reachable(g.nodes@, g.edges@, x) ==> id_in(reach@, x),
            out@ == g.nodes@.take(i as int).filter(not_reachable_pred(*g)).map_values(
                node_id_fn(),
            ),
        decreases n - i,
    {
        proof {
            assert(g.nodes@.take(i + 1 as int).drop_last() == g.nodes@.take(i as int));
            reveal(Seq::filter);
        }
        let keep = !contains_id(&reach, &g.nodes[i].id);
        proof {
            assert(not_reachable_pred(*g)(g.nodes@[i as int]) == keep);
        }
        if keep {
            out.push(g.nodes[i].id.clone());
            proof {
                let pred = not_reachable_pred(*g);
                let f1 = g.nodes@.take(i + 1 as int).filter(pred);
                assert(f1 == g.nodes@.take(i as int).filter(pred).push(g.nodes@[i as int]));
                assert(out@.drop_last() == g.nodes@.take(i as int).filter(pred).map_values(
                    node_id_fn(),
                ));
                assert(out@ =~= f1.map_values(node_id_fn()));
            }
        }
        i = i + 1;
    }
    proof {
        assert(g.nodes@.take(n as int) =~= g.nodes@);
    }
    out
}

/// Count the edges that end at `x`.
pub fn count_incoming(g: &Graph, x: &String) -> (r: usize)
    ensures
        r == in_degree(g.edges@, x@),
{
    let m = g.edges.len();
    let mut count: usize = 0;
    let mut k: usize = 0;
    proof {
        assert(g.edges@.take(0).filter(|e: Edge| e.target@ == x@) =~= Seq::<Edge>::empty());
    }
    while k < m
        invariant
            m == g.edges@.len(),
            0 <= k <= m,
            count <= k,
            count == g.edges@.take(k as int).filter(|e: Edge| e.target@ == x@).len(),
        decreases m - k,
    {
        proof {
            assert(g.edges@.take(k + 1 as int).drop_last() == g.edges@.take(k as int));
            reveal(Seq::filter);
        }
        if string_eq(&g.edges[k].target, x) {
            count = count + 1;
        }
        k = k + 1;
    }
    proof {
        assert(g.edges@.take(m as int) =~= g.edges@);
    }
    count
}

/// A non-Start node starves when its incoming-edge count stays under the
/// required-degree table for its type.
pub open spec fn starved(nodes: Seq<Node>, edges: Seq<Edge>, n: Node) -> bool {
    n.node_type != NodeType::Start && in_degree(edges, n.id@) < spec_required_inputs(n.node_type)
}

/// Keep a node when it starves.
pub open spec fn starved_pred(g: Graph) -> spec_fn(Node) -> bool {
    |n: Node| starved(g.nodes@, g.edges@, n)
}

/// The ids of the starved nodes, in node-list order.
pub open spec fn missing_input_ids_spec(g: Graph) -> Seq<String> {
    g.nodes@.filter(starved_pred(g)).map_values(node_id_fn())
}

/// The nodes whose incoming-edge count falls short of the required-degree
/// table, in node-list order, Start nodes exempt.
pub fn find_missing_inputs(g: &Graph) -> (r: Vec<String>)
    ensures
        r@ == missing_input_ids_spec(*g),
{
    let mut out: Vec<String> = Vec::new();
    let n = g.nodes.len();
    let mut i: usize = 0;
    proof {
        assert(g.nodes@.take(0).filter(starved_pred(*g)) =~= Seq::<Node>::empty());
    }
    while i < n
        invariant
            n == g.nodes@.len(),
            0 <= i <= n,
            out@ == g.nodes@.take(i as int).filter(starved_pred(*g)).map_values(node_id_fn()),
        decreases n - i,
    {
        proof {
            assert(g.nodes@.take(i + 1 as int).drop_last() == g.nodes@.take(i as int));
            reveal(Seq::filter);
        }
        let node_type = g.nodes[i].node_type;
        let required = required_inputs(node_type);
        let keep = !matches!(node_type, NodeType::Start) && (count_incoming(g, &g.nodes[i].id)
            as u64) < required;
        proof {
            assert(starved_pred(*g)(g.nodes@[i as int]) == keep);
        }
        if keep {
            out.push(g.nodes[i].id.clone());
            proof {
                let pred = starved_pred(*g);
                let f1 = g.nodes@.take(i + 1 as int).filter(pred);
                assert(f1 == g.nodes@.take(i as int).filter(pred).push(g.nodes@[i as int]));
                assert(out@.drop_last() == g.nodes@.take(i as int).filter(pred).map_values(
                    node_id_fn(),
                ));
                assert(out@ =~= f1.map_values(node_id_fn()));
            }
        }
        i = i + 1;
    }
    proof {
        assert(g.nodes@.take(n as int) =~= g.nodes@);
    }
    out
}


/// How many nodes carry the given type.
pub open spec fn count_type(nodes: Seq<Node>, t: NodeType) -> int {
    nodes.filter(|n: Node| n.node_type == t).len() as int
}

/// Some node with id `x` carries type `t`.
pub open spec fn node_has_type(nodes: Seq<Node>, x: Seq<char>, t: NodeType) -> bool {
    exists|i: int| 0 <= i < nodes.len() && nodes[i].id@ == x && nodes[i].node_type == t
}

/// Some edge joins a node of type `a` to a node of type `b`.
pub open spec fn has_type_adjacency(
    nodes: Seq<Node>,
    edges: Seq<Edge>,
    a: NodeType,
    b: NodeType,
) -> bool {
    exists|k: int|
        0 <= k < edges.len() && node_has_type(nodes, #[trigger] edges[k].source@, a)
            && node_has_type(nodes, edges[k].target@, b)
}

/// Count the nodes of the given type.
pub fn count_nodes_of_type(g: &Graph, t: NodeType) -> (r: usize)
    ensures
        r == count_type(g.nodes@, t),
{
    let n = g.nodes.len();
    let mut count: usize = 0;
    let mut i: usize = 0;
    proof {
        assert(g.nodes@.take(0).filter(|n: Node| n.node_type == t) =~= Seq::<Node>::empty());
    }
    while i < n
        invariant
            n == g.nodes@.len(),
            0 <= i <= n,
            count <= i,
            count == g.nodes@.take(i as int).filter(|n: Node| n.node_type == t).len(),
        decreases n - i,
    {
        proof {
            assert(g.nodes@.take(i + 1 as int).drop_last() == g.nodes@.take(i as int));
            reveal(Seq::filter);
        }
        if g.nodes[i].node_type == t {
            count = count + 1;
        }
        i = i + 1;
    }
    proof {
        assert(g.nodes@.take(n as int) =~= g.nodes@);
    }
    count
}

/// Does some node with id `x` carry type `t`?
fn exists_node_of_type(g: &Graph, x: &String, t: NodeType) -> (r: bool)
    ensures
        r == node_has_type(g.nodes@, x@, t),
{
    let n = g.nodes.len();
    let mut i: usize = 0;
    while i < n
        invariant
            n == g.nodes@.len(),
            0 <= i <= n,
            forall|j: int| 0 <= j < i ==> !(g.nodes@[j].id@ == x@ && g.nodes@[j].node_type == t),
        decreases n - i,
    {
        if g.nodes[i].node_type == t && string_eq(&g.nodes[i].id, x) {
            return true;
        }
        i = i + 1;
    }
    false
}

/// Does some edge join a node of type `a` to a node of type `b`?
pub fn has_connection_between(g: &Graph, a: NodeType, b: NodeType) -> (r: bool)
    ensures
        r == has_type_adjacency(g.nodes@, g.edges@, a, b),
{
    let m = g.edges.len();
    let mut k: usize = 0;
    while k < m
        invariant
            m == g.edges@.len(),
            0 <= k <= m,
            forall|j: int|
                0 <= j < k ==> !(node_has_type(g.nodes@, #[trigger] g.edges@[j].source@, a)
                    && node_has_type(g.nodes@, g.edges@[j].target@, b)),
        decreases m - k,
    {
        if exists_node_of_type(g, &g.edges[k].source, a) && exists_node_of_type(
            g,
            &g.edges[k].target,
            b,
        ) {
            return true;
        }
        k = k + 1;
    }
    false
}

} // verus!
