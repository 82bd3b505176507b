//! Core data model: typed nodes, edges and graphs, port value types and
//! their compatibility relation, and the ABI surface shared with the
//! surrounding tooling.

use vstd::prelude::*;

verus! {

/// Node identifier
pub type NodeId = String;

/// Edge identifier
pub type EdgeId = String;

/// Port identifier
pub type PortId = String;

/// Gas amount
pub type Gas = u64;

/// Contract address
pub type ContractAddress = String;

/// Transaction hash
pub type TransactionHash = String;

/// Block number
pub type BlockNumber = u64;

/// Timestamp
pub type Timestamp = u64;

/// String equality, stated over the character sequences the two values
/// denote.
pub fn string_eq(a: &String, b: &String) -> (r: bool)
    ensures
        r == (a@ == b@),
{
    a.eq(b)
}

/// Execution role of a node; closed set that drives every cost and rule
/// table lookup.
#[derive(Debug, Clone, Copy, PartialEq, Eq, Hash, Structural)]
pub enum NodeType {
    Start,
    End,
    State,
    Logic,
    Arithmetic,
    External,
    Control,
}

/// A plain property value attached to a node.
#[derive(Debug, PartialEq)]
pub enum PropValue {
    Null,
    Bool(bool),
    Int(i64),
    Text(String),
}

impl Clone for PropValue {
    fn clone(&self) -> (r: Self)
        ensures
            r == *self,
    {
        match self {
            PropValue::Null => PropValue::Null,
            PropValue::Bool(b) => PropValue::Bool(*b),
            PropValue::Int(i) => PropValue::Int(*i),
            PropValue::Text(s) => PropValue::Text(s.clone()),
        }
    }
}

/// Clone a property list, entry by entry.
fn clone_props(props: &Vec<(String, PropValue)>) -> (r: Vec<(String, PropValue)>)
    ensures
        r@ == props@,
{
    let mut out: Vec<(String, PropValue)> = Vec::new();
    let n = props.len();
    let mut i: usize = 0;
    while i < n
        invariant
            n == props@.len(),
            0 <= i <= n,
            out@ == props@.take(i as int),
        decreases n - i,
    {
        out.push((props[i].0.clone(), props[i].1.clone()));
        proof {
            assert(out@.drop_last() == props@.take(i as int));
            assert(out@ =~= props@.take(i + 1 as int));
        }
        i = i + 1;
    }
    proof {
        assert(props@.take(n as int) =~= props@);
    }
    out
}

/// An atomic unit of contract logic, typed by execution role.
#[derive(Debug, PartialEq)]
pub struct Node {
    pub id: NodeId,
    pub node_type: NodeType,
    pub position: (i64, i64),
    pub properties: Vec<(String, PropValue)>,
}

/// Two nodes that agree on id, type, position and properties.
pub open spec fn node_eqv(a: Node, b: Node) -> bool {
    a.id@ == b.id@ && a.node_type == b.node_type && a.position == b.position
        && a.properties@ == b.properties@
}

/// Element-wise [`node_eqv`] over two node sequences.
pub open spec fn nodes_eqv(a: Seq<Node>, b: Seq<Node>) -> bool {
    a.len() == b.len() && forall|i: int| 0 <= i < a.len() ==> node_eqv(a[i], b[i])
}

impl Clone for Node {
    fn clone(&self) -> (r: Self)
        ensures
            node_eqv(r, *self),
    {
        Node {
            id: self.id.clone(),
            node_type: self.node_type,
            position: (self.position.0, self.position.1),
            properties: clone_props(&self.properties),
        }
    }
}

/// A directed control/data link between two nodes. The handles name the
/// ports on either end, when the editor recorded them.
#[derive(Debug, PartialEq)]
pub struct Edge {
    pub id: EdgeId,
    pub source: NodeId,
    pub target: NodeId,
    pub source_handle: Option<PortId>,
    pub target_handle: Option<PortId>,
}

impl Clone for Edge {
    fn clone(&self) -> (r: Self)
        ensures
            r == *self,
    {
        Edge {
            id: self.id.clone(),
            source: self.source.clone(),
            target: self.target.clone(),
            source_handle: match &self.source_handle {
                Some(s) => Some(s.clone()),
                None => None,
            },
            target_handle: match &self.target_handle {
                Some(s) => Some(s.clone()),
                None => None,
            },
        }
    }
}

/// A directed flow graph as produced by the external editor. Edges may
/// reference node ids that are absent from the node list; that is a
/// detectable error state reported by the validator, never a precondition.
#[derive(Debug, PartialEq)]
pub struct Graph {
    pub nodes: Vec<Node>,
    pub edges: Vec<Edge>,
}

impl Clone for Graph {
    fn clone(&self) -> (r: Self)
        ensures
            nodes_eqv(r.nodes@, self.nodes@),
            r.edges@ == self.edges@,
    {
        let mut nodes: Vec<Node> = Vec::new();
        let n = self.nodes.len();
        let mut i: usize = 0;
        while i < n
            invariant
                n == self.nodes@.len(),
                0 <= i <= n,
                nodes@.len() == i,
                forall|k: int| 0 <= k < i ==> node_eqv(nodes@[k], self.nodes@[k]),
            decreases n - i,
        {
            nodes.push(self.nodes[i].clone());
            i = i + 1;
        }
        let mut edges: Vec<Edge> = Vec::new();
        let m = self.edges.len();
        let mut j: usize = 0;
        while j < m
            invariant
                m == self.edges@.len(),
                0 <= j <= m,
                edges@ == self.edges@.take(j as int),
            decreases m - j,
        {
            edges.push(self.edges[j].clone());
            proof {
                assert(edges@.drop_last() == self.edges@.take(j as int));
                assert(edges@ =~= self.edges@.take(j + 1 as int));
            }
            j = j + 1;
        }
        proof {
            assert(self.edges@.take(m as int) =~= self.edges@);
        }
        Graph { nodes, edges }
    }
}

impl Graph {
    /// Create an empty graph.
    pub fn new() -> (r: Graph)
        ensures
            r.nodes@.len() == 0,
            r.edges@.len() == 0,
    {
        Graph { nodes: Vec::new(), edges: Vec::new() }
    }

    /// Append a node to the graph.
    pub fn add_node(&mut self, node: Node)
        ensures
            final(self).nodes@ == old(self).nodes@.push(node),
            final(self).edges@ == old(self).edges@,
    {
        self.nodes.push(node);
    }

    /// Append an edge to the graph.
    pub fn add_edge(&mut self, edge: Edge)
        ensures
            final(self).edges@ == old(self).edges@.push(edge),
            final(self).nodes@ == old(self).nodes@,
    {
        self.edges.push(edge);
    }

    /// The node list, in insertion order.
    pub fn get_nodes(&self) -> (r: &Vec<Node>)
        ensures
            r@ == self.nodes@,
    {
        &self.nodes
    }

    /// The edge list, in insertion order.
    pub fn get_edges(&self) -> (r: &Vec<Edge>)
        ensures
            r@ == self.edges@,
    {
        &self.edges
    }

    /// Look a node up by id; absent ids yield `None`, never a failure.
    pub fn get_node(&self, id: &String) -> (r: Option<&Node>)
        ensures
            match r {
                Some(n) => exists|i: int|
                    0 <= i < self.nodes@.len() && self.nodes@[i].id@ == id@ && *n == self.nodes@[i]
                        && (forall|j: int| 0 <= j < i ==> self.nodes@[j].id@ != id@),
                None => forall|i: int| 0 <= i < self.nodes@.len() ==> self.nodes@[i].id@ != id@,
            },
    {
        let n = self.nodes.len();
        let mut i: usize = 0;
        while i < n
            invariant
                n == self.nodes@.len(),
                0 <= i <= n,
                forall|j: int| 0 <= j < i ==> self.nodes@[j].id@ != id@,
            decreases n - i,
        {
            if string_eq(&self.nodes[i].id, id) {
                return Some(&self.nodes[i]);
            }
            i = i + 1;
        }
        None
    }

    /// The edges leaving the named node, in edge-list order.
    pub fn outgoing_edges(&self, id: &String) -> (r: Vec<Edge>)
        ensures
            r@ == self.edges@.filter(|e: Edge| e.source@ == id@),
    {
        let mut out: Vec<Edge> = Vec::new();
        let n = self.edges.len();
        let mut i: usize = 0;
        while i < n
            invariant
                n == self.edges@.len(),
                0 <= i <= n,
                out@ == self.edges@.take(i as int).filter(|e: Edge| e.source@ == id@),
            decreases n - i,
        {
            proof {
                assert(self.edges@.take(i + 1 as int).drop_last() == self.edges@.take(i as int));
                reveal(Seq::filter);
            }
            if string_eq(&self.edges[i].source, id) {
                out.push(self.edges[i].clone());
            }
            i = i + 1;
        }
        proof {
            assert(self.edges@.take(n as int) == self.edges@);
        }
        out
    }

    /// The edges entering the named node, in edge-list order.
    pub fn incoming_edges(&self, id: &String) -> (r: Vec<Edge>)
        ensures
            r@ == self.edges@.filter(|e: Edge| e.target@ == id@),
    {
        let mut out: Vec<Edge> = Vec::new();
        let n = self.edges.len();
        let mut i: usize = 0;
        while i < n
            invariant
                n == self.edges@.len(),
                0 <= i <= n,
                out@ == self.edges@.take(i as int).filter(|e: Edge| e.target@ == id@),
            decreases n - i,
        {
            proof {
                assert(self.edges@.take(i + 1 as int).drop_last() == self.edges@.take(i as int));
                reveal(Seq::filter);
            }
            if string_eq(&self.edges[i].target, id) {
                out.push(self.edges[i].clone());
            }
            i = i + 1;
        }
        proof {
            assert(self.edges@.take(n as int) == self.edges@);
        }
        out
    }
}

/// Value types that can flow through connections
#[derive(Debug, PartialEq)]
pub enum ValueType {
    /// Boolean value
    Boolean,
    /// Integer value
    Integer,
    /// Floating point value
    Float,
    /// String value
    String,
    /// Bytes value
    Bytes,
    /// Array of values
    Array(Box<ValueType>),
    /// Object with named fields
    Object(Vec<(String, ValueType)>),
    /// Flow control (no data, just execution flow)
    Flow,
    /// Any type (for dynamic typing)
    Any,
}

/// Structural equality of two value types, stated over the character
/// sequences of the keys involved.
pub open spec fn vt_eq(a: ValueType, b: ValueType) -> bool
    decreases a,
{
    match (a, b) {
        (ValueType::Boolean, ValueType::Boolean) => true,
        (ValueType::Integer, ValueType::Integer) => true,
        (ValueType::Float, ValueType::Float) => true,
        (ValueType::String, ValueType::String) => true,
        (ValueType::Bytes, ValueType::Bytes) => true,
        (ValueType::Flow, ValueType::Flow) => true,
        (ValueType::Any, ValueType::Any) => true,
        (ValueType::Array(x), ValueType::Array(y)) => vt_eq(*x, *y),
        (ValueType::Object(f), ValueType::Object(g)) => vt_fields_eq(f@, g@),
        _ => false,
    }
}

/// Element-wise [`vt_eq`] over two field lists, keys included.
pub open spec fn vt_fields_eq(fs: Seq<(String, ValueType)>, gs: Seq<(String, ValueType)>) -> bool
    decreases fs,
{
    fs.len() == gs.len() && (forall|i: int|
        0 <= i < fs.len() ==> #[trigger] fs[i].0@ == gs[i].0@ && vt_eq(fs[i].1, gs[i].1))
}

impl Clone for ValueType {
    fn clone(&self) -> (r: Self)
        ensures
            vt_eq(r, *self),
        decreases *self,
    {
        match self {
            ValueType::Boolean => ValueType::Boolean,
            ValueType::Integer => ValueType::Integer,
            ValueType::Float => ValueType::Float,
            ValueType::String => ValueType::String,
            ValueType::Bytes => ValueType::Bytes,
            ValueType::Flow => ValueType::Flow,
            ValueType::Any => ValueType::Any,
            ValueType::Array(x) => ValueType::Array(Box::new((**x).clone())),
            ValueType::Object(f) => {
                let mut out: Vec<(String, ValueType)> = Vec::new();
                let n = f.len();
                let mut i: usize = 0;
                while i < n
                    invariant
                        n == f@.len(),
                        0 <= i <= n,
                        vt_fields_eq(out@, f@.take(i as int)),
                        *self == ValueType::Object(*f),
                    decreases n - i,
                {
                    proof {
                        assert(self->Object_0 == *f);
                        assert(decreases_to!(*self => self->Object_0));
                        assert(decreases_to!(*f => f@));
                        assert(decreases_to!(f@ => f@[i as int]));
                        assert(decreases_to!(f@[i as int] => f@[i as int].1));
                    }
                    let entry = (f[i].0.clone(), f[i].1.clone());
                    out.push(entry);
                    proof {
                        assert(forall|k: int| 0 <= k < i ==> out@[k] == out@.drop_last()[k]);
                        assert(out@[i as int] == entry);
                        assert(forall|k: int|
                            0 <= k <= i ==> #[trigger] f@.take(i + 1 as int)[k] == f@[k]);
                    }
                    i = i + 1;
                }
                proof {
                    assert(f@.take(n as int) =~= f@);
                }
                ValueType::Object(out)
            },
        }
    }
}


/// The first entry of `gs` whose key reads `k`, if any.
pub open spec fn field_lookup(gs: Seq<(String, ValueType)>, k: Seq<char>) -> Option<ValueType>
    decreases gs.len(),
{
    if gs.len() == 0 {
        None
    } else if gs[0].0@ == k {
        Some(gs[0].1)
    } else {
        field_lookup(gs.drop_first(), k)
    }
}

/// Compatibility of two value types: `Any` matches everything, `Flow` and
/// the primitives match themselves, arrays match element-wise, and objects
/// match when they have the same field count and every field of the first
/// is found by key in the second with a compatible type.
pub open spec fn compatible(a: ValueType, b: ValueType) -> bool
    decreases a,
{
    match (a, b) {
        (ValueType::Any, _) => true,
        (_, ValueType::Any) => true,
        (ValueType::Flow, ValueType::Flow) => true,
        (ValueType::Boolean, ValueType::Boolean) => true,
        (ValueType::Integer, ValueType::Integer) => true,
        (ValueType::Float, ValueType::Float) => true,
        (ValueType::String, ValueType::String) => true,
        (ValueType::Bytes, ValueType::Bytes) => true,
        (ValueType::Array(x), ValueType::Array(y)) => compatible(*x, *y),
        (ValueType::Object(f), ValueType::Object(g)) => {
            f@.len() == g@.len() && fields_compatible(f@, g@)
        },
        _ => false,
    }
}

/// Every field of `fs` is found by key in `gs` with a compatible type.
pub open spec fn fields_compatible(fs: Seq<(String, ValueType)>, gs: Seq<(String, ValueType)>) -> bool
    decreases fs,
{
    if fs.len() == 0 {
        true
    } else {
        (match field_lookup(gs, fs[0].0@) {
            Some(v2) => compatible(fs[0].1, v2),
            None => false,
        }) && fields_compatible(fs.drop_first(), gs)
    }
}

/// If no key among the first `i` entries of `gs` reads `k`, the lookup is
/// decided by the remaining entries alone.
proof fn lemma_field_lookup_skip(gs: Seq<(String, ValueType)>, k: Seq<char>, i: int)
    requires
        0 <= i <= gs.len(),
        forall|j: int| 0 <= j < i ==> gs[j].0@ != k,
    ensures
        field_lookup(gs, k) == field_lookup(gs.skip(i), k),
    decreases i,
{
    if i > 0 {
        assert(gs.len() > 0);
        assert(gs[0].0@ != k);
        assert(field_lookup(gs, k) == field_lookup(gs.drop_first(), k));
        assert(gs.drop_first() == gs.skip(1));
        lemma_field_lookup_skip(gs.skip(1), k, i - 1);
        assert(gs.skip(1).skip(i - 1) == gs.skip(i));
    } else {
        assert(gs.skip(0) == gs);
    }
}

impl ValueType {
    /// Find the first entry of `gs` whose key equals `k`.
    fn find_field<'a>(gs: &'a Vec<(String, ValueType)>, k: &String) -> (r: Option<&'a ValueType>)
        ensures
            match r {
                Some(v) => field_lookup(gs@, k@) == Some(*v),
                None => field_lookup(gs@, k@) is None,
            },
    {
        let n = gs.len();
        let mut i: usize = 0;
        while i < n
            invariant
                n == gs@.len(),
                0 <= i <= n,
                forall|j: int| 0 <= j < i ==> gs@[j].0@ != k@,
            decreases n - i,
        {
            if string_eq(&gs[i].0, k) {
                proof {
                    lemma_field_lookup_skip(gs@, k@, i as int);
                    assert(gs@.skip(i as int)[0] == gs@[i as int]);
                }
                return Some(&gs[i].1);
            }
            i = i + 1;
        }
        proof {
            lemma_field_lookup_skip(gs@, k@, n as int);
        }
        None
    }

    /// Is the type well-formed: does every object inside it key its fields
    /// uniquely?
    pub fn well_formed(&self) -> (r: bool)
        ensures
            r == vt_wf(*self),
        decreases *self,
    {
        match self {
            ValueType::Array(x) => (**x).well_formed(),
            ValueType::Object(f) => {
                let n = f.len();
                let mut i: usize = 0;
                while i < n
                    invariant
                        n == f@.len(),
                        0 <= i <= n,
                        forall|i2: int, j2: int|
                            0 <= i2 < j2 < n && j2 < i ==> (#[trigger] f@[i2]).0@ != (
                            #[trigger] f@[j2]).0@,
                        *self == ValueType::Object(*f),
                    decreases n - i,
                {
                    let mut j: usize = 0;
                    while j < i
                        invariant
                            n == f@.len(),
                            0 <= j <= i < n,
                            forall|j2: int| 0 <= j2 < j ==> (#[trigger] f@[j2]).0@ != f@[i as int].0@,
                            *self == ValueType::Object(*f),
                        decreases i - j,
                    {
                        if string_eq(&f[j].0, &f[i].0) {
                            return false;
                        }
                        j = j + 1;
                    }
                    i = i + 1;
                }
                let mut k: usize = 0;
                while k < n
                    invariant
                        n == f@.len(),
                        0 <= k <= n,
                        keys_distinct(f@),
                        forall|k2: int| 0 <= k2 < k ==> vt_wf((#[trigger] f@[k2]).1),
                        *self == ValueType::Object(*f),
                    decreases n - k,
                {
                    proof {
                        assert(self->Object_0 == *f);
                        assert(decreases_to!(*self => self->Object_0));
                        assert(decreases_to!(*f => f@));
                        assert(decreases_to!(f@ => f@[k as int]));
                        assert(decreases_to!(f@[k as int] => f@[k as int].1));
                    }
                    if !f[k].1.well_formed() {
                        proof {
                            if vt_fields_wf(f@) {
                                lemma_vt_fields_wf_index(f@);
                            }
                        }
                        return false;
                    }
                    k = k + 1;
                }
                proof {
                    lemma_vt_fields_wf_from_index(f@);
                }
                true
            },
            _ => true,
        }
    }

    /// Check if this type is compatible with another
    pub fn is_compatible_with(&self, other: &ValueType) -> (r: bool)
        ensures
            r == compatible(*self, *other),
        decreases *self,
    {
        match (self, other) {
            (ValueType::Any, _) => true,
            (_, ValueType::Any) => true,
            (ValueType::Flow, ValueType::Flow) => true,
            (ValueType::Boolean, ValueType::Boolean) => true,
            (ValueType::Integer, ValueType::Integer) => true,
            (ValueType::Float, ValueType::Float) => true,
            (ValueType::String, ValueType::String) => true,
            (ValueType::Bytes, ValueType::Bytes) => true,
            (ValueType::Array(x), ValueType::Array(y)) => x.is_compatible_with(y),
            (ValueType::Object(f), ValueType::Object(g)) => {
                if f.len() != g.len() {
                    return false;
                }
                let n = f.len();
                let mut i: usize = 0;
                proof {
                    assert(f@.skip(0) =~= f@);
                }
                while i < n
                    invariant
                        n == f@.len(),
                        0 <= i <= n,
                        f@.len() == g@.len(),
                        fields_compatible(f@, g@) == fields_compatible(f@.skip(i as int), g@),
                        *self == ValueType::Object(*f),
                        *other == ValueType::Object(*g),
                    decreases n - i,
                {
                    let found = Self::find_field(g, &f[i].0);
                    proof {
                        assert(f@.skip(i as int)[0] == f@[i as int]);
                        assert(f@.skip(i as int).drop_first() =~= f@.skip(i + 1 as int));
                    }
                    match found {
                        Some(v2) => {
                            proof {
                                assert(self->Object_0 == *f);
                                assert(decreases_to!(*self => self->Object_0));
                                assert(decreases_to!(*f => f@));
                                assert(decreases_to!(f@ => f@[i as int]));
                                assert(decreases_to!(f@[i as int] => f@[i as int].1));
                            }
                            if !f[i].1.is_compatible_with(v2) {
                                return false;
                            }
                        },
                        None => {
                            return false;
                        },
                    }
                    i = i + 1;
                }
                proof {
                    assert(f@.skip(n as int) =~= Seq::<(String, ValueType)>::empty());
                }
                true
            },
            _ => false,
        }
    }
}

/// The keys of a field list, pairwise distinct: the map semantics of the
/// data model.
pub open spec fn keys_distinct(fs: Seq<(String, ValueType)>) -> bool {
    forall|i: int, j: int|
        0 <= i < j < fs.len() ==> (#[trigger] fs[i]).0@ != (#[trigger] fs[j]).0@
}

/// A value type is well-formed when every object inside it keys its fields
/// uniquely.
pub open spec fn vt_wf(v: ValueType) -> bool
    decreases v,
{
    match v {
        ValueType::Array(x) => vt_wf(*x),
        ValueType::Object(f) => keys_distinct(f@) && vt_fields_wf(f@),
        _ => true,
    }
}

/// Every field's type is well-formed.
pub open spec fn vt_fields_wf(fs: Seq<(String, ValueType)>) -> bool
    decreases fs,
{
    fs.len() == 0 || (vt_wf(fs[0].1) && vt_fields_wf(fs.drop_first()))
}

/// Well-formedness of a field list reaches every member.
proof fn lemma_vt_fields_wf_index(fs: Seq<(String, ValueType)>)
    requires
        vt_fields_wf(fs),
    ensures
        forall|i: int| 0 <= i < fs.len() ==> vt_wf((#[trigger] fs[i]).1),
    decreases fs.len(),
{
    if fs.len() > 0 {
        lemma_vt_fields_wf_index(fs.drop_first());
        assert forall|i: int| 0 <= i < fs.len() implies vt_wf((#[trigger] fs[i]).1) by {
            if i > 0 {
                assert(fs.drop_first()[i - 1] == fs[i]);
            }
        }
    }
}

/// What the first-match lookup finds: an entry carrying the key, or the
/// word that none exists.
proof fn lemma_lookup_basics(gs: Seq<(String, ValueType)>, k: Seq<char>)
    ensures
        match field_lookup(gs, k) {
            Some(v) => exists|j: int|
                0 <= j < gs.len() && (#[trigger] gs[j]).0@ == k && gs[j].1 == v,
            None => forall|j: int| 0 <= j < gs.len() ==> (#[trigger] gs[j]).0@ != k,
        },
    decreases gs.len(),
{
    if gs.len() > 0 && gs[0].0@ != k {
        lemma_lookup_basics(gs.drop_first(), k);
        match field_lookup(gs, k) {
            Some(v) => {
                let j = choose|j: int|
                    0 <= j < gs.drop_first().len() && (#[trigger] gs.drop_first()[j]).0@ == k
                        && gs.drop_first()[j].1 == v;
                assert(gs[j + 1] == gs.drop_first()[j]);
            },
            None => {
                assert forall|j: int| 0 <= j < gs.len() implies (#[trigger] gs[j]).0@ != k by {
                    if j > 0 {
                        assert(gs.drop_first()[j - 1] == gs[j]);
                    }
                }
            },
        }
    }
}

/// With distinct keys, the lookup finds exactly the one entry carrying the
/// key.
proof fn lemma_lookup_distinct(gs: Seq<(String, ValueType)>, k: Seq<char>, j: int)
    requires
        keys_distinct(gs),
        0 <= j < gs.len(),
        gs[j].0@ == k,
    ensures
        field_lookup(gs, k) == Some(gs[j].1),
{
    lemma_lookup_basics(gs, k);
    match field_lookup(gs, k) {
        Some(v) => {
            let j2 = choose|j2: int|
                0 <= j2 < gs.len() && (#[trigger] gs[j2]).0@ == k && gs[j2].1 == v;
            if j2 != j {
                assert(gs[j].0@ != gs[j2].0@ || gs[j2].0@ != gs[j].0@);
            }
        },
        None => {
        },
    }
}

/// The recursive field check, read pointwise: every field of `fs` looks up
/// to a compatible entry of `gs`.
proof fn lemma_fields_compatible_index(fs: Seq<(String, ValueType)>, gs: Seq<(String, ValueType)>)
    requires
        fields_compatible(fs, gs),
    ensures
        forall|i: int|
            0 <= i < fs.len() ==> (field_lookup(gs, (#[trigger] fs[i]).0@) matches Some(w)
                && compatible(fs[i].1, w)),
    decreases fs.len(),
{
    if fs.len() > 0 {
        lemma_fields_compatible_index(fs.drop_first(), gs);
        assert forall|i: int| 0 <= i < fs.len() implies (field_lookup(
            gs,
            (#[trigger] fs[i]).0@,
        ) matches Some(w) && compatible(fs[i].1, w)) by {
            if i > 0 {
                assert(fs.drop_first()[i - 1] == fs[i]);
            }
        }
    }
}

/// The converse: pointwise compatible lookups give the recursive check.
proof fn lemma_fields_compatible_from_index(
    fs: Seq<(String, ValueType)>,
    gs: Seq<(String, ValueType)>,
)
    requires
        forall|i: int|
            0 <= i < fs.len() ==> (field_lookup(gs, (#[trigger] fs[i]).0@) matches Some(w)
                && compatible(fs[i].1, w)),
    ensures
        fields_compatible(fs, gs),
    decreases fs.len(),
{
    if fs.len() > 0 {
        assert(field_lookup(gs, fs[0].0@) matches Some(w) && compatible(fs[0].1, w));
        assert forall|i: int| 0 <= i < fs.drop_first().len() implies (field_lookup(
            gs,
            (#[trigger] fs.drop_first()[i]).0@,
        ) matches Some(w) && compatible(fs.drop_first()[i].1, w)) by {
            assert(fs.drop_first()[i] == fs[i + 1]);
        }
        lemma_fields_compatible_from_index(fs.drop_first(), gs);
    }
}

/// With unique keys on both sides and equal lengths, the field relation
/// flips: the key sets coincide, and each matched pair flips pointwise.
proof fn lemma_fields_compatible_flip(fs: Seq<(String, ValueType)>, gs: Seq<(String, ValueType)>)
    requires
        keys_distinct(fs),
        keys_distinct(gs),
        fs.len() == gs.len(),
        fields_compatible(fs, gs),
        forall|i: int, j: int|
            0 <= i < fs.len() && 0 <= j < gs.len() ==> compatible(
                (#[trigger] fs[i]).1,
                (#[trigger] gs[j]).1,
            ) == compatible(gs[j].1, fs[i].1),
    ensures
        fields_compatible(gs, fs),
{
    lemma_fields_compatible_index(fs, gs);
    let fk = fs.map_values(|p: (String, ValueType)| p.0@);
    let gk = gs.map_values(|p: (String, ValueType)| p.0@);
    assert(fk.no_duplicates());
    assert(gk.no_duplicates());
    fk.unique_seq_to_set();
    gk.unique_seq_to_set();
    vstd::seq_lib::seq_to_set_is_finite(fk);
    vstd::seq_lib::seq_to_set_is_finite(gk);
    assert forall|x: Seq<char>| fk.to_set().contains(x) implies gk.to_set().contains(x) by {
        let i = choose|i: int| 0 <= i < fk.len() && fk[i] == x;
        assert(fs[i].0@ == x);
        assert(field_lookup(gs, fs[i].0@) matches Some(w) && compatible(fs[i].1, w));
        lemma_lookup_basics(gs, fs[i].0@);
        let j = choose|j: int| 0 <= j < gs.len() && (#[trigger] gs[j]).0@ == x;
        assert(gk[j] == x);
        assert(gk.contains(gk[j]));
    }
    assert forall|x: Seq<char>| fk.to_set().contains(x) implies fk.contains(x) by {
    }
    vstd::set_lib::lemma_subset_equality(fk.to_set(), gk.to_set());
    assert forall|j: int| 0 <= j < gs.len() implies (field_lookup(
        fs,
        (#[trigger] gs[j]).0@,
    ) matches Some(w) && compatible(gs[j].1, w)) by {
        let key = gs[j].0@;
        assert(gk[j] == key);
        assert(gk.contains(gk[j]));
        assert(gk.to_set().contains(key));
        assert(fk.to_set().contains(key));
        assert(fk.contains(key));
        let i = choose|i: int| 0 <= i < fk.len() && fk[i] == key;
        assert(fs[i].0@ == key);
        lemma_lookup_distinct(fs, key, i);
        // the entry fs[i] looks up in gs to exactly gs[j]
        assert(field_lookup(gs, fs[i].0@) matches Some(w) && compatible(fs[i].1, w));
        lemma_lookup_distinct(gs, key, j);
        assert(field_lookup(gs, fs[i].0@) == Some(gs[j].1));
        assert(compatible(fs[i].1, gs[j].1));
        assert(compatible(gs[j].1, fs[i].1));
    }
    lemma_fields_compatible_from_index(gs, fs);
}

/// Every member well-formed gives the recursive field check.
proof fn lemma_vt_fields_wf_from_index(fs: Seq<(String, ValueType)>)
    requires
        forall|i: int| 0 <= i < fs.len() ==> vt_wf((#[trigger] fs[i]).1),
    ensures
        vt_fields_wf(fs),
    decreases fs.len(),
{
    if fs.len() > 0 {
        assert forall|i: int| 0 <= i < fs.drop_first().len() implies vt_wf(
            (#[trigger] fs.drop_first()[i]).1,
        ) by {
            assert(fs.drop_first()[i] == fs[i + 1]);
        }
        lemma_vt_fields_wf_from_index(fs.drop_first());
    }
}

/// Compatibility is symmetric on well-formed value types: every rule of
/// the relation reads the same in both directions once object keys are
/// unique, as the data model's map semantics has them.
pub proof fn lemma_compatible_symmetric(a: ValueType, b: ValueType)
    requires
        vt_wf(a),
        vt_wf(b),
    ensures
        compatible(a, b) == compatible(b, a),
    decreases a,
{
    match (a, b) {
        (ValueType::Array(x), ValueType::Array(y)) => {
            lemma_compatible_symmetric(*x, *y);
        },
        (ValueType::Object(f), ValueType::Object(g)) => {
            if f@.len() == g@.len() {
                lemma_vt_fields_wf_index(f@);
                lemma_vt_fields_wf_index(g@);
                assert forall|i: int, j: int|
                    0 <= i < f@.len() && 0 <= j < g@.len() implies compatible(
                    (#[trigger] f@[i]).1,
                    (#[trigger] g@[j]).1,
                ) == compatible(g@[j].1, f@[i].1) by {
                    assert(a->Object_0 == f);
                    assert(decreases_to!(a => a->Object_0));
                    assert(decreases_to!(f => f@));
                    assert(decreases_to!(f@ => f@[i]));
                    assert(decreases_to!(f@[i] => f@[i].1));
                    lemma_compatible_symmetric(f@[i].1, g@[j].1);
                }
                if fields_compatible(f@, g@) {
                    lemma_fields_compatible_flip(f@, g@);
                }
                if fields_compatible(g@, f@) {
                    assert forall|i: int, j: int|
                        0 <= i < g@.len() && 0 <= j < f@.len() implies compatible(
                        (#[trigger] g@[i]).1,
                        (#[trigger] f@[j]).1,
                    ) == compatible(f@[j].1, g@[i].1) by {
                    }
                    lemma_fields_compatible_flip(g@, f@);
                }
            }
        },
        _ => {
        },
    }
}

/// Node port (input or output)
#[derive(Debug, Clone, PartialEq)]
pub struct Port {
    pub id: PortId,
    pub name: String,
    pub value_type: ValueType,
    pub required: bool,
    pub description: Option<String>,
}

impl Port {
    pub fn new(id: PortId, name: String, value_type: ValueType) -> (r: Port)
        ensures
            r.id@ == id@,
            r.name@ == name@,
            r.value_type == value_type,
            r.required == false,
            r.description is None,
    {
        Port { id, name, value_type, required: false, description: None }
    }

    pub fn required(self) -> (r: Port)
        ensures
            r == (Port { required: true, ..self }),
    {
        Port { required: true, ..self }
    }

    pub fn with_description(self, description: String) -> (r: Port)
        ensures
            r == (Port { description: Some(description), ..self }),
    {
        Port { description: Some(description), ..self }
    }
}

/// State mutability
#[derive(Debug, Clone, PartialEq)]
pub enum StateMutability {
    Pure,
    View,
    NonPayable,
    Payable,
}

/// Parameter ABI
#[derive(Debug, Clone, PartialEq)]
pub struct ParameterABI {
    pub name: String,
    pub value_type: ValueType,
    pub indexed: bool,
}

/// Function ABI
#[derive(Debug, Clone, PartialEq)]
pub struct FunctionABI {
    pub name: String,
    pub inputs: Vec<ParameterABI>,
    pub outputs: Vec<ParameterABI>,
    pub state_mutability: StateMutability,
    pub gas_estimate: Option<Gas>,
}

/// Event ABI
#[derive(Debug, Clone, PartialEq)]
pub struct EventABI {
    pub name: String,
    pub inputs: Vec<ParameterABI>,
    pub anonymous: bool,
}

/// Error ABI
#[derive(Debug, Clone, PartialEq)]
pub struct ErrorABI {
    pub name: String,
    pub inputs: Vec<ParameterABI>,
}

/// Contract ABI (Application Binary Interface)
#[derive(Debug, Clone, PartialEq)]
pub struct ContractABI {
    pub functions: Vec<FunctionABI>,
    pub events: Vec<EventABI>,
    pub errors: Vec<ErrorABI>,
    pub metadata: Vec<(String, String)>,
}

/// Contract compilation result
#[derive(Debug, Clone, PartialEq)]
pub struct CompilationResult {
    pub wasm_bytes: Vec<u8>,
    pub abi: ContractABI,
    pub gas_estimate: Gas,
    pub warnings: Vec<String>,
    pub metadata: Vec<(String, String)>,
}

/// Event emitted during execution
#[derive(Debug, Clone, PartialEq)]
pub struct Event {
    pub name: String,
    pub data: Vec<(String, PropValue)>,
    pub indexed_data: Vec<PropValue>,
}

/// Execution context for nodes
#[derive(Debug, Clone)]
pub struct ExecutionContext {
    pub gas_used: Gas,
    pub gas_limit: Gas,
    pub storage: Vec<(String, PropValue)>,
    pub events: Vec<Event>,
    pub metadata: Vec<(String, String)>,
}

impl ExecutionContext {
    pub fn new(gas_limit: Gas) -> (r: ExecutionContext)
        ensures
            r.gas_used == 0,
            r.gas_limit == gas_limit,
            r.storage@.len() == 0,
            r.events@.len() == 0,
            r.metadata@.len() == 0,
    {
        ExecutionContext {
            gas_used: 0,
            gas_limit,
            storage: Vec::new(),
            events: Vec::new(),
            metadata: Vec::new(),
        }
    }

    /// Charge `amount` gas; fails without charging when the limit would be
    /// exceeded.
    pub fn use_gas(&mut self, amount: Gas) -> (r: Result<(), String>)
        ensures
            r is Ok <==> old(self).gas_used + amount <= old(self).gas_limit,
            r is Ok ==> final(self).gas_used == old(self).gas_used + amount,
            r is Err ==> final(self).gas_used == old(self).gas_used,
            final(self).gas_limit == old(self).gas_limit,
            final(self).storage == old(self).storage,
            final(self).events == old(self).events,
    {
        if amount > self.gas_limit || self.gas_used > self.gas_limit - amount {
            proof {
                reveal_strlit("Gas limit exceeded");
            }
            return Err("Gas limit exceeded".to_owned());
        }
        self.gas_used = self.gas_used + amount;
        Ok(())
    }

    pub fn emit_event(&mut self, event: Event)
        ensures
            final(self).events@ == old(self).events@.push(event),
            final(self).gas_used == old(self).gas_used,
            final(self).gas_limit == old(self).gas_limit,
            final(self).storage == old(self).storage,
    {
        self.events.push(event);
    }
}

} // verus!
