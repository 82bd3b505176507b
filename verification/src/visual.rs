//! The editor-level graph: nodes with typed, named ports, and connections
//! that name their ports. The contract validator reports malformed input
//! (duplicate ids, dangling endpoints, missing ports, incompatible port
//! types, unconnected required inputs) as findings, never as a failure.

use vstd::prelude::*;

use crate::error::CanvasResult;
use crate::types::{compatible, string_eq, vt_wf, Port, PropValue, ValueType};
use crate::validator::{result_consistent, Finding, ValidationResult};

verus! {

/// Node position on canvas, in grid units.
#[derive(Debug, Clone, Copy, PartialEq, Eq, Structural)]
pub struct Position {
    pub x: i64,
    pub y: i64,
}

impl Position {
    pub fn new(x: i64, y: i64) -> (r: Position)
        ensures
            r == (Position { x, y }),
    {
        Position { x, y }
    }
}

/// Visual node representation: a typed node with named input and output
/// ports.
#[derive(Debug, PartialEq)]
pub struct VisualNode {
    pub id: String,
    pub node_type: String,
    pub position: Position,
    pub inputs: Vec<Port>,
    pub outputs: Vec<Port>,
    pub properties: Vec<(String, PropValue)>,
}

impl VisualNode {
    pub fn new(id: String, node_type: String, position: Position) -> (r: VisualNode)
        ensures
            r.id@ == id@,
            r.node_type@ == node_type@,
            r.position == position,
            r.inputs@.len() == 0,
            r.outputs@.len() == 0,
            r.properties@.len() == 0,
    {
        VisualNode {
            id,
            node_type,
            position,
            inputs: Vec::new(),
            outputs: Vec::new(),
            properties: Vec::new(),
        }
    }

    pub fn with_inputs(self, inputs: Vec<Port>) -> (r: VisualNode)
        ensures
            r == (VisualNode { inputs, ..self }),
    {
        VisualNode { inputs, ..self }
    }

    pub fn with_outputs(self, outputs: Vec<Port>) -> (r: VisualNode)
        ensures
            r == (VisualNode { outputs, ..self }),
    {
        VisualNode { outputs, ..self }
    }
}

/// Connection between two ports of two nodes.
#[derive(Debug, PartialEq)]
pub struct Connection {
    pub id: String,
    pub source_node: String,
    pub source_port: String,
    pub target_node: String,
    pub target_port: String,
}

impl Connection {
    pub fn new(
        id: String,
        source_node: String,
        source_port: String,
        target_node: String,
        target_port: String,
    ) -> (r: Connection)
        ensures
            r.id@ == id@,
            r.source_node@ == source_node@,
            r.source_port@ == source_port@,
            r.target_node@ == target_node@,
            r.target_port@ == target_port@,
    {
        Connection { id, source_node, source_port, target_node, target_port }
    }
}

/// Visual graph representation, as handed over by the editor.
#[derive(Debug, PartialEq)]
pub struct VisualGraph {
    pub name: String,
    pub description: Option<String>,
    pub nodes: Vec<VisualNode>,
    pub connections: Vec<Connection>,
}

impl VisualGraph {
    pub fn new(name: String) -> (r: VisualGraph)
        ensures
            r.name@ == name@,
            r.description is None,
            r.nodes@.len() == 0,
            r.connections@.len() == 0,
    {
        VisualGraph { name, description: None, nodes: Vec::new(), connections: Vec::new() }
    }

    pub fn add_node(&mut self, node: VisualNode)
        ensures
            final(self).nodes@ == old(self).nodes@.push(node),
            final(self).connections@ == old(self).connections@,
            final(self).name == old(self).name,
    {
        self.nodes.push(node);
    }

    pub fn add_connection(&mut self, connection: Connection)
        ensures
            final(self).connections@ == old(self).connections@.push(connection),
            final(self).nodes@ == old(self).nodes@,
            final(self).name == old(self).name,
    {
        self.connections.push(connection);
    }

    /// Look a node up by id; absent ids yield `None`, never a failure.
    pub fn get_node(&self, id: &String) -> (r: Option<&VisualNode>)
        ensures
            match r {
                Some(n) => exists|i: int|
                    0 <= i < self.nodes@.len() && (#[trigger] self.nodes@[i]).id@ == id@ && *n
                        == self.nodes@[i],
                None => forall|i: int|
                    0 <= i < self.nodes@.len() ==> (#[trigger] self.nodes@[i]).id@ != id@,
            },
    {
        let n = self.nodes.len();
        let mut i: usize = 0;
        while i < n
            invariant
                n == self.nodes@.len(),
                0 <= i <= n,
                forall|j: int| 0 <= j < i ==> (#[trigger] self.nodes@[j]).id@ != id@,
            decreases n - i,
        {
            if string_eq(&self.nodes[i].id, id) {
                return Some(&self.nodes[i]);
            }
            i = i + 1;
        }
        None
    }
}

/// Two visual nodes share an id.
pub open spec fn has_duplicate_ids(ns: Seq<VisualNode>) -> bool {
    exists|i: int, j: int|
        0 <= i < j < ns.len() && (#[trigger] ns[i]).id@ == (#[trigger] ns[j]).id@
}

/// Some node carries this id.
pub open spec fn vnode_exists(ns: Seq<VisualNode>, id: Seq<char>) -> bool {
    exists|i: int| 0 <= i < ns.len() && (#[trigger] ns[i]).id@ == id
}

/// Some node with the id owns an output port of this name, with this type.
pub open spec fn output_port_exists(ns: Seq<VisualNode>, id: Seq<char>, port: Seq<char>) -> bool {
    exists|i: int, j: int|
        0 <= i < ns.len() && (#[trigger] ns[i]).id@ == id && 0 <= j < ns[i].outputs@.len() && (
        #[trigger] ns[i].outputs@[j]).name@ == port
}

/// Some node with the id owns an input port of this name.
pub open spec fn input_port_exists(ns: Seq<VisualNode>, id: Seq<char>, port: Seq<char>) -> bool {
    exists|i: int, j: int|
        0 <= i < ns.len() && (#[trigger] ns[i]).id@ == id && 0 <= j < ns[i].inputs@.len() && (
        #[trigger] ns[i].inputs@[j]).name@ == port
}

/// Some matching output port is compatible with some matching input port.
pub open spec fn connection_types_ok(ns: Seq<VisualNode>, c: Connection) -> bool {
    exists|i: int, j: int, k: int, l: int|
        {
            &&& 0 <= i < ns.len() && ns[i].id@ == c.source_node@
            &&& 0 <= j < ns[i].outputs@.len() && (#[trigger] ns[i].outputs@[j]).name@
                == c.source_port@
            &&& 0 <= k < ns.len() && ns[k].id@ == c.target_node@
            &&& 0 <= l < ns[k].inputs@.len() && (#[trigger] ns[k].inputs@[l]).name@
                == c.target_port@
            &&& compatible(ns[i].outputs@[j].value_type, ns[k].inputs@[l].value_type)
        }
}

/// A connection is well-formed: both endpoints exist, both named ports
/// exist, and a compatible port pairing exists.
pub open spec fn connection_wf(ns: Seq<VisualNode>, c: Connection) -> bool {
    &&& vnode_exists(ns, c.source_node@)
    &&& vnode_exists(ns, c.target_node@)
    &&& output_port_exists(ns, c.source_node@, c.source_port@)
    &&& input_port_exists(ns, c.target_node@, c.target_port@)
    &&& connection_types_ok(ns, c)
}

/// A required input port of some node is served by this connection.
pub open spec fn required_input_served(
    cs: Seq<Connection>,
    id: Seq<char>,
    port: Seq<char>,
) -> bool {
    exists|k: int|
        0 <= k < cs.len() && (#[trigger] cs[k]).target_node@ == id && cs[k].target_port@ == port
}

/// Every required input port of every node receives some connection.
pub open spec fn required_inputs_served(g: VisualGraph) -> bool {
    forall|i: int, j: int|
        0 <= i < g.nodes@.len() && 0 <= j < (#[trigger] g.nodes@[i]).inputs@.len() && (
        #[trigger] g.nodes@[i].inputs@[j]).required ==> required_input_served(
            g.connections@,
            g.nodes@[i].id@,
            g.nodes@[i].inputs@[j].name@,
        )
}

/// Every port of the node carries a well-formed value type.
pub open spec fn node_ports_wf(n: VisualNode) -> bool {
    &&& forall|j: int| 0 <= j < n.inputs@.len() ==> vt_wf((#[trigger] n.inputs@[j]).value_type)
    &&& forall|j: int| 0 <= j < n.outputs@.len() ==> vt_wf((#[trigger] n.outputs@[j]).value_type)
}

/// Every node's ports carry well-formed value types, so the compatibility
/// relation behaves as the map semantics promises.
pub open spec fn ports_wf(g: VisualGraph) -> bool {
    forall|i: int| 0 <= i < g.nodes@.len() ==> node_ports_wf(#[trigger] g.nodes@[i])
}

/// Every connection is well-formed.
pub open spec fn all_connections_wf(g: VisualGraph) -> bool {
    forall|k: int| 0 <= k < g.connections@.len() ==> connection_wf(
        g.nodes@,
        #[trigger] g.connections@[k],
    )
}

/// Everything the port-level validator demands of a graph.
pub open spec fn visual_graph_wf(g: VisualGraph) -> bool {
    &&& !has_duplicate_ids(g.nodes@)
    &&& ports_wf(g)
    &&& all_connections_wf(g)
    &&& required_inputs_served(g)
}

pub open spec fn msg_duplicate_ids() -> Seq<char> {
    "duplicate node ids in graph"@
}

pub open spec fn msg_malformed_port_type() -> Seq<char> {
    "a port carries a malformed value type"@
}

pub open spec fn msg_bad_connection() -> Seq<char> {
    "connection names a missing node or port, or its port types are incompatible"@
}

pub open spec fn msg_unserved_input() -> Seq<char> {
    "a required input port receives no connection"@
}

/// The error messages the validator owes, one per failing class, in check
/// order; each finding names no single node, the classes being graph-wide.
pub open spec fn expected_visual_errors(g: VisualGraph) -> Seq<Seq<char>> {
    (if has_duplicate_ids(g.nodes@) {
        seq![msg_duplicate_ids()]
    } else {
        Seq::<Seq<char>>::empty()
    }) + (if !ports_wf(g) {
        seq![msg_malformed_port_type()]
    } else {
        Seq::<Seq<char>>::empty()
    }) + (if !all_connections_wf(g) {
        seq![msg_bad_connection()]
    } else {
        Seq::<Seq<char>>::empty()
    }) + (if !required_inputs_served(g) {
        seq![msg_unserved_input()]
    } else {
        Seq::<Seq<char>>::empty()
    })
}

/// Contract validator: the port-level checks over a visual graph.
pub struct ContractValidator;

impl ContractValidator {
    /// Create a new validator
    pub fn new() -> ContractValidator {
        ContractValidator
    }

    /// Do all of the node's port types pass the well-formedness check?
    fn node_ports_ok(n: &VisualNode) -> (r: bool)
        ensures
            r == node_ports_wf(*n),
    {
        let p = n.inputs.len();
        let mut j: usize = 0;
        while j < p
            invariant
                p == n.inputs@.len(),
                0 <= j <= p,
                forall|j2: int| 0 <= j2 < j ==> vt_wf((#[trigger] n.inputs@[j2]).value_type),
            decreases p - j,
        {
            if !n.inputs[j].value_type.well_formed() {
                return false;
            }
            j = j + 1;
        }
        let q = n.outputs.len();
        let mut k: usize = 0;
        while k < q
            invariant
                q == n.outputs@.len(),
                0 <= k <= q,
                forall|j2: int| 0 <= j2 < j ==> vt_wf((#[trigger] n.inputs@[j2]).value_type),
                forall|k2: int| 0 <= k2 < k ==> vt_wf((#[trigger] n.outputs@[k2]).value_type),
                p == n.inputs@.len(),
                j == p,
            decreases q - k,
        {
            if !n.outputs[k].value_type.well_formed() {
                return false;
            }
            k = k + 1;
        }
        true
    }

    fn node_exists(g: &VisualGraph, id: &String) -> (r: bool)
        ensures
            r == vnode_exists(g.nodes@, id@),
    {
        let n = g.nodes.len();
        let mut i: usize = 0;
        while i < n
            invariant
                n == g.nodes@.len(),
                0 <= i <= n,
                forall|j: int| 0 <= j < i ==> (#[trigger] g.nodes@[j]).id@ != id@,
            decreases n - i,
        {
            if string_eq(&g.nodes[i].id, id) {
                return true;
            }
            i = i + 1;
        }
        false
    }

    fn some_output_port(g: &VisualGraph, id: &String, port: &String) -> (r: bool)
        ensures
            r == output_port_exists(g.nodes@, id@, port@),
    {
        let n = g.nodes.len();
        let mut i: usize = 0;
        while i < n
            invariant
                n == g.nodes@.len(),
                0 <= i <= n,
                forall|i2: int, j2: int|
                    0 <= i2 < i && 0 <= j2 < (#[trigger] g.nodes@[i2]).outputs@.len() ==> !(
                    g.nodes@[i2].id@ == id@ && (#[trigger] g.nodes@[i2].outputs@[j2]).name@
                        == port@),
            decreases n - i,
        {
            if string_eq(&g.nodes[i].id, id) {
                let m = g.nodes[i].outputs.len();
                let mut j: usize = 0;
                while j < m
                    invariant
                        n == g.nodes@.len(),
                        i < n,
                        m == g.nodes@[i as int].outputs@.len(),
                        0 <= j <= m,
                        g.nodes@[i as int].id@ == id@,
                        forall|j2: int|
                            0 <= j2 < j ==> (#[trigger] g.nodes@[i as int].outputs@[j2]).name@
                                != port@,
                    decreases m - j,
                {
                    if string_eq(&g.nodes[i].outputs[j].name, port) {
                        return true;
                    }
                    j = j + 1;
                }
            }
            i = i + 1;
        }
        false
    }

    fn some_input_port(g: &VisualGraph, id: &String, port: &String) -> (r: bool)
        ensures
            r == input_port_exists(g.nodes@, id@, port@),
    {
        let n = g.nodes.len();
        let mut i: usize = 0;
        while i < n
            invariant
                n == g.nodes@.len(),
                0 <= i <= n,
                forall|i2: int, j2: int|
                    0 <= i2 < i && 0 <= j2 < (#[trigger] g.nodes@[i2]).inputs@.len() ==> !(
                    g.nodes@[i2].id@ == id@ && (#[trigger] g.nodes@[i2].inputs@[j2]).name@
                        == port@),
            decreases n - i,
        {
            if string_eq(&g.nodes[i].id, id) {
                let m = g.nodes[i].inputs.len();
                let mut j: usize = 0;
                while j < m
                    invariant
                        n == g.nodes@.len(),
                        i < n,
                        m == g.nodes@[i as int].inputs@.len(),
                        0 <= j <= m,
                        g.nodes@[i as int].id@ == id@,
                        forall|j2: int|
                            0 <= j2 < j ==> (#[trigger] g.nodes@[i as int].inputs@[j2]).name@
                                != port@,
                    decreases m - j,
                {
                    if string_eq(&g.nodes[i].inputs[j].name, port) {
                        return true;
                    }
                    j = j + 1;
                }
            }
            i = i + 1;
        }
        false
    }

    fn types_ok(g: &VisualGraph, c: &Connection) -> (r: bool)
        ensures
            r == connection_types_ok(g.nodes@, *c),
    {
        let n = g.nodes.len();
        let mut i: usize = 0;
        while i < n
            invariant
                n == g.nodes@.len(),
                0 <= i <= n,
                forall|i2: int, j2: int, k2: int, l2: int|
                    0 <= i2 < i && 0 <= j2 < (#[trigger] g.nodes@[i2]).outputs@.len() && 0 <= k2
                        < g.nodes@.len() && 0 <= l2 < (#[trigger] g.nodes@[k2]).inputs@.len() ==> !(
                    g.nodes@[i2].id@ == c.source_node@ && (
                    #[trigger] g.nodes@[i2].outputs@[j2]).name@ == c.source_port@
                        && g.nodes@[k2].id@ == c.target_node@ && (
                    #[trigger] g.nodes@[k2].inputs@[l2]).name@ == c.target_port@ && compatible(
                        g.nodes@[i2].outputs@[j2].value_type,
                        g.nodes@[k2].inputs@[l2].value_type,
                    )),
            decreases n - i,
        {
            if string_eq(&g.nodes[i].id, &c.source_node) {
                let m = g.nodes[i].outputs.len();
                let mut j: usize = 0;
                while j < m
                    invariant
                        n == g.nodes@.len(),
                        i < n,
                        m == g.nodes@[i as int].outputs@.len(),
                        0 <= j <= m,
                        g.nodes@[i as int].id@ == c.source_node@,
                        forall|j2: int, k2: int, l2: int|
                            0 <= j2 < j && 0 <= k2 < g.nodes@.len() && 0 <= l2 < (
                            #[trigger] g.nodes@[k2]).inputs@.len() ==> !((
                            #[trigger] g.nodes@[i as int].outputs@[j2]).name@ == c.source_port@
                                && g.nodes@[k2].id@ == c.target_node@ && (
                            #[trigger] g.nodes@[k2].inputs@[l2]).name@ == c.target_port@
                                && compatible(
                                g.nodes@[i as int].outputs@[j2].value_type,
                                g.nodes@[k2].inputs@[l2].value_type,
                            )),
                    decreases m - j,
                {
                    if string_eq(&g.nodes[i].outputs[j].name, &c.source_port) {
                        let mut k: usize = 0;
                        while k < n
                            invariant
                                n == g.nodes@.len(),
                                i < n,
                                j < m,
                                m == g.nodes@[i as int].outputs@.len(),
                                0 <= k <= n,
                                g.nodes@[i as int].id@ == c.source_node@,
                                g.nodes@[i as int].outputs@[j as int].name@ == c.source_port@,
                                forall|k2: int, l2: int|
                                    0 <= k2 < k && 0 <= l2 < (
                                    #[trigger] g.nodes@[k2]).inputs@.len() ==> !(g.nodes@[k2].id@
                                        == c.target_node@ && (
                                    #[trigger] g.nodes@[k2].inputs@[l2]).name@ == c.target_port@
                                        && compatible(
                                        g.nodes@[i as int].outputs@[j as int].value_type,
                                        g.nodes@[k2].inputs@[l2].value_type,
                                    )),
                            decreases n - k,
                        {
                            if string_eq(&g.nodes[k].id, &c.target_node) {
                                let p = g.nodes[k].inputs.len();
                                let mut l: usize = 0;
                                while l < p
                                    invariant
                                        n == g.nodes@.len(),
                                        i < n,
                                        j < m,
                                        k < n,
                                        m == g.nodes@[i as int].outputs@.len(),
                                        p == g.nodes@[k as int].inputs@.len(),
                                        0 <= l <= p,
                                        g.nodes@[i as int].id@ == c.source_node@,
                                        g.nodes@[i as int].outputs@[j as int].name@
                                            == c.source_port@,
                                        g.nodes@[k as int].id@ == c.target_node@,
                                        forall|l2: int|
                                            0 <= l2 < l ==> !((
                                            #[trigger] g.nodes@[k as int].inputs@[l2]).name@
                                                == c.target_port@ && compatible(
                                                g.nodes@[i as int].outputs@[j as int].value_type,
                                                g.nodes@[k as int].inputs@[l2].value_type,
                                            )),
                                    decreases p - l,
                                {
                                    if string_eq(&g.nodes[k].inputs[l].name, &c.target_port) {
                                        if g.nodes[i].outputs[j].value_type.is_compatible_with(
                                            &g.nodes[k].inputs[l].value_type,
                                        ) {
                                            return true;
                                        }
                                    }
                                    l = l + 1;
                                }
                            }
                            k = k + 1;
                        }
                    }
                    j = j + 1;
                }
            }
            i = i + 1;
        }
        false
    }

    /// Validate a visual graph: duplicate ids, dangling connection
    /// endpoints, missing ports, incompatible port types and unconnected
    /// required inputs each contribute an error finding. The result is
    /// valid exactly when none of these occur; malformed input is reported,
    /// never a failure.
    #[verifier::rlimit(50)]
    pub fn validate(&self, g: &VisualGraph) -> (r: CanvasResult<ValidationResult>)
        ensures
            r is Ok,
            r matches Ok(v) ==> {
                &&& v.is_valid == visual_graph_wf(*g)
                &&& result_consistent(v)
                &&& v.warnings@.len() == 0
                &&& v.info@.len() == 0
                &&& v.errors@.len() == expected_visual_errors(*g).len()
                &&& forall|i: int|
                    0 <= i < v.errors@.len() ==> (#[trigger] v.errors@[i]).message@
                        == expected_visual_errors(*g)[i] && v.errors@[i].affected_nodes@.len() == 0
            },
    {
        let mut errors: Vec<Finding> = Vec::new();

        // duplicate ids
        let n = g.nodes.len();
        let mut dup = false;
        let mut i: usize = 0;
        while i < n
            invariant
                n == g.nodes@.len(),
                0 <= i <= n,
                dup == exists|i2: int, j2: int|
                    0 <= i2 < j2 < g.nodes@.len() && j2 < i && (#[trigger] g.nodes@[i2]).id@ == (
                    #[trigger] g.nodes@[j2]).id@,
            decreases n - i,
        {
            let mut j: usize = 0;
            let ghost dup0 = dup;
            while j < i
                invariant
                    n == g.nodes@.len(),
                    0 <= j <= i < n,
                    dup0 == exists|i2: int, j2: int|
                        0 <= i2 < j2 < g.nodes@.len() && j2 < i && (#[trigger] g.nodes@[i2]).id@
                            == (#[trigger] g.nodes@[j2]).id@,
                    dup == (dup0 || exists|j2: int|
                        0 <= j2 < j && (#[trigger] g.nodes@[j2]).id@ == g.nodes@[i as int].id@),
                decreases i - j,
            {
                if string_eq(&g.nodes[j].id, &g.nodes[i].id) {
                    dup = true;
                }
                j = j + 1;
            }
            i = i + 1;
        }
        if dup {
            errors.push(
                Finding {
                    message: "duplicate node ids in graph".to_owned(),
                    affected_nodes: Vec::new(),
                },
            );
        }

        // port value types
        let mut bad_port = false;
        let mut ip: usize = 0;
        while ip < n
            invariant
                n == g.nodes@.len(),
                0 <= ip <= n,
                bad_port == exists|i2: int|
                    0 <= i2 < ip && !node_ports_wf(#[trigger] g.nodes@[i2]),
            decreases n - ip,
        {
            if !Self::node_ports_ok(&g.nodes[ip]) {
                bad_port = true;
            }
            ip = ip + 1;
        }
        if bad_port {
            errors.push(
                Finding {
                    message: "a port carries a malformed value type".to_owned(),
                    affected_nodes: Vec::new(),
                },
            );
        }

        // connections
        let m = g.connections.len();
        let mut bad_connection = false;
        let mut k: usize = 0;
        while k < m
            invariant
                m == g.connections@.len(),
                0 <= k <= m,
                bad_connection == exists|k2: int|
                    0 <= k2 < k && !connection_wf(g.nodes@, #[trigger] g.connections@[k2]),
            decreases m - k,
        {
            let c = &g.connections[k];
            let ok = Self::node_exists(g, &c.source_node) && Self::node_exists(g, &c.target_node)
                && Self::some_output_port(g, &c.source_node, &c.source_port)
                && Self::some_input_port(g, &c.target_node, &c.target_port) && Self::types_ok(g, c);
            proof {
                assert(ok == connection_wf(g.nodes@, g.connections@[k as int]));
            }
            if !ok {
                bad_connection = true;
            }
            k = k + 1;
        }
        if bad_connection {
            errors.push(
                Finding {
                    message: "connection names a missing node or port, or its port types are incompatible".to_owned(),
                    affected_nodes: Vec::new(),
                },
            );
        }

        // required inputs
        let mut starved = false;
        let mut i2: usize = 0;
        while i2 < n
            invariant
                n == g.nodes@.len(),
                m == g.connections@.len(),
                0 <= i2 <= n,
                starved == exists|a: int, b: int|
                    0 <= a < i2 && 0 <= b < (#[trigger] g.nodes@[a]).inputs@.len() && (
                    #[trigger] g.nodes@[a].inputs@[b]).required && !required_input_served(
                        g.connections@,
                        g.nodes@[a].id@,
                        g.nodes@[a].inputs@[b].name@,
                    ),
            decreases n - i2,
        {
            let p = g.nodes[i2].inputs.len();
            let mut b: usize = 0;
            let ghost starved0 = starved;
            while b < p
                invariant
                    n == g.nodes@.len(),
                    m == g.connections@.len(),
                    i2 < n,
                    p == g.nodes@[i2 as int].inputs@.len(),
                    0 <= b <= p,
                    starved == (starved0 || exists|b2: int|
                        0 <= b2 < b && (#[trigger] g.nodes@[i2 as int].inputs@[b2]).required
                            && !required_input_served(
                            g.connections@,
                            g.nodes@[i2 as int].id@,
                            g.nodes@[i2 as int].inputs@[b2].name@,
                        )),
                decreases p - b,
            {
                if g.nodes[i2].inputs[b].required {
                    let mut served = false;
                    let mut k2: usize = 0;
                    while k2 < m
                        invariant
                            n == g.nodes@.len(),
                            m == g.connections@.len(),
                            i2 < n,
                            b < p,
                            p == g.nodes@[i2 as int].inputs@.len(),
                            0 <= k2 <= m,
                            served == exists|k3: int|
                                0 <= k3 < k2 && (#[trigger] g.connections@[k3]).target_node@
                                    == g.nodes@[i2 as int].id@ && g.connections@[k3].target_port@
                                    == g.nodes@[i2 as int].inputs@[b as int].name@,
                        decreases m - k2,
                    {
                        if string_eq(&g.connections[k2].target_node, &g.nodes[i2].id) && string_eq(
                            &g.connections[k2].target_port,
                            &g.nodes[i2].inputs[b].name,
                        ) {
                            served = true;
                        }
                        k2 = k2 + 1;
                    }
                    if !served {
                        starved = true;
                    }
                }
                b = b + 1;
            }
            i2 = i2 + 1;
        }
        if starved {
            errors.push(
                Finding {
                    message: "a required input port receives no connection".to_owned(),
                    affected_nodes: Vec::new(),
                },
            );
        }

        let is_valid = errors.len() == 0;
        proof {
            assert(dup == has_duplicate_ids(g.nodes@));
            assert(!bad_port == ports_wf(*g));
            assert(!bad_connection == all_connections_wf(*g));
            assert(!starved == required_inputs_served(*g));
            assert(errors@.len() == expected_visual_errors(*g).len());
            assert(forall|i: int|
                0 <= i < errors@.len() ==> (#[trigger] errors@[i]).message@
                    == expected_visual_errors(*g)[i] && errors@[i].affected_nodes@.len() == 0);
        }
        Ok(ValidationResult { is_valid, errors, warnings: Vec::new(), info: Vec::new() })
    }
}

} // verus!
