//! The built-in node implementations and their factory. Execution belongs
//! to the surrounding runtime; here live the node shapes, their construction
//! and the type-name dispatch.

use vstd::prelude::*;

use crate::error::{CanvasError, CanvasResult};
use crate::types::{string_eq, PropValue};

verus! {

/// A compilation hint a node definition carries for the code generator.
#[derive(Debug, PartialEq)]
pub struct CompilerHint {
    /// Type of operation this node represents
    pub operation_type: String,
    /// Expression field name (if applicable)
    pub expression_field: Option<String>,
    /// Gas cost estimation
    pub gas_cost: Option<u64>,
    /// Whether this node can be optimized
    pub optimizable: bool,
}

/// If node implementation
#[derive(Debug, PartialEq)]
pub struct IfNode {
    pub condition: String,
}

impl IfNode {
    pub fn new(condition: String) -> (r: IfNode)
        ensures
            r.condition@ == condition@,
    {
        IfNode { condition }
    }
}

/// Add node implementation
#[derive(Debug, PartialEq)]
pub struct AddNode;

/// Read Storage node implementation
#[derive(Debug, PartialEq)]
pub struct ReadStorageNode {
    pub key: String,
}

impl ReadStorageNode {
    pub fn new(key: String) -> (r: ReadStorageNode)
        ensures
            r.key@ == key@,
    {
        ReadStorageNode { key }
    }
}

/// Write Storage node implementation
#[derive(Debug, PartialEq)]
pub struct WriteStorageNode {
    pub key: String,
}

impl WriteStorageNode {
    pub fn new(key: String) -> (r: WriteStorageNode)
        ensures
            r.key@ == key@,
    {
        WriteStorageNode { key }
    }
}

/// Start node implementation
#[derive(Debug, PartialEq)]
pub struct StartNode;

/// End node implementation
#[derive(Debug, PartialEq)]
pub struct EndNode;

/// One of the built-in node implementations.
#[derive(Debug, PartialEq)]
pub enum NodeKind {
    If(IfNode),
    Add(AddNode),
    ReadStorage(ReadStorageNode),
    WriteStorage(WriteStorageNode),
    Start(StartNode),
    End(EndNode),
}

/// The first text value stored under the key, if any.
pub open spec fn prop_text(props: Seq<(String, PropValue)>, key: Seq<char>) -> Option<Seq<char>>
    decreases props.len(),
{
    if props.len() == 0 {
        None
    } else if props[0].0@ == key && props[0].1 is Text {
        Some(props[0].1->Text_0@)
    } else {
        prop_text(props.drop_first(), key)
    }
}

proof fn lemma_prop_text_skip(props: Seq<(String, PropValue)>, key: Seq<char>, i: int)
    requires
        0 <= i <= props.len(),
        forall|j: int|
            0 <= j < i ==> !((#[trigger] props[j]).0@ == key && props[j].1 is Text),
    ensures
        prop_text(props, key) == prop_text(props.skip(i), key),
    decreases i,
{
    if i > 0 {
        assert(props[0] == props[0]);
        assert(!(props[0].0@ == key && props[0].1 is Text));
        assert(props.drop_first() == props.skip(1));
        lemma_prop_text_skip(props.skip(1), key, i - 1);
        assert(props.skip(1).skip(i - 1) == props.skip(i));
    } else {
        assert(props.skip(0) == props);
    }
}

/// Find the first text property stored under the key.
fn find_text_prop(props: &Vec<(String, PropValue)>, key: &String) -> (r: Option<String>)
    ensures
        match r {
            Some(v) => prop_text(props@, key@) == Some(v@),
            None => prop_text(props@, key@) is None,
        },
{
    let n = props.len();
    let mut i: usize = 0;
    while i < n
        invariant
            n == props@.len(),
            0 <= i <= n,
            forall|j: int|
                0 <= j < i ==> !((#[trigger] props@[j]).0@ == key@ && props@[j].1 is Text),
        decreases n - i,
    {
        if string_eq(&props[i].0, key) {
            match &props[i].1 {
                PropValue::Text(s) => {
                    proof {
                        lemma_prop_text_skip(props@, key@, i as int);
                        assert(props@.skip(i as int)[0] == props@[i as int]);
                    }
                    return Some(s.clone());
                },
                _ => {
                },
            }
        }
        i = i + 1;
    }
    proof {
        lemma_prop_text_skip(props@, key@, n as int);
    }
    None
}

/// Node factory for creating nodes
#[derive(Debug, PartialEq)]
pub struct NodeFactory;

impl NodeFactory {
    /// Create a node by its type name, drawing the If condition and the
    /// storage keys from the properties, with the usual defaults. Unknown
    /// type names are reported, never built.
    pub fn create_node(node_type: &String, properties: &Vec<(String, PropValue)>) -> (r:
        CanvasResult<NodeKind>)
        ensures
            r is Ok <==> (node_type@ == "If"@ || node_type@ == "Add"@ || node_type@
                == "ReadStorage"@ || node_type@ == "WriteStorage"@ || node_type@ == "Start"@
                || node_type@ == "End"@),
            node_type@ == "If"@ ==> (r matches Ok(k) && k is If),
            node_type@ == "Add"@ ==> (r matches Ok(k) && k is Add),
            node_type@ == "ReadStorage"@ ==> (r matches Ok(k) && k is ReadStorage),
            node_type@ == "WriteStorage"@ ==> (r matches Ok(k) && k is WriteStorage),
            node_type@ == "Start"@ ==> (r matches Ok(k) && k is Start),
            node_type@ == "End"@ ==> (r matches Ok(k) && k is End),
    {
        proof {
            reveal_strlit("If");
            reveal_strlit("Add");
            reveal_strlit("ReadStorage");
            reveal_strlit("WriteStorage");
            reveal_strlit("Start");
            reveal_strlit("End");
            reveal_strlit("condition_expression");
            reveal_strlit("key");
            reveal_strlit("true");
            reveal_strlit("default_key");
            reveal_strlit("Unknown node type");
            assert("If"@.len() == 2 && "Add"@.len() == 3 && "ReadStorage"@.len() == 11
                && "WriteStorage"@.len() == 12 && "Start"@.len() == 5 && "End"@.len() == 3);
            assert("Add"@[0] == 'A' && "End"@[0] == 'E');
        }
        let if_name = "If".to_owned();
        if string_eq(node_type, &if_name) {
            let condition = match find_text_prop(properties, &"condition_expression".to_owned()) {
                Some(c) => c,
                None => "true".to_owned(),
            };
            return Ok(NodeKind::If(IfNode::new(condition)));
        }
        if string_eq(node_type, &"Add".to_owned()) {
            return Ok(NodeKind::Add(AddNode));
        }
        if string_eq(node_type, &"ReadStorage".to_owned()) {
            let key = match find_text_prop(properties, &"key".to_owned()) {
                Some(k) => k,
                None => "default_key".to_owned(),
            };
            return Ok(NodeKind::ReadStorage(ReadStorageNode::new(key)));
        }
        if string_eq(node_type, &"WriteStorage".to_owned()) {
            let key = match find_text_prop(properties, &"key".to_owned()) {
                Some(k) => k,
                None => "default_key".to_owned(),
            };
            return Ok(NodeKind::WriteStorage(WriteStorageNode::new(key)));
        }
        if string_eq(node_type, &"Start".to_owned()) {
            return Ok(NodeKind::Start(StartNode));
        }
        if string_eq(node_type, &"End".to_owned()) {
            return Ok(NodeKind::End(EndNode));
        }
        Err(CanvasError::Node("Unknown node type".to_owned()))
    }
}

} // verus!
