//! User-defined node definitions: a builder to assemble them and a registry
//! that keeps them under unique, non-empty ids in registration order.

use vstd::prelude::*;

use crate::error::{CanvasError, CanvasResult};
use crate::types::string_eq;

verus! {

/// Custom node port
#[derive(Debug, Clone, PartialEq)]
pub struct CustomNodePort {
    pub name: String,
    pub port_type: String,
    pub required: bool,
    pub description: String,
}

/// Custom node property
#[derive(Debug, Clone, PartialEq)]
pub struct CustomNodeProperty {
    pub name: String,
    pub property_type: String,
    pub required: bool,
    pub default_value: Option<String>,
    pub description: String,
}

/// Module information for a code-backed node
#[derive(Debug, Clone, PartialEq)]
pub struct WasmModuleInfo {
    pub module_file: String,
    pub exported_functions: Vec<String>,
    pub abi: String,
}

/// Custom node implementation
#[derive(Debug, Clone, PartialEq)]
pub enum CustomNodeImplementation {
    /// Composite node (sub-graph)
    Composite { sub_graph: String },
    /// Module-backed node
    Wasm { function_name: String, module_info: WasmModuleInfo },
    /// Script-based node
    Script { language: String, code: String },
}

/// Custom node definition
#[derive(Debug, Clone, PartialEq)]
pub struct CustomNodeDefinition {
    pub id: String,
    pub name: String,
    pub description: String,
    pub category: String,
    pub inputs: Vec<CustomNodePort>,
    pub outputs: Vec<CustomNodePort>,
    pub properties: Vec<CustomNodeProperty>,
    pub wasm_module: Option<WasmModuleInfo>,
    pub implementation: CustomNodeImplementation,
}

/// A definition the registry accepts: a non-empty id and non-empty port and
/// property names.
pub open spec fn definition_wf(d: CustomNodeDefinition) -> bool {
    &&& d.id@.len() > 0
    &&& forall|i: int| 0 <= i < d.inputs@.len() ==> (#[trigger] d.inputs@[i]).name@.len() > 0
    &&& forall|i: int| 0 <= i < d.outputs@.len() ==> (#[trigger] d.outputs@[i]).name@.len() > 0
    &&& forall|i: int| 0 <= i < d.properties@.len() ==> (
    #[trigger] d.properties@[i]).name@.len() > 0
}

/// Some registered definition carries this id.
pub open spec fn registered(ds: Seq<CustomNodeDefinition>, id: Seq<char>) -> bool {
    exists|i: int| 0 <= i < ds.len() && (#[trigger] ds[i]).id@ == id
}

/// Custom node registry: definitions in registration order, ids unique.
#[derive(Debug, PartialEq)]
pub struct CustomNodeRegistry {
    pub nodes: Vec<CustomNodeDefinition>,
}

impl CustomNodeRegistry {
    /// Create a new custom node registry
    pub fn new() -> (r: CustomNodeRegistry)
        ensures
            r.nodes@.len() == 0,
    {
        CustomNodeRegistry { nodes: Vec::new() }
    }

    fn contains_id(&self, id: &String) -> (r: bool)
        ensures
            r == registered(self.nodes@, id@),
    {
        let n = self.nodes.len();
        let mut i: usize = 0;
        while i < n
            invariant
                n == self.nodes@.len(),
                0 <= i <= n,
                forall|j: int| 0 <= j < i ==> (#[trigger] self.nodes@[j]).id@ != id@,
            decreases n - i,
        {
            if string_eq(&self.nodes[i].id, id) {
                return true;
            }
            i = i + 1;
        }
        false
    }

    /// Validate a definition the registry is asked to accept: the id must
    /// be new and non-empty, and every port and property must be named.
    fn validate_node_definition(&self, d: &CustomNodeDefinition) -> (r: CanvasResult<()>)
        ensures
            r is Ok <==> definition_wf(*d) && !registered(self.nodes@, d.id@),
    {
        if self.contains_id(&d.id) {
            return Err(CanvasError::Validation("node id already registered".to_owned()));
        }
        if d.id.as_str().is_empty() {
            return Err(CanvasError::Validation("node id cannot be empty".to_owned()));
        }
        let n = d.inputs.len();
        let mut i: usize = 0;
        while i < n
            invariant
                n == d.inputs@.len(),
                0 <= i <= n,
                forall|j: int| 0 <= j < i ==> (#[trigger] d.inputs@[j]).name@.len() > 0,
            decreases n - i,
        {
            if d.inputs[i].name.as_str().is_empty() {
                return Err(CanvasError::Validation("input name cannot be empty".to_owned()));
            }
            i = i + 1;
        }
        let m = d.outputs.len();
        let mut j: usize = 0;
        while j < m
            invariant
                m == d.outputs@.len(),
                0 <= j <= m,
                forall|j2: int| 0 <= j2 < j ==> (#[trigger] d.outputs@[j2]).name@.len() > 0,
            decreases m - j,
        {
            if d.outputs[j].name.as_str().is_empty() {
                return Err(CanvasError::Validation("output name cannot be empty".to_owned()));
            }
            j = j + 1;
        }
        let p = d.properties.len();
        let mut k: usize = 0;
        while k < p
            invariant
                p == d.properties@.len(),
                0 <= k <= p,
                forall|k2: int| 0 <= k2 < k ==> (#[trigger] d.properties@[k2]).name@.len() > 0,
            decreases p - k,
        {
            if d.properties[k].name.as_str().is_empty() {
                return Err(CanvasError::Validation("property name cannot be empty".to_owned()));
            }
            k = k + 1;
        }
        Ok(())
    }

    /// Register a custom node. Accepted exactly when the definition is
    /// well-formed and its id is not yet taken; accepted definitions go to
    /// the end of the list.
    pub fn register_node(&mut self, definition: CustomNodeDefinition) -> (r: CanvasResult<()>)
        ensures
            r is Ok <==> definition_wf(definition) && !registered(
                old(self).nodes@,
                definition.id@,
            ),
            r is Ok ==> final(self).nodes@ == old(self).nodes@.push(definition),
            r is Err ==> final(self).nodes@ == old(self).nodes@,
    {
        match self.validate_node_definition(&definition) {
            Ok(()) => {
                self.nodes.push(definition);
                Ok(())
            },
            Err(e) => Err(e),
        }
    }

    /// Get a custom node definition by id.
    pub fn get_node(&self, node_id: &String) -> (r: Option<&CustomNodeDefinition>)
        ensures
            r is Some <==> registered(self.nodes@, node_id@),
            r matches Some(d) ==> d.id@ == node_id@,
    {
        let n = self.nodes.len();
        let mut i: usize = 0;
        while i < n
            invariant
                n == self.nodes@.len(),
                0 <= i <= n,
                forall|j: int| 0 <= j < i ==> (#[trigger] self.nodes@[j]).id@ != node_id@,
            decreases n - i,
        {
            if string_eq(&self.nodes[i].id, node_id) {
                return Some(&self.nodes[i]);
            }
            i = i + 1;
        }
        None
    }

    /// List all custom nodes, in registration order.
    pub fn list_nodes(&self) -> (r: &Vec<CustomNodeDefinition>)
        ensures
            r@ == self.nodes@,
    {
        &self.nodes
    }

    /// Remove a custom node by id: the first definition carrying the id
    /// leaves the list; fails exactly when no definition carries it. With
    /// the registry's unique ids, the first match is the only one.
    pub fn remove_node(&mut self, node_id: &String) -> (r: CanvasResult<()>)
        ensures
            r is Ok <==> registered(old(self).nodes@, node_id@),
            r is Ok ==> exists|i: int|
                0 <= i < old(self).nodes@.len() && (#[trigger] old(self).nodes@[i]).id@
                    == node_id@ && (forall|j: int|
                    0 <= j < i ==> (#[trigger] old(self).nodes@[j]).id@ != node_id@)
                    && final(self).nodes@ == old(self).nodes@.remove(i),
            r is Err ==> final(self).nodes@ == old(self).nodes@,
    {
        let n = self.nodes.len();
        let mut i: usize = 0;
        while i < n
            invariant
                n == self.nodes@.len(),
                self.nodes@ == old(self).nodes@,
                0 <= i <= n,
                forall|j: int| 0 <= j < i ==> (#[trigger] self.nodes@[j]).id@ != node_id@,
            decreases n - i,
        {
            if string_eq(&self.nodes[i].id, node_id) {
                self.nodes.remove(i);
                return Ok(());
            }
            i = i + 1;
        }
        Err(CanvasError::NodeNotFound("no node registered under this id".to_owned()))
    }
}

/// Custom node builder for creating nodes programmatically
#[derive(Debug, PartialEq)]
pub struct CustomNodeBuilder {
    pub definition: CustomNodeDefinition,
}

impl CustomNodeBuilder {
    /// Create a new custom node builder
    pub fn new(id: String, name: String) -> (r: CustomNodeBuilder)
        ensures
            r.definition.id@ == id@,
            r.definition.name@ == name@,
            r.definition.description@.len() == 0,
            r.definition.category@ == "Custom"@,
            r.definition.inputs@.len() == 0,
            r.definition.outputs@.len() == 0,
            r.definition.properties@.len() == 0,
            r.definition.wasm_module is None,
            r.definition.implementation matches CustomNodeImplementation::Composite { sub_graph }
                && sub_graph@.len() == 0,
    {
        CustomNodeBuilder {
            definition: CustomNodeDefinition {
                id,
                name,
                description: String::new(),
                category: "Custom".to_owned(),
                inputs: Vec::new(),
                outputs: Vec::new(),
                properties: Vec::new(),
                wasm_module: None,
                implementation: CustomNodeImplementation::Composite { sub_graph: String::new() },
            },
        }
    }

    /// Set the node description
    pub fn description(self, description: String) -> (r: CustomNodeBuilder)
        ensures
            r.definition == (CustomNodeDefinition { description, ..self.definition }),
    {
        CustomNodeBuilder {
            definition: CustomNodeDefinition { description, ..self.definition },
        }
    }

    /// Set the node category
    pub fn category(self, category: String) -> (r: CustomNodeBuilder)
        ensures
            r.definition == (CustomNodeDefinition { category, ..self.definition }),
    {
        CustomNodeBuilder { definition: CustomNodeDefinition { category, ..self.definition } }
    }

    /// Add an input port
    pub fn input(self, name: String, port_type: String, required: bool, description: String) -> (r:
        CustomNodeBuilder)
        ensures
            r.definition.inputs@ == self.definition.inputs@.push(
                CustomNodePort { name, port_type, required, description },
            ),
            r.definition.outputs@ == self.definition.outputs@,
            r.definition.properties@ == self.definition.properties@,
            r.definition.id == self.definition.id,
            r.definition.name == self.definition.name,
            r.definition.description == self.definition.description,
            r.definition.category == self.definition.category,
            r.definition.wasm_module == self.definition.wasm_module,
            r.definition.implementation == self.definition.implementation,
    {
        let mut definition = self.definition;
        definition.inputs.push(CustomNodePort { name, port_type, required, description });
        CustomNodeBuilder { definition }
    }

    /// Add an output port; outputs are never required.
    pub fn output(self, name: String, port_type: String, description: String) -> (r:
        CustomNodeBuilder)
        ensures
            r.definition.outputs@ == self.definition.outputs@.push(
                CustomNodePort { name, port_type, required: false, description },
            ),
            r.definition.inputs@ == self.definition.inputs@,
            r.definition.properties@ == self.definition.properties@,
            r.definition.id == self.definition.id,
            r.definition.name == self.definition.name,
            r.definition.description == self.definition.description,
            r.definition.category == self.definition.category,
            r.definition.wasm_module == self.definition.wasm_module,
            r.definition.implementation == self.definition.implementation,
    {
        let mut definition = self.definition;
        definition.outputs.push(
            CustomNodePort { name, port_type, required: false, description },
        );
        CustomNodeBuilder { definition }
    }

    /// Add a property
    pub fn property(
        self,
        name: String,
        property_type: String,
        required: bool,
        default_value: Option<String>,
        description: String,
    ) -> (r: CustomNodeBuilder)
        ensures
            r.definition.properties@ == self.definition.properties@.push(
                CustomNodeProperty { name, property_type, required, default_value, description },
            ),
            r.definition.inputs@ == self.definition.inputs@,
            r.definition.outputs@ == self.definition.outputs@,
            r.definition.id == self.definition.id,
            r.definition.name == self.definition.name,
            r.definition.description == self.definition.description,
            r.definition.category == self.definition.category,
            r.definition.wasm_module == self.definition.wasm_module,
            r.definition.implementation == self.definition.implementation,
    {
        let mut definition = self.definition;
        definition.properties.push(
            CustomNodeProperty { name, property_type, required, default_value, description },
        );
        CustomNodeBuilder { definition }
    }

    /// Set as composite node
    pub fn composite(self, sub_graph: String) -> (r: CustomNodeBuilder)
        ensures
            r.definition == (CustomNodeDefinition {
                implementation: CustomNodeImplementation::Composite { sub_graph },
                ..self.definition
            }),
    {
        CustomNodeBuilder {
            definition: CustomNodeDefinition {
                implementation: CustomNodeImplementation::Composite { sub_graph },
                ..self.definition
            },
        }
    }

    /// Set as module-backed node
    pub fn wasm(self, function_name: String, module_info: WasmModuleInfo) -> (r:
        CustomNodeBuilder)
        ensures
            r.definition.implementation matches CustomNodeImplementation::Wasm {
                function_name: f,
                module_info: m,
            } && f@ == function_name@,
            r.definition.wasm_module is Some,
            r.definition.inputs@ == self.definition.inputs@,
            r.definition.outputs@ == self.definition.outputs@,
            r.definition.properties@ == self.definition.properties@,
            r.definition.id == self.definition.id,
            r.definition.name == self.definition.name,
    {
        let copy = module_info.clone();
        CustomNodeBuilder {
            definition: CustomNodeDefinition {
                wasm_module: Some(copy),
                implementation: CustomNodeImplementation::Wasm { function_name, module_info },
                ..self.definition
            },
        }
    }

    /// Set as script-based node
    pub fn script(self, language: String, code: String) -> (r: CustomNodeBuilder)
        ensures
            r.definition == (CustomNodeDefinition {
                implementation: CustomNodeImplementation::Script { language, code },
                ..self.definition
            }),
    {
        CustomNodeBuilder {
            definition: CustomNodeDefinition {
                implementation: CustomNodeImplementation::Script { language, code },
                ..self.definition
            },
        }
    }

    /// Build the custom node definition
    pub fn build(self) -> (r: CustomNodeDefinition)
        ensures
            r == self.definition,
    {
        self.definition
    }
}

} // verus!
