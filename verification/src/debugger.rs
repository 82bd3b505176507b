//! Step-through debugging state: session bookkeeping over a graph, with
//! conditional breakpoints and watched variables. Node execution itself
//! belongs to the surrounding runtime, so the trace and call stack stay
//! empty here.

use vstd::prelude::*;

use crate::error::{CanvasError, CanvasResult};
use crate::types::{string_eq, Graph, NodeId, PropValue};
use crate::wasm::WasmRuntime;

verus! {

/// Debug configuration
#[derive(Debug, Clone, PartialEq)]
pub struct DebugConfig {
    pub step_through: bool,
    pub log_variables: bool,
    pub log_gas: bool,
    pub log_performance: bool,
    pub max_steps: Option<usize>,
    pub timeout_ms: Option<u64>,
}

/// Debug state
#[derive(Debug, Clone, PartialEq)]
pub enum DebugState {
    Running,
    Paused,
    Stepping,
    Finished,
    Error(String),
}

/// A breakpoint on a node, optionally guarded by a condition text.
#[derive(Debug, PartialEq)]
pub struct Breakpoint {
    pub node_id: NodeId,
    pub condition: Option<String>,
    pub enabled: bool,
}

/// Debugger utilities
#[derive(Debug, PartialEq)]
pub struct DebuggerUtils;

impl DebuggerUtils {
    /// Create a default debug configuration
    pub fn default_config() -> (r: DebugConfig)
        ensures
            !r.step_through,
            r.log_variables,
            r.log_gas,
            !r.log_performance,
            r.max_steps matches Some(s) && s == 1000,
            r.timeout_ms matches Some(t) && t == 30000,
    {
        DebugConfig {
            step_through: false,
            log_variables: true,
            log_gas: true,
            log_performance: false,
            max_steps: Some(1000),
            timeout_ms: Some(30000),
        }
    }

    /// Create a step-through debug configuration
    pub fn step_through_config() -> (r: DebugConfig)
        ensures
            r.step_through,
            r.log_variables,
            r.log_gas,
            r.log_performance,
            r.max_steps is None,
            r.timeout_ms is None,
    {
        DebugConfig {
            step_through: true,
            log_variables: true,
            log_gas: true,
            log_performance: true,
            max_steps: None,
            timeout_ms: None,
        }
    }
}

/// A breakpoint on this id is set somewhere in the list.
pub open spec fn breakpoint_set(bs: Seq<Breakpoint>, id: Seq<char>) -> bool {
    exists|i: int| 0 <= i < bs.len() && (#[trigger] bs[i]).node_id@ == id
}

/// A debug session over one graph: its breakpoints, watched variables and
/// current state.
pub struct DebugSession {
    pub graph: Graph,
    pub runtime: WasmRuntime,
    pub state: DebugState,
    pub breakpoints: Vec<Breakpoint>,
    pub variables: Vec<(String, PropValue)>,
    pub trace: Vec<NodeId>,
    pub call_stack: Vec<NodeId>,
}

impl DebugSession {
    /// Create a new debug session
    pub fn new(graph: Graph, runtime: WasmRuntime) -> (r: DebugSession)
        ensures
            r.state == DebugState::Running,
            r.breakpoints@.len() == 0,
            r.variables@.len() == 0,
            r.trace@.len() == 0,
            r.call_stack@.len() == 0,
            r.graph == graph,
    {
        DebugSession {
            graph,
            runtime,
            state: DebugState::Running,
            breakpoints: Vec::new(),
            variables: Vec::new(),
            trace: Vec::new(),
            call_stack: Vec::new(),
        }
    }

    /// Set a breakpoint on a node id, enabled, with an optional guard; a
    /// node already carrying one keeps the one it has.
    pub fn add_breakpoint(&mut self, node_id: NodeId, condition: Option<String>) -> (r:
        CanvasResult<()>)
        ensures
            r is Ok,
            breakpoint_set(final(self).breakpoints@, node_id@),
            final(self).breakpoints@.len() >= old(self).breakpoints@.len(),
            final(self).variables@ == old(self).variables@,
            final(self).state == old(self).state,
    {
        let n = self.breakpoints.len();
        let mut i: usize = 0;
        while i < n
            invariant
                n == self.breakpoints@.len(),
                0 <= i <= n,
                forall|j: int| 0 <= j < i ==> (#[trigger] self.breakpoints@[j]).node_id@ != node_id@,
            decreases n - i,
        {
            if string_eq(&self.breakpoints[i].node_id, &node_id) {
                return Ok(());
            }
            i = i + 1;
        }
        self.breakpoints.push(Breakpoint { node_id, condition, enabled: true });
        proof {
            let last = self.breakpoints@.len() - 1;
            assert((self.breakpoints@[last]).node_id@ == node_id@);
        }
        Ok(())
    }

    /// Enable or disable every breakpoint on the id; fails when none is
    /// set there.
    pub fn toggle_breakpoint(&mut self, node_id: &NodeId, enabled: bool) -> (r: CanvasResult<()>)
        ensures
            r is Ok <==> breakpoint_set(old(self).breakpoints@, node_id@),
            final(self).breakpoints@.len() == old(self).breakpoints@.len(),
            forall|i: int|
                0 <= i < old(self).breakpoints@.len() ==> {
                    let b0 = old(self).breakpoints@[i];
                    let b1 = #[trigger] final(self).breakpoints@[i];
                    &&& b1.node_id == b0.node_id
                    &&& b1.condition == b0.condition
                    &&& b1.enabled == (if b0.node_id@ == node_id@ {
                        enabled
                    } else {
                        b0.enabled
                    })
                },
            final(self).variables@ == old(self).variables@,
            final(self).state == old(self).state,
    {
        let n = self.breakpoints.len();
        let mut found = false;
        let mut i: usize = 0;
        while i < n
            invariant
                n == self.breakpoints@.len(),
                n == old(self).breakpoints@.len(),
                0 <= i <= n,
                found == exists|j: int|
                    0 <= j < i && (#[trigger] old(self).breakpoints@[j]).node_id@ == node_id@,
                forall|j: int|
                    i <= j < n ==> #[trigger] self.breakpoints@[j] == old(self).breakpoints@[j],
                forall|j: int|
                    0 <= j < i ==> {
                        let b0 = old(self).breakpoints@[j];
                        let b1 = #[trigger] self.breakpoints@[j];
                        &&& b1.node_id == b0.node_id
                        &&& b1.condition == b0.condition
                        &&& b1.enabled == (if b0.node_id@ == node_id@ {
                            enabled
                        } else {
                            b0.enabled
                        })
                    },
                self.variables@ == old(self).variables@,
                self.state == old(self).state,
                self.graph == old(self).graph,
            decreases n - i,
        {
            if string_eq(&self.breakpoints[i].node_id, node_id) {
                found = true;
                let old_bp = &self.breakpoints[i];
                let updated = Breakpoint {
                    node_id: old_bp.node_id.clone(),
                    condition: match &old_bp.condition {
                        Some(c) => Some(c.clone()),
                        None => None,
                    },
                    enabled,
                };
                self.breakpoints.set(i, updated);
            }
            i = i + 1;
        }
        if found {
            Ok(())
        } else {
            Err(CanvasError::BreakpointNotFound("no breakpoint set on this node".to_owned()))
        }
    }

    /// Remove every breakpoint set on the id; fails when none is set.
    pub fn remove_breakpoint(&mut self, node_id: &NodeId) -> (r: CanvasResult<()>)
        ensures
            r is Ok <==> breakpoint_set(old(self).breakpoints@, node_id@),
            final(self).breakpoints@ == old(self).breakpoints@.filter(
                |b: Breakpoint| b.node_id@ != node_id@,
            ),
            final(self).variables@ == old(self).variables@,
            final(self).state == old(self).state,
    {
        let mut kept: Vec<Breakpoint> = Vec::new();
        let mut found = false;
        let ghost keep = |b: Breakpoint| b.node_id@ != node_id@;
        proof {
            assert(old(self).breakpoints@.take(0).filter(keep) =~= Seq::<Breakpoint>::empty());
        }
        let n = self.breakpoints.len();
        let mut i: usize = 0;
        while i < n
            invariant
                n == self.breakpoints@.len(),
                self.breakpoints@ == old(self).breakpoints@,
                keep == (|b: Breakpoint| b.node_id@ != node_id@),
                0 <= i <= n,
                kept@ == self.breakpoints@.take(i as int).filter(keep),
                found == exists|j: int|
                    0 <= j < i && (#[trigger] self.breakpoints@[j]).node_id@ == node_id@,
                self.variables@ == old(self).variables@,
                self.state == old(self).state,
                self.graph == old(self).graph,
            decreases n - i,
        {
            proof {
                assert(self.breakpoints@.take(i + 1 as int).drop_last() == self.breakpoints@.take(
                    i as int,
                ));
                reveal(Seq::filter);
            }
            if string_eq(&self.breakpoints[i].node_id, node_id) {
                found = true;
            } else {
                let b = &self.breakpoints[i];
                kept.push(
                    Breakpoint {
                        node_id: b.node_id.clone(),
                        condition: match &b.condition {
                            Some(c) => Some(c.clone()),
                            None => None,
                        },
                        enabled: b.enabled,
                    },
                );
                proof {
                    assert(kept@.drop_last() == self.breakpoints@.take(i as int).filter(keep));
                    assert(kept@.last() == self.breakpoints@[i as int]);
                    assert(kept@ =~= self.breakpoints@.take(i + 1 as int).filter(keep));
                }
            }
            i = i + 1;
        }
        proof {
            assert(self.breakpoints@.take(n as int) =~= self.breakpoints@);
        }
        self.breakpoints = kept;
        if found {
            Ok(())
        } else {
            Err(CanvasError::BreakpointNotFound("no breakpoint set on this node".to_owned()))
        }
    }

    /// The breakpoints, in the order they were set.
    pub fn get_breakpoints(&self) -> (r: &Vec<Breakpoint>)
        ensures
            r@ == self.breakpoints@,
    {
        &self.breakpoints
    }

    /// Set a watched variable; the newest value stands last.
    pub fn set_variable(&mut self, name: String, value: PropValue)
        ensures
            final(self).variables@ == old(self).variables@.push((name, value)),
            final(self).breakpoints@ == old(self).breakpoints@,
            final(self).state == old(self).state,
    {
        self.variables.push((name, value));
    }

    /// The watched variables, oldest first.
    pub fn get_variables(&self) -> (r: &Vec<(String, PropValue)>)
        ensures
            r@ == self.variables@,
    {
        &self.variables
    }

    /// The executed node ids, oldest first; empty until the surrounding
    /// runtime drives a run.
    pub fn get_trace(&self) -> (r: &Vec<NodeId>)
        ensures
            r@ == self.trace@,
    {
        &self.trace
    }

    /// The call stack; empty until the surrounding runtime drives a run.
    pub fn get_call_stack(&self) -> (r: &Vec<NodeId>)
        ensures
            r@ == self.call_stack@,
    {
        &self.call_stack
    }

    /// The session's current state.
    pub fn get_state(&self) -> (r: DebugState)
        ensures
            r == self.state,
    {
        match &self.state {
            DebugState::Running => DebugState::Running,
            DebugState::Paused => DebugState::Paused,
            DebugState::Stepping => DebugState::Stepping,
            DebugState::Finished => DebugState::Finished,
            DebugState::Error(s) => DebugState::Error(s.clone()),
        }
    }
}

} // verus!
