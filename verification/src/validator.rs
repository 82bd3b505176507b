//! Validation findings and their containers. A finding carries a message
//! and the set of affected node ids; its severity class is the bucket it
//! sits in. A result is valid exactly when its error bucket is empty.

use vstd::prelude::*;

use crate::types::NodeId;

verus! {

/// One validation finding: a message and the node ids it concerns.
#[derive(Debug, PartialEq)]
pub struct Finding {
    pub message: String,
    pub affected_nodes: Vec<NodeId>,
}

/// Two id lists that agree element by element.
pub open spec fn strs_eqv(a: Seq<String>, b: Seq<String>) -> bool {
    a.len() == b.len() && forall|i: int| 0 <= i < a.len() ==> a[i]@ == b[i]@
}

/// The finding reads `msg` and names exactly the ids of `affected`.
pub open spec fn finding_matches(f: Finding, msg: Seq<char>, affected: Seq<String>) -> bool {
    f.message@ == msg && strs_eqv(f.affected_nodes@, affected)
}

/// Bucketed findings match a list of expected (message, affected) pairs,
/// in order.
pub open spec fn findings_match(fs: Seq<Finding>, expected: Seq<(Seq<char>, Seq<String>)>) -> bool {
    fs.len() == expected.len() && forall|i: int|
        0 <= i < fs.len() ==> finding_matches(#[trigger] fs[i], expected[i].0, expected[i].1)
}

/// Validation result: findings bucketed by severity. Error findings decide
/// validity; warnings and info never do.
#[derive(Debug, PartialEq)]
pub struct ValidationResult {
    pub is_valid: bool,
    pub errors: Vec<Finding>,
    pub warnings: Vec<Finding>,
    pub info: Vec<Finding>,
}

/// The buckets agree with the flag: valid means no error finding.
pub open spec fn result_consistent(r: ValidationResult) -> bool {
    r.is_valid <==> r.errors@.len() == 0
}

impl ValidationResult {
    /// An empty, valid result.
    pub fn new() -> (r: ValidationResult)
        ensures
            r.is_valid,
            r.errors@.len() == 0,
            r.warnings@.len() == 0,
            r.info@.len() == 0,
            result_consistent(r),
    {
        ValidationResult { is_valid: true, errors: Vec::new(), warnings: Vec::new(), info: Vec::new() }
    }

    /// Add an error finding with no affected nodes; the result turns
    /// invalid.
    pub fn with_error(self, error: String) -> (r: ValidationResult)
        ensures
            !r.is_valid,
            r.errors@.len() == self.errors@.len() + 1,
            r.errors@[r.errors@.len() - 1].message@ == error@,
            r.errors@[r.errors@.len() - 1].affected_nodes@.len() == 0,
            forall|i: int| 0 <= i < self.errors@.len() ==> r.errors@[i] == self.errors@[i],
            r.warnings@ == self.warnings@,
            r.info@ == self.info@,
            result_consistent(r),
    {
        let mut errors = self.errors;
        errors.push(Finding { message: error, affected_nodes: Vec::new() });
        ValidationResult { is_valid: false, errors, warnings: self.warnings, info: self.info }
    }

    /// Add a warning finding with no affected nodes; validity is untouched.
    pub fn with_warning(self, warning: String) -> (r: ValidationResult)
        ensures
            r.is_valid == self.is_valid,
            r.warnings@.len() == self.warnings@.len() + 1,
            r.warnings@[r.warnings@.len() - 1].message@ == warning@,
            r.warnings@[r.warnings@.len() - 1].affected_nodes@.len() == 0,
            forall|i: int| 0 <= i < self.warnings@.len() ==> r.warnings@[i] == self.warnings@[i],
            r.errors@ == self.errors@,
            r.info@ == self.info@,
            result_consistent(self) ==> result_consistent(r),
    {
        let mut warnings = self.warnings;
        warnings.push(Finding { message: warning, affected_nodes: Vec::new() });
        ValidationResult { is_valid: self.is_valid, errors: self.errors, warnings, info: self.info }
    }

    /// Add an info finding with no affected nodes; validity is untouched.
    pub fn with_info(self, info: String) -> (r: ValidationResult)
        ensures
            r.is_valid == self.is_valid,
            r.info@.len() == self.info@.len() + 1,
            r.info@[r.info@.len() - 1].message@ == info@,
            r.info@[r.info@.len() - 1].affected_nodes@.len() == 0,
            forall|i: int| 0 <= i < self.info@.len() ==> r.info@[i] == self.info@[i],
            r.errors@ == self.errors@,
            r.warnings@ == self.warnings@,
            result_consistent(self) ==> result_consistent(r),
    {
        let mut inf = self.info;
        inf.push(Finding { message: info, affected_nodes: Vec::new() });
        ValidationResult { is_valid: self.is_valid, errors: self.errors, warnings: self.warnings, info: inf }
    }
}

} // verus!
