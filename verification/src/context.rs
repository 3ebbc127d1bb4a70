//! Process-wide read-only configuration passed to every rule invocation.

use vstd::prelude::*;

use crate::util::{ci_starts_with, spec_ci_starts_with};

verus! {

/// Read-only configuration: the project allow-list used to suppress
/// findings for in-progress work.
pub struct Context {
    /// Project name prefixes; a cell id beginning with one of them,
    /// ignoring ASCII case, belongs to an allow-listed project.
    pub projects: Vec<Vec<u8>>,
}

impl Context {
    /// Whether an id belongs to one of the allow-listed projects.
    pub open spec fn spec_allows(&self, id: Seq<u8>) -> bool {
        exists|k: int|
            0 <= k < self.projects@.len() && spec_ci_starts_with(id, self.projects@[k]@)
    }

    /// Whether an id belongs to one of the allow-listed projects.
    pub fn allows(&self, id: &Vec<u8>) -> (r: bool)
        ensures
            r == self.spec_allows(id@),
    {
        let mut k: usize = 0;
        while k < self.projects.len()
            invariant
                k <= self.projects@.len(),
                forall|j: int| 0 <= j < k ==> !spec_ci_starts_with(id@, self.projects@[j]@),
            decreases self.projects@.len() - k,
        {
            if ci_starts_with(id, &self.projects[k]) {
                return true;
            }
            k = k + 1;
        }
        false
    }

    /// A context with the given project allow-list.
    pub fn new(projects: Vec<Vec<u8>>) -> (r: Context)
        ensures
            r.projects == projects,
    {
        Context { projects }
    }
}

} // verus!
