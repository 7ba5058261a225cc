//! What a local repository can be asked.
use vstd::prelude::*;

verus! {

/// An operation on a local repository.
#[derive(Clone, Copy, Debug, PartialEq, Eq, Structural)]
pub enum LocalGitCapability {
    Log,
    LogGraph,
    Diff,
    DiffRename,
    Blame,
    MergePreview,
    MergeApply,
    Worktree,
    Status,
    Show,
    MergeBase,
}

/// The operations that a repository offers, in the order they were given.
#[derive(Clone, Debug, Default, PartialEq, Eq)]
pub struct LocalGitCapabilitySet {
    capabilities: Vec<LocalGitCapability>,
}

impl View for LocalGitCapabilitySet {
    type V = Seq<LocalGitCapability>;

    closed spec fn view(&self) -> Seq<LocalGitCapability> {
        self.capabilities@
    }
}

impl LocalGitCapabilitySet {
    pub fn make(capabilities: Vec<LocalGitCapability>) -> (r: Self)
        ensures
            r@ == capabilities@,
    {
        LocalGitCapabilitySet { capabilities }
    }

    /// Whether the set holds `capability`.
    pub fn supports(&self, capability: &LocalGitCapability) -> (r: bool)
        ensures
            r == self@.contains(*capability),
    {
        let mut i: usize = 0;
        while i < self.capabilities.len()
            invariant
                i <= self@.len(),
                forall|j: int| 0 <= j < i ==> self@[j] != *capability,
            decreases self@.len() - i,
        {
            if self.capabilities[i] == *capability {
                assert(self@[i as int] == *capability);
                return true;
            }
            i = i + 1;
        }
        false
    }
}

} // verus!
