//! Cloning a repository: the source, then the destination, then the command.
use vstd::prelude::*;

use crate::text::{lit, strings_view};

verus! {

/// The destination is still to be given.
#[derive(Clone, Debug, PartialEq, Eq)]
pub struct MissingCloneDestination;

/// The destination was given.
#[derive(Clone, Debug, PartialEq, Eq)]
pub struct ProvidedCloneDestination {
    pub destination: String,
}

/// A clone of `source`; the type records whether the destination was given.
#[derive(Clone, Debug, PartialEq, Eq)]
pub struct LocalGitCloneBuilder<DestinationState> {
    pub source: String,
    pub destination: DestinationState,
}

impl LocalGitCloneBuilder<MissingCloneDestination> {
    pub fn make(source: &str) -> (r: Self)
        ensures
            r.source@ == source@,
    {
        LocalGitCloneBuilder { source: lit(source), destination: MissingCloneDestination }
    }

    /// Gives the destination.
    pub fn to(self, destination: &str) -> (r: LocalGitCloneBuilder<ProvidedCloneDestination>)
        ensures
            r.source@ == self.source@,
            r.destination.destination@ == destination@,
    {
        LocalGitCloneBuilder {
            source: self.source,
            destination: ProvidedCloneDestination { destination: lit(destination) },
        }
    }
}

impl LocalGitCloneBuilder<ProvidedCloneDestination> {
    /// The arguments of `git clone`, run outside any repository.
    pub fn arguments(&self) -> (r: Vec<String>)
        ensures
            strings_view(r@) == seq!["clone"@, self.source@, self.destination.destination@],
    {
        let v = vec![lit("clone"), self.source.clone(), self.destination.destination.clone()];
        assert(strings_view(v@) =~= seq!["clone"@, self.source@, self.destination.destination@]);
        v
    }
}

} // verus!
