//! Branches and remotes of a local repository: their names, what the commands on
//! them print, and the arguments of those commands.
use vstd::prelude::*;

use super::LocalGitRepository;
use super::command_text;
use crate::text::{cat3, lit, strings_view, trim};

verus! {

/// A local branch.
#[derive(Clone, Debug, PartialEq, Eq)]
pub struct LocalGitBranch {
    pub repository: LocalGitRepository,
    pub name: String,
}

impl LocalGitBranch {
    /// The arguments of `git rev-parse` for the branch.
    pub fn sha_arguments(&self) -> (r: Vec<String>)
        ensures
            strings_view(r@) == seq!["rev-parse"@, self.name@],
    {
        let v = vec![lit("rev-parse"), self.name.clone()];
        assert(strings_view(v@) =~= seq!["rev-parse"@, self.name@]);
        v
    }

    /// The sha that `git rev-parse` printed for the branch.
    pub fn sha(&self, stdout: &str) -> (r: String)
        ensures
            r@ == trim(stdout@),
    {
        command_text(stdout)
    }

    /// The arguments of the command that creates the branch and checks it out.
    pub fn create_arguments(&self) -> (r: Vec<String>)
        ensures
            strings_view(r@) == seq!["checkout"@, "-b"@, self.name@],
    {
        let v = vec![lit("checkout"), lit("-b"), self.name.clone()];
        assert(strings_view(v@) =~= seq!["checkout"@, "-b"@, self.name@]);
        v
    }
}

/// A remote of a repository.
#[derive(Clone, Debug, PartialEq, Eq)]
pub struct LocalGitRemote {
    pub repository: LocalGitRepository,
    pub name: String,
}

/// The URL that `git remote get-url` printed: trimmed, and none when the command
/// failed or printed only whitespace.
pub open spec fn spec_remote_url(stdout: Option<Seq<char>>) -> Option<Seq<char>> {
    match stdout {
        Some(s) => if trim(s).len() > 0 {
            Some(trim(s))
        } else {
            None
        },
        None => None,
    }
}

impl LocalGitRemote {
    /// The arguments of `git remote get-url` for the remote.
    pub fn url_arguments(&self) -> (r: Vec<String>)
        ensures
            strings_view(r@) == seq!["remote"@, "get-url"@, self.name@],
    {
        let v = vec![lit("remote"), lit("get-url"), self.name.clone()];
        assert(strings_view(v@) =~= seq!["remote"@, "get-url"@, self.name@]);
        v
    }

    /// The URL from what `git remote get-url` printed, `None` when it failed.
    pub fn url(&self, stdout: Option<&str>) -> (r: Option<String>)
        ensures
            match r {
                Some(u) => spec_remote_url(
                    match stdout {
                        Some(s) => Some(s@),
                        None => None,
                    },
                ) == Some(u@),
                None => spec_remote_url(
                    match stdout {
                        Some(s) => Some(s@),
                        None => None,
                    },
                ) is None,
            },
    {
        match stdout {
            Some(s) => {
                let t = command_text(s);
                if t.as_str().is_empty() {
                    None
                } else {
                    Some(t)
                }
            },
            None => None,
        }
    }

    /// The arguments of the command that sets the URL of the remote.
    pub fn set_url_arguments(&self, url: &str) -> (r: Vec<String>)
        ensures
            strings_view(r@) == seq!["remote"@, "set-url"@, self.name@, url@],
    {
        let v = vec![lit("remote"), lit("set-url"), self.name.clone(), lit(url)];
        assert(strings_view(v@) =~= seq!["remote"@, "set-url"@, self.name@, url@]);
        v
    }

    /// The branch `name` of the remote.
    pub fn branch(&self, name: &str) -> (r: LocalGitRemoteBranch)
        ensures
            r.remote.repository.path@ == self.repository.path@,
            r.remote.name@ == self.name@,
            r.name@ == name@,
    {
        LocalGitRemoteBranch { remote: self.copy(), name: lit(name) }
    }

    /// The reference `name` of the remote.
    pub fn reference(&self, name: &str) -> (r: LocalGitRemoteReference)
        ensures
            r.remote.repository.path@ == self.repository.path@,
            r.remote.name@ == self.name@,
            r.name@ == name@,
    {
        LocalGitRemoteReference { remote: self.copy(), name: lit(name) }
    }

    /// The commit `sha` of the remote.
    pub fn commit(&self, sha: &str) -> (r: LocalGitRemoteCommit)
        ensures
            r.remote.repository.path@ == self.repository.path@,
            r.remote.name@ == self.name@,
            r.sha@ == sha@,
    {
        LocalGitRemoteCommit { remote: self.copy(), sha: lit(sha) }
    }

    fn copy(&self) -> (r: Self)
        ensures
            r.repository.path@ == self.repository.path@,
            r.name@ == self.name@,
    {
        LocalGitRemote {
            repository: LocalGitRepository { path: self.repository.path.clone() },
            name: self.name.clone(),
        }
    }
}

/// A branch of a remote.
#[derive(Clone, Debug, PartialEq, Eq)]
pub struct LocalGitRemoteBranch {
    pub remote: LocalGitRemote,
    pub name: String,
}

impl LocalGitRemoteBranch {
    /// The arguments of the command that fetches the branch.
    pub fn fetch_arguments(&self) -> (r: Vec<String>)
        ensures
            strings_view(r@) == seq!["fetch"@, self.remote.name@, self.name@],
    {
        let v = vec![lit("fetch"), self.remote.name.clone(), self.name.clone()];
        assert(strings_view(v@) =~= seq!["fetch"@, self.remote.name@, self.name@]);
        v
    }

    /// The arguments of the command that checks out a local branch of the same name
    /// at the remote's branch, `<remote>/<name>`.
    pub fn checkout_arguments(&self) -> (r: Vec<String>)
        ensures
            strings_view(r@) == seq![
                "checkout"@,
                "-B"@,
                self.name@,
                self.remote.name@ + "/"@ + self.name@,
            ],
    {
        let v = vec![
            lit("checkout"),
            lit("-B"),
            self.name.clone(),
            cat3(self.remote.name.as_str(), "/", self.name.as_str()),
        ];
        assert(strings_view(v@) =~= seq![
            "checkout"@,
            "-B"@,
            self.name@,
            self.remote.name@ + "/"@ + self.name@,
        ]);
        v
    }
}

/// A reference of a remote.
#[derive(Clone, Debug, PartialEq, Eq)]
pub struct LocalGitRemoteReference {
    pub remote: LocalGitRemote,
    pub name: String,
}

impl LocalGitRemoteReference {
    /// The arguments of the command that fetches the reference.
    pub fn fetch_arguments(&self) -> (r: Vec<String>)
        ensures
            strings_view(r@) == seq!["fetch"@, self.remote.name@, self.name@],
    {
        let v = vec![lit("fetch"), self.remote.name.clone(), self.name.clone()];
        assert(strings_view(v@) =~= seq!["fetch"@, self.remote.name@, self.name@]);
        v
    }
}

/// A commit of a remote.
#[derive(Clone, Debug, PartialEq, Eq)]
pub struct LocalGitRemoteCommit {
    pub remote: LocalGitRemote,
    pub sha: String,
}

impl LocalGitRemoteCommit {
    /// The arguments of the command that fetches the commit.
    pub fn fetch_arguments(&self) -> (r: Vec<String>)
        ensures
            strings_view(r@) == seq!["fetch"@, self.remote.name@, self.sha@],
    {
        let v = vec![lit("fetch"), self.remote.name.clone(), self.sha.clone()];
        assert(strings_view(v@) =~= seq!["fetch"@, self.remote.name@, self.sha@]);
        v
    }
}

/// What the last fetch brought.
#[derive(Clone, Debug, PartialEq, Eq)]
pub struct LocalGitFetchHead {
    pub repository: LocalGitRepository,
}

impl LocalGitFetchHead {
    /// The arguments of the command that checks out what was fetched, detached.
    pub fn checkout_arguments(&self) -> (r: Vec<String>)
        ensures
            strings_view(r@) == seq!["checkout"@, "--detach"@, "FETCH_HEAD"@],
    {
        let v = vec![lit("checkout"), lit("--detach"), lit("FETCH_HEAD")];
        assert(strings_view(v@) =~= seq!["checkout"@, "--detach"@, "FETCH_HEAD"@]);
        v
    }
}

} // verus!
