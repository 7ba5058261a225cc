//! Worktrees: `git worktree list --porcelain` read into records, and the commands
//! that add, remove and prune them.
use vstd::prelude::*;

use super::LocalGitRepository;
use crate::text::{
    chars_of, eq_chars, lines, lit, split_lines, string_of_all, strings_view, strip_prefix,
    strip_prefix_of, views,
};
use super::merge::opt_chars;

verus! {

broadcast use vstd::seq::group_seq_axioms;

/// The worktrees of a repository.
#[derive(Clone, Debug, PartialEq, Eq)]
pub struct LocalGitWorktrees {
    repository: LocalGitRepository,
}

impl View for LocalGitWorktrees {
    type V = Seq<char>;

    closed spec fn view(&self) -> Seq<char> {
        self.repository.path@
    }
}

impl LocalGitWorktrees {
    pub fn make(repository: LocalGitRepository) -> (r: Self)
        ensures
            r@ == repository.path@,
    {
        LocalGitWorktrees { repository }
    }

    pub fn repository(&self) -> (r: &LocalGitRepository)
        ensures
            r.path@ == self@,
    {
        &self.repository
    }

    /// The arguments of the command that lists the worktrees.
    pub fn list_arguments(&self) -> (r: Vec<String>)
        ensures
            strings_view(r@) == seq!["worktree"@, "list"@, "--porcelain"@],
    {
        let v = vec![lit("worktree"), lit("list"), lit("--porcelain")];
        assert(strings_view(v@) =~= seq!["worktree"@, "list"@, "--porcelain"@]);
        v
    }

    /// The worktrees that the listing command printed.
    pub fn list(&self, output: &str) -> (r: Vec<Worktree>)
        ensures
            worktrees_view(r@) == spec_worktrees(output@),
    {
        worktrees(output)
    }

    /// A worktree to add at `path`, from `HEAD` and on a branch unless detached.
    pub fn add(&self, path: &str) -> (r: LocalGitWorktreeAdd)
        ensures
            r@ == (LocalGitWorktreeAddView {
                repository: self@,
                path: path@,
                reference: "HEAD"@,
                detached: false,
            }),
    {
        LocalGitWorktreeAdd {
            repository: LocalGitRepository { path: self.repository.path.clone() },
            path: lit(path),
            reference: lit("HEAD"),
            detached: false,
        }
    }

    /// The arguments of the command that removes the worktree at `path`.
    pub fn remove_arguments(&self, path: &str) -> (r: Vec<String>)
        ensures
            strings_view(r@) == seq!["worktree"@, "remove"@, path@],
    {
        let v = vec![lit("worktree"), lit("remove"), lit(path)];
        assert(strings_view(v@) =~= seq!["worktree"@, "remove"@, path@]);
        v
    }

    /// The arguments of the command that prunes stale worktrees.
    pub fn prune_arguments(&self) -> (r: Vec<String>)
        ensures
            strings_view(r@) == seq!["worktree"@, "prune"@],
    {
        let v = vec![lit("worktree"), lit("prune")];
        assert(strings_view(v@) =~= seq!["worktree"@, "prune"@]);
        v
    }
}

/// A worktree to add.
#[derive(Clone, Debug, PartialEq, Eq)]
pub struct LocalGitWorktreeAdd {
    repository: LocalGitRepository,
    path: String,
    reference: String,
    detached: bool,
}

pub struct LocalGitWorktreeAddView {
    pub repository: Seq<char>,
    pub path: Seq<char>,
    pub reference: Seq<char>,
    pub detached: bool,
}

impl View for LocalGitWorktreeAdd {
    type V = LocalGitWorktreeAddView;

    closed spec fn view(&self) -> LocalGitWorktreeAddView {
        LocalGitWorktreeAddView {
            repository: self.repository.path@,
            path: self.path@,
            reference: self.reference@,
            detached: self.detached,
        }
    }
}

/// The arguments of `git worktree add`.
pub open spec fn spec_add_arguments(a: LocalGitWorktreeAddView) -> Seq<Seq<char>> {
    seq!["worktree"@, "add"@] + (if a.detached {
        seq!["--detach"@]
    } else {
        seq![]
    }) + seq![a.path, a.reference]
}

impl LocalGitWorktreeAdd {
    /// Starts the worktree at `reference`.
    pub fn from(self, reference: &str) -> (r: Self)
        ensures
            r@ == (LocalGitWorktreeAddView { reference: reference@, ..self@ }),
    {
        LocalGitWorktreeAdd { reference: lit(reference), ..self }
    }

    pub fn detached(self, detached: bool) -> (r: Self)
        ensures
            r@ == (LocalGitWorktreeAddView { detached, ..self@ }),
    {
        LocalGitWorktreeAdd { detached, ..self }
    }

    pub fn repository(&self) -> (r: &LocalGitRepository)
        ensures
            r.path@ == self@.repository,
    {
        &self.repository
    }

    /// The arguments of `git worktree add`.
    pub fn arguments(&self) -> (r: Vec<String>)
        ensures
            strings_view(r@) == spec_add_arguments(self@),
    {
        let mut v = vec![lit("worktree"), lit("add")];
        if self.detached {
            v.push(lit("--detach"));
        }
        v.push(self.path.clone());
        v.push(self.reference.clone());
        assert(strings_view(v@) =~= spec_add_arguments(self@));
        v
    }

    /// The worktree that the command of `arguments` created: at the path, with the
    /// reference as its head, on no branch and not locked.
    pub fn create(self) -> (r: Worktree)
        ensures
            r@ == (WorktreeView {
                path: self@.path,
                branch: None,
                head: self@.reference,
                locked: false,
            }),
    {
        Worktree { path: self.path, branch: None, head: self.reference, locked: false }
    }
}

/// A worktree: its path, the branch it has checked out, its head and whether it is locked.
#[derive(Clone, Debug, PartialEq, Eq)]
pub struct Worktree {
    pub path: String,
    pub branch: Option<String>,
    pub head: String,
    pub locked: bool,
}

pub struct WorktreeView {
    pub path: Seq<char>,
    pub branch: Option<Seq<char>>,
    pub head: Seq<char>,
    pub locked: bool,
}

impl View for Worktree {
    type V = WorktreeView;

    open spec fn view(&self) -> WorktreeView {
        WorktreeView {
            path: self.path@,
            branch: opt_chars(self.branch),
            head: self.head@,
            locked: self.locked,
        }
    }
}

pub open spec fn worktrees_view(v: Seq<Worktree>) -> Seq<WorktreeView> {
    v.map_values(|w: Worktree| w@)
}

/// A `worktree <path>` line starts a record; the other lines of a record give its
/// head, its branch under `refs/heads/`, or that it is locked; lines outside a
/// record are ignored.
pub open spec fn worktree_line(cur: Option<WorktreeView>, line: Seq<char>) -> Option<WorktreeView> {
    match strip_prefix(line, "worktree "@) {
        Some(p) => Some(WorktreeView { path: p, branch: None, head: seq![], locked: false }),
        None => match cur {
            None => None,
            Some(w) => Some(
                match strip_prefix(line, "HEAD "@) {
                    Some(h) => WorktreeView { head: h, ..w },
                    None => match strip_prefix(line, "branch refs/heads/"@) {
                        Some(b) => WorktreeView { branch: Some(b), ..w },
                        None => if line == "locked"@ {
                            WorktreeView { locked: true, ..w }
                        } else {
                            w
                        },
                    },
                },
            ),
        },
    }
}

/// The records read so far and the one being read.
pub struct WorktreeScan {
    pub done: Seq<WorktreeView>,
    pub current: Option<WorktreeView>,
}

pub open spec fn close_record(done: Seq<WorktreeView>, current: Option<WorktreeView>) -> Seq<
    WorktreeView,
> {
    match current {
        Some(w) => done.push(w),
        None => done,
    }
}

/// An empty line ends the record being read.
pub open spec fn worktree_step(st: WorktreeScan, line: Seq<char>) -> WorktreeScan {
    if line.len() == 0 {
        WorktreeScan { done: close_record(st.done, st.current), current: None }
    } else {
        WorktreeScan { current: worktree_line(st.current, line), ..st }
    }
}

pub open spec fn worktree_fold(ls: Seq<Seq<char>>) -> WorktreeScan
    decreases ls.len(),
{
    if ls.len() == 0 {
        WorktreeScan { done: seq![], current: None }
    } else {
        worktree_step(worktree_fold(ls.drop_last()), ls.last())
    }
}

/// The worktrees of a porcelain listing, in order.
pub open spec fn spec_worktrees(output: Seq<char>) -> Seq<WorktreeView> {
    let st = worktree_fold(lines(output));
    close_record(st.done, st.current)
}

fn read_line(cur: Option<Worktree>, line: &[char]) -> (r: Option<Worktree>)
    ensures
        match r {
            Some(w) => worktree_line(
                match cur {
                    Some(c) => Some(c@),
                    None => None,
                },
                line@,
            ) == Some(w@),
            None => worktree_line(
                match cur {
                    Some(c) => Some(c@),
                    None => None,
                },
                line@,
            ) is None,
        },
{
    let wt = chars_of("worktree ");
    let head = chars_of("HEAD ");
    let branch = chars_of("branch refs/heads/");
    let locked = chars_of("locked");
    if let Some(p) = strip_prefix_of(line, wt.as_slice()) {
        return Some(
            Worktree { path: string_of_all(p.as_slice()), branch: None, head: String::new(), locked: false },
        );
    }
    match cur {
        None => None,
        Some(w) => {
            if let Some(h) = strip_prefix_of(line, head.as_slice()) {
                Some(Worktree { head: string_of_all(h.as_slice()), ..w })
            } else if let Some(b) = strip_prefix_of(line, branch.as_slice()) {
                Some(Worktree { branch: Some(string_of_all(b.as_slice())), ..w })
            } else if eq_chars(line, locked.as_slice()) {
                Some(Worktree { locked: true, ..w })
            } else {
                Some(w)
            }
        },
    }
}

/// The worktrees of a porcelain listing.
pub fn worktrees(output: &str) -> (r: Vec<Worktree>)
    ensures
        worktrees_view(r@) == spec_worktrees(output@),
{
    let chars = chars_of(output);
    let ls = split_lines(chars.as_slice());
    let ghost l = lines(output@);
    let mut done: Vec<Worktree> = Vec::new();
    let mut current: Option<Worktree> = None;
    let mut i: usize = 0;
    proof {
        assert(l.take(0) =~= Seq::<Seq<char>>::empty());
        assert(worktrees_view(done@) =~= Seq::<WorktreeView>::empty());
    }
    while i < ls.len()
        invariant
            l == lines(output@),
            views(ls@) == l,
            i <= ls@.len(),
            (WorktreeScan {
                done: worktrees_view(done@),
                current: match current {
                    Some(c) => Some(c@),
                    None => None,
                },
            }) == worktree_fold(l.take(i as int)),
        decreases ls@.len() - i,
    {
        let line = &ls[i];
        proof {
            assert(l.take(i + 1).drop_last() =~= l.take(i as int));
            assert(l.take(i + 1).last() == line@);
        }
        if line.len() == 0 {
            match current {
                Some(w) => {
                    proof {
                        assert(worktrees_view(done@.push(w)) =~= worktrees_view(done@).push(w@));
                    }
                    done.push(w);
                },
                None => {},
            }
            current = None;
        } else {
            current = read_line(current, line.as_slice());
        }
        i = i + 1;
    }
    proof {
        assert(l.take(i as int) =~= l);
    }
    match current {
        Some(w) => {
            proof {
                assert(worktrees_view(done@.push(w)) =~= worktrees_view(done@).push(w@));
            }
            done.push(w);
        },
        None => {},
    }
    done
}

} // verus!
