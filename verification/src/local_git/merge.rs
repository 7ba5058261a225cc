//! Three-way merges: the typestate builder of a merge, its preview from the output of
//! `git merge-tree`, and the conflicts it finds.
use vstd::prelude::*;

use std::marker::PhantomData;

use super::{command_failure, LocalGitRepository};
use crate::error::{invalid_input, unsupported_operation, CognitionResult, ErrorView};
use crate::repos::resources::clone_opt_string;
use crate::text::{join_lines, lit, split, strings_view, trim};
use crate::keyed::{has_key, keyed_map, keys_of};
use tree_output::{
    answer_fn, answers_by_request, first_error, kind_window_fits, parse_fold, parsed_from, path_shown,
    regions_on_conflicted_paths,
    spec_conflicts,
    MergeTreeOutput, MergeTreeView,
};

pub mod conflict_text;
pub mod tree_output;

verus! {

/// The merge base is still to be given.
#[derive(Clone, Debug, PartialEq, Eq)]
pub struct MissingBase;

/// The merge base was given.
#[derive(Clone, Debug, PartialEq, Eq)]
pub struct ProvidedBase;

/// Our side is still to be given.
#[derive(Clone, Debug, PartialEq, Eq)]
pub struct MissingOurs;

/// Our side was given.
#[derive(Clone, Debug, PartialEq, Eq)]
pub struct ProvidedOurs;

/// Their side is still to be given.
#[derive(Clone, Debug, PartialEq, Eq)]
pub struct MissingTheirs;

/// Their side was given.
#[derive(Clone, Debug, PartialEq, Eq)]
pub struct ProvidedTheirs;

/// A merge of three revisions, given one by one; the type records which were given.
#[derive(Debug)]
pub struct LocalGitMergeBuilder<Base, Ours, Theirs> {
    repository: LocalGitRepository,
    base: Option<String>,
    ours: Option<String>,
    theirs: Option<String>,
    state: PhantomData<(Base, Ours, Theirs)>,
}

pub struct LocalGitMergeView {
    pub repository: Seq<char>,
    pub base: Option<Seq<char>>,
    pub ours: Option<Seq<char>>,
    pub theirs: Option<Seq<char>>,
}

pub open spec fn opt_chars(o: Option<String>) -> Option<Seq<char>> {
    match o {
        Some(s) => Some(s@),
        None => None,
    }
}

impl<Base, Ours, Theirs> View for LocalGitMergeBuilder<Base, Ours, Theirs> {
    type V = LocalGitMergeView;

    closed spec fn view(&self) -> LocalGitMergeView {
        LocalGitMergeView {
            repository: self.repository.path@,
            base: opt_chars(self.base),
            ours: opt_chars(self.ours),
            theirs: opt_chars(self.theirs),
        }
    }
}

impl<Base, Ours, Theirs> Clone for LocalGitMergeBuilder<Base, Ours, Theirs> {
    fn clone(&self) -> (r: Self)
        ensures
            r@ == self@,
    {
        LocalGitMergeBuilder {
            repository: LocalGitRepository { path: self.repository.path.clone() },
            base: clone_opt_string(&self.base),
            ours: clone_opt_string(&self.ours),
            theirs: clone_opt_string(&self.theirs),
            state: PhantomData,
        }
    }
}

impl LocalGitMergeBuilder<MissingBase, MissingOurs, MissingTheirs> {
    pub fn make(repository: LocalGitRepository) -> (r: Self)
        ensures
            r@ == (LocalGitMergeView {
                repository: repository.path@,
                base: None,
                ours: None,
                theirs: None,
            }),
    {
        LocalGitMergeBuilder { repository, base: None, ours: None, theirs: None, state: PhantomData }
    }
}

impl<Ours, Theirs> LocalGitMergeBuilder<MissingBase, Ours, Theirs> {
    pub fn base(self, base: &str) -> (r: LocalGitMergeBuilder<ProvidedBase, Ours, Theirs>)
        ensures
            r@ == (LocalGitMergeView { base: Some(base@), ..self@ }),
    {
        LocalGitMergeBuilder {
            repository: self.repository,
            base: Some(lit(base)),
            ours: self.ours,
            theirs: self.theirs,
            state: PhantomData,
        }
    }
}

impl<Base, Theirs> LocalGitMergeBuilder<Base, MissingOurs, Theirs> {
    pub fn ours(self, ours: &str) -> (r: LocalGitMergeBuilder<Base, ProvidedOurs, Theirs>)
        ensures
            r@ == (LocalGitMergeView { ours: Some(ours@), ..self@ }),
    {
        LocalGitMergeBuilder {
            repository: self.repository,
            base: self.base,
            ours: Some(lit(ours)),
            theirs: self.theirs,
            state: PhantomData,
        }
    }
}

impl<Base, Ours> LocalGitMergeBuilder<Base, Ours, MissingTheirs> {
    pub fn theirs(self, theirs: &str) -> (r: LocalGitMergeBuilder<Base, Ours, ProvidedTheirs>)
        ensures
            r@ == (LocalGitMergeView { theirs: Some(theirs@), ..self@ }),
    {
        LocalGitMergeBuilder {
            repository: self.repository,
            base: self.base,
            ours: self.ours,
            theirs: Some(lit(theirs)),
            state: PhantomData,
        }
    }
}

/// The arguments of `git merge-tree` for the three revisions.
pub open spec fn spec_merge_arguments(base: Seq<char>, ours: Seq<char>, theirs: Seq<char>) -> Seq<
    Seq<char>,
> {
    seq![
        "merge-tree"@,
        "--write-tree"@,
        "--messages"@,
        "-z"@,
        "--merge-base"@,
        base,
        ours,
        theirs,
    ]
}

impl<Base, Ours, Theirs> LocalGitMergeBuilder<Base, Ours, Theirs> {
    pub fn repository(&self) -> (r: &LocalGitRepository)
        ensures
            r.path@ == self@.repository,
    {
        &self.repository
    }

    /// The arguments of `git merge-tree`; an error names the first revision missing.
    pub fn arguments(&self) -> (r: CognitionResult<Vec<String>>)
        ensures
            match (self@.base, self@.ours, self@.theirs) {
                (Some(b), Some(o), Some(t)) => r matches Ok(v) && strings_view(v@)
                    == spec_merge_arguments(b, o, t),
                (None, _, _) => r matches Err(e) && e@ == ErrorView::InvalidInput(
                    "missing merge base"@,
                ),
                (Some(_), None, _) => r matches Err(e) && e@ == ErrorView::InvalidInput(
                    "missing merge ours"@,
                ),
                (Some(_), Some(_), None) => r matches Err(e) && e@ == ErrorView::InvalidInput(
                    "missing merge theirs"@,
                ),
            },
    {
        let base = match &self.base {
            Some(b) => b.clone(),
            None => {
                return Err(invalid_input("missing merge base"));
            },
        };
        let ours = match &self.ours {
            Some(o) => o.clone(),
            None => {
                return Err(invalid_input("missing merge ours"));
            },
        };
        let theirs = match &self.theirs {
            Some(t) => t.clone(),
            None => {
                return Err(invalid_input("missing merge theirs"));
            },
        };
        let v = vec![
            lit("merge-tree"),
            lit("--write-tree"),
            lit("--messages"),
            lit("-z"),
            lit("--merge-base"),
            base,
            ours,
            theirs,
        ];
        assert(strings_view(v@) =~= spec_merge_arguments(
            self@.base->0,
            self@.ours->0,
            self@.theirs->0,
        ));
        Ok(v)
    }
}

/// The parse of a `git merge-tree` output lets `kind` read the window of every path.
pub open spec fn output_windows_fit(output: Seq<char>) -> bool {
    let st = parse_fold(split(output, '\0').drop_first());
    forall|p: Seq<char>| #[trigger]
        st.stages.contains_key(p) ==> kind_window_fits(join_lines(st.messages), p)
}

/// The preview of a merge whose `git merge-tree` output parses to `o`, given what
/// `git show` answers.
pub open spec fn spec_preview(
    o: MergeTreeView,
    ans: spec_fn(Seq<char>) -> Option<Seq<char>>,
) -> Option<(bool, Seq<RegionView>, Seq<Seq<char>>)> {
    match spec_conflicts(o, ans) {
        Some(c) => Some((c.len() == 0, c, keys_of(o.entries))),
        None => None,
    }
}

/// What the run of `git merge-tree` gives to the preview: what it printed, even when
/// it reports conflicts (and fails); an empty text when it printed nothing and
/// succeeded; otherwise the error of its standard error, trimmed.
pub fn merge_tree_result(stdout: &str, success: bool, stderr: &str) -> (r: CognitionResult<String>)
    ensures
        stdout@.len() > 0 ==> (r matches Ok(t) && t@ == stdout@),
        stdout@.len() == 0 && success ==> (r matches Ok(t) && t@.len() == 0),
        stdout@.len() == 0 && !success ==> (r matches Err(e) && e@ == ErrorView::InvalidInput(
            trim(stderr@),
        )),
{
    if !stdout.is_empty() {
        return Ok(lit(stdout));
    }
    if success {
        return Ok(String::new());
    }
    Err(command_failure(stderr))
}

impl LocalGitMergeBuilder<ProvidedBase, ProvidedOurs, ProvidedTheirs> {
    /// The preview of the merge from the output of `git merge-tree` run with
    /// `arguments()`, reading texts through `git_show` (given a revision, the output of
    /// `git show` for it): clean when no path conflicts.
    pub fn preview<F: Fn(String) -> CognitionResult<String>>(self, output: &str, git_show: F) -> (r:
        CognitionResult<MergePreview>)
        requires
            output_windows_fit(output@),
            forall|s: String| call_requires(git_show, (s,)),
        ensures
            answers_by_request(git_show) ==> exists|o: MergeTreeView|
                #![trigger parsed_from(o, output@)]
                parsed_from(o, output@) && match r {
                    Ok(p) => spec_preview(o, answer_fn(git_show)) == Some(
                        (p.clean, regions_view(p.conflicts@), strings_view(p.merged_files@)),
                    ),
                    Err(_) => spec_preview(o, answer_fn(git_show)) is None,
                },
            r matches Err(e) ==> exists|s: String| #[trigger] call_ensures(git_show, (s,), Err(e)),
            r matches Ok(p) ==> p.clean == (p.conflicts@.len() == 0) && p.clean == (
            p.merged_files@.len() == 0) && exists|o: MergeTreeView|
                #![trigger parsed_from(o, output@)]
                parsed_from(o, output@) && strings_view(p.merged_files@) == keys_of(o.entries)
                    && regions_on_conflicted_paths(regions_view(p.conflicts@), o) && forall|j: int|
                    0 <= j < o.entries.len() ==> #[trigger] path_shown(git_show, o, o.entries[j]),
            r matches Err(e) ==> exists|o: MergeTreeView|
                #![trigger parsed_from(o, output@)]
                parsed_from(o, output@) && first_error(git_show, o, e),
    {
        let parsed = MergeTreeOutput::parse(output);
        proof {
            let o = parsed@;
            assert forall|i: int| 0 <= i < o.entries.len() implies kind_window_fits(
                o.messages,
                #[trigger] o.entries[i].0,
            ) by {
                assert(has_key(o.entries, o.entries[i].0));
                assert(keyed_map(o.entries).contains_key(o.entries[i].0));
            }
        }
        let conflicts = match parsed.conflicts(git_show) {
            Ok(c) => c,
            Err(e) => {
                return Err(e);
            },
        };
        let merged_files = parsed.merged_files();
        let clean = conflicts.len() == 0;
        proof {
            assert(strings_view(merged_files@).len() == merged_files@.len());
            assert(keys_of(parsed@.entries).len() == parsed@.entries.len());
        }
        Ok(MergePreview { clean, conflicts, merged_files })
    }

    /// Applying a merge plan is not offered for local repositories.
    pub fn apply(self, plan: MergePlan) -> (r: CognitionResult<MergeOutcome>)
        ensures
            r matches Err(e) && e@ == ErrorView::UnsupportedOperation("local git merge apply"@),
    {
        Err(unsupported_operation("local git merge apply"))
    }
}

/// What a merge would give: whether it is clean, its conflicts and the files it touches.
#[derive(Clone, Debug, PartialEq, Eq)]
pub struct MergePreview {
    pub clean: bool,
    pub conflicts: Vec<ConflictRegion>,
    pub merged_files: Vec<String>,
}

/// A region of a file on which the two sides disagree.
#[derive(Clone, Debug, PartialEq, Eq)]
pub struct ConflictRegion {
    pub path: String,
    pub base: Option<String>,
    pub ours: String,
    pub theirs: String,
    pub kind: ConflictKind,
}

pub struct RegionView {
    pub path: Seq<char>,
    pub base: Option<Seq<char>>,
    pub ours: Seq<char>,
    pub theirs: Seq<char>,
    pub kind: ConflictKind,
}

impl View for ConflictRegion {
    type V = RegionView;

    open spec fn view(&self) -> RegionView {
        RegionView {
            path: self.path@,
            base: opt_chars(self.base),
            ours: self.ours@,
            theirs: self.theirs@,
            kind: self.kind,
        }
    }
}

pub open spec fn regions_view(v: Seq<ConflictRegion>) -> Seq<RegionView> {
    v.map_values(|r: ConflictRegion| r@)
}

/// What kind of disagreement a conflict is.
#[derive(Clone, Copy, Debug, PartialEq, Eq, Structural)]
pub enum ConflictKind {
    Whitespace,
    ImportOrder,
    AdjacentEdit,
    Overlap,
    AddAdd,
    DeleteModify,
}

/// How to resolve the conflicts of a merge.
#[derive(Clone, Debug, Default, PartialEq, Eq)]
pub struct MergePlan;

/// What an applied merge gave.
#[derive(Clone, Debug, PartialEq, Eq)]
pub struct MergeOutcome {
    pub merged_sha: Option<String>,
    pub recovery_ref: String,
}

} // verus!
