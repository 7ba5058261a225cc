use vstd::prelude::*;

use super::diff_parser::{diff_counts_fit, diff_files, diff_files_view, spec_diff_files};
use super::LocalGitRepository;
use crate::text::{
    cat2, cat3, decimal, decimal_string, extend_strings, lemma_strings_view_push, lit,
    strings_view,
};

verus! {

/// Which two trees a diff compares.
#[derive(Clone, Debug, PartialEq, Eq)]
enum DiffSelector {
    Working,
    Staged,
    Commit(String),
    Range(String, String),
}

pub enum DiffSelectorView {
    Working,
    Staged,
    Commit(Seq<char>),
    Range(Seq<char>, Seq<char>),
}

/// A diff to compute: what it compares, which paths it covers, whether it detects
/// renames, and how many lines of context its hunks keep.
#[derive(Clone, Debug, PartialEq, Eq)]
pub struct LocalGitDiff {
    repository: LocalGitRepository,
    selector: DiffSelector,
    paths: Vec<String>,
    detect_renames: bool,
    context_lines: usize,
}

pub struct LocalGitDiffView {
    pub repository: Seq<char>,
    pub selector: DiffSelectorView,
    pub paths: Seq<Seq<char>>,
    pub detect_renames: bool,
    pub context_lines: usize,
}

impl View for LocalGitDiff {
    type V = LocalGitDiffView;

    closed spec fn view(&self) -> LocalGitDiffView {
        LocalGitDiffView {
            repository: self.repository.path@,
            selector: match self.selector {
                DiffSelector::Working => DiffSelectorView::Working,
                DiffSelector::Staged => DiffSelectorView::Staged,
                DiffSelector::Commit(sha) => DiffSelectorView::Commit(sha@),
                DiffSelector::Range(base, head) => DiffSelectorView::Range(base@, head@),
            },
            paths: strings_view(self.paths@),
            detect_renames: self.detect_renames,
            context_lines: self.context_lines,
        }
    }
}

/// The arguments that select the compared trees.
pub open spec fn selector_arguments(s: DiffSelectorView) -> Seq<Seq<char>> {
    match s {
        DiffSelectorView::Working => seq![],
        DiffSelectorView::Staged => seq!["--cached"@],
        DiffSelectorView::Commit(sha) => seq![sha + "^.."@ + sha],
        DiffSelectorView::Range(base, head) => seq![base + "..."@ + head],
    }
}

/// The arguments that restrict a command to some paths.
pub open spec fn path_arguments(paths: Seq<Seq<char>>) -> Seq<Seq<char>> {
    if paths.len() == 0 {
        seq![]
    } else {
        seq!["--"@] + paths
    }
}

/// The arguments of the `git diff` command.
pub open spec fn spec_diff_arguments(d: LocalGitDiffView) -> Seq<Seq<char>> {
    seq!["diff"@, "--no-color"@, "--unified="@ + decimal(d.context_lines as nat)]
        + selector_arguments(d.selector) + (if d.detect_renames {
        seq!["-M"@]
    } else {
        seq![]
    }) + path_arguments(d.paths)
}

/// `args` followed by `--` and `paths`, when there are paths.
pub fn append_paths(args: &mut Vec<String>, paths: &Vec<String>)
    ensures
        strings_view(final(args)@) == strings_view(old(args)@) + path_arguments(
            strings_view(paths@),
        ),
{
    if paths.len() == 0 {
        assert(strings_view(args@) =~= strings_view(args@) + path_arguments(strings_view(paths@)));
        return;
    }
    let ghost start = strings_view(args@);
    let dashes = lit("--");
    proof {
        lemma_strings_view_push(args@, dashes);
    }
    args.push(dashes);
    extend_strings(args, paths);
    assert(start.push("--"@) + strings_view(paths@) =~= start + path_arguments(strings_view(paths@)));
}

impl LocalGitDiff {
    /// A diff of the working tree against the index, with three lines of context.
    pub fn make(repository: LocalGitRepository) -> (r: Self)
        ensures
            r@ == (LocalGitDiffView {
                repository: repository.path@,
                selector: DiffSelectorView::Working,
                paths: seq![],
                detect_renames: false,
                context_lines: 3,
            }),
    {
        let r = LocalGitDiff {
            repository,
            selector: DiffSelector::Working,
            paths: Vec::new(),
            detect_renames: false,
            context_lines: 3,
        };
        assert(strings_view(r.paths@) =~= Seq::<Seq<char>>::empty());
        r
    }

    pub fn working(self) -> (r: Self)
        ensures
            r@ == (LocalGitDiffView { selector: DiffSelectorView::Working, ..self@ }),
    {
        LocalGitDiff { selector: DiffSelector::Working, ..self }
    }

    pub fn staged(self) -> (r: Self)
        ensures
            r@ == (LocalGitDiffView { selector: DiffSelectorView::Staged, ..self@ }),
    {
        LocalGitDiff { selector: DiffSelector::Staged, ..self }
    }

    pub fn commit(self, sha: &str) -> (r: Self)
        ensures
            r@ == (LocalGitDiffView { selector: DiffSelectorView::Commit(sha@), ..self@ }),
    {
        LocalGitDiff { selector: DiffSelector::Commit(lit(sha)), ..self }
    }

    pub fn range(self, base: &str, head: &str) -> (r: Self)
        ensures
            r@ == (LocalGitDiffView { selector: DiffSelectorView::Range(base@, head@), ..self@ }),
    {
        LocalGitDiff { selector: DiffSelector::Range(lit(base), lit(head)), ..self }
    }

    pub fn paths(self, paths: Vec<String>) -> (r: Self)
        ensures
            r@ == (LocalGitDiffView { paths: self@.paths + strings_view(paths@), ..self@ }),
    {
        let mut all = self.paths;
        extend_strings(&mut all, &paths);
        LocalGitDiff { paths: all, ..self }
    }

    pub fn detect_renames(self, enabled: bool) -> (r: Self)
        ensures
            r@ == (LocalGitDiffView { detect_renames: enabled, ..self@ }),
    {
        LocalGitDiff { detect_renames: enabled, ..self }
    }

    pub fn context_lines(self, lines: usize) -> (r: Self)
        ensures
            r@ == (LocalGitDiffView { context_lines: lines, ..self@ }),
    {
        LocalGitDiff { context_lines: lines, ..self }
    }

    pub fn repository(&self) -> (r: &LocalGitRepository)
        ensures
            r.path@ == self@.repository,
    {
        &self.repository
    }

    /// The arguments of the `git diff` command.
    pub fn arguments(&self) -> (r: Vec<String>)
        ensures
            strings_view(r@) == spec_diff_arguments(self@),
    {
        let mut args: Vec<String> = Vec::new();
        let ghost e = strings_view(args@);
        let a = lit("diff");
        let b = lit("--no-color");
        let c = cat2("--unified=", decimal_string(self.context_lines as u64).as_str());
        args.push(a);
        args.push(b);
        args.push(c);
        proof {
            assert(strings_view(args@) =~= seq![
                "diff"@,
                "--no-color"@,
                "--unified="@ + decimal(self.context_lines as nat),
            ]);
        }
        let ghost s1 = strings_view(args@);
        match &self.selector {
            DiffSelector::Working => {},
            DiffSelector::Staged => {
                let x = lit("--cached");
                proof {
                    lemma_strings_view_push(args@, x);
                }
                args.push(x);
            },
            DiffSelector::Commit(sha) => {
                let x = cat3(sha.as_str(), "^..", sha.as_str());
                proof {
                    lemma_strings_view_push(args@, x);
                }
                args.push(x);
            },
            DiffSelector::Range(base, head) => {
                let x = cat3(base.as_str(), "...", head.as_str());
                proof {
                    lemma_strings_view_push(args@, x);
                }
                args.push(x);
            },
        }
        assert(strings_view(args@) =~= s1 + selector_arguments(self@.selector));
        let ghost s2 = strings_view(args@);
        if self.detect_renames {
            let x = lit("-M");
            proof {
                lemma_strings_view_push(args@, x);
            }
            args.push(x);
        }
        assert(strings_view(args@) =~= s2 + (if self@.detect_renames {
            seq!["-M"@]
        } else {
            seq![]
        }));
        append_paths(&mut args, &self.paths);
        args
    }

    /// The diff, read from the output of the command.
    pub fn compute(self, output: &str) -> (r: DiffModel)
        requires
            diff_counts_fit(output@),
        ensures
            diff_files_view(r.files@) == spec_diff_files(output@),
    {
        DiffModel { files: diff_files(output) }
    }
}


/// How a file changed between the two sides of a diff.
#[derive(Clone, Copy, Debug, PartialEq, Eq)]
pub enum ChangeKind {
    Added,
    Deleted,
    Modified,
    Renamed { similarity: u8 },
    Copied,
    TypeChanged,
}

/// The side a line of a hunk comes from.
#[derive(Clone, Copy, Debug, PartialEq, Eq)]
pub enum LineOrigin {
    Context,
    Addition,
    Deletion,
}

#[derive(Clone, Debug, PartialEq, Eq)]
pub struct DiffLine {
    pub origin: LineOrigin,
    pub old_line_no: Option<usize>,
    pub new_line_no: Option<usize>,
    pub content: String,
}

#[derive(Clone, Debug, PartialEq, Eq)]
pub struct Hunk {
    pub old_start: usize,
    pub old_lines: usize,
    pub new_start: usize,
    pub new_lines: usize,
    pub lines: Vec<DiffLine>,
}

#[derive(Clone, Debug, PartialEq, Eq)]
pub struct DiffFile {
    pub old_path: Option<String>,
    pub new_path: Option<String>,
    pub change: ChangeKind,
    pub hunks: Vec<Hunk>,
    pub additions: usize,
    pub deletions: usize,
    pub binary: bool,
}

#[derive(Clone, Debug, PartialEq, Eq)]
pub struct DiffModel {
    pub files: Vec<DiffFile>,
}

} // verus!
