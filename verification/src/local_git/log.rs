//! `git log`: the command, its commits and its commit graph.
use vstd::prelude::*;

use super::diff::path_arguments;
use super::diff::append_paths;
use super::LocalGitRepository;
use crate::repos::Commit;
use crate::text::{
    cat2, cat3, chars_of, decimal, decimal_string, extend_strings, lemma_strings_view_push, lines,
    lit, split, split_char, split_lines, split_whitespace, string_of_all, strings_view,
    trimmed, views, ws_tokens, trimmed_nonempty, field,
};

verus! {

broadcast use vstd::seq::group_seq_axioms;

/// A log to read: its range or starting reference, paths, and page.
#[derive(Clone, Debug, PartialEq, Eq)]
pub struct LocalGitLog {
    repository: LocalGitRepository,
    range: Option<(String, String)>,
    since_reference: Option<String>,
    paths: Vec<String>,
    limit: Option<usize>,
    skip: Option<usize>,
}

pub struct LocalGitLogView {
    pub repository: Seq<char>,
    pub range: Option<(Seq<char>, Seq<char>)>,
    pub since_reference: Option<Seq<char>>,
    pub paths: Seq<Seq<char>>,
    pub limit: Option<usize>,
    pub skip: Option<usize>,
}

impl View for LocalGitLog {
    type V = LocalGitLogView;

    closed spec fn view(&self) -> LocalGitLogView {
        LocalGitLogView {
            repository: self.repository.path@,
            range: match self.range {
                Some((b, h)) => Some((b@, h@)),
                None => None,
            },
            since_reference: match self.since_reference {
                Some(r) => Some(r@),
                None => None,
            },
            paths: strings_view(self.paths@),
            limit: self.limit,
            skip: self.skip,
        }
    }
}

/// The argument that selects the commits: a range, or the commits since a reference.
pub open spec fn revision_arguments(l: LocalGitLogView) -> Seq<Seq<char>> {
    match l.range {
        Some((base, head)) => seq![base + ".."@ + head],
        None => match l.since_reference {
            Some(r) => seq![r + "..HEAD"@],
            None => seq![],
        },
    }
}

pub open spec fn pagination_arguments(l: LocalGitLogView) -> Seq<Seq<char>> {
    (match l.limit {
        Some(n) => seq!["--max-count="@ + decimal(n as nat)],
        None => seq![],
    }) + (match l.skip {
        Some(n) => seq!["--skip="@ + decimal(n as nat)],
        None => seq![],
    })
}

/// The arguments of the `git log` command: the graph asks for parents and
/// references too.
pub open spec fn spec_log_arguments(l: LocalGitLogView, graph: bool) -> Seq<Seq<char>> {
    seq![
        "log"@,
        if graph {
            "--format=%H%x00%P%x00%D"@
        } else {
            "--format=%H"@
        },
    ] + revision_arguments(l) + pagination_arguments(l) + path_arguments(l.paths)
}

#[derive(Clone, Debug, PartialEq, Eq)]
pub struct LocalGitLogRange {
    log: LocalGitLog,
    base: Option<String>,
}

pub struct LocalGitLogRangeView {
    pub log: LocalGitLogView,
    pub base: Option<Seq<char>>,
}

impl View for LocalGitLogRange {
    type V = LocalGitLogRangeView;

    closed spec fn view(&self) -> LocalGitLogRangeView {
        LocalGitLogRangeView {
            log: self.log@,
            base: match self.base {
                Some(b) => Some(b@),
                None => None,
            },
        }
    }
}

#[derive(Clone, Debug, PartialEq, Eq)]
pub struct CommitGraph {
    pub rows: Vec<GraphRow>,
}

#[derive(Clone, Debug, PartialEq, Eq)]
pub struct GraphRow {
    pub commit: Commit,
    pub lane: usize,
    pub parents: Vec<String>,
    pub refs: Vec<String>,
}

pub struct GraphRowView {
    pub commit: Seq<char>,
    pub lane: nat,
    pub parents: Seq<Seq<char>>,
    pub refs: Seq<Seq<char>>,
}

impl View for GraphRow {
    type V = GraphRowView;

    open spec fn view(&self) -> GraphRowView {
        GraphRowView {
            commit: self.commit@,
            lane: self.lane as nat,
            parents: strings_view(self.parents@),
            refs: strings_view(self.refs@),
        }
    }
}

pub open spec fn rows_view(v: Seq<GraphRow>) -> Seq<GraphRowView> {
    v.map_values(|r: GraphRow| r@)
}

pub open spec fn commits_view(v: Seq<Commit>) -> Seq<Seq<char>> {
    v.map_values(|c: Commit| c@)
}

/// The row of line `lane` of the graph output `<sha>\0<parents>\0<refs>`.
pub open spec fn spec_graph_row(lane: nat, line: Seq<char>) -> GraphRowView {
    let parts = split(line, '\0');
    GraphRowView {
        commit: field(parts, 0),
        lane,
        parents: ws_tokens(field(parts, 1)),
        refs: trimmed_nonempty(split(field(parts, 2), ',')),
    }
}

/// The rows of a graph output, one per line.
pub open spec fn spec_graph_rows(output: Seq<char>) -> Seq<GraphRowView> {
    let ls = lines(output);
    Seq::new(ls.len(), |i: int| spec_graph_row(i as nat, ls[i]))
}

fn strings_of(pieces: &Vec<Vec<char>>) -> (r: Vec<String>)
    ensures
        strings_view(r@) == views(pieces@),
{
    let mut out: Vec<String> = Vec::new();
    let mut i: usize = 0;
    while i < pieces.len()
        invariant
            i <= pieces@.len(),
            strings_view(out@) == views(pieces@).take(i as int),
        decreases pieces@.len() - i,
    {
        let s = string_of_all(pieces[i].as_slice());
        proof {
            lemma_strings_view_push(out@, s);
            assert(views(pieces@).take(i + 1) =~= views(pieces@).take(i as int).push(s@));
        }
        out.push(s);
        i = i + 1;
    }
    proof {
        assert(views(pieces@).take(i as int) =~= views(pieces@));
    }
    out
}

fn refs_of(pieces: &Vec<Vec<char>>) -> (r: Vec<String>)
    ensures
        strings_view(r@) == trimmed_nonempty(views(pieces@)),
{
    let mut out: Vec<String> = Vec::new();
    let mut i: usize = 0;
    assert(views(pieces@).take(0) =~= Seq::<Seq<char>>::empty());
    while i < pieces.len()
        invariant
            i <= pieces@.len(),
            strings_view(out@) == trimmed_nonempty(views(pieces@).take(i as int)),
        decreases pieces@.len() - i,
    {
        let t = trimmed(pieces[i].as_slice());
        proof {
            assert(views(pieces@).take(i + 1).drop_last() =~= views(pieces@).take(i as int));
            assert(views(pieces@).take(i + 1).last() == pieces@[i as int]@);
        }
        if t.len() > 0 {
            let s = string_of_all(t.as_slice());
            proof {
                lemma_strings_view_push(out@, s);
            }
            out.push(s);
        }
        i = i + 1;
    }
    proof {
        assert(views(pieces@).take(i as int) =~= views(pieces@));
    }
    out
}

/// The row of line `lane` of a graph output.
pub fn graph_row(lane: usize, line: &[char]) -> (r: GraphRow)
    ensures
        r@ == spec_graph_row(lane as nat, line@),
{
    let parts = split_char(line, '\0');
    proof {
        assert(views(parts@).len() == parts@.len());
    }
    let empty: Vec<char> = Vec::new();
    let commit_field: &[char] = parts[0].as_slice();
    let parents_field: &[char] = if parts.len() > 1 {
        parts[1].as_slice()
    } else {
        empty.as_slice()
    };
    let refs_field: &[char] = if parts.len() > 2 {
        parts[2].as_slice()
    } else {
        empty.as_slice()
    };
    let commit = Commit::from_string(string_of_all(commit_field));
    let parents = strings_of(&split_whitespace(parents_field));
    let refs = refs_of(&split_char(refs_field, ','));
    GraphRow { commit, lane, parents, refs }
}

impl LocalGitLog {
    pub fn make(repository: LocalGitRepository) -> (r: Self)
        ensures
            r@ == (LocalGitLogView {
                repository: repository.path@,
                range: None,
                since_reference: None,
                paths: seq![],
                limit: None,
                skip: None,
            }),
    {
        let r = LocalGitLog {
            repository,
            range: None,
            since_reference: None,
            paths: Vec::new(),
            limit: None,
            skip: None,
        };
        assert(strings_view(r.paths@) =~= Seq::<Seq<char>>::empty());
        r
    }

    /// Starts giving the range end by end.
    pub fn range(self) -> (r: LocalGitLogRange)
        ensures
            r@ == (LocalGitLogRangeView { log: self@, base: None }),
    {
        LocalGitLogRange { log: self, base: None }
    }

    pub fn between(self, base: &str, head: &str) -> (r: Self)
        ensures
            r@ == (LocalGitLogView { range: Some((base@, head@)), ..self@ }),
    {
        LocalGitLog { range: Some((lit(base), lit(head))), ..self }
    }

    pub fn since_ref(self, reference: &str) -> (r: Self)
        ensures
            r@ == (LocalGitLogView { since_reference: Some(reference@), ..self@ }),
    {
        LocalGitLog { since_reference: Some(lit(reference)), ..self }
    }

    pub fn paths(self, paths: Vec<String>) -> (r: Self)
        ensures
            r@ == (LocalGitLogView { paths: self@.paths + strings_view(paths@), ..self@ }),
    {
        let mut all = self.paths;
        extend_strings(&mut all, &paths);
        LocalGitLog { paths: all, ..self }
    }

    pub fn limit(self, max: usize) -> (r: Self)
        ensures
            r@ == (LocalGitLogView { limit: Some(max), ..self@ }),
    {
        LocalGitLog { limit: Some(max), ..self }
    }

    pub fn skip(self, count: usize) -> (r: Self)
        ensures
            r@ == (LocalGitLogView { skip: Some(count), ..self@ }),
    {
        LocalGitLog { skip: Some(count), ..self }
    }

    pub fn repository(&self) -> (r: &LocalGitRepository)
        ensures
            r.path@ == self@.repository,
    {
        &self.repository
    }

    /// The arguments of the `git log` command.
    pub fn arguments(&self, graph: bool) -> (r: Vec<String>)
        ensures
            strings_view(r@) == spec_log_arguments(self@, graph),
    {
        let mut args: Vec<String> = Vec::new();
        let a = lit("log");
        let b = if graph {
            lit("--format=%H%x00%P%x00%D")
        } else {
            lit("--format=%H")
        };
        args.push(a);
        args.push(b);
        let ghost s0 = strings_view(args@);
        assert(s0 =~= seq![
            "log"@,
            if graph {
                "--format=%H%x00%P%x00%D"@
            } else {
                "--format=%H"@
            },
        ]);
        match &self.range {
            Some((base, head)) => {
                let x = cat3(base.as_str(), "..", head.as_str());
                proof {
                    lemma_strings_view_push(args@, x);
                }
                args.push(x);
            },
            None => match &self.since_reference {
                Some(r) => {
                    let x = cat2(r.as_str(), "..HEAD");
                    proof {
                        lemma_strings_view_push(args@, x);
                    }
                    args.push(x);
                },
                None => {},
            },
        }
        assert(strings_view(args@) =~= s0 + revision_arguments(self@));
        let ghost s1 = strings_view(args@);
        match self.limit {
            Some(n) => {
                let x = cat2("--max-count=", decimal_string(n as u64).as_str());
                proof {
                    lemma_strings_view_push(args@, x);
                }
                args.push(x);
            },
            None => {},
        }
        let ghost s2 = strings_view(args@);
        match self.skip {
            Some(n) => {
                let x = cat2("--skip=", decimal_string(n as u64).as_str());
                proof {
                    lemma_strings_view_push(args@, x);
                }
                args.push(x);
            },
            None => {},
        }
        assert(strings_view(args@) =~= s1 + pagination_arguments(self@));
        append_paths(&mut args, &self.paths);
        args
    }

    /// The commits, one per line of the output of the command.
    pub fn commits(self, output: &str) -> (r: Vec<Commit>)
        ensures
            commits_view(r@) == lines(output@),
    {
        let chars = chars_of(output);
        let ls = split_lines(chars.as_slice());
        let mut out: Vec<Commit> = Vec::new();
        let mut i: usize = 0;
        while i < ls.len()
            invariant
                i <= ls@.len(),
                views(ls@) == lines(output@),
                commits_view(out@) == views(ls@).take(i as int),
            decreases ls@.len() - i,
        {
            let c = Commit::from_string(string_of_all(ls[i].as_slice()));
            proof {
                assert(commits_view(out@.push(c)) =~= commits_view(out@).push(c@));
                assert(views(ls@).take(i + 1) =~= views(ls@).take(i as int).push(ls@[i as int]@));
            }
            out.push(c);
            i = i + 1;
        }
        proof {
            assert(views(ls@).take(i as int) =~= views(ls@));
        }
        out
    }

    /// The commit graph, one row per line of the output of the command.
    pub fn graph(self, output: &str) -> (r: CommitGraph)
        ensures
            rows_view(r.rows@) == spec_graph_rows(output@),
    {
        let chars = chars_of(output);
        let ls = split_lines(chars.as_slice());
        let mut rows: Vec<GraphRow> = Vec::new();
        let mut i: usize = 0;
        while i < ls.len()
            invariant
                i <= ls@.len(),
                views(ls@) == lines(output@),
                rows_view(rows@) == spec_graph_rows(output@).take(i as int),
            decreases ls@.len() - i,
        {
            let row = graph_row(i, ls[i].as_slice());
            proof {
                assert(rows_view(rows@.push(row)) =~= rows_view(rows@).push(row@));
                assert(spec_graph_rows(output@).take(i + 1) =~= spec_graph_rows(output@).take(
                    i as int,
                ).push(row@));
            }
            rows.push(row);
            i = i + 1;
        }
        proof {
            assert(spec_graph_rows(output@).take(i as int) =~= spec_graph_rows(output@));
        }
        CommitGraph { rows }
    }
}

impl LocalGitLogRange {
    pub fn base(self, base: &str) -> (r: Self)
        ensures
            r@ == (LocalGitLogRangeView { base: Some(base@), ..self@ }),
    {
        LocalGitLogRange { base: Some(lit(base)), ..self }
    }

    /// The log of the range that ends at `head`; without a base, of no range.
    pub fn head(self, head: &str) -> (r: LocalGitLog)
        ensures
            r@ == (LocalGitLogView {
                range: match self@.base {
                    Some(b) => Some((b, head@)),
                    None => None,
                },
                ..self@.log
            }),
    {
        let range = match self.base {
            Some(b) => Some((b, lit(head))),
            None => None,
        };
        LocalGitLog { range, ..self.log }
    }
}

} // verus!
