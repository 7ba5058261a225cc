//! `git blame --porcelain`: the command and the parser of its output.
use vstd::prelude::*;

use super::LocalGitRepository;
use crate::text::{
    chars_of, lines, lit, parse_decimal, parse_unsigned, split_lines, split_whitespace,
    starts_with, strings_view, string_of_all, strip_prefix, strip_prefix_of, utf8_len,
    utf8_len_below, views, ws_tokens,
};

verus! {

broadcast use vstd::seq::group_seq_axioms;

#[derive(Clone, Debug, PartialEq, Eq)]
pub struct LocalGitBlame {
    repository: LocalGitRepository,
    path: String,
    revision: String,
}

/// A blame request over plain values: the repository's path, the file, the revision.
pub struct LocalGitBlameView {
    pub repository: Seq<char>,
    pub path: Seq<char>,
    pub revision: Seq<char>,
}

impl View for LocalGitBlame {
    type V = LocalGitBlameView;

    closed spec fn view(&self) -> LocalGitBlameView {
        LocalGitBlameView {
            repository: self.repository.path@,
            path: self.path@,
            revision: self.revision@,
        }
    }
}

#[derive(Clone, Debug, PartialEq, Eq)]
pub struct Blame {
    pub path: String,
    pub spans: Vec<BlameSpan>,
}

#[derive(Clone, Debug, PartialEq, Eq)]
pub struct BlameSpan {
    pub commit: String,
    pub author: String,
    pub start_line: usize,
    pub line_count: usize,
}

pub struct BlameSpanView {
    pub commit: Seq<char>,
    pub author: Seq<char>,
    pub start_line: nat,
    pub line_count: nat,
}

impl View for BlameSpan {
    type V = BlameSpanView;

    open spec fn view(&self) -> BlameSpanView {
        BlameSpanView {
            commit: self.commit@,
            author: self.author@,
            start_line: self.start_line as nat,
            line_count: self.line_count as nat,
        }
    }
}

pub open spec fn spans_view(v: Seq<BlameSpan>) -> Seq<BlameSpanView> {
    v.map_values(|s: BlameSpan| s@)
}

/// The commit, final line and line count of a porcelain header line
/// `<sha> <original line> <final line> [<count>]`.
pub open spec fn blame_header(line: Seq<char>) -> Option<(Seq<char>, nat, nat)> {
    let t = ws_tokens(line);
    if t.len() < 3 || utf8_len(t[0]) < 7 {
        None
    } else {
        let count = if t.len() > 3 {
            t[3]
        } else {
            "1"@
        };
        match (parse_unsigned(t[2], usize::MAX as nat), parse_unsigned(count, usize::MAX as nat)) {
            (Some(f), Some(c)) => Some((t[0], f, c)),
            _ => None,
        }
    }
}

/// What the parser holds between two lines.
pub struct BlameState {
    pub spans: Seq<BlameSpanView>,
    pub commit: Seq<char>,
    pub author: Seq<char>,
    pub start_line: nat,
    pub line_count: nat,
}

pub open spec fn blame_step(st: BlameState, line: Seq<char>) -> BlameState {
    match blame_header(line) {
        Some((commit, start, count)) => BlameState {
            commit,
            start_line: start,
            line_count: count,
            ..st
        },
        None => match strip_prefix(line, "author "@) {
            Some(author) => BlameState { author, ..st },
            None => if line.len() > 0 && line[0] == '\t' {
                BlameState {
                    spans: st.spans.push(
                        BlameSpanView {
                            commit: st.commit,
                            author: st.author,
                            start_line: st.start_line,
                            line_count: st.line_count,
                        },
                    ),
                    ..st
                }
            } else {
                st
            },
        },
    }
}

pub open spec fn blame_fold(ls: Seq<Seq<char>>) -> BlameState
    decreases ls.len(),
{
    if ls.len() == 0 {
        BlameState { spans: seq![], commit: seq![], author: seq![], start_line: 0, line_count: 0 }
    } else {
        blame_step(blame_fold(ls.drop_last()), ls.last())
    }
}

/// The spans of a `git blame --porcelain` output: one per content line, with the
/// commit, author and range of the header last seen.
pub open spec fn spec_blame_spans(output: Seq<char>) -> Seq<BlameSpanView> {
    blame_fold(lines(output)).spans
}

fn header(line: &[char]) -> (r: Option<(String, usize, usize)>)
    ensures
        r matches Some(h) ==> blame_header(line@) == Some((h.0@, h.1 as nat, h.2 as nat)),
        r is None ==> blame_header(line@) is None,
{
    let t = split_whitespace(line);
    proof {
        assert(views(t@).len() == t@.len());
    }
    if t.len() < 3 || utf8_len_below(t[0].as_slice(), 7) {
        return None;
    }
    let one = chars_of("1");
    let count: &[char] = if t.len() > 3 {
        t[3].as_slice()
    } else {
        one.as_slice()
    };
    let final_line = parse_decimal(t[2].as_slice(), usize::MAX as u64);
    let line_count = parse_decimal(count, usize::MAX as u64);
    match (final_line, line_count) {
        (Some(f), Some(c)) => Some((string_of_all(t[0].as_slice()), f as usize, c as usize)),
        _ => None,
    }
}

/// The spans of a `git blame --porcelain` output.
pub fn blame_spans(output: &str) -> (r: Vec<BlameSpan>)
    ensures
        spans_view(r@) == spec_blame_spans(output@),
{
    let chars = chars_of(output);
    let ls = split_lines(chars.as_slice());
    let ghost all = views(ls@);
    let mut spans: Vec<BlameSpan> = Vec::new();
    let mut commit = String::new();
    let mut author = String::new();
    let mut start_line: usize = 0;
    let mut line_count: usize = 0;
    let author_prefix = chars_of("author ");
    proof {
        assert(spans_view(spans@) =~= Seq::<BlameSpanView>::empty());
        assert(all.take(0) =~= Seq::<Seq<char>>::empty());
    }
    let mut i: usize = 0;
    while i < ls.len()
        invariant
            i <= ls@.len(),
            all == views(ls@),
            all == lines(output@),
            author_prefix@ == "author "@,
            blame_fold(all.take(i as int)) == (BlameState {
                spans: spans_view(spans@),
                commit: commit@,
                author: author@,
                start_line: start_line as nat,
                line_count: line_count as nat,
            }),
        decreases ls@.len() - i,
    {
        proof {
            assert(all.take(i + 1).drop_last() =~= all.take(i as int));
            assert(all.take(i + 1).last() == ls@[i as int]@);
        }
        let line = ls[i].as_slice();
        match header(line) {
            Some((c, s, n)) => {
                commit = c;
                start_line = s;
                line_count = n;
            },
            None => match strip_prefix_of(line, author_prefix.as_slice()) {
                Some(a) => {
                    author = string_of_all(a.as_slice());
                },
                None => {
                    if line.len() > 0 && line[0] == '\t' {
                        let ghost before = spans@;
                        spans.push(
                            BlameSpan {
                                commit: commit.clone(),
                                author: author.clone(),
                                start_line,
                                line_count,
                            },
                        );
                        proof {
                            assert(spans_view(spans@) =~= spans_view(before).push(
                                BlameSpanView {
                                    commit: commit@,
                                    author: author@,
                                    start_line: start_line as nat,
                                    line_count: line_count as nat,
                                },
                            ));
                        }
                    }
                },
            },
        }
        i = i + 1;
    }
    proof {
        assert(all.take(i as int) =~= all);
    }
    spans
}

impl LocalGitBlame {
    pub fn make(repository: LocalGitRepository, path: &str) -> (r: Self)
        ensures
            r@ == (LocalGitBlameView {
                repository: repository.path@,
                path: path@,
                revision: "HEAD"@,
            }),
    {
        LocalGitBlame { repository, path: lit(path), revision: lit("HEAD") }
    }

    /// Blames the file as it stands at `revision` (in place of `HEAD`).
    pub fn at(self, revision: &str) -> (r: Self)
        ensures
            r@ == (LocalGitBlameView { revision: revision@, ..self@ }),
    {
        LocalGitBlame { revision: lit(revision), ..self }
    }

    pub fn repository(&self) -> (r: &LocalGitRepository)
        ensures
            r.path@ == self@.repository,
    {
        &self.repository
    }

    /// The arguments of the `git blame` command.
    pub fn arguments(&self) -> (r: Vec<String>)
        ensures
            strings_view(r@) == seq![
                "blame"@,
                "--porcelain"@,
                self@.revision,
                "--"@,
                self@.path,
            ],
    {
        let r = vec![lit("blame"), lit("--porcelain"), self.revision.clone(), lit("--"), self.path.clone()];
        assert(strings_view(r@) =~= seq![
            "blame"@,
            "--porcelain"@,
            self@.revision,
            "--"@,
            self@.path,
        ]);
        r
    }

    /// The blame of the file, read from the output of the command.
    pub fn compute(self, output: &str) -> (r: Blame)
        ensures
            r.path@ == self@.path,
            spans_view(r.spans@) == spec_blame_spans(output@),
    {
        Blame { path: self.path, spans: blame_spans(output) }
    }
}

/// The text of the last `author ` line of `ls` (a line that is not a header),
/// or nothing where there is none.
pub open spec fn last_author(ls: Seq<Seq<char>>) -> Seq<char>
    decreases ls.len(),
{
    if ls.len() == 0 {
        seq![]
    } else if blame_header(ls.last()) is None && "author "@.is_prefix_of(ls.last()) {
        ls.last().skip("author "@.len() as int)
    } else {
        last_author(ls.drop_last())
    }
}

/// The commit, final line and count of the last header line of `ls`, where there
/// is one.
pub open spec fn last_header(ls: Seq<Seq<char>>) -> Option<(Seq<char>, nat, nat)>
    decreases ls.len(),
{
    if ls.len() == 0 {
        None
    } else if blame_header(ls.last()) is Some {
        blame_header(ls.last())
    } else {
        last_header(ls.drop_last())
    }
}

/// After any lines, the scan holds the author of the last `author ` line (a header
/// does not clear it) and the commit and range of the last header.
pub proof fn law_scan_holds_last_author_and_header(ls: Seq<Seq<char>>)
    ensures
        blame_fold(ls).author == last_author(ls),
        match last_header(ls) {
            Some((c, s, n)) => blame_fold(ls).commit == c && blame_fold(ls).start_line == s
                && blame_fold(ls).line_count == n,
            None => blame_fold(ls).commit == Seq::<char>::empty() && blame_fold(ls).start_line == 0
                && blame_fold(ls).line_count == 0,
        },
    decreases ls.len(),
{
    if ls.len() > 0 {
        law_scan_holds_last_author_and_header(ls.drop_last());
    }
}

/// Each content line (a tab-led line that is not a header) adds one span, whose
/// author is that of the last `author ` line before it and whose commit and range
/// are those of the last header before it.
pub proof fn law_span_has_last_author_and_header(ls: Seq<Seq<char>>, line: Seq<char>)
    requires
        line.len() > 0,
        line[0] == '\t',
        blame_header(line) is None,
    ensures
        blame_fold(ls.push(line)).spans.len() == blame_fold(ls).spans.len() + 1,
        blame_fold(ls.push(line)).spans.drop_last() == blame_fold(ls).spans,
        blame_fold(ls.push(line)).spans.last().author == last_author(ls),
        match last_header(ls) {
            Some((c, s, n)) => blame_fold(ls.push(line)).spans.last().commit == c
                && blame_fold(ls.push(line)).spans.last().start_line == s
                && blame_fold(ls.push(line)).spans.last().line_count == n,
            None => blame_fold(ls.push(line)).spans.last().commit == Seq::<char>::empty(),
        },
{
    reveal_strlit("author ");
    assert(!"author "@.is_prefix_of(line)) by { assert(line[0] != "author "@[0]); }
    assert(ls.push(line).drop_last() =~= ls);
    law_scan_holds_last_author_and_header(ls);
}

} // verus!
