//! The parser of `git diff` output.
use vstd::prelude::*;

use super::diff::{ChangeKind, DiffFile, DiffLine, Hunk, LineOrigin};
use crate::text::{
    chars_of, decimal, law_decimal_reads_back, lines, parse_decimal, parse_unsigned, slice_to_vec, split, split_char, split_lines,
    split_whitespace, starts_with, string_of, string_of_all, strip_prefix, strip_prefix_of,
    trim_end_char, trim_end_char_len, trim_start_signs, trim_start_signs_from, views, ws_tokens,
};

verus! {

broadcast use vstd::seq::group_seq_axioms, vstd::seq_lib::group_seq_properties;

/// A line of a hunk, over plain values.
pub struct DiffLineView {
    pub origin: LineOrigin,
    pub old_line_no: Option<nat>,
    pub new_line_no: Option<nat>,
    pub content: Seq<char>,
}

/// A hunk, over plain values.
pub struct HunkView {
    pub old_start: nat,
    pub old_lines: nat,
    pub new_start: nat,
    pub new_lines: nat,
    pub lines: Seq<DiffLineView>,
}

/// A file of a diff, over plain values.
pub struct DiffFileView {
    pub old_path: Option<Seq<char>>,
    pub new_path: Option<Seq<char>>,
    pub change: ChangeKind,
    pub hunks: Seq<HunkView>,
    pub additions: nat,
    pub deletions: nat,
    pub binary: bool,
}

/// What the parser holds between two lines: the files done, the file being read,
/// the line numbers the next lines get, and whether every count so far fits a `usize`.
pub struct DiffParseState {
    pub files: Seq<DiffFileView>,
    pub current: Option<DiffFileView>,
    pub old_line: nat,
    pub new_line: nat,
    pub fits: bool,
}

pub open spec fn opt_view(o: Option<String>) -> Option<Seq<char>> {
    match o {
        Some(s) => Some(s@),
        None => None,
    }
}

pub open spec fn opt_nat(o: Option<usize>) -> Option<nat> {
    match o {
        Some(v) => Some(v as nat),
        None => None,
    }
}

impl View for DiffLine {
    type V = DiffLineView;

    open spec fn view(&self) -> DiffLineView {
        DiffLineView {
            origin: self.origin,
            old_line_no: opt_nat(self.old_line_no),
            new_line_no: opt_nat(self.new_line_no),
            content: self.content@,
        }
    }
}

pub open spec fn diff_lines_view(v: Seq<DiffLine>) -> Seq<DiffLineView> {
    v.map_values(|l: DiffLine| l@)
}

impl View for Hunk {
    type V = HunkView;

    open spec fn view(&self) -> HunkView {
        HunkView {
            old_start: self.old_start as nat,
            old_lines: self.old_lines as nat,
            new_start: self.new_start as nat,
            new_lines: self.new_lines as nat,
            lines: diff_lines_view(self.lines@),
        }
    }
}

pub open spec fn hunks_view(v: Seq<Hunk>) -> Seq<HunkView> {
    v.map_values(|h: Hunk| h@)
}

impl View for DiffFile {
    type V = DiffFileView;

    open spec fn view(&self) -> DiffFileView {
        DiffFileView {
            old_path: opt_view(self.old_path),
            new_path: opt_view(self.new_path),
            change: self.change,
            hunks: hunks_view(self.hunks@),
            additions: self.additions as nat,
            deletions: self.deletions as nat,
            binary: self.binary,
        }
    }
}

pub open spec fn diff_files_view(v: Seq<DiffFile>) -> Seq<DiffFileView> {
    v.map_values(|f: DiffFile| f@)
}

/// A path of a `diff --git` header without its `a/` or `b/` prefix.
pub open spec fn clean_diff_path(p: Seq<char>) -> Seq<char> {
    match strip_prefix(p, "a/"@) {
        Some(rest) => rest,
        None => match strip_prefix(p, "b/"@) {
            Some(rest) => rest,
            None => p,
        },
    }
}

/// The file that a `diff --git <old> <new>` header opens.
pub open spec fn diff_file_from_header(paths: Seq<char>) -> DiffFileView {
    let tokens = ws_tokens(paths);
    DiffFileView {
        old_path: if tokens.len() > 0 {
            Some(clean_diff_path(tokens[0]))
        } else {
            None
        },
        new_path: if tokens.len() > 1 {
            Some(clean_diff_path(tokens[1]))
        } else {
            None
        },
        change: ChangeKind::Modified,
        hunks: seq![],
        additions: 0,
        deletions: 0,
        binary: false,
    }
}

/// The similarity of a `similarity index N%` line; `0` when it does not read as a `u8`.
pub open spec fn similarity_of(rest: Seq<char>) -> u8 {
    match parse_unsigned(trim_end_char(rest, '%'), 255) {
        Some(v) => v as u8,
        None => 0,
    }
}

/// A file after one of its metadata lines.
pub open spec fn file_after_metadata(f: DiffFileView, line: Seq<char>) -> DiffFileView {
    if "new file mode "@.is_prefix_of(line) {
        DiffFileView { old_path: None, change: ChangeKind::Added, ..f }
    } else if "deleted file mode "@.is_prefix_of(line) {
        DiffFileView { new_path: None, change: ChangeKind::Deleted, ..f }
    } else if "similarity index "@.is_prefix_of(line) {
        DiffFileView {
            change: ChangeKind::Renamed {
                similarity: similarity_of(line.skip("similarity index "@.len() as int)),
            },
            ..f
        }
    } else if "copy from "@.is_prefix_of(line) {
        DiffFileView { change: ChangeKind::Copied, ..f }
    } else if "old mode "@.is_prefix_of(line) {
        DiffFileView { change: ChangeKind::TypeChanged, ..f }
    } else if "Binary files "@.is_prefix_of(line) {
        DiffFileView { binary: true, ..f }
    } else {
        f
    }
}

/// The start and the line count of a hunk range such as `-12,4` or `+7`.
pub open spec fn hunk_range(value: Seq<char>) -> Option<(nat, nat)> {
    let pieces = split(trim_start_signs(value), ',');
    let count = if pieces.len() > 1 {
        pieces[1]
    } else {
        "1"@
    };
    match (parse_unsigned(pieces[0], usize::MAX as nat), parse_unsigned(count, usize::MAX as nat)) {
        (Some(start), Some(lines)) => Some((start, lines)),
        _ => None,
    }
}

/// The hunk that a `@@ -a,b +c,d @@` header opens.
pub open spec fn hunk_from_header(line: Seq<char>) -> Option<HunkView> {
    let tokens = ws_tokens(line);
    if tokens.len() < 3 {
        None
    } else {
        match (hunk_range(tokens[1]), hunk_range(tokens[2])) {
            (Some(old), Some(new)) => Some(
                HunkView {
                    old_start: old.0,
                    old_lines: old.1,
                    new_start: new.0,
                    new_lines: new.1,
                    lines: seq![],
                },
            ),
            _ => None,
        }
    }
}

pub open spec fn after_metadata(st: DiffParseState, line: Seq<char>) -> DiffParseState {
    match st.current {
        Some(f) => DiffParseState { current: Some(file_after_metadata(f, line)), ..st },
        None => st,
    }
}

pub open spec fn after_hunk_header(st: DiffParseState, line: Seq<char>) -> DiffParseState {
    if !"@@ "@.is_prefix_of(line) {
        st
    } else {
        match (st.current, hunk_from_header(line)) {
            (Some(f), Some(h)) => DiffParseState {
                current: Some(DiffFileView { hunks: f.hunks.push(h), ..f }),
                old_line: h.old_start,
                new_line: h.new_start,
                ..st
            },
            _ => st,
        }
    }
}

/// `hunks` with `line` appended to the lines of the last hunk.
pub open spec fn push_to_last_hunk(hunks: Seq<HunkView>, line: DiffLineView) -> Seq<HunkView> {
    hunks.update(
        hunks.len() - 1,
        HunkView { lines: hunks.last().lines.push(line), ..hunks.last() },
    )
}

pub open spec fn fits_usize(n: nat) -> bool {
    n <= usize::MAX
}

pub open spec fn after_hunk_line(st: DiffParseState, line: Seq<char>) -> DiffParseState {
    match st.current {
        None => st,
        Some(f) => if line.len() == 0 || f.hunks.len() == 0 {
            st
        } else if line[0] == '+' {
            let l = DiffLineView {
                origin: LineOrigin::Addition,
                old_line_no: None,
                new_line_no: Some(st.new_line),
                content: line.drop_first(),
            };
            DiffParseState {
                current: Some(
                    DiffFileView {
                        additions: f.additions + 1,
                        hunks: push_to_last_hunk(f.hunks, l),
                        ..f
                    },
                ),
                new_line: st.new_line + 1,
                fits: st.fits && fits_usize(f.additions + 1) && fits_usize(st.new_line + 1),
                ..st
            }
        } else if line[0] == '-' {
            let l = DiffLineView {
                origin: LineOrigin::Deletion,
                old_line_no: Some(st.old_line),
                new_line_no: None,
                content: line.drop_first(),
            };
            DiffParseState {
                current: Some(
                    DiffFileView {
                        deletions: f.deletions + 1,
                        hunks: push_to_last_hunk(f.hunks, l),
                        ..f
                    },
                ),
                old_line: st.old_line + 1,
                fits: st.fits && fits_usize(f.deletions + 1) && fits_usize(st.old_line + 1),
                ..st
            }
        } else if line[0] == ' ' {
            let l = DiffLineView {
                origin: LineOrigin::Context,
                old_line_no: Some(st.old_line),
                new_line_no: Some(st.new_line),
                content: line.drop_first(),
            };
            DiffParseState {
                current: Some(DiffFileView { hunks: push_to_last_hunk(f.hunks, l), ..f }),
                old_line: st.old_line + 1,
                new_line: st.new_line + 1,
                fits: st.fits && fits_usize(st.old_line + 1) && fits_usize(st.new_line + 1),
                ..st
            }
        } else {
            st
        },
    }
}

pub open spec fn with_current_done(files: Seq<DiffFileView>, current: Option<DiffFileView>) -> Seq<
    DiffFileView,
> {
    match current {
        Some(f) => files.push(f),
        None => files,
    }
}

/// The parser's state after one line.
pub open spec fn diff_step(st: DiffParseState, line: Seq<char>) -> DiffParseState {
    match strip_prefix(line, "diff --git "@) {
        Some(paths) => DiffParseState {
            files: with_current_done(st.files, st.current),
            current: Some(diff_file_from_header(paths)),
            ..st
        },
        None => after_hunk_line(after_hunk_header(after_metadata(st, line), line), line),
    }
}

pub open spec fn diff_start() -> DiffParseState {
    DiffParseState { files: seq![], current: None, old_line: 0, new_line: 0, fits: true }
}

/// The parser's state after the given lines.
pub open spec fn diff_fold(ls: Seq<Seq<char>>) -> DiffParseState
    decreases ls.len(),
{
    if ls.len() == 0 {
        diff_start()
    } else {
        diff_step(diff_fold(ls.drop_last()), ls.last())
    }
}

/// The files of a `git diff` output.
pub open spec fn spec_diff_files(output: Seq<char>) -> Seq<DiffFileView> {
    let st = diff_fold(lines(output));
    with_current_done(st.files, st.current)
}

/// No line number or count of the output exceeds `usize::MAX` (where the
/// parser would overflow).
pub open spec fn diff_counts_fit(output: Seq<char>) -> bool {
    diff_fold(lines(output)).fits
}

/// A path of a `diff --git` header without its `a/` or `b/` prefix.
fn clean_path(p: &[char]) -> (r: String)
    ensures
        r@ == clean_diff_path(p@),
{
    if let Some(rest) = strip_prefix_of(p, chars_of("a/").as_slice()) {
        return string_of_all(rest.as_slice());
    }
    if let Some(rest) = strip_prefix_of(p, chars_of("b/").as_slice()) {
        return string_of_all(rest.as_slice());
    }
    string_of_all(p)
}

fn diff_file(paths: &[char]) -> (r: DiffFile)
    ensures
        r@ == diff_file_from_header(paths@),
{
    let tokens = split_whitespace(paths);
    let old_path = if tokens.len() > 0 {
        Some(clean_path(tokens[0].as_slice()))
    } else {
        None
    };
    let new_path = if tokens.len() > 1 {
        Some(clean_path(tokens[1].as_slice()))
    } else {
        None
    };
    let r = DiffFile {
        old_path,
        new_path,
        change: ChangeKind::Modified,
        hunks: Vec::new(),
        additions: 0,
        deletions: 0,
        binary: false,
    };
    assert(hunks_view(r.hunks@) =~= Seq::<HunkView>::empty());
    r
}

fn similarity(rest: &[char]) -> (r: u8)
    ensures
        r == similarity_of(rest@),
{
    let end = trim_end_char_len(rest, rest.len(), '%');
    assert(rest@.take(rest@.len() as int) =~= rest@);
    let digits = slice_to_vec(rest, 0, end);
    assert(digits@ =~= rest@.take(end as int));
    match parse_decimal(digits.as_slice(), 255) {
        Some(v) => v as u8,
        None => 0,
    }
}

fn apply_metadata(f: DiffFile, line: &[char]) -> (r: DiffFile)
    ensures
        r@ == file_after_metadata(f@, line@),
{
    if starts_with(line, chars_of("new file mode ").as_slice()) {
        return DiffFile { old_path: None, change: ChangeKind::Added, ..f };
    }
    if starts_with(line, chars_of("deleted file mode ").as_slice()) {
        return DiffFile { new_path: None, change: ChangeKind::Deleted, ..f };
    }
    let similarity_prefix = chars_of("similarity index ");
    if let Some(rest) = strip_prefix_of(line, similarity_prefix.as_slice()) {
        return DiffFile {
            change: ChangeKind::Renamed { similarity: similarity(rest.as_slice()) },
            ..f
        };
    }
    if starts_with(line, chars_of("copy from ").as_slice()) {
        return DiffFile { change: ChangeKind::Copied, ..f };
    }
    if starts_with(line, chars_of("old mode ").as_slice()) {
        return DiffFile { change: ChangeKind::TypeChanged, ..f };
    }
    if starts_with(line, chars_of("Binary files ").as_slice()) {
        return DiffFile { binary: true, ..f };
    }
    f
}

/// The start and line count of a hunk range.
fn range(value: &[char]) -> (r: Option<(usize, usize)>)
    ensures
        r matches Some(p) ==> hunk_range(value@) == Some((p.0 as nat, p.1 as nat)),
        r is None ==> hunk_range(value@) is None,
{
    let from = trim_start_signs_from(value);
    let rest = slice_to_vec(value, from, value.len());
    let pieces = split_char(rest.as_slice(), ',');
    proof {
        assert(rest@ =~= trim_start_signs(value@));
        assert(views(pieces@).len() == pieces@.len());
    }
    let one = chars_of("1");
    let count: &[char] = if pieces.len() > 1 {
        pieces[1].as_slice()
    } else {
        one.as_slice()
    };
    let start = parse_decimal(pieces[0].as_slice(), usize::MAX as u64);
    let lines = parse_decimal(count, usize::MAX as u64);
    match (start, lines) {
        (Some(a), Some(b)) => Some((a as usize, b as usize)),
        _ => None,
    }
}

fn hunk(line: &[char]) -> (r: Option<Hunk>)
    ensures
        r matches Some(h) ==> hunk_from_header(line@) == Some(h@),
        r is None ==> hunk_from_header(line@) is None,
{
    let tokens = split_whitespace(line);
    proof {
        assert(views(tokens@).len() == tokens@.len());
    }
    if tokens.len() < 3 {
        return None;
    }
    let old = range(tokens[1].as_slice());
    let new = range(tokens[2].as_slice());
    match (old, new) {
        (Some(o), Some(n)) => {
            let h = Hunk {
                old_start: o.0,
                old_lines: o.1,
                new_start: n.0,
                new_lines: n.1,
                lines: Vec::new(),
            };
            assert(diff_lines_view(h.lines@) =~= Seq::<DiffLineView>::empty());
            Some(h)
        },
        _ => None,
    }
}

fn push_to_last(hunks: Vec<Hunk>, line: DiffLine) -> (r: Vec<Hunk>)
    requires
        hunks@.len() > 0,
    ensures
        hunks_view(r@) == push_to_last_hunk(hunks_view(hunks@), line@),
        r@.len() == hunks@.len(),
{
    let mut hunks = hunks;
    let ghost before = hunks@;
    let mut last = hunks.pop().unwrap();
    let ghost last_before = last;
    last.lines.push(line);
    proof {
        assert(diff_lines_view(last.lines@) =~= diff_lines_view(last_before.lines@).push(line@));
    }
    hunks.push(last);
    proof {
        assert(hunks@ =~= before.update(before.len() - 1, last));
        assert(hunks_view(hunks@) =~= push_to_last_hunk(hunks_view(before), line@));
    }
    hunks
}

/// The parser's state as the exec code holds it.
pub open spec fn exec_state(
    files: Seq<DiffFile>,
    current: Option<DiffFile>,
    old_line: usize,
    new_line: usize,
) -> DiffParseState {
    DiffParseState {
        files: diff_files_view(files),
        current: match current {
            Some(f) => Some(f@),
            None => None,
        },
        old_line: old_line as nat,
        new_line: new_line as nat,
        fits: true,
    }
}

/// The state after a line of a hunk, or `None` where a count would pass
/// `usize::MAX`.
fn hunk_line(
    current: Option<DiffFile>,
    old_line: usize,
    new_line: usize,
    line: &[char],
    files: Ghost<Seq<DiffFile>>,
) -> (r: Option<(Option<DiffFile>, usize, usize)>)
    ensures
        r is Some <==> after_hunk_line(exec_state(files@, current, old_line, new_line), line@).fits,
        r matches Some(t) ==> exec_state(files@, t.0, t.1, t.2) == after_hunk_line(
            exec_state(files@, current, old_line, new_line),
            line@,
        ),
{
    let f = match current {
        Some(f) => f,
        None => return Some((None, old_line, new_line)),
    };
    proof {
        assert(hunks_view(f.hunks@).len() == f.hunks@.len());
    }
    if line.len() == 0 || f.hunks.len() == 0 {
        return Some((Some(f), old_line, new_line));
    }
    let first = line[0];
    if first == '+' {
        if f.additions == usize::MAX || new_line == usize::MAX {
            return None;
        }
        let content = string_of(line, 1, line.len());
        proof {
            assert(content@ =~= line@.drop_first());
        }
        let l = DiffLine {
            origin: LineOrigin::Addition,
            old_line_no: None,
            new_line_no: Some(new_line),
            content,
        };
        let additions = f.additions + 1;
        let hunks = push_to_last(f.hunks, l);
        Some((Some(DiffFile { additions, hunks, ..f }), old_line, new_line + 1))
    } else if first == '-' {
        if f.deletions == usize::MAX || old_line == usize::MAX {
            return None;
        }
        let content = string_of(line, 1, line.len());
        proof {
            assert(content@ =~= line@.drop_first());
        }
        let l = DiffLine {
            origin: LineOrigin::Deletion,
            old_line_no: Some(old_line),
            new_line_no: None,
            content,
        };
        let deletions = f.deletions + 1;
        let hunks = push_to_last(f.hunks, l);
        Some((Some(DiffFile { deletions, hunks, ..f }), old_line + 1, new_line))
    } else if first == ' ' {
        if old_line == usize::MAX || new_line == usize::MAX {
            return None;
        }
        let content = string_of(line, 1, line.len());
        proof {
            assert(content@ =~= line@.drop_first());
        }
        let l = DiffLine {
            origin: LineOrigin::Context,
            old_line_no: Some(old_line),
            new_line_no: Some(new_line),
            content,
        };
        let hunks = push_to_last(f.hunks, l);
        Some((Some(DiffFile { hunks, ..f }), old_line + 1, new_line + 1))
    } else {
        Some((Some(f), old_line, new_line))
    }
}

fn after_header_line(
    current: Option<DiffFile>,
    old_line: usize,
    new_line: usize,
    line: &[char],
    files: Ghost<Seq<DiffFile>>,
) -> (r: (Option<DiffFile>, usize, usize))
    ensures
        exec_state(files@, r.0, r.1, r.2) == after_hunk_header(
            exec_state(files@, current, old_line, new_line),
            line@,
        ),
{
    if !starts_with(line, chars_of("@@ ").as_slice()) {
        return (current, old_line, new_line);
    }
    let mut f = match current {
        Some(f) => f,
        None => return (None, old_line, new_line),
    };
    match hunk(line) {
        Some(h) => {
            let o = h.old_start;
            let n = h.new_start;
            let ghost before = f.hunks@;
            f.hunks.push(h);
            proof {
                assert(hunks_view(f.hunks@) =~= hunks_view(before).push(h@));
            }
            (Some(f), o, n)
        },
        None => (Some(f), old_line, new_line),
    }
}

proof fn lemma_step_keeps_fits_backwards(st: DiffParseState, line: Seq<char>)
    requires
        diff_step(st, line).fits,
    ensures
        st.fits,
{
}

proof fn lemma_fold_fits_prefix(ls: Seq<Seq<char>>, k: int)
    requires
        0 <= k <= ls.len(),
        diff_fold(ls).fits,
    ensures
        diff_fold(ls.take(k)).fits,
    decreases ls.len() - k,
{
    if k < ls.len() {
        lemma_step_keeps_fits_backwards(diff_fold(ls.drop_last()), ls.last());
        lemma_fold_fits_prefix(ls.drop_last(), k);
        assert(ls.drop_last().take(k) =~= ls.take(k));
    } else {
        assert(ls.take(k) =~= ls);
    }
}

/// The parser's state after one more line, or `None` where a count would pass
/// `usize::MAX`.
fn step(
    files: Vec<DiffFile>,
    current: Option<DiffFile>,
    old_line: usize,
    new_line: usize,
    line: &[char],
) -> (r: Option<(Vec<DiffFile>, Option<DiffFile>, usize, usize)>)
    ensures
        r is Some <==> diff_step(exec_state(files@, current, old_line, new_line), line@).fits,
        r matches Some(t) ==> exec_state(t.0@, t.1, t.2, t.3) == diff_step(
            exec_state(files@, current, old_line, new_line),
            line@,
        ),
{
    let header = chars_of("diff --git ");
    if let Some(paths) = strip_prefix_of(line, header.as_slice()) {
        let mut files = files;
        let ghost before = files@;
        match current {
            Some(f) => {
                files.push(f);
                proof {
                    assert(diff_files_view(files@) =~= diff_files_view(before).push(f@));
                }
            },
            None => {},
        }
        return Some((files, Some(diff_file(paths.as_slice())), old_line, new_line));
    }
    let current = match current {
        Some(f) => Some(apply_metadata(f, line)),
        None => None,
    };
    let (current, old_line, new_line) = after_header_line(
        current,
        old_line,
        new_line,
        line,
        Ghost(files@),
    );
    match hunk_line(current, old_line, new_line, line, Ghost(files@)) {
        Some((current, old_line, new_line)) => Some((files, current, old_line, new_line)),
        None => None,
    }
}

/// The files of a `git diff` output, or `None` where a line number or a count
/// would pass `usize::MAX`.
pub fn diff_files_checked(output: &str) -> (r: Option<Vec<DiffFile>>)
    ensures
        r is Some <==> diff_counts_fit(output@),
        r matches Some(v) ==> diff_files_view(v@) == spec_diff_files(output@),
{
    let chars = chars_of(output);
    let ls = split_lines(chars.as_slice());
    let ghost all = views(ls@);
    let mut files: Vec<DiffFile> = Vec::new();
    let mut current: Option<DiffFile> = None;
    let mut old_line: usize = 0;
    let mut new_line: usize = 0;
    proof {
        assert(diff_files_view(files@) =~= Seq::<DiffFileView>::empty());
        assert(all.take(0) =~= Seq::<Seq<char>>::empty());
    }
    let mut i: usize = 0;
    while i < ls.len()
        invariant
            i <= ls@.len(),
            all == views(ls@),
            all == lines(output@),
            exec_state(files@, current, old_line, new_line) == diff_fold(all.take(i as int)),
        decreases ls@.len() - i,
    {
        proof {
            assert(all.take(i + 1).drop_last() =~= all.take(i as int));
            assert(all.take(i + 1).last() == ls@[i as int]@);
        }
        match step(files, current, old_line, new_line, ls[i].as_slice()) {
            Some((f2, c2, o2, n2)) => {
                files = f2;
                current = c2;
                old_line = o2;
                new_line = n2;
            },
            None => {
                proof {
                    if diff_fold(all).fits {
                        lemma_fold_fits_prefix(all, i + 1);
                    }
                }
                return None;
            },
        }
        i = i + 1;
    }
    proof {
        assert(all.take(i as int) =~= all);
    }
    let ghost before = files@;
    match current {
        Some(f) => {
            files.push(f);
            proof {
                assert(diff_files_view(files@) =~= diff_files_view(before).push(f@));
            }
        },
        None => {},
    }
    Some(files)
}

/// The files of a `git diff` output.
pub fn diff_files(output: &str) -> (r: Vec<DiffFile>)
    requires
        diff_counts_fit(output@),
    ensures
        diff_files_view(r@) == spec_diff_files(output@),
{
    match diff_files_checked(output) {
        Some(files) => files,
        None => {
            assert(false);
            Vec::new()
        },
    }
}

/// How many of `lines` come from `origin`.
pub open spec fn origin_count(lines: Seq<DiffLineView>, origin: LineOrigin) -> nat
    decreases lines.len(),
{
    if lines.len() == 0 {
        0
    } else {
        origin_count(lines.drop_last(), origin) + if lines.last().origin == origin {
            1nat
        } else {
            0nat
        }
    }
}

/// How many lines of all of `hunks` come from `origin`.
pub open spec fn hunks_origin_count(hunks: Seq<HunkView>, origin: LineOrigin) -> nat
    decreases hunks.len(),
{
    if hunks.len() == 0 {
        0
    } else {
        hunks_origin_count(hunks.drop_last(), origin) + origin_count(hunks.last().lines, origin)
    }
}

/// The counts of a file are those of the lines of its hunks.
pub open spec fn counts_agree(f: DiffFileView) -> bool {
    &&& f.additions == hunks_origin_count(f.hunks, LineOrigin::Addition)
    &&& f.deletions == hunks_origin_count(f.hunks, LineOrigin::Deletion)
}

spec fn state_counts_agree(st: DiffParseState) -> bool {
    &&& forall|i: int| 0 <= i < st.files.len() ==> counts_agree(#[trigger] st.files[i])
    &&& st.current matches Some(f) ==> counts_agree(f)
}

proof fn lemma_push_hunk_keeps_counts(hunks: Seq<HunkView>, h: HunkView, origin: LineOrigin)
    requires
        h.lines.len() == 0,
    ensures
        hunks_origin_count(hunks.push(h), origin) == hunks_origin_count(hunks, origin),
{
    assert(hunks.push(h).drop_last() =~= hunks);
}

proof fn lemma_push_line_counts(hunks: Seq<HunkView>, l: DiffLineView, origin: LineOrigin)
    requires
        hunks.len() > 0,
    ensures
        hunks_origin_count(push_to_last_hunk(hunks, l), origin) == hunks_origin_count(hunks, origin)
            + if l.origin == origin {
            1nat
        } else {
            0nat
        },
{
    let updated = push_to_last_hunk(hunks, l);
    assert(updated.drop_last() =~= hunks.drop_last());
    assert(updated.last().lines.drop_last() =~= hunks.last().lines);
}

proof fn lemma_step_keeps_counts(st: DiffParseState, line: Seq<char>)
    requires
        state_counts_agree(st),
    ensures
        state_counts_agree(diff_step(st, line)),
{
    match strip_prefix(line, "diff --git "@) {
        Some(paths) => {
            let files = with_current_done(st.files, st.current);
            assert forall|i: int| 0 <= i < files.len() implies counts_agree(#[trigger] files[i]) by {
                if i < st.files.len() {
                    assert(files[i] == st.files[i]);
                }
            }
            assert(diff_file_from_header(paths).hunks.len() == 0);
        },
        None => {
            let s1 = after_metadata(st, line);
            let s2 = after_hunk_header(s1, line);
            assert(state_counts_agree(s1));
            if "@@ "@.is_prefix_of(line) {
                match (s1.current, hunk_from_header(line)) {
                    (Some(f), Some(h)) => {
                        lemma_push_hunk_keeps_counts(f.hunks, h, LineOrigin::Addition);
                        lemma_push_hunk_keeps_counts(f.hunks, h, LineOrigin::Deletion);
                    },
                    _ => {},
                }
            }
            assert(state_counts_agree(s2));
            match s2.current {
                Some(f) => {
                    if line.len() != 0 && f.hunks.len() != 0 {
                        let origin = if line[0] == '+' {
                            LineOrigin::Addition
                        } else if line[0] == '-' {
                            LineOrigin::Deletion
                        } else {
                            LineOrigin::Context
                        };
                        let l = DiffLineView {
                            origin,
                            old_line_no: if line[0] == '+' {
                                None
                            } else {
                                Some(s2.old_line)
                            },
                            new_line_no: if line[0] == '-' {
                                None
                            } else {
                                Some(s2.new_line)
                            },
                            content: line.drop_first(),
                        };
                        lemma_push_line_counts(f.hunks, l, LineOrigin::Addition);
                        lemma_push_line_counts(f.hunks, l, LineOrigin::Deletion);
                    }
                },
                None => {},
            }
        },
    }
}

proof fn lemma_fold_keeps_counts(ls: Seq<Seq<char>>)
    ensures
        state_counts_agree(diff_fold(ls)),
    decreases ls.len(),
{
    if ls.len() > 0 {
        lemma_fold_keeps_counts(ls.drop_last());
        lemma_step_keeps_counts(diff_fold(ls.drop_last()), ls.last());
    }
}

/// A line of a file's metadata (not a header, a hunk header or a hunk line) changes
/// only the open file.
proof fn lemma_metadata_step(st: DiffParseState, line: Seq<char>)
    requires
        st.current is Some,
        line.len() > 0,
        line[0] != '+' && line[0] != '-' && line[0] != ' ' && line[0] != '@',
        !"diff --git "@.is_prefix_of(line),
    ensures
        diff_step(st, line) == (DiffParseState {
            current: Some(file_after_metadata(st.current->0, line)),
            ..st
        }),
{
    reveal_strlit("@@ ");
    assert(!"@@ "@.is_prefix_of(line)) by {
        if "@@ "@.is_prefix_of(line) {
            assert(line[0] == "@@ "@[0]);
        }
    }
}

/// The metadata lines of a file set what kind of change it is: `new file mode`
/// makes it an addition with no old path, `deleted file mode` a deletion with no
/// new path, `similarity index N%` a rename with similarity `N`, `copy from` a
/// copy, `old mode` a change of type, and `Binary files` marks it binary; nothing
/// else of the parse changes.
pub proof fn law_metadata_lines_set_the_change(st: DiffParseState, rest: Seq<char>, n: u8)
    requires
        st.current is Some,
    ensures
        diff_step(st, "new file mode "@ + rest) == (DiffParseState {
            current: Some(DiffFileView { old_path: None, change: ChangeKind::Added, ..st.current->0 }),
            ..st
        }),
        diff_step(st, "deleted file mode "@ + rest) == (DiffParseState {
            current: Some(DiffFileView { new_path: None, change: ChangeKind::Deleted, ..st.current->0 }),
            ..st
        }),
        diff_step(st, "similarity index "@ + decimal(n as nat) + "%"@) == (DiffParseState {
            current: Some(DiffFileView { change: ChangeKind::Renamed { similarity: n }, ..st.current->0 }),
            ..st
        }),
        diff_step(st, "copy from "@ + rest) == (DiffParseState {
            current: Some(DiffFileView { change: ChangeKind::Copied, ..st.current->0 }),
            ..st
        }),
        diff_step(st, "old mode "@ + rest) == (DiffParseState {
            current: Some(DiffFileView { change: ChangeKind::TypeChanged, ..st.current->0 }),
            ..st
        }),
        diff_step(st, "Binary files "@ + rest) == (DiffParseState {
            current: Some(DiffFileView { binary: true, ..st.current->0 }),
            ..st
        }),
{
    reveal_strlit("diff --git ");
    reveal_strlit("new file mode ");
    reveal_strlit("deleted file mode ");
    reveal_strlit("similarity index ");
    reveal_strlit("copy from ");
    reveal_strlit("old mode ");
    reveal_strlit("Binary files ");
    reveal_strlit("%");
    let f = st.current->0;

    let l1 = "new file mode "@ + rest;
    assert(l1[0] == 'n');
    assert(!"diff --git "@.is_prefix_of(l1)) by { assert(l1[0] != "diff --git "@[0]); }
    assert("new file mode "@.is_prefix_of(l1)) by { assert(l1.take(14) =~= "new file mode "@); }
    lemma_metadata_step(st, l1);

    let l2 = "deleted file mode "@ + rest;
    assert(l2[1] == 'e');
    assert(!"diff --git "@.is_prefix_of(l2)) by { assert(l2[1] != "diff --git "@[1]); }
    assert(!"new file mode "@.is_prefix_of(l2)) by { assert(l2[0] != "new file mode "@[0]); }
    assert("deleted file mode "@.is_prefix_of(l2)) by { assert(l2.take(18) =~= "deleted file mode "@); }
    lemma_metadata_step(st, l2);

    law_decimal_reads_back(n as nat, 255);
    let digits = decimal(n as nat);
    let l3 = "similarity index "@ + digits + "%"@;
    assert(l3[0] == 's');
    assert(!"diff --git "@.is_prefix_of(l3)) by { assert(l3[0] != "diff --git "@[0]); }
    assert(!"new file mode "@.is_prefix_of(l3)) by { assert(l3[0] != "new file mode "@[0]); }
    assert(!"deleted file mode "@.is_prefix_of(l3)) by { assert(l3[0] != "deleted file mode "@[0]); }
    assert("similarity index "@.is_prefix_of(l3)) by { assert(l3.take(17) =~= "similarity index "@); }
    let tail = l3.skip(17);
    assert(tail =~= digits + seq!['%']);
    assert(tail.drop_last() =~= digits);
    assert(trim_end_char(tail, '%') == trim_end_char(digits, '%'));
    assert(trim_end_char(digits, '%') == digits);
    assert(similarity_of(tail) == n);
    lemma_metadata_step(st, l3);

    let l4 = "copy from "@ + rest;
    assert(l4[0] == 'c');
    assert(!"diff --git "@.is_prefix_of(l4)) by { assert(l4[0] != "diff --git "@[0]); }
    assert(!"new file mode "@.is_prefix_of(l4)) by { assert(l4[0] != "new file mode "@[0]); }
    assert(!"deleted file mode "@.is_prefix_of(l4)) by { assert(l4[0] != "deleted file mode "@[0]); }
    assert(!"similarity index "@.is_prefix_of(l4)) by { assert(l4[0] != "similarity index "@[0]); }
    assert("copy from "@.is_prefix_of(l4)) by { assert(l4.take(10) =~= "copy from "@); }
    lemma_metadata_step(st, l4);

    let l5 = "old mode "@ + rest;
    assert(l5[0] == 'o');
    assert(!"diff --git "@.is_prefix_of(l5)) by { assert(l5[0] != "diff --git "@[0]); }
    assert(!"new file mode "@.is_prefix_of(l5)) by { assert(l5[0] != "new file mode "@[0]); }
    assert(!"deleted file mode "@.is_prefix_of(l5)) by { assert(l5[0] != "deleted file mode "@[0]); }
    assert(!"similarity index "@.is_prefix_of(l5)) by { assert(l5[0] != "similarity index "@[0]); }
    assert(!"copy from "@.is_prefix_of(l5)) by { assert(l5[0] != "copy from "@[0]); }
    assert("old mode "@.is_prefix_of(l5)) by { assert(l5.take(9) =~= "old mode "@); }
    lemma_metadata_step(st, l5);

    let l6 = "Binary files "@ + rest;
    assert(l6[0] == 'B');
    assert(!"diff --git "@.is_prefix_of(l6)) by { assert(l6[0] != "diff --git "@[0]); }
    assert(!"new file mode "@.is_prefix_of(l6)) by { assert(l6[0] != "new file mode "@[0]); }
    assert(!"deleted file mode "@.is_prefix_of(l6)) by { assert(l6[0] != "deleted file mode "@[0]); }
    assert(!"similarity index "@.is_prefix_of(l6)) by { assert(l6[0] != "similarity index "@[0]); }
    assert(!"copy from "@.is_prefix_of(l6)) by { assert(l6[0] != "copy from "@[0]); }
    assert(!"old mode "@.is_prefix_of(l6)) by { assert(l6[0] != "old mode "@[0]); }
    assert("Binary files "@.is_prefix_of(l6)) by { assert(l6.take(13) =~= "Binary files "@); }
    lemma_metadata_step(st, l6);
}

/// Every file of a parsed diff counts as its additions exactly the added lines of
/// its hunks, and as its deletions exactly the deleted ones.
pub proof fn law_counts_are_those_of_the_lines(output: Seq<char>)
    ensures
        forall|i: int|
            0 <= i < spec_diff_files(output).len() ==> counts_agree(
                #[trigger] spec_diff_files(output)[i],
            ),
{
    let st = diff_fold(lines(output));
    lemma_fold_keeps_counts(lines(output));
    let files = spec_diff_files(output);
    assert forall|i: int| 0 <= i < files.len() implies counts_agree(#[trigger] files[i]) by {
        if i < st.files.len() {
            assert(files[i] == st.files[i]);
        }
    }
}

} // verus!
