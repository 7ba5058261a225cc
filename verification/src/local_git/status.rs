//! `git status --porcelain=v2`: the command and the parser of its output.
use vstd::prelude::*;

use crate::text::{
    chars_of, eq_chars, eq_to, first_where, lemma_split_unfold, lines, lit, split_char_n, split_lines, splitn, strings_view, string_of_all,
    strip_prefix, strip_prefix_of, views,
};

verus! {

broadcast use vstd::seq::group_seq_axioms;

#[derive(Clone, Debug, PartialEq, Eq)]
pub struct StatusEntry {
    pub path: String,
    pub staged: FileState,
    pub unstaged: FileState,
    pub original_path: Option<String>,
}

#[derive(Clone, Copy, Debug, PartialEq, Eq)]
pub enum FileState {
    Unmodified,
    Modified,
    Added,
    Deleted,
    Renamed,
    Copied,
    Untracked,
    Ignored,
}

pub struct StatusEntryView {
    pub path: Seq<char>,
    pub staged: FileState,
    pub unstaged: FileState,
    pub original_path: Option<Seq<char>>,
}

impl View for StatusEntry {
    type V = StatusEntryView;

    open spec fn view(&self) -> StatusEntryView {
        StatusEntryView {
            path: self.path@,
            staged: self.staged,
            unstaged: self.unstaged,
            original_path: match self.original_path {
                Some(p) => Some(p@),
                None => None,
            },
        }
    }
}

pub open spec fn entries_view(v: Seq<StatusEntry>) -> Seq<StatusEntryView> {
    v.map_values(|e: StatusEntry| e@)
}

/// The state that a porcelain status letter stands for.
pub open spec fn spec_file_state(c: char) -> FileState {
    if c == 'M' {
        FileState::Modified
    } else if c == 'A' {
        FileState::Added
    } else if c == 'D' {
        FileState::Deleted
    } else if c == 'R' {
        FileState::Renamed
    } else if c == 'C' {
        FileState::Copied
    } else if c == '?' {
        FileState::Untracked
    } else if c == '!' {
        FileState::Ignored
    } else {
        FileState::Unmodified
    }
}

pub fn file_state(c: char) -> (r: FileState)
    ensures
        r == spec_file_state(c),
{
    match c {
        'M' => FileState::Modified,
        'A' => FileState::Added,
        'D' => FileState::Deleted,
        'R' => FileState::Renamed,
        'C' => FileState::Copied,
        '?' => FileState::Untracked,
        '!' => FileState::Ignored,
        _ => FileState::Unmodified,
    }
}

/// The entry a line of `git status --porcelain=v2` describes: untracked (`? `),
/// ignored (`! `) or an ordinary change (`1 XY ... path`); other records give none.
pub open spec fn spec_status_entry(line: Seq<char>) -> Option<StatusEntryView> {
    match strip_prefix(line, "? "@) {
        Some(path) => Some(
            StatusEntryView {
                path,
                staged: FileState::Untracked,
                unstaged: FileState::Untracked,
                original_path: None,
            },
        ),
        None => match strip_prefix(line, "! "@) {
            Some(path) => Some(
                StatusEntryView {
                    path,
                    staged: FileState::Ignored,
                    unstaged: FileState::Ignored,
                    original_path: None,
                },
            ),
            None => {
                let parts = splitn(line, ' ', 9);
                if parts.len() < 3 || parts[0] != "1"@ || parts[1].len() < 2 {
                    None
                } else {
                    Some(
                        StatusEntryView {
                            path: parts.last(),
                            staged: spec_file_state(parts[1][0]),
                            unstaged: spec_file_state(parts[1][1]),
                            original_path: None,
                        },
                    )
                }
            },
        },
    }
}

/// The entries of the given lines: one per non-empty line that describes one.
pub open spec fn status_fold(ls: Seq<Seq<char>>) -> Seq<StatusEntryView>
    decreases ls.len(),
{
    if ls.len() == 0 {
        seq![]
    } else {
        let prev = status_fold(ls.drop_last());
        if ls.last().len() == 0 {
            prev
        } else {
            match spec_status_entry(ls.last()) {
                Some(e) => prev.push(e),
                None => prev,
            }
        }
    }
}

pub open spec fn spec_status(output: Seq<char>) -> Seq<StatusEntryView> {
    status_fold(lines(output))
}

pub fn status_entry(line: &[char]) -> (r: Option<StatusEntry>)
    ensures
        r matches Some(e) ==> spec_status_entry(line@) == Some(e@),
        r is None ==> spec_status_entry(line@) is None,
{
    if let Some(path) = strip_prefix_of(line, chars_of("? ").as_slice()) {
        return Some(
            StatusEntry {
                path: string_of_all(path.as_slice()),
                staged: FileState::Untracked,
                unstaged: FileState::Untracked,
                original_path: None,
            },
        );
    }
    if let Some(path) = strip_prefix_of(line, chars_of("! ").as_slice()) {
        return Some(
            StatusEntry {
                path: string_of_all(path.as_slice()),
                staged: FileState::Ignored,
                unstaged: FileState::Ignored,
                original_path: None,
            },
        );
    }
    let parts = split_char_n(line, ' ', 9);
    proof {
        assert(views(parts@).len() == parts@.len());
    }
    if parts.len() < 3 || !eq_chars(parts[0].as_slice(), chars_of("1").as_slice())
        || parts[1].len() < 2 {
        return None;
    }
    let last = parts.len() - 1;
    Some(
        StatusEntry {
            path: string_of_all(parts[last].as_slice()),
            staged: file_state(parts[1][0]),
            unstaged: file_state(parts[1][1]),
            original_path: None,
        },
    )
}

/// The entries of a `git status --porcelain=v2` output.
pub fn status_entries(output: &str) -> (r: Vec<StatusEntry>)
    ensures
        entries_view(r@) == spec_status(output@),
{
    let chars = chars_of(output);
    let ls = split_lines(chars.as_slice());
    let ghost all = views(ls@);
    let mut out: Vec<StatusEntry> = Vec::new();
    proof {
        assert(entries_view(out@) =~= Seq::<StatusEntryView>::empty());
        assert(all.take(0) =~= Seq::<Seq<char>>::empty());
    }
    let mut i: usize = 0;
    while i < ls.len()
        invariant
            i <= ls@.len(),
            all == views(ls@),
            all == lines(output@),
            status_fold(all.take(i as int)) == entries_view(out@),
        decreases ls@.len() - i,
    {
        proof {
            assert(all.take(i + 1).drop_last() =~= all.take(i as int));
            assert(all.take(i + 1).last() == ls@[i as int]@);
        }
        if ls[i].len() > 0 {
            match status_entry(ls[i].as_slice()) {
                Some(e) => {
                    let ghost before = out@;
                    out.push(e);
                    proof {
                        assert(entries_view(out@) =~= entries_view(before).push(e@));
                    }
                },
                None => {},
            }
        }
        i = i + 1;
    }
    proof {
        assert(all.take(i as int) =~= all);
    }
    out
}

/// The arguments of the `git status` command.
pub fn status_arguments() -> (r: Vec<String>)
    ensures
        strings_view(r@) == seq!["status"@, "--porcelain=v2"@],
{
    let r = vec![lit("status"), lit("--porcelain=v2")];
    assert(strings_view(r@) =~= seq!["status"@, "--porcelain=v2"@]);
    r
}

proof fn lemma_splitn_nonempty(s: Seq<char>, c: char, n: nat)
    requires
        n >= 1,
    ensures
        splitn(s, c, n).len() >= 1,
    decreases n,
{
    if n >= 2 {
        let i = first_where(s, eq_to(c));
        if 0 <= i < s.len() {
            lemma_splitn_nonempty(s.skip(i + 1), c, (n - 1) as nat);
        }
    }
}

/// An ordinary change record `1 XY ...` gives an entry whose staged state is the
/// state of `X` and whose unstaged state is that of `Y`: `M` modified, `A` added,
/// `D` deleted, `R` renamed, `C` copied, and `.` unmodified.
pub proof fn law_change_letters_give_their_states(x: char, y: char, rest: Seq<char>)
    requires
        x != ' ',
        y != ' ',
    ensures
        spec_status_entry(seq!['1', ' ', x, y, ' '] + rest) is Some,
        ({
            let e = spec_status_entry(seq!['1', ' ', x, y, ' '] + rest)->0;
            &&& x == 'M' ==> e.staged == FileState::Modified
            &&& x == 'A' ==> e.staged == FileState::Added
            &&& x == 'D' ==> e.staged == FileState::Deleted
            &&& x == 'R' ==> e.staged == FileState::Renamed
            &&& x == 'C' ==> e.staged == FileState::Copied
            &&& x == '.' ==> e.staged == FileState::Unmodified
            &&& y == 'M' ==> e.unstaged == FileState::Modified
            &&& y == 'A' ==> e.unstaged == FileState::Added
            &&& y == 'D' ==> e.unstaged == FileState::Deleted
            &&& y == 'R' ==> e.unstaged == FileState::Renamed
            &&& y == 'C' ==> e.unstaged == FileState::Copied
            &&& y == '.' ==> e.unstaged == FileState::Unmodified
        }),
{
    reveal_strlit("? ");
    reveal_strlit("! ");
    reveal_strlit("1");
    let line = seq!['1', ' ', x, y, ' '] + rest;
    assert(!"? "@.is_prefix_of(line)) by { assert(line[0] != "? "@[0]); }
    assert(!"! "@.is_prefix_of(line)) by { assert(line[0] != "! "@[0]); }
    lemma_split_unfold(line, ' ', 1);
    assert(line.take(1) =~= "1"@);
    let t = line.skip(2);
    assert(t =~= seq![x, y, ' '] + rest);
    lemma_split_unfold(t, ' ', 2);
    assert(t.take(2) =~= seq![x, y]);
    lemma_splitn_nonempty(t.skip(3), ' ', 7);
    let parts = splitn(line, ' ', 9);
    assert(parts == seq![line.take(1)] + splitn(t, ' ', 8));
    assert(splitn(t, ' ', 8) == seq![t.take(2)] + splitn(t.skip(3), ' ', 7));
    assert(parts[0] == "1"@);
    assert(parts[1] == seq![x, y]);
    assert(parts.len() >= 3);
}

/// An untracked record `? path` gives the path untracked on both sides, and an
/// ignored record `! path` the path ignored on both sides.
pub proof fn law_untracked_and_ignored_records(path: Seq<char>)
    ensures
        spec_status_entry(seq!['?', ' '] + path) == Some(
            StatusEntryView {
                path,
                staged: FileState::Untracked,
                unstaged: FileState::Untracked,
                original_path: None,
            },
        ),
        spec_status_entry(seq!['!', ' '] + path) == Some(
            StatusEntryView {
                path,
                staged: FileState::Ignored,
                unstaged: FileState::Ignored,
                original_path: None,
            },
        ),
{
    reveal_strlit("? ");
    reveal_strlit("! ");
    let u = seq!['?', ' '] + path;
    let g = seq!['!', ' '] + path;
    assert("? "@.is_prefix_of(u)) by { assert(u.take(2) =~= "? "@); }
    assert(u.skip(2) =~= path);
    assert(!"? "@.is_prefix_of(g)) by { assert(g[0] != "? "@[0]); }
    assert("! "@.is_prefix_of(g)) by { assert(g.take(2) =~= "! "@); }
    assert(g.skip(2) =~= path);
}

} // verus!
