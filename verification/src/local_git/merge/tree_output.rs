//! The output of `git merge-tree --write-tree --messages -z`: the tree that the
//! merge wrote, the stages of each conflicted path, and git's messages.
use vstd::prelude::*;
use vstd::utf8::{encode_utf8, is_char_boundary};

use super::conflict_text::{conflict_regions, scan_fold, spec_conflict_regions};
use super::{opt_chars, regions_view, ConflictKind, ConflictRegion, RegionView};
use crate::error::{CognitionError, CognitionResult};
use crate::keyed::{
    has_key, key_index, keyed_map, keys_of, keys_sorted, lemma_keyed_at, lemma_keyed_insert,
    lemma_keyed_update,
};
use crate::repos::resources::clone_opt_string;
use crate::text::{
    lines,
    cat3, chars_lt, chars_of, compare_chars, contains_bytes, contains_seq, occurs_at, eq_chars, field, find_bytes,
    find_seq, join_lines, join_with_newlines, lemma_chars_lt_irreflexive, lemma_chars_lt_total,
    lemma_chars_lt_transitive, split, split_char, split_char_n, split_whitespace, splitn,
    string_of_all, strings_view, views, ws_tokens, Precedence,
};

verus! {

broadcast use vstd::seq::group_seq_axioms;

/// How many bytes of the messages after a path's mention tell the kind of its conflict.
pub const MESSAGE_WINDOW: usize = 256;

/// The blobs of the stages of a conflicted path: the base (stage 1), ours (stage 2)
/// and theirs (stage 3).
#[derive(Clone, Debug, Default, PartialEq, Eq)]
pub struct ConflictStages {
    pub base: Option<String>,
    pub ours: Option<String>,
    pub theirs: Option<String>,
}

pub struct StagesView {
    pub base: Option<Seq<char>>,
    pub ours: Option<Seq<char>>,
    pub theirs: Option<Seq<char>>,
}

impl View for ConflictStages {
    type V = StagesView;

    open spec fn view(&self) -> StagesView {
        StagesView {
            base: opt_chars(self.base),
            ours: opt_chars(self.ours),
            theirs: opt_chars(self.theirs),
        }
    }
}

pub open spec fn no_stages() -> StagesView {
    StagesView { base: None, ours: None, theirs: None }
}

#[derive(Clone, Debug, PartialEq, Eq)]
struct StageEntry {
    path: String,
    stages: ConflictStages,
}

/// The parsed output: the tree, the conflicted paths in the order of their names,
/// each with its stages, and the messages joined by newlines.
#[derive(Clone, Debug, Default, PartialEq, Eq)]
pub struct MergeTreeOutput {
    tree_oid: String,
    stages: Vec<StageEntry>,
    messages_blob: String,
}

pub struct MergeTreeView {
    pub tree_oid: Seq<char>,
    pub entries: Seq<(Seq<char>, StagesView)>,
    pub messages: Seq<char>,
}

spec fn entries_view(v: Seq<StageEntry>) -> Seq<(Seq<char>, StagesView)> {
    v.map_values(|e: StageEntry| (e.path@, e.stages@))
}

impl View for MergeTreeOutput {
    type V = MergeTreeView;

    closed spec fn view(&self) -> MergeTreeView {
        MergeTreeView {
            tree_oid: self.tree_oid@,
            entries: entries_view(self.stages@),
            messages: self.messages_blob@,
        }
    }
}

/// `stage` (`1`, `2` or `3`) of a path is the blob `blob`; another stage changes nothing.
pub open spec fn with_stage(cur: StagesView, stage: Seq<char>, blob: Seq<char>) -> StagesView {
    if stage == "1"@ {
        StagesView { base: Some(blob), ..cur }
    } else if stage == "2"@ {
        StagesView { ours: Some(blob), ..cur }
    } else if stage == "3"@ {
        StagesView { theirs: Some(blob), ..cur }
    } else {
        cur
    }
}

/// A stage line `<mode> <blob> <stage>\t<path>` records its stage for the path (the
/// path is recorded even for another stage); a token without a tab is ignored.
pub open spec fn stage_step(m: Map<Seq<char>, StagesView>, token: Seq<char>) -> Map<
    Seq<char>,
    StagesView,
> {
    let halves = splitn(token, '\t', 2);
    if halves.len() == 2 {
        let path = halves[1];
        let parts = ws_tokens(halves[0]);
        let cur = if m.contains_key(path) {
            m[path]
        } else {
            no_stages()
        };
        m.insert(path, with_stage(cur, field(parts, 2), field(parts, 1)))
    } else {
        m
    }
}

/// What the parse has gathered after some tokens.
pub struct ParseState {
    pub stages: Map<Seq<char>, StagesView>,
    pub in_messages: bool,
    pub messages: Seq<Seq<char>>,
}

/// The first empty token ends the stage lines; empty tokens are skipped, and the
/// tokens after it are messages.
pub open spec fn parse_step(st: ParseState, token: Seq<char>) -> ParseState {
    if token.len() == 0 {
        ParseState { in_messages: true, ..st }
    } else if st.in_messages {
        ParseState { messages: st.messages.push(token), ..st }
    } else {
        ParseState { stages: stage_step(st.stages, token), ..st }
    }
}

pub open spec fn parse_fold(tokens: Seq<Seq<char>>) -> ParseState
    decreases tokens.len(),
{
    if tokens.len() == 0 {
        ParseState { stages: Map::empty(), in_messages: false, messages: seq![] }
    } else {
        parse_step(parse_fold(tokens.drop_last()), tokens.last())
    }
}

/// `o` is what the NUL-separated `output` says: the tree is its first token, and
/// the rest gives the stages, in the order of the paths, and the messages.
pub open spec fn parsed_from(o: MergeTreeView, output: Seq<char>) -> bool {
    let tokens = split(output, '\0');
    let st = parse_fold(tokens.drop_first());
    &&& o.tree_oid == tokens[0]
    &&& keys_sorted(o.entries)
    &&& keyed_map(o.entries) == st.stages
    &&& o.messages == join_lines(st.messages)
}

/// The bytes after the first mention of `path` in the messages that tell its kind:
/// from the mention, `MESSAGE_WINDOW` bytes past its end or up to the end.
pub open spec fn window_end(len: int, stop: int) -> int {
    if stop + MESSAGE_WINDOW <= len {
        stop + MESSAGE_WINDOW
    } else {
        len
    }
}

pub open spec fn byte_window(mb: Seq<u8>, pb: Seq<u8>) -> Option<Seq<u8>> {
    match find_seq(mb, pb) {
        Some(start) => Some(mb.subrange(start, window_end(mb.len() as int, start + pb.len()))),
        None => None,
    }
}

pub open spec fn window_fits_bytes(mb: Seq<u8>, pb: Seq<u8>) -> bool {
    match find_seq(mb, pb) {
        Some(start) => is_char_boundary(mb, window_end(mb.len() as int, start + pb.len())),
        None => true,
    }
}

pub open spec fn kind_of_window(w: Option<Seq<u8>>) -> ConflictKind {
    match w {
        Some(w) => if contains_seq(w, encode_utf8("add/add"@)) {
            ConflictKind::AddAdd
        } else if contains_seq(w, encode_utf8("delete/modify"@)) || contains_seq(
            w,
            encode_utf8("modify/delete"@),
        ) {
            ConflictKind::DeleteModify
        } else {
            ConflictKind::Overlap
        },
        None => ConflictKind::Overlap,
    }
}

/// The window of the messages that tells the kind of `path`'s conflict: from the
/// first mention of the path, `MESSAGE_WINDOW` bytes past its end or up to the end.
pub open spec fn message_window(messages: Seq<char>, path: Seq<char>) -> Option<Seq<u8>> {
    byte_window(encode_utf8(messages), encode_utf8(path))
}

/// The window ends on a character boundary of the messages, so that it is a `str`.
pub open spec fn kind_window_fits(messages: Seq<char>, path: Seq<char>) -> bool {
    window_fits_bytes(encode_utf8(messages), encode_utf8(path))
}

/// The kind that git's messages give a conflicted path: `add/add`, or a
/// modify/delete, in its window; else an overlap.
pub open spec fn spec_kind(messages: Seq<char>, path: Seq<char>) -> ConflictKind {
    kind_of_window(message_window(messages, path))
}

pub open spec fn answer_text(r: CognitionResult<String>) -> Option<Seq<char>> {
    match r {
        Ok(t) => Some(t@),
        Err(_) => None,
    }
}

/// `git_show` may answer `request` with the text `answer` (`None`: with an error).
#[verifier::opaque]
pub open spec fn may_answer<F: Fn(String) -> CognitionResult<String>>(
    git_show: F,
    request: Seq<char>,
    answer: Option<Seq<char>>,
) -> bool {
    exists|s: String, r: CognitionResult<String>|
        s@ == request && #[trigger] call_ensures(git_show, (s,), r) && answer_text(r) == answer
}

/// `git_show` answers each request in one way only, as `git show` on one repository does.
#[verifier::opaque]
pub open spec fn answers_by_request<F: Fn(String) -> CognitionResult<String>>(git_show: F) -> bool {
    forall|q: Seq<char>, a: Option<Seq<char>>, b: Option<Seq<char>>|
        #![trigger may_answer(git_show, q, a), may_answer(git_show, q, b)]
        may_answer(git_show, q, a) && may_answer(git_show, q, b) ==> a == b
}

pub open spec fn answer_to<F: Fn(String) -> CognitionResult<String>>(
    git_show: F,
    request: Seq<char>,
) -> Option<Seq<char>> {
    choose|a: Option<Seq<char>>| may_answer(git_show, request, a)
}

pub open spec fn answer_fn<F: Fn(String) -> CognitionResult<String>>(git_show: F) -> spec_fn(
    Seq<char>,
) -> Option<Seq<char>> {
    |q: Seq<char>| answer_to(git_show, q)
}

/// `git_show` may answer `request` with `r`.
pub open spec fn answered<F: Fn(String) -> CognitionResult<String>>(
    git_show: F,
    request: Seq<char>,
    r: CognitionResult<String>,
) -> bool {
    exists|s: String| s@ == request && #[trigger] call_ensures(git_show, (s,), r)
}

/// `git_show` may answer `request` with the text `text`.
pub open spec fn answered_text<F: Fn(String) -> CognitionResult<String>>(
    git_show: F,
    request: Seq<char>,
    text: Seq<char>,
) -> bool {
    exists|t: String| t@ == text && #[trigger] answered(git_show, request, Ok(t))
}

/// The text of a stage can be had: there is no such stage, or `git_show` may answer
/// its blob with a text.
pub open spec fn side_shown<F: Fn(String) -> CognitionResult<String>>(
    git_show: F,
    blob: Option<Seq<char>>,
) -> bool {
    match blob {
        None => true,
        Some(b) => exists|t: Seq<char>| #[trigger] answered_text(git_show, b, t),
    }
}

/// `e` is the error of the stage `blob`: there is such a stage and `git_show` may
/// answer its blob with `e`.
pub open spec fn side_failed<F: Fn(String) -> CognitionResult<String>>(
    git_show: F,
    blob: Option<Seq<char>>,
    e: CognitionError,
) -> bool {
    match blob {
        None => false,
        Some(b) => answered(git_show, b, Err(e)),
    }
}

/// The request for the merged text of a path.
pub open spec fn merged_request(o: MergeTreeView, path: Seq<char>) -> Seq<char> {
    o.tree_oid + ":"@ + path
}

/// `e` is the first error among the requests for one path, in the order they are
/// made: the merged text `<tree>:<path>`, the base blob, and (for a merged text
/// without conflict markers) the blob of ours, then that of theirs. Each request
/// before the failing one was answered with a text.
pub open spec fn path_error<F: Fn(String) -> CognitionResult<String>>(
    git_show: F,
    o: MergeTreeView,
    entry: (Seq<char>, StagesView),
    e: CognitionError,
) -> bool {
    let st = entry.1;
    ||| answered(git_show, merged_request(o, entry.0), Err(e))
    ||| exists|m: Seq<char>|
        #[trigger] answered_text(git_show, merged_request(o, entry.0), m) && {
            ||| side_failed(git_show, st.base, e)
            ||| side_shown(git_show, st.base) && spec_conflict_regions(
                entry.0,
                m,
                spec_kind(o.messages, entry.0),
            ).len() == 0 && {
                ||| side_failed(git_show, st.ours, e)
                ||| side_shown(git_show, st.ours) && side_failed(git_show, st.theirs, e)
            }
        }
}

/// Every request for one path was answered with a text.
pub open spec fn path_shown<F: Fn(String) -> CognitionResult<String>>(
    git_show: F,
    o: MergeTreeView,
    entry: (Seq<char>, StagesView),
) -> bool {
    exists|m: Seq<char>|
        #[trigger] answered_text(git_show, merged_request(o, entry.0), m) && side_shown(
            git_show,
            entry.1.base,
        ) && (spec_conflict_regions(entry.0, m, spec_kind(o.messages, entry.0)).len() == 0
            ==> side_shown(git_show, entry.1.ours) && side_shown(git_show, entry.1.theirs))
}

/// `e` is the first error of the requests for the conflicted paths, taken in order:
/// the requests for every earlier path were answered with texts.
pub open spec fn first_error<F: Fn(String) -> CognitionResult<String>>(
    git_show: F,
    o: MergeTreeView,
    e: CognitionError,
) -> bool {
    first_error_before(git_show, o, e, o.entries.len() as int)
}

/// `e` is the first error of the requests for the first `n` conflicted paths.
pub open spec fn first_error_before<F: Fn(String) -> CognitionResult<String>>(
    git_show: F,
    o: MergeTreeView,
    e: CognitionError,
    n: int,
) -> bool {
    exists|i: int|
        0 <= i < n && (forall|j: int|
            0 <= j < i ==> #[trigger] path_shown(git_show, o, o.entries[j])) && path_error(
            git_show,
            o,
            #[trigger] o.entries[i],
            e,
        )
}

/// The text of a stage: none shown for a missing stage.
pub open spec fn side_text(
    blob: Option<Seq<char>>,
    ans: spec_fn(Seq<char>) -> Option<Seq<char>>,
) -> Option<Seq<char>> {
    match blob {
        Some(b) => ans(b),
        None => Some(seq![]),
    }
}

/// The base text of a path: none without a base stage.
pub open spec fn base_answer(
    st: StagesView,
    ans: spec_fn(Seq<char>) -> Option<Seq<char>>,
) -> Option<Option<Seq<char>>> {
    match st.base {
        None => Some(None),
        Some(b) => match ans(b) {
            None => None,
            Some(t) => Some(Some(t)),
        },
    }
}

/// The regions of the merged text, each with the base text; or, when it has no
/// conflict markers, one region of the whole sides.
pub open spec fn regions_or_sides(
    path: Seq<char>,
    merged: Seq<char>,
    base: Option<Seq<char>>,
    kind: ConflictKind,
    st: StagesView,
    ans: spec_fn(Seq<char>) -> Option<Seq<char>>,
) -> Option<Seq<RegionView>> {
    let regions = spec_conflict_regions(path, merged, kind);
    if regions.len() == 0 {
        match side_text(st.ours, ans) {
            None => None,
            Some(ot) => match side_text(st.theirs, ans) {
                None => None,
                Some(tt) => Some(
                    seq![RegionView { path, base, ours: ot, theirs: tt, kind }],
                ),
            },
        }
    } else {
        Some(regions.map_values(|r: RegionView| RegionView { base, ..r }))
    }
}

/// The conflicts of one path, given what `git show` answers (`None`: an error; the
/// first error ends the work): the merged text `<tree>:<path>` is read first,
/// then the base.
#[verifier::opaque]
pub open spec fn spec_path_conflicts(
    o: MergeTreeView,
    entry: (Seq<char>, StagesView),
    ans: spec_fn(Seq<char>) -> Option<Seq<char>>,
) -> Option<Seq<RegionView>> {
    match ans(o.tree_oid + ":"@ + entry.0) {
        None => None,
        Some(merged) => match base_answer(entry.1, ans) {
            None => None,
            Some(bt) => regions_or_sides(
                entry.0,
                merged,
                bt,
                spec_kind(o.messages, entry.0),
                entry.1,
                ans,
            ),
        },
    }
}

/// The conflicts of the first `n` paths, in order.
pub open spec fn conflicts_upto(
    o: MergeTreeView,
    ans: spec_fn(Seq<char>) -> Option<Seq<char>>,
    n: nat,
) -> Option<Seq<RegionView>>
    decreases n,
{
    if n == 0 {
        Some(seq![])
    } else {
        match conflicts_upto(o, ans, (n - 1) as nat) {
            None => None,
            Some(prev) => match spec_path_conflicts(o, o.entries[n - 1], ans) {
                None => None,
                Some(rs) => Some(prev + rs),
            },
        }
    }
}

pub open spec fn spec_conflicts(
    o: MergeTreeView,
    ans: spec_fn(Seq<char>) -> Option<Seq<char>>,
) -> Option<Seq<RegionView>> {
    conflicts_upto(o, ans, o.entries.len())
}

proof fn lemma_upto_none(o: MergeTreeView, ans: spec_fn(Seq<char>) -> Option<Seq<char>>, n: nat, m: nat)
    requires
        n <= m,
        conflicts_upto(o, ans, n) is None,
    ensures
        conflicts_upto(o, ans, m) is None,
    decreases m - n,
{
    if n < m {
        lemma_upto_none(o, ans, n + 1, m);
    }
}

fn stages_with(cur: &ConflictStages, stage: &[char], blob: String) -> (r: ConflictStages)
    ensures
        r@ == with_stage(cur@, stage@, blob@),
{
    let one = chars_of("1");
    let two = chars_of("2");
    let three = chars_of("3");
    let base = clone_opt_string(&cur.base);
    let ours = clone_opt_string(&cur.ours);
    let theirs = clone_opt_string(&cur.theirs);
    if eq_chars(stage, one.as_slice()) {
        ConflictStages { base: Some(blob), ours, theirs }
    } else if eq_chars(stage, two.as_slice()) {
        ConflictStages { base, ours: Some(blob), theirs }
    } else if eq_chars(stage, three.as_slice()) {
        ConflictStages { base, ours, theirs: Some(blob) }
    } else {
        ConflictStages { base, ours, theirs }
    }
}

/// The place of `path` in the order: the first entry that does not come before it.
fn position(entries: &Vec<StageEntry>, path: &[char]) -> (r: usize)
    requires
        keys_sorted(entries_view(entries@)),
    ensures
        r <= entries@.len(),
        forall|j: int| 0 <= j < r ==> chars_lt(#[trigger] entries_view(entries@)[j].0, path@),
        r < entries@.len() ==> !chars_lt(entries_view(entries@)[r as int].0, path@),
{
    let ghost es = entries_view(entries@);
    let mut pos: usize = 0;
    while pos < entries.len()
        invariant
            es == entries_view(entries@),
            pos <= entries@.len(),
            forall|j: int| 0 <= j < pos ==> chars_lt(#[trigger] es[j].0, path@),
        ensures
            pos <= entries@.len(),
            forall|j: int| 0 <= j < pos ==> chars_lt(#[trigger] es[j].0, path@),
            pos < entries@.len() ==> !chars_lt(es[pos as int].0, path@),
        decreases entries@.len() - pos,
    {
        let here = chars_of(entries[pos].path.as_str());
        let c = compare_chars(here.as_slice(), path);
        if c != Precedence::Before {
            break;
        }
        pos = pos + 1;
    }
    pos
}

/// Records one stage line in the entries, in the order of the paths.
fn insert_stage(entries: &mut Vec<StageEntry>, token: &[char])
    requires
        keys_sorted(entries_view(old(entries)@)),
    ensures
        keys_sorted(entries_view(final(entries)@)),
        keyed_map(entries_view(final(entries)@)) == stage_step(
            keyed_map(entries_view(old(entries)@)),
            token@,
        ),
{
    let halves = split_char_n(token, '\t', 2);
    if halves.len() != 2 {
        return;
    }
    assert(views(halves@)[1] == halves@[1]@);
    let path_chars = &halves[1];
    let parts = split_whitespace(halves[0].as_slice());
    let blob = if parts.len() > 1 {
        string_of_all(parts[1].as_slice())
    } else {
        String::new()
    };
    let empty: Vec<char> = Vec::new();
    let stage: &[char] = if parts.len() > 2 {
        parts[2].as_slice()
    } else {
        empty.as_slice()
    };
    proof {
        assert(views(parts@).len() == parts@.len());
        assert(blob@ == field(views(parts@), 1));
        assert(stage@ == field(views(parts@), 2));
    }
    let ghost es = entries_view(entries@);
    let pos = position(entries, path_chars.as_slice());
    let same = if pos < entries.len() {
        let here = chars_of(entries[pos].path.as_str());
        eq_chars(here.as_slice(), path_chars.as_slice())
    } else {
        false
    };
    if same {
        let updated = stages_with(&entries[pos].stages, stage, blob);
        let e = StageEntry { path: string_of_all(path_chars.as_slice()), stages: updated };
        proof {
            lemma_keyed_at(es, pos as int);
            lemma_keyed_update(es, pos as int, updated@);
            assert(entries_view(entries@.update(pos as int, e)) =~= es.update(
                pos as int,
                (es[pos as int].0, updated@),
            ));
        }
        entries.set(pos, e);
    } else {
        let fresh = ConflictStages { base: None, ours: None, theirs: None };
        let updated = stages_with(&fresh, stage, blob);
        let e = StageEntry { path: string_of_all(path_chars.as_slice()), stages: updated };
        proof {
            let k = path_chars@;
            assert forall|j: int| pos <= j < es.len() implies chars_lt(k, #[trigger] es[j].0) by {
                lemma_chars_lt_total(es[pos as int].0, k);
                if j > pos {
                    lemma_chars_lt_transitive(k, es[pos as int].0, es[j].0);
                }
            }
            assert(!keyed_map(es).contains_key(k)) by {
                if has_key(es, k) {
                    let i = choose|i: int| 0 <= i < es.len() && #[trigger] es[i].0 == k;
                    lemma_chars_lt_irreflexive(k);
                    assert(chars_lt(k, k));
                }
            }
            lemma_keyed_insert(es, pos as int, k, updated@);
            assert(entries_view(entries@.insert(pos as int, e)) =~= es.insert(
                pos as int,
                (k, updated@),
            ));
        }
        entries.insert(pos, e);
    }
}

fn slice_bytes(s: &[u8], from: usize, to: usize) -> (r: Vec<u8>)
    requires
        from <= to <= s@.len(),
    ensures
        r@ == s@.subrange(from as int, to as int),
{
    let mut out: Vec<u8> = Vec::new();
    let mut i: usize = from;
    while i < to
        invariant
            from <= i <= to <= s@.len(),
            out@ == s@.subrange(from as int, i as int),
        decreases to - i,
    {
        out.push(s[i]);
        i = i + 1;
    }
    out
}

/// One request to `git show`.
fn ask<F: Fn(String) -> CognitionResult<String>>(git_show: &F, request: String) -> (r:
    CognitionResult<String>)
    requires
        forall|s: String| call_requires(*git_show, (s,)),
    ensures
        call_ensures(*git_show, (request,), r),
        answers_by_request(*git_show) ==> answer_text(r) == answer_to(*git_show, request@),
        answered(*git_show, request@, r),
        r matches Ok(t) ==> answered_text(*git_show, request@, t@),
{
    let ghost req = request;
    let r = git_show(request);
    proof {
        assert(answered(*git_show, req@, r));
        reveal(may_answer);
        reveal(answers_by_request);
        assert(may_answer(*git_show, request@, answer_text(r)));
    }
    r
}

/// The bounds of the window after the first mention of `pb` in `mb`.
#[verifier::spinoff_prover]
#[verifier::rlimit(40)]
fn find_window(mb: &[u8], pb: &[u8]) -> (r: Option<(usize, usize)>)
    ensures
        r is None <==> find_seq(mb@, pb@) is None,
        r matches Some((a, b)) ==> find_seq(mb@, pb@) == Some(a as int) && b == window_end(
            mb@.len() as int,
            a + pb@.len(),
        ) && a <= b <= mb@.len(),
{
    match find_bytes(mb, pb) {
        Some(start) => {
            let plen = pb.len();
            let total = mb.len();
            assert(occurs_at(mb@, pb@, start as int));
            assert(start + plen <= total);
            let stop = start + plen;
            let end = if total - stop >= MESSAGE_WINDOW {
                stop + MESSAGE_WINDOW
            } else {
                total
            };
            Some((start, end))
        },
        None => None,
    }
}

#[verifier::spinoff_prover]
fn window_kind(mb: &[u8], pb: &[u8]) -> (r: ConflictKind)
    ensures
        r == kind_of_window(byte_window(mb@, pb@)),
{
    match find_window(mb, pb) {
        Some((start, end)) => {
            let window = slice_bytes(mb, start, end);
            if contains_bytes(window.as_slice(), "add/add".as_bytes()) {
                ConflictKind::AddAdd
            } else if contains_bytes(window.as_slice(), "delete/modify".as_bytes())
                || contains_bytes(window.as_slice(), "modify/delete".as_bytes()) {
                ConflictKind::DeleteModify
            } else {
                ConflictKind::Overlap
            }
        },
        None => ConflictKind::Overlap,
    }
}

/// The regions, each with the base text `base`.
fn with_base(regions: &Vec<ConflictRegion>, base: &Option<String>) -> (r: Vec<ConflictRegion>)
    ensures
        regions_view(r@) == regions_view(regions@).map_values(
            |x: RegionView| RegionView { base: opt_chars(*base), ..x },
        ),
{
    let ghost target = regions_view(regions@).map_values(
        |x: RegionView| RegionView { base: opt_chars(*base), ..x },
    );
    let mut out: Vec<ConflictRegion> = Vec::new();
    let mut i: usize = 0;
    while i < regions.len()
        invariant
            target == regions_view(regions@).map_values(
                |x: RegionView| RegionView { base: opt_chars(*base), ..x },
            ),
            i <= regions@.len(),
            regions_view(out@) == target.take(i as int),
        decreases regions@.len() - i,
    {
        let x = &regions[i];
        let y = ConflictRegion {
            path: x.path.clone(),
            base: clone_opt_string(base),
            ours: x.ours.clone(),
            theirs: x.theirs.clone(),
            kind: x.kind,
        };
        proof {
            assert(regions_view(out@.push(y)) =~= regions_view(out@).push(y@));
            assert(target.take(i + 1) =~= target.take(i as int).push(y@));
        }
        out.push(y);
        i = i + 1;
    }
    proof {
        assert(target.take(i as int) =~= target);
    }
    out
}

/// The base text of a path, if it has a base stage.
fn base_text<F: Fn(String) -> CognitionResult<String>>(st: &ConflictStages, git_show: &F) -> (r:
    CognitionResult<Option<String>>)
    requires
        forall|s: String| call_requires(*git_show, (s,)),
    ensures
        answers_by_request(*git_show) ==> match r {
            Ok(b) => base_answer(st@, answer_fn(*git_show)) == Some(opt_chars(b)),
            Err(_) => base_answer(st@, answer_fn(*git_show)) is None,
        },
        r matches Err(e) ==> exists|s: String| #[trigger] call_ensures(*git_show, (s,), Err(e)),
        r matches Err(e) ==> side_failed(*git_show, st@.base, e),
        r is Ok ==> side_shown(*git_show, st@.base),
{
    match &st.base {
        None => Ok(None),
        Some(b) => match ask(git_show, b.clone()) {
            Ok(t) => Ok(Some(t)),
            Err(e) => Err(e),
        },
    }
}

/// The text of one side: none shown for a missing stage.
fn side<F: Fn(String) -> CognitionResult<String>>(blob: &Option<String>, git_show: &F) -> (r:
    CognitionResult<String>)
    requires
        forall|s: String| call_requires(*git_show, (s,)),
    ensures
        answers_by_request(*git_show) ==> answer_text(r) == side_text(
            opt_chars(*blob),
            answer_fn(*git_show),
        ),
        r matches Err(e) ==> exists|s: String| #[trigger] call_ensures(*git_show, (s,), Err(e)),
        r matches Err(e) ==> side_failed(*git_show, opt_chars(*blob), e),
        r is Ok ==> side_shown(*git_show, opt_chars(*blob)),
{
    match blob {
        None => Ok(String::new()),
        Some(b) => ask(git_show, b.clone()),
    }
}

/// The regions of the merged text with the base text, or one region of the sides.
fn regions_with_sides<F: Fn(String) -> CognitionResult<String>>(
    path: &str,
    merged: &str,
    base: Option<String>,
    kind: ConflictKind,
    st: &ConflictStages,
    git_show: &F,
) -> (r: CognitionResult<Vec<ConflictRegion>>)
    requires
        forall|s: String| call_requires(*git_show, (s,)),
    ensures
        answers_by_request(*git_show) ==> match r {
            Ok(v) => regions_or_sides(
                path@,
                merged@,
                opt_chars(base),
                kind,
                st@,
                answer_fn(*git_show),
            ) == Some(regions_view(v@)),
            Err(_) => regions_or_sides(
                path@,
                merged@,
                opt_chars(base),
                kind,
                st@,
                answer_fn(*git_show),
            ) is None,
        },
        r matches Err(e) ==> exists|s: String| #[trigger] call_ensures(*git_show, (s,), Err(e)),
        r matches Ok(v) ==> forall|j: int|
            0 <= j < v@.len() ==> (#[trigger] v@[j])@.path == path@ && v@[j]@.base == opt_chars(
                base,
            ),
        r matches Ok(v) ==> v@.len() > 0,
        r is Ok && spec_conflict_regions(path@, merged@, kind).len() == 0 ==> side_shown(
            *git_show,
            st@.ours,
        ) && side_shown(*git_show, st@.theirs),
        r matches Err(e) ==> spec_conflict_regions(path@, merged@, kind).len() == 0 && {
            ||| side_failed(*git_show, st@.ours, e)
            ||| side_shown(*git_show, st@.ours) && side_failed(*git_show, st@.theirs, e)
        },
{
    let regions = conflict_regions(path, merged, kind);
    proof {
        lemma_scan_regions_path(path@, kind, lines(merged@));
    }
    if regions.len() == 0 {
        let ours = match side(&st.ours, git_show) {
            Ok(t) => t,
            Err(e) => {
                return Err(e);
            },
        };
        let theirs = match side(&st.theirs, git_show) {
            Ok(t) => t,
            Err(e) => {
                return Err(e);
            },
        };
        let region = ConflictRegion { path: path.to_owned(), base, ours, theirs, kind };
        let v = vec![region];
        assert(regions_view(v@) =~= seq![region@]);
        return Ok(v);
    }
    let v = with_base(&regions, &base);
    proof {
        assert(regions_view(v@).len() == v@.len());
        assert(regions_view(regions@).len() == regions@.len());
        assert forall|j: int| 0 <= j < v@.len() implies (#[trigger] v@[j])@.path == path@ && v@[j]@.base
            == opt_chars(base) by {
            assert(regions_view(v@).len() == v@.len());
            assert(regions_view(regions@).len() == regions@.len());
            assert(regions_view(v@)[j] == v@[j]@);
            assert(regions_view(regions@)[j] == regions@[j]@);
            assert(spec_conflict_regions(path@, merged@, kind)[j] == regions@[j]@);
        }
    }
    Ok(v)
}

/// Every region is of a path that the output names as conflicted.
pub open spec fn regions_on_conflicted_paths(rs: Seq<RegionView>, o: MergeTreeView) -> bool {
    forall|j: int| 0 <= j < rs.len() ==> has_key(o.entries, #[trigger] rs[j].path)
}

impl MergeTreeOutput {
    /// Reads the output: the tree first, then stage lines up to an empty token, then
    /// the messages.
    pub fn parse(output: &str) -> (r: Self)
        ensures
            parsed_from(r@, output@),
    {
        let chars = chars_of(output);
        let tokens = split_char(chars.as_slice(), '\0');
        let ghost ts = split(output@, '\0');
        assert(views(tokens@).len() == tokens@.len());
        let tree_oid = string_of_all(tokens[0].as_slice());
        let mut entries: Vec<StageEntry> = Vec::new();
        let mut messages: Vec<Vec<char>> = Vec::new();
        let mut in_messages: bool = false;
        let mut i: usize = 1;
        proof {
            assert(ts.drop_first().take(0) =~= Seq::<Seq<char>>::empty());
            assert(keyed_map(entries_view(entries@)) =~= Map::<Seq<char>, StagesView>::empty());
            assert(views(messages@) =~= Seq::<Seq<char>>::empty());
        }
        while i < tokens.len()
            invariant
                ts == split(output@, '\0'),
                views(tokens@) == ts,
                1 <= i <= tokens@.len(),
                keys_sorted(entries_view(entries@)),
                (ParseState {
                    stages: keyed_map(entries_view(entries@)),
                    in_messages,
                    messages: views(messages@),
                }) == parse_fold(ts.drop_first().take(i - 1)),
            decreases tokens@.len() - i,
        {
            let token = &tokens[i];
            proof {
                assert(ts.drop_first().take(i as int).drop_last() =~= ts.drop_first().take(i - 1));
                assert(ts.drop_first().take(i as int).last() == token@);
            }
            if token.len() == 0 {
                in_messages = true;
            } else if in_messages {
                let c = token.clone();
                proof {
                    assert(c@ == token@);
                    assert(views(messages@.push(c)) =~= views(messages@).push(c@));
                }
                messages.push(c);
            } else {
                insert_stage(&mut entries, token.as_slice());
            }
            i = i + 1;
        }
        proof {
            assert(ts.drop_first().take(i - 1) =~= ts.drop_first());
        }
        let blob = join_with_newlines(&messages);
        MergeTreeOutput {
            tree_oid,
            stages: entries,
            messages_blob: string_of_all(blob.as_slice()),
        }
    }

    /// The conflicted paths, in order.
    pub fn merged_files(&self) -> (r: Vec<String>)
        ensures
            strings_view(r@) == keys_of(self@.entries),
    {
        let mut out: Vec<String> = Vec::new();
        let mut i: usize = 0;
        while i < self.stages.len()
            invariant
                i <= self.stages@.len(),
                strings_view(out@) == keys_of(self@.entries).take(i as int),
            decreases self.stages@.len() - i,
        {
            let p = self.stages[i].path.clone();
            proof {
                assert(strings_view(out@.push(p)) =~= strings_view(out@).push(p@));
                assert(keys_of(self@.entries).take(i + 1) =~= keys_of(self@.entries).take(
                    i as int,
                ).push(p@));
            }
            out.push(p);
            i = i + 1;
        }
        proof {
            assert(keys_of(self@.entries).take(i as int) =~= keys_of(self@.entries));
        }
        out
    }

    /// The place of the first conflicted path whose message window does not end on a
    /// character boundary, if there is one.
    #[verifier::spinoff_prover]
    pub fn first_unfit_window(&self) -> (r: Option<usize>)
        ensures
            match r {
                None => forall|i: int|
                    0 <= i < self@.entries.len() ==> kind_window_fits(
                        self@.messages,
                        #[trigger] self@.entries[i].0,
                    ),
                Some(k) => k < self@.entries.len() && !kind_window_fits(
                    self@.messages,
                    self@.entries[k as int].0,
                ) && forall|i: int|
                    0 <= i < k ==> kind_window_fits(self@.messages, #[trigger] self@.entries[i].0),
            },
    {
        let mut i: usize = 0;
        while i < self.stages.len()
            invariant
                i <= self.stages@.len(),
                self@.entries.len() == self.stages@.len(),
                forall|k: int|
                    0 <= k < i ==> kind_window_fits(self@.messages, #[trigger] self@.entries[k].0),
            decreases self.stages@.len() - i,
        {
            assert(self@.entries[i as int].0 == self.stages@[i as int].path@);
            if !self.window_fits(self.stages[i].path.as_str()) {
                return Some(i);
            }
            i = i + 1;
        }
        None
    }

    /// The request for the merged text of the path at `idx`: `<tree>:<path>`.
    pub fn merged_text_request(&self, idx: usize) -> (r: String)
        requires
            idx < self@.entries.len(),
        ensures
            r@ == merged_request(self@, self@.entries[idx as int].0),
    {
        assert(self@.entries[idx as int].0 == self.stages@[idx as int].path@);
        cat3(self.tree_oid.as_str(), ":", self.stages[idx].path.as_str())
    }

    /// The conflicts of the path at `idx`.
    fn conflict<F: Fn(String) -> CognitionResult<String>>(&self, idx: usize, git_show: &F) -> (r:
        CognitionResult<Vec<ConflictRegion>>)
        requires
            idx < self@.entries.len(),
            kind_window_fits(self@.messages, self@.entries[idx as int].0),
            forall|s: String| call_requires(*git_show, (s,)),
        ensures
            answers_by_request(*git_show) ==> match r {
                Ok(v) => spec_path_conflicts(self@, self@.entries[idx as int], answer_fn(*git_show))
                    == Some(regions_view(v@)),
                Err(_) => spec_path_conflicts(
                    self@,
                    self@.entries[idx as int],
                    answer_fn(*git_show),
                ) is None,
            },
            r matches Err(e) ==> exists|s: String| #[trigger] call_ensures(*git_show, (s,), Err(e)),
            r matches Ok(v) ==> forall|j: int|
                0 <= j < v@.len() ==> (#[trigger] v@[j])@.path == self@.entries[idx as int].0,
            r matches Ok(v) ==> v@.len() > 0,
            r is Ok ==> path_shown(*git_show, self@, self@.entries[idx as int]),
            r matches Err(e) ==> path_error(*git_show, self@, self@.entries[idx as int], e),
    {
        reveal(spec_path_conflicts);
        let entry = &self.stages[idx];
        assert(self@.entries[idx as int] == (entry.path@, entry.stages@));
        let path = entry.path.as_str();
        let request = self.merged_text_request(idx);
        let merged = match ask(git_show, request) {
            Ok(t) => t,
            Err(e) => {
                return Err(e);
            },
        };
        let kind = self.kind(path);
        let base = match base_text(&entry.stages, git_show) {
            Ok(b) => b,
            Err(e) => {
                return Err(e);
            },
        };
        let r = regions_with_sides(path, merged.as_str(), base, kind, &entry.stages, git_show);
        proof {
            if r is Ok {
                assert(answered_text(*git_show, merged_request(self@, path@), merged@));
                assert(path_shown(*git_show, self@, self@.entries[idx as int]));
            }
        }
        r
    }

    /// The conflicts of every path, in order, with the texts that `git_show` gives
    /// for a revision (`<tree>:<path>` for the merged text, a blob for a stage); the
    /// first error of `git_show` ends the work and is returned.
    pub fn conflicts<F: Fn(String) -> CognitionResult<String>>(&self, git_show: F) -> (r:
        CognitionResult<Vec<ConflictRegion>>)
        requires
            forall|i: int|
                0 <= i < self@.entries.len() ==> kind_window_fits(
                    self@.messages,
                    #[trigger] self@.entries[i].0,
                ),
            forall|s: String| call_requires(git_show, (s,)),
        ensures
            answers_by_request(git_show) ==> match r {
                Ok(v) => spec_conflicts(self@, answer_fn(git_show)) == Some(regions_view(v@)),
                Err(_) => spec_conflicts(self@, answer_fn(git_show)) is None,
            },
            r matches Err(e) ==> exists|s: String| #[trigger] call_ensures(git_show, (s,), Err(e)),
            r matches Ok(v) ==> regions_on_conflicted_paths(regions_view(v@), self@),
            r matches Ok(v) ==> (v@.len() == 0 <==> self@.entries.len() == 0),
            r is Ok ==> forall|j: int|
                0 <= j < self@.entries.len() ==> #[trigger] path_shown(
                    git_show,
                    self@,
                    self@.entries[j],
                ),
            r matches Err(e) ==> first_error(git_show, self@, e),
    {
        self.conflicts_before(self.stages.len(), &git_show)
    }

    /// The conflicts of the first `n` paths, in order, as `conflicts` gives those of
    /// all of them.
    pub fn conflicts_before<F: Fn(String) -> CognitionResult<String>>(
        &self,
        n: usize,
        git_show: &F,
    ) -> (r: CognitionResult<Vec<ConflictRegion>>)
        requires
            n <= self@.entries.len(),
            forall|i: int|
                0 <= i < n ==> kind_window_fits(
                    self@.messages,
                    #[trigger] self@.entries[i].0,
                ),
            forall|s: String| call_requires(*git_show, (s,)),
        ensures
            answers_by_request(*git_show) ==> match r {
                Ok(v) => conflicts_upto(self@, answer_fn(*git_show), n as nat) == Some(
                    regions_view(v@),
                ),
                Err(_) => conflicts_upto(self@, answer_fn(*git_show), n as nat) is None,
            },
            r matches Err(e) ==> exists|s: String| #[trigger] call_ensures(*git_show, (s,), Err(e)),
            r matches Ok(v) ==> regions_on_conflicted_paths(regions_view(v@), self@),
            r matches Ok(v) ==> (v@.len() == 0 <==> n == 0),
            r is Ok ==> forall|j: int|
                0 <= j < n ==> #[trigger] path_shown(
                    *git_show,
                    self@,
                    self@.entries[j],
                ),
            r matches Err(e) ==> first_error_before(*git_show, self@, e, n as int),
    {
        let mut out: Vec<ConflictRegion> = Vec::new();
        let mut i: usize = 0;
        assert(regions_view(out@) =~= Seq::<RegionView>::empty());
        while i < n
            invariant
                i <= n,
                n <= self@.entries.len(),
                self@.entries.len() == self.stages@.len(),
                forall|k: int|
                    0 <= k < n ==> kind_window_fits(
                        self@.messages,
                        #[trigger] self@.entries[k].0,
                    ),
                forall|s: String| call_requires(*git_show, (s,)),
                answers_by_request(*git_show) ==> conflicts_upto(
                    self@,
                    answer_fn(*git_show),
                    i as nat,
                ) == Some(regions_view(out@)),
                regions_on_conflicted_paths(regions_view(out@), self@),
                out@.len() >= i,
                i == 0 ==> out@.len() == 0,
                forall|j: int|
                    0 <= j < i ==> #[trigger] path_shown(*git_show, self@, self@.entries[j]),
            decreases n - i,
        {
            let more = match self.conflict(i, git_show) {
                Ok(v) => v,
                Err(e) => {
                    proof {
                        if answers_by_request(*git_show) {
                            lemma_upto_none(self@, answer_fn(*git_show), (i + 1) as nat, n as nat);
                        }
                        assert(path_error(*git_show, self@, self@.entries[i as int], e));
                        assert(first_error_before(*git_show, self@, e, n as int));
                    }
                    return Err(e);
                },
            };
            let ghost before = out@;
            let mut j: usize = 0;
            while j < more.len()
                invariant
                    j <= more@.len(),
                    regions_view(out@) == regions_view(before) + regions_view(more@).take(j as int),
                    regions_on_conflicted_paths(regions_view(before), self@),
                    i < self@.entries.len(),
                    forall|k: int|
                        0 <= k < more@.len() ==> (#[trigger] more@[k])@.path == self@.entries[i as int].0,
                    regions_on_conflicted_paths(regions_view(out@), self@),
                    out@.len() == before.len() + j,
                    before.len() >= i,
                decreases more@.len() - j,
            {
                let x = &more[j];
                let y = ConflictRegion {
                    path: x.path.clone(),
                    base: clone_opt_string(&x.base),
                    ours: x.ours.clone(),
                    theirs: x.theirs.clone(),
                    kind: x.kind,
                };
                proof {
                    assert(regions_view(out@.push(y)) =~= regions_view(out@).push(y@));
                    assert(y@.path == more@[j as int]@.path);
                    assert(self@.entries[i as int].0 == self@.entries[i as int].0);
                    assert(regions_view(more@).take(j + 1) =~= regions_view(more@).take(j as int).push(y@));
                }
                out.push(y);
                j = j + 1;
            }
            proof {
                assert(regions_view(more@).take(j as int) =~= regions_view(more@));
                assert(path_shown(*git_show, self@, self@.entries[i as int]));
            }
            i = i + 1;
        }
        Ok(out)
    }

    fn window_fits(&self, path: &str) -> (r: bool)
        ensures
            r == kind_window_fits(self@.messages, path@),
    {
        let blob = self.messages_blob.as_str();
        match find_window(blob.as_bytes(), path.as_bytes()) {
            Some((_, end)) => blob.is_char_boundary(end),
            None => true,
        }
    }

    /// The kind of the conflict of `path`, from git's messages.
    pub fn kind(&self, path: &str) -> (r: ConflictKind)
        requires
            kind_window_fits(self@.messages, path@),
        ensures
            r == spec_kind(self@.messages, path@),
    {
        window_kind(self.messages_blob.as_str().as_bytes(), path.as_bytes())
    }
}

proof fn lemma_scan_regions_path(path: Seq<char>, fallback: ConflictKind, ls: Seq<Seq<char>>)
    ensures
        forall|i: int|
            0 <= i < scan_fold(path, fallback, ls).regions.len() ==> (#[trigger] scan_fold(
                path,
                fallback,
                ls,
            ).regions[i]).path == path && scan_fold(path, fallback, ls).regions[i].base is None,
    decreases ls.len(),
{
    if ls.len() > 0 {
        lemma_scan_regions_path(path, fallback, ls.drop_last());
    }
}

/// Every conflict region of a path names that path and carries the path's base
/// text, whether it comes from the conflict markers of the merged text or is the
/// one region of the whole sides.
pub proof fn law_regions_carry_path_and_base(
    path: Seq<char>,
    merged: Seq<char>,
    base: Option<Seq<char>>,
    kind: ConflictKind,
    st: StagesView,
    ans: spec_fn(Seq<char>) -> Option<Seq<char>>,
)
    ensures
        regions_or_sides(path, merged, base, kind, st, ans) matches Some(rs) ==> forall|i: int|
            0 <= i < rs.len() ==> (#[trigger] rs[i]).path == path && rs[i].base == base,
{
    lemma_scan_regions_path(path, kind, lines(merged));
}

/// The path of a stage token `<mode> <blob> <stage>\t<path>`; `None` without a tab.
pub open spec fn stage_path(token: Seq<char>) -> Option<Seq<char>> {
    let halves = splitn(token, '\t', 2);
    if halves.len() == 2 {
        Some(halves[1])
    } else {
        None
    }
}

/// The place of the first empty token (which ends the stage lines), or the number
/// of tokens when none is empty.
pub open spec fn first_empty(ts: Seq<Seq<char>>) -> int
    decreases ts.len(),
{
    if ts.len() == 0 {
        0
    } else {
        let f = first_empty(ts.drop_last());
        if f < ts.len() - 1 {
            f
        } else if ts.last().len() == 0 {
            ts.len() - 1
        } else {
            ts.len() as int
        }
    }
}

/// `p` is the path of one of the stage tokens, those before the first empty one.
pub open spec fn staged(ts: Seq<Seq<char>>, p: Seq<char>) -> bool {
    exists|j: int| 0 <= j < first_empty(ts) && #[trigger] stage_path(ts[j]) == Some(p)
}

proof fn lemma_fold_paths(ts: Seq<Seq<char>>)
    ensures
        0 <= first_empty(ts) <= ts.len(),
        first_empty(ts) < ts.len() ==> ts[first_empty(ts)].len() == 0,
        forall|j: int| 0 <= j < first_empty(ts) ==> (#[trigger] ts[j]).len() > 0,
        parse_fold(ts).in_messages == (first_empty(ts) < ts.len()),
        forall|p: Seq<char>|
            #[trigger] parse_fold(ts).stages.contains_key(p) <==> staged(ts, p),
    decreases ts.len(),
{
    if ts.len() > 0 {
        let prev = ts.drop_last();
        lemma_fold_paths(prev);
        let x = ts.last();
        let fp = first_empty(prev);
        let st = parse_fold(prev);
        assert forall|j: int| 0 <= j < prev.len() implies ts[j] == #[trigger] prev[j] by {}
        assert forall|j: int| 0 <= j < first_empty(ts) implies (#[trigger] ts[j]).len() > 0 by {
            if j < prev.len() {
                assert(ts[j] == prev[j]);
            }
        }
        assert forall|p: Seq<char>|
            #[trigger] parse_fold(ts).stages.contains_key(p) <==> staged(ts, p) by {
            let grows = fp == prev.len() && x.len() > 0;
            if grows {
                assert(parse_fold(ts).stages == stage_step(st.stages, x));
                assert(first_empty(ts) == ts.len());
            } else {
                assert(parse_fold(ts).stages == st.stages);
                assert(first_empty(ts) == fp);
            }
            if staged(prev, p) {
                let j = choose|j: int| 0 <= j < fp && #[trigger] stage_path(prev[j]) == Some(p);
                assert(stage_path(ts[j]) == Some(p));
                assert(staged(ts, p));
            }
            if staged(ts, p) {
                let j = choose|j: int| 0 <= j < first_empty(ts) && #[trigger] stage_path(ts[j]) == Some(p);
                if j < prev.len() {
                    assert(stage_path(prev[j]) == Some(p));
                    assert(j < fp);
                    assert(staged(prev, p));
                } else {
                    assert(j == ts.len() - 1);
                    assert(grows);
                    assert(stage_path(x) == Some(p));
                }
            }
            if grows && stage_path(x) == Some(p) {
                assert(stage_path(ts[ts.len() - 1]) == Some(p));
                assert(staged(ts, p));
            }
        }
    }
}

/// Parsing gives the conflicted paths in strictly increasing order, each once; and
/// they are exactly the paths of the stage tokens that come after the tree and
/// before the first empty token.
pub proof fn law_parse_gives_staged_paths_in_order(o: MergeTreeView, output: Seq<char>)
    requires
        parsed_from(o, output),
    ensures
        forall|i: int, j: int|
            0 <= i < j < o.entries.len() ==> chars_lt(#[trigger] o.entries[i].0, #[trigger] o.entries[j].0)
                && o.entries[i].0 != o.entries[j].0,
        forall|p: Seq<char>|
            #[trigger] has_key(o.entries, p) <==> staged(split(output, '\0').drop_first(), p),
{
    let ts = split(output, '\0').drop_first();
    lemma_fold_paths(ts);
    assert forall|i: int, j: int|
        0 <= i < j < o.entries.len() implies chars_lt(#[trigger] o.entries[i].0, #[trigger] o.entries[j].0)
            && o.entries[i].0 != o.entries[j].0 by {
        lemma_chars_lt_irreflexive(o.entries[i].0);
    }
    assert forall|p: Seq<char>| #[trigger] has_key(o.entries, p) <==> staged(ts, p) by {
        assert(keyed_map(o.entries).contains_key(p) == has_key(o.entries, p));
        assert(parse_fold(ts).stages.contains_key(p) <==> staged(ts, p));
    }
}

} // verus!
