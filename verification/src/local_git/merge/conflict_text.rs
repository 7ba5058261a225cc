//! The conflict regions of a file that git wrote with conflict markers.
use vstd::prelude::*;

use super::{ConflictKind, ConflictRegion, RegionView, regions_view};
use crate::text::{
    chars_of, eq_chars, join_lines, join_with_newlines, lines, split_lines, starts_with,
    string_of_all, trim, trimmed, views,
};

verus! {

broadcast use vstd::seq::group_seq_axioms;

/// A line that only imports: it starts with `use `, `import ` or `from `.
pub open spec fn import_line(line: Seq<char>) -> bool {
    "use "@.is_prefix_of(line) || "import "@.is_prefix_of(line) || "from "@.is_prefix_of(line)
}

/// Text whose non-blank lines, trimmed, are all import lines, and that has one.
pub open spec fn import_only(content: Seq<char>) -> bool {
    (exists|i: int| 0 <= i < lines(content).len() && trim(#[trigger] lines(content)[i]).len() > 0)
        && (forall|i: int|
        0 <= i < lines(content).len() && trim(#[trigger] lines(content)[i]).len() > 0
            ==> import_line(trim(lines(content)[i])))
}

/// The kind that the two sides alone show: the same text but for surrounding
/// whitespace, or imports on both sides.
pub open spec fn spec_content_kind(ours: Seq<char>, theirs: Seq<char>) -> Option<ConflictKind> {
    if trim(ours) == trim(theirs) {
        Some(ConflictKind::Whitespace)
    } else if import_only(ours) && import_only(theirs) {
        Some(ConflictKind::ImportOrder)
    } else {
        None
    }
}

/// The region made of the lines of each side.
pub open spec fn spec_region(
    path: Seq<char>,
    ours: Seq<Seq<char>>,
    theirs: Seq<Seq<char>>,
    fallback: ConflictKind,
) -> RegionView {
    let o = join_lines(ours);
    let t = join_lines(theirs);
    RegionView {
        path,
        base: None,
        ours: o,
        theirs: t,
        kind: match spec_content_kind(o, t) {
            Some(k) => k,
            None => fallback,
        },
    }
}

/// Where the scan of a marked file stands after some of its lines.
pub struct RegionScan {
    pub regions: Seq<RegionView>,
    pub ours: Seq<Seq<char>>,
    pub theirs: Seq<Seq<char>>,
    pub in_ours: bool,
    pub in_theirs: bool,
}

pub open spec fn scan_start() -> RegionScan {
    RegionScan { regions: seq![], ours: seq![], theirs: seq![], in_ours: false, in_theirs: false }
}

/// One line of the scan: `<<<<<<<` opens our side, `=======` turns to theirs,
/// `>>>>>>>` closes the region; other lines belong to the open side.
pub open spec fn scan_step(
    path: Seq<char>,
    fallback: ConflictKind,
    st: RegionScan,
    line: Seq<char>,
) -> RegionScan {
    if "<<<<<<<"@.is_prefix_of(line) {
        RegionScan { in_ours: true, ..st }
    } else if "======="@.is_prefix_of(line) {
        RegionScan { in_ours: false, in_theirs: true, ..st }
    } else if ">>>>>>>"@.is_prefix_of(line) {
        RegionScan {
            regions: st.regions.push(spec_region(path, st.ours, st.theirs, fallback)),
            ours: seq![],
            theirs: seq![],
            in_theirs: false,
            ..st
        }
    } else if st.in_ours {
        RegionScan { ours: st.ours.push(line), ..st }
    } else if st.in_theirs {
        RegionScan { theirs: st.theirs.push(line), ..st }
    } else {
        st
    }
}

pub open spec fn scan_fold(path: Seq<char>, fallback: ConflictKind, ls: Seq<Seq<char>>) -> RegionScan
    decreases ls.len(),
{
    if ls.len() == 0 {
        scan_start()
    } else {
        scan_step(path, fallback, scan_fold(path, fallback, ls.drop_last()), ls.last())
    }
}

/// The regions between conflict markers in `output`, in order.
pub open spec fn spec_conflict_regions(
    path: Seq<char>,
    output: Seq<char>,
    fallback: ConflictKind,
) -> Seq<RegionView> {
    scan_fold(path, fallback, lines(output)).regions
}

fn is_import_line(line: &[char]) -> (r: bool)
    ensures
        r == import_line(line@),
{
    let u = chars_of("use ");
    let i = chars_of("import ");
    let f = chars_of("from ");
    starts_with(line, u.as_slice()) || starts_with(line, i.as_slice()) || starts_with(
        line,
        f.as_slice(),
    )
}

/// Whether the text only imports.
pub fn is_import_only(content: &[char]) -> (r: bool)
    ensures
        r == import_only(content@),
{
    let ls = split_lines(content);
    let ghost l = lines(content@);
    let mut seen: bool = false;
    let mut i: usize = 0;
    while i < ls.len()
        invariant
            l == lines(content@),
            views(ls@) == l,
            i <= ls@.len(),
            seen == exists|k: int| 0 <= k < i && trim(#[trigger] l[k]).len() > 0,
            forall|k: int| 0 <= k < i && trim(#[trigger] l[k]).len() > 0 ==> import_line(trim(l[k])),
        decreases ls@.len() - i,
    {
        let t = trimmed(ls[i].as_slice());
        assert(l[i as int] == ls@[i as int]@);
        if t.len() > 0 {
            if !is_import_line(t.as_slice()) {
                assert(trim(l[i as int]).len() > 0 && !import_line(trim(l[i as int])));
                return false;
            }
            seen = true;
        }
        i = i + 1;
    }
    seen
}

/// The kind that the two sides alone show, if any.
pub fn content_kind(ours: &[char], theirs: &[char]) -> (r: Option<ConflictKind>)
    ensures
        r == spec_content_kind(ours@, theirs@),
{
    let a = trimmed(ours);
    let b = trimmed(theirs);
    if eq_chars(a.as_slice(), b.as_slice()) {
        return Some(ConflictKind::Whitespace);
    }
    if is_import_only(ours) && is_import_only(theirs) {
        return Some(ConflictKind::ImportOrder);
    }
    None
}

/// The region made of the lines of each side.
pub fn region(
    path: &str,
    ours: &Vec<Vec<char>>,
    theirs: &Vec<Vec<char>>,
    fallback: ConflictKind,
) -> (r: ConflictRegion)
    ensures
        r@ == spec_region(path@, views(ours@), views(theirs@), fallback),
{
    let o = join_with_newlines(ours);
    let t = join_with_newlines(theirs);
    let kind = match content_kind(o.as_slice(), t.as_slice()) {
        Some(k) => k,
        None => fallback,
    };
    ConflictRegion {
        path: path.to_owned(),
        base: None,
        ours: string_of_all(o.as_slice()),
        theirs: string_of_all(t.as_slice()),
        kind,
    }
}

/// The regions between conflict markers in `output`, in order, each of the kind
/// that its text shows or else of `fallback`.
pub fn conflict_regions(path: &str, output: &str, fallback: ConflictKind) -> (r: Vec<
    ConflictRegion,
>)
    ensures
        regions_view(r@) == spec_conflict_regions(path@, output@, fallback),
{
    let chars = chars_of(output);
    let ls = split_lines(chars.as_slice());
    let ghost l = lines(output@);
    let mut regions: Vec<ConflictRegion> = Vec::new();
    let mut ours: Vec<Vec<char>> = Vec::new();
    let mut theirs: Vec<Vec<char>> = Vec::new();
    let mut in_ours: bool = false;
    let mut in_theirs: bool = false;
    let open = chars_of("<<<<<<<");
    let middle = chars_of("=======");
    let close = chars_of(">>>>>>>");
    let mut i: usize = 0;
    proof {
        assert(l.take(0) =~= Seq::<Seq<char>>::empty());
        assert(regions_view(regions@) =~= Seq::<RegionView>::empty());
        assert(views(ours@) =~= Seq::<Seq<char>>::empty());
        assert(views(theirs@) =~= Seq::<Seq<char>>::empty());
    }
    while i < ls.len()
        invariant
            l == lines(output@),
            views(ls@) == l,
            i <= ls@.len(),
            open@ == "<<<<<<<"@,
            middle@ == "======="@,
            close@ == ">>>>>>>"@,
            (RegionScan {
                regions: regions_view(regions@),
                ours: views(ours@),
                theirs: views(theirs@),
                in_ours,
                in_theirs,
            }) == scan_fold(path@, fallback, l.take(i as int)),
        decreases ls@.len() - i,
    {
        let line = &ls[i];
        proof {
            assert(l.take(i + 1).drop_last() =~= l.take(i as int));
            assert(l.take(i + 1).last() == line@);
        }
        if starts_with(line.as_slice(), open.as_slice()) {
            in_ours = true;
        } else if starts_with(line.as_slice(), middle.as_slice()) {
            in_ours = false;
            in_theirs = true;
        } else if starts_with(line.as_slice(), close.as_slice()) {
            in_theirs = false;
            let reg = region(path, &ours, &theirs, fallback);
            proof {
                assert(regions_view(regions@.push(reg)) =~= regions_view(regions@).push(reg@));
            }
            regions.push(reg);
            ours = Vec::new();
            theirs = Vec::new();
            proof {
                assert(views(ours@) =~= Seq::<Seq<char>>::empty());
                assert(views(theirs@) =~= Seq::<Seq<char>>::empty());
            }
        } else if in_ours {
            let c = line.clone();
            proof {
                assert(views(ours@.push(c)) =~= views(ours@).push(c@));
            }
            ours.push(c);
        } else if in_theirs {
            let c = line.clone();
            proof {
                assert(views(theirs@.push(c)) =~= views(theirs@).push(c@));
            }
            theirs.push(c);
        }
        i = i + 1;
    }
    proof {
        assert(l.take(i as int) =~= l);
    }
    regions
}

/// `content` has a line that is not blank.
pub open spec fn has_text_line(content: Seq<char>) -> bool {
    exists|i: int| 0 <= i < lines(content).len() && trim(#[trigger] lines(content)[i]).len() > 0
}

/// `content` has a line that is not blank and that, trimmed, starts with none of
/// `use `, `import ` and `from `.
pub open spec fn has_other_line(content: Seq<char>) -> bool {
    exists|i: int|
        0 <= i < lines(content).len() && trim(#[trigger] lines(content)[i]).len() > 0 && !(
        "use "@.is_prefix_of(trim(lines(content)[i])) || "import "@.is_prefix_of(
            trim(lines(content)[i]),
        ) || "from "@.is_prefix_of(trim(lines(content)[i])))
}

/// How a region's kind follows from its two sides: the same text but for
/// surrounding whitespace is `Whitespace`; different sides that are both imports
/// only are `ImportOrder`; different sides where either has a line other than an
/// import, or no text at all, take the fallback.
pub open spec fn kind_follows_sides(r: RegionView, fallback: ConflictKind) -> bool {
    &&& trim(r.ours) == trim(r.theirs) ==> r.kind == ConflictKind::Whitespace
    &&& trim(r.ours) != trim(r.theirs) && has_text_line(r.ours) && !has_other_line(r.ours)
        && has_text_line(r.theirs) && !has_other_line(r.theirs) ==> r.kind
        == ConflictKind::ImportOrder
    &&& trim(r.ours) != trim(r.theirs) && (has_other_line(r.ours) || has_other_line(r.theirs)
        || !has_text_line(r.ours) || !has_text_line(r.theirs)) ==> r.kind == fallback
}

proof fn lemma_import_only(content: Seq<char>)
    ensures
        import_only(content) <==> has_text_line(content) && !has_other_line(content),
{
}

proof fn lemma_region_kind(
    path: Seq<char>,
    ours: Seq<Seq<char>>,
    theirs: Seq<Seq<char>>,
    fallback: ConflictKind,
)
    ensures
        kind_follows_sides(spec_region(path, ours, theirs, fallback), fallback),
{
    lemma_import_only(join_lines(ours));
    lemma_import_only(join_lines(theirs));
}

proof fn lemma_scan_kinds(path: Seq<char>, fallback: ConflictKind, ls: Seq<Seq<char>>)
    ensures
        forall|k: int|
            0 <= k < scan_fold(path, fallback, ls).regions.len() ==> kind_follows_sides(
                #[trigger] scan_fold(path, fallback, ls).regions[k],
                fallback,
            ),
    decreases ls.len(),
{
    if ls.len() > 0 {
        let st = scan_fold(path, fallback, ls.drop_last());
        lemma_scan_kinds(path, fallback, ls.drop_last());
        lemma_region_kind(path, st.ours, st.theirs, fallback);
    }
}

/// Every region of a marked file has the kind its two sides show: `Whitespace`
/// where they differ only by surrounding whitespace, `ImportOrder` only where both
/// sides are imports and nothing else, and otherwise the fallback.
pub proof fn law_region_kinds_follow_their_sides(
    path: Seq<char>,
    output: Seq<char>,
    fallback: ConflictKind,
)
    ensures
        forall|k: int|
            0 <= k < spec_conflict_regions(path, output, fallback).len() ==> kind_follows_sides(
                #[trigger] spec_conflict_regions(path, output, fallback)[k],
                fallback,
            ),
{
    lemma_scan_kinds(path, fallback, lines(output));
}

} // verus!
