//! Character-level text primitives shared by the parsers of git's output.
//!
//! Every helper works on a `&[char]` and is specified over `Seq<char>`, with the
//! meaning that the corresponding `str` method of Rust's standard library has.
use vstd::prelude::*;

verus! {

broadcast use vstd::seq::group_seq_axioms;

/// `String::push` appends one character.
pub assume_specification[ String::push ](s: &mut String, ch: char)
    ensures
        final(s)@ == old(s)@.push(ch),
;

/// Whitespace as `char::is_whitespace` defines it (Unicode `White_Space`).
pub open spec fn is_ws(c: char) -> bool {
    let u = c as u32;
    (9 <= u <= 13) || u == 32 || u == 0x85 || u == 0xA0 || u == 0x1680 || (0x2000 <= u <= 0x200A)
        || u == 0x2028 || u == 0x2029 || u == 0x202F || u == 0x205F || u == 0x3000
}

pub fn is_whitespace(c: char) -> (r: bool)
    ensures
        r == is_ws(c),
{
    let u = c as u32;
    (9 <= u && u <= 13) || u == 32 || u == 0x85 || u == 0xA0 || u == 0x1680 || (0x2000 <= u && u
        <= 0x200A) || u == 0x2028 || u == 0x2029 || u == 0x202F || u == 0x205F || u == 0x3000
}

/// `i` is the first position of `s` whose character satisfies `p`.
pub open spec fn is_first_where(s: Seq<char>, p: spec_fn(char) -> bool, i: int) -> bool {
    &&& 0 <= i < s.len()
    &&& p(s[i])
    &&& forall|j: int| 0 <= j < i ==> !p(#[trigger] s[j])
}

/// The first position of `s` whose character satisfies `p`, or `s.len()` when none does.
pub open spec fn first_where(s: Seq<char>, p: spec_fn(char) -> bool) -> int {
    if exists|i: int| is_first_where(s, p, i) {
        choose|i: int| is_first_where(s, p, i)
    } else {
        s.len() as int
    }
}

pub proof fn lemma_first_where(s: Seq<char>, p: spec_fn(char) -> bool, i: int)
    requires
        0 <= i <= s.len(),
        i < s.len() ==> p(s[i]),
        forall|j: int| 0 <= j < i ==> !p(#[trigger] s[j]),
    ensures
        first_where(s, p) == i,
{
    if i < s.len() {
        assert(is_first_where(s, p, i));
        let k = choose|k: int| is_first_where(s, p, k);
        if k < i {
            assert(!p(s[k]));
        }
        if k > i {
            assert(!p(s[i]));
        }
    } else {
        if exists|k: int| is_first_where(s, p, k) {
            let k = choose|k: int| is_first_where(s, p, k);
            assert(!p(s[k]));
        }
    }
}

pub open spec fn is_newline(c: char) -> bool {
    c == '\n'
}

/// A line without the carriage return of a `\r\n` ending.
pub open spec fn strip_cr(line: Seq<char>) -> Seq<char> {
    if line.len() > 0 && line.last() == '\r' {
        line.drop_last()
    } else {
        line
    }
}

/// The lines of `s` as `str::lines` yields them: split at `\n`, a `\r` before the
/// `\n` dropped, and no empty last line after a final `\n`.
pub open spec fn lines(s: Seq<char>) -> Seq<Seq<char>>
    decreases s.len(),
{
    if s.len() == 0 {
        seq![]
    } else {
        let i = first_where(s, |c: char| is_newline(c));
        if 0 <= i < s.len() {
            seq![strip_cr(s.take(i))] + lines(s.skip(i + 1))
        } else {
            seq![s]
        }
    }
}

/// The characters of a string.
pub fn chars_of(s: &str) -> (v: Vec<char>)
    ensures
        v@ == s@,
{
    let mut v: Vec<char> = Vec::new();
    let n = s.unicode_len();
    let mut i: usize = 0;
    while i < n
        invariant
            n == s@.len(),
            i <= n,
            v@ == s@.take(i as int),
        decreases n - i,
    {
        v.push(s.get_char(i));
        i += 1;
    }
    v
}

/// The string made of `s[from..to]`.
pub fn string_of(s: &[char], from: usize, to: usize) -> (r: String)
    requires
        from <= to <= s@.len(),
    ensures
        r@ == s@.subrange(from as int, to as int),
{
    let mut r = String::new();
    let mut i = from;
    while i < to
        invariant
            from <= i <= to <= s@.len(),
            r@ == s@.subrange(from as int, i as int),
        decreases to - i,
    {
        r.push(s[i]);
        i += 1;
    }
    r
}

/// The string made of all of `s`.
pub fn string_of_all(s: &[char]) -> (r: String)
    ensures
        r@ == s@,
{
    string_of(s, 0, s.len())
}

/// A copy of `s[from..to]`.
pub fn slice_to_vec(s: &[char], from: usize, to: usize) -> (r: Vec<char>)
    requires
        from <= to <= s@.len(),
    ensures
        r@ == s@.subrange(from as int, to as int),
{
    let mut r: Vec<char> = Vec::new();
    let mut i = from;
    while i < to
        invariant
            from <= i <= to <= s@.len(),
            r@ == s@.subrange(from as int, i as int),
        decreases to - i,
    {
        r.push(s[i]);
        i += 1;
    }
    r
}

/// The position of the first `c` at or after `from`, or `s.len()`.
pub fn find_char_from(s: &[char], from: usize, c: char) -> (r: usize)
    requires
        from <= s@.len(),
    ensures
        from <= r <= s@.len(),
        r < s@.len() ==> s@[r as int] == c,
        forall|j: int| from <= j < r ==> s@[j] != c,
{
    let mut i = from;
    while i < s.len()
        invariant
            from <= i <= s@.len(),
            forall|j: int| from <= j < i ==> s@[j] != c,
        decreases s@.len() - i,
    {
        if s[i] == c {
            return i;
        }
        i += 1;
    }
    i
}

pub open spec fn views(v: Seq<Vec<char>>) -> Seq<Seq<char>> {
    v.map_values(|x: Vec<char>| x@)
}

proof fn lemma_lines_unfold(t: Seq<char>, k: int)
    requires
        0 <= k <= t.len(),
        t.len() > 0,
        k < t.len() ==> t[k] == '\n',
        forall|j: int| 0 <= j < k ==> t[j] != '\n',
    ensures
        k < t.len() ==> lines(t) == seq![strip_cr(t.take(k))] + lines(t.skip(k + 1)),
        k == t.len() ==> lines(t) == seq![t],
{
    lemma_first_where(t, |c: char| is_newline(c), k);
}

/// The line of `s` that starts at `pos` and whose `\n` (or the end) is at `e`.
proof fn lemma_lines_at(s: Seq<char>, pos: int, e: int, line_end: int)
    requires
        0 <= pos < e <= s.len() || (0 <= pos <= e < s.len()),
        e < s.len() ==> s[e] == '\n',
        forall|j: int| pos <= j < e ==> s[j] != '\n',
        e < s.len() ==> line_end == if e > pos && s[e - 1] == '\r' {
            e - 1
        } else {
            e
        },
        e == s.len() ==> line_end == e,
    ensures
        e < s.len() ==> lines(s.skip(pos)) == seq![s.subrange(pos, line_end)] + lines(
            s.skip(e + 1),
        ),
        e == s.len() ==> lines(s.skip(pos)) == seq![s.subrange(pos, line_end)] + lines(
            s.skip(e),
        ),
{
    let t = s.skip(pos);
    assert forall|j: int| 0 <= j < e - pos implies t[j] != '\n' by {
        assert(t[j] == s[pos + j]);
    }
    lemma_lines_unfold(t, e - pos);
    if e < s.len() {
        assert(t.take(e - pos) =~= s.subrange(pos, e));
        assert(t.skip(e - pos + 1) =~= s.skip(e + 1));
        assert(strip_cr(t.take(e - pos)) =~= s.subrange(pos, line_end));
    } else {
        assert(t =~= s.subrange(pos, line_end));
        assert(s.skip(e) =~= Seq::<char>::empty());
    }
}

/// The lines of `s`, as `str::lines` yields them.
pub fn split_lines(s: &[char]) -> (r: Vec<Vec<char>>)
    ensures
        views(r@) == lines(s@),
{
    let mut out: Vec<Vec<char>> = Vec::new();
    let mut pos: usize = 0;
    proof {
        assert(s@.skip(0) =~= s@);
        assert(views(out@) + lines(s@.skip(0)) =~= lines(s@));
    }
    while pos < s.len()
        invariant
            pos <= s@.len(),
            lines(s@) == views(out@) + lines(s@.skip(pos as int)),
        decreases s@.len() - pos,
    {
        let e = find_char_from(s, pos, '\n');
        let mut line_end = e;
        if e < s.len() && e > pos && s[e - 1] == '\r' {
            line_end = e - 1;
        }
        proof {
            lemma_lines_at(s@, pos as int, e as int, line_end as int);
        }
        let line = slice_to_vec(s, pos, line_end);
        let ghost before = out@;
        out.push(line);
        proof {
            assert(views(out@) =~= views(before) + seq![line@]);
        }
        if e < s.len() {
            pos = e + 1;
        } else {
            pos = e;
        }
    }
    proof {
        assert(s@.skip(pos as int) =~= Seq::<char>::empty());
    }
    out
}

/// The pieces of `s` between occurrences of `c`, as `str::split` yields them.
/// The predicate "is `c`".
pub open spec fn eq_to(c: char) -> spec_fn(char) -> bool {
    |x: char| x == c
}

pub open spec fn split(s: Seq<char>, c: char) -> Seq<Seq<char>>
    decreases s.len(),
{
    let i = first_where(s, eq_to(c));
    if 0 <= i < s.len() {
        seq![s.take(i)] + split(s.skip(i + 1), c)
    } else {
        seq![s]
    }
}

/// At most `n` pieces of `s` between occurrences of `c`, the last holding the
/// rest, as `str::splitn` yields them.
pub open spec fn splitn(s: Seq<char>, c: char, n: nat) -> Seq<Seq<char>>
    decreases n,
{
    if n == 0 {
        seq![]
    } else if n == 1 {
        seq![s]
    } else {
        let i = first_where(s, eq_to(c));
        if 0 <= i < s.len() {
            seq![s.take(i)] + splitn(s.skip(i + 1), c, (n - 1) as nat)
        } else {
            seq![s]
        }
    }
}

pub proof fn lemma_split_unfold(t: Seq<char>, c: char, k: int)
    requires
        0 <= k <= t.len(),
        k < t.len() ==> t[k] == c,
        forall|j: int| 0 <= j < k ==> t[j] != c,
    ensures
        k < t.len() ==> split(t, c) == seq![t.take(k)] + split(t.skip(k + 1), c),
        k == t.len() ==> split(t, c) == seq![t],
        forall|n: nat|
            n >= 2 ==> #[trigger] splitn(t, c, n) == if k < t.len() {
                seq![t.take(k)] + splitn(t.skip(k + 1), c, (n - 1) as nat)
            } else {
                seq![t]
            },
{
    lemma_first_where(t, eq_to(c), k);
}

pub fn split_char(s: &[char], c: char) -> (r: Vec<Vec<char>>)
    ensures
        views(r@) == split(s@, c),
{
    let mut out: Vec<Vec<char>> = Vec::new();
    let mut pos: usize = 0;
    proof {
        assert(s@.skip(0) =~= s@);
        assert(views(out@) + split(s@.skip(0), c) =~= split(s@, c));
    }
    loop
        invariant
            pos <= s@.len(),
            split(s@, c) == views(out@) + split(s@.skip(pos as int), c),
        decreases s@.len() - pos,
    {
        let ghost t = s@.skip(pos as int);
        let e = find_char_from(s, pos, c);
        proof {
            lemma_split_unfold(t, c, e - pos);
        }
        let piece = slice_to_vec(s, pos, e);
        let ghost before = out@;
        out.push(piece);
        proof {
            assert(views(out@) =~= views(before) + seq![piece@]);
        }
        if e == s.len() {
            proof {
                assert(piece@ =~= t);
            }
            return out;
        }
        proof {
            assert(t.take(e - pos) =~= piece@);
            assert(t.skip(e - pos + 1) =~= s@.skip(e + 1));
        }
        pos = e + 1;
    }
}

/// Pieces of `s` as `str::splitn(n, c)` yields them.
pub fn split_char_n(s: &[char], c: char, n: usize) -> (r: Vec<Vec<char>>)
    ensures
        views(r@) == splitn(s@, c, n as nat),
{
    let mut out: Vec<Vec<char>> = Vec::new();
    if n == 0 {
        return out;
    }
    let mut pos: usize = 0;
    let mut left: usize = n;
    proof {
        assert(s@.skip(0) =~= s@);
        assert(views(out@) + splitn(s@.skip(0), c, n as nat) =~= splitn(s@, c, n as nat));
    }
    loop
        invariant
            pos <= s@.len(),
            1 <= left <= n,
            splitn(s@, c, n as nat) == views(out@) + splitn(s@.skip(pos as int), c, left as nat),
        decreases left,
    {
        let ghost t = s@.skip(pos as int);
        if left == 1 {
            let piece = slice_to_vec(s, pos, s.len());
            let ghost before = out@;
            out.push(piece);
            proof {
                assert(piece@ =~= t);
                assert(views(out@) =~= views(before) + seq![piece@]);
            }
            return out;
        }
        let e = find_char_from(s, pos, c);
        proof {
            lemma_split_unfold(t, c, e - pos);
            assert(splitn(t, c, left as nat) == if e - pos < t.len() {
                seq![t.take(e - pos)] + splitn(t.skip(e - pos + 1), c, (left - 1) as nat)
            } else {
                seq![t]
            });
        }
        let piece = slice_to_vec(s, pos, e);
        let ghost before = out@;
        out.push(piece);
        proof {
            assert(views(out@) =~= views(before) + seq![piece@]);
        }
        if e == s.len() {
            proof {
                assert(piece@ =~= t);
            }
            return out;
        }
        proof {
            assert(t.take(e - pos) =~= piece@);
            assert(t.skip(e - pos + 1) =~= s@.skip(e + 1));
        }
        pos = e + 1;
        left = left - 1;
    }
}

/// The maximal runs of non-whitespace characters of `s`, as `str::split_whitespace`
/// yields them.
pub open spec fn ws_tokens(s: Seq<char>) -> Seq<Seq<char>>
    decreases s.len(),
{
    if s.len() == 0 {
        seq![]
    } else if is_ws(s[0]) {
        ws_tokens(s.drop_first())
    } else {
        let k = first_where(s, |c: char| is_ws(c));
        if 0 < k <= s.len() {
            seq![s.take(k)] + ws_tokens(s.skip(k))
        } else {
            seq![s]
        }
    }
}

proof fn lemma_ws_tokens_skip(t: Seq<char>)
    requires
        t.len() > 0,
        is_ws(t[0]),
    ensures
        ws_tokens(t) == ws_tokens(t.drop_first()),
{
}

proof fn lemma_ws_tokens_token(t: Seq<char>, k: int)
    requires
        0 < k <= t.len(),
        !is_ws(t[0]),
        k < t.len() ==> is_ws(t[k]),
        forall|j: int| 0 <= j < k ==> !is_ws(t[j]),
    ensures
        ws_tokens(t) == seq![t.take(k)] + ws_tokens(t.skip(k)),
{
    lemma_first_where(t, |c: char| is_ws(c), k);
}

pub fn split_whitespace(s: &[char]) -> (r: Vec<Vec<char>>)
    ensures
        views(r@) == ws_tokens(s@),
{
    let mut out: Vec<Vec<char>> = Vec::new();
    let mut pos: usize = 0;
    proof {
        assert(s@.skip(0) =~= s@);
        assert(views(out@) + ws_tokens(s@.skip(0)) =~= ws_tokens(s@));
    }
    while pos < s.len()
        invariant
            pos <= s@.len(),
            ws_tokens(s@) == views(out@) + ws_tokens(s@.skip(pos as int)),
        decreases s@.len() - pos,
    {
        let ghost t = s@.skip(pos as int);
        if is_whitespace(s[pos]) {
            proof {
                lemma_ws_tokens_skip(t);
                assert(t.drop_first() =~= s@.skip(pos + 1));
            }
            pos = pos + 1;
        } else {
            let mut e = pos + 1;
            while e < s.len() && !is_whitespace(s[e])
                invariant
                    pos < e <= s@.len(),
                    forall|j: int| pos <= j < e ==> !is_ws(s@[j]),
                decreases s@.len() - e,
            {
                e = e + 1;
            }
            proof {
                lemma_ws_tokens_token(t, e - pos);
                assert(t.take(e - pos) =~= s@.subrange(pos as int, e as int));
                assert(t.skip(e - pos) =~= s@.skip(e as int));
            }
            let piece = slice_to_vec(s, pos, e);
            let ghost before = out@;
            out.push(piece);
            proof {
                assert(views(out@) =~= views(before) + seq![piece@]);
            }
            pos = e;
        }
    }
    proof {
        assert(s@.skip(pos as int) =~= Seq::<char>::empty());
    }
    out
}

/// `s` without leading whitespace.
pub open spec fn trim_start(s: Seq<char>) -> Seq<char>
    decreases s.len(),
{
    if s.len() > 0 && is_ws(s[0]) {
        trim_start(s.drop_first())
    } else {
        s
    }
}

/// `s` without trailing whitespace.
pub open spec fn trim_end(s: Seq<char>) -> Seq<char>
    decreases s.len(),
{
    if s.len() > 0 && is_ws(s.last()) {
        trim_end(s.drop_last())
    } else {
        s
    }
}

/// `s` without leading and trailing whitespace, as `str::trim` gives it.
pub open spec fn trim(s: Seq<char>) -> Seq<char> {
    trim_end(trim_start(s))
}

/// The bounds of the trimmed part of `s[from..to]`.
pub fn trim_bounds(s: &[char], from: usize, to: usize) -> (r: (usize, usize))
    requires
        from <= to <= s@.len(),
    ensures
        from <= r.0 <= r.1 <= to,
        s@.subrange(r.0 as int, r.1 as int) == trim(s@.subrange(from as int, to as int)),
{
    let mut a = from;
    while a < to && is_whitespace(s[a])
        invariant
            from <= a <= to <= s@.len(),
            trim_start(s@.subrange(from as int, to as int)) == trim_start(
                s@.subrange(a as int, to as int),
            ),
        decreases to - a,
    {
        proof {
            assert(s@.subrange(a as int, to as int).drop_first() =~= s@.subrange(
                a + 1,
                to as int,
            ));
        }
        a = a + 1;
    }
    proof {
        assert(trim_start(s@.subrange(a as int, to as int)) == s@.subrange(a as int, to as int));
    }
    let mut b = to;
    while b > a && is_whitespace(s[b - 1])
        invariant
            from <= a <= b <= to <= s@.len(),
            trim(s@.subrange(from as int, to as int)) == trim_end(
                s@.subrange(a as int, b as int),
            ),
        decreases b - a,
    {
        proof {
            assert(s@.subrange(a as int, b as int).drop_last() =~= s@.subrange(
                a as int,
                b - 1,
            ));
        }
        b = b - 1;
    }
    (a, b)
}

/// `str::trim` of `s[from..to]`, as a copy.
pub fn trimmed(s: &[char]) -> (r: Vec<char>)
    ensures
        r@ == trim(s@),
{
    let (a, b) = trim_bounds(s, 0, s.len());
    proof {
        assert(s@.subrange(0, s@.len() as int) =~= s@);
    }
    slice_to_vec(s, a, b)
}

/// `s` without any trailing `c`, as `str::trim_end_matches(c)` gives it.
pub open spec fn trim_end_char(s: Seq<char>, c: char) -> Seq<char>
    decreases s.len(),
{
    if s.len() > 0 && s.last() == c {
        trim_end_char(s.drop_last(), c)
    } else {
        s
    }
}

/// The length of `trim_end_char(s[..to], c)`.
pub fn trim_end_char_len(s: &[char], to: usize, c: char) -> (r: usize)
    requires
        to <= s@.len(),
    ensures
        r <= to,
        s@.take(r as int) == trim_end_char(s@.take(to as int), c),
{
    let mut b = to;
    while b > 0 && s[b - 1] == c
        invariant
            b <= to <= s@.len(),
            trim_end_char(s@.take(to as int), c) == trim_end_char(s@.take(b as int), c),
        decreases b,
    {
        proof {
            assert(s@.take(b as int).drop_last() =~= s@.take(b - 1));
        }
        b = b - 1;
    }
    b
}

/// `s` without any leading `-` or `+`, as `str::trim_start_matches(['-', '+'])` gives it.
pub open spec fn trim_start_signs(s: Seq<char>) -> Seq<char>
    decreases s.len(),
{
    if s.len() > 0 && (s[0] == '-' || s[0] == '+') {
        trim_start_signs(s.drop_first())
    } else {
        s
    }
}

pub fn trim_start_signs_from(s: &[char]) -> (r: usize)
    ensures
        r <= s@.len(),
        s@.skip(r as int) == trim_start_signs(s@),
{
    let mut a: usize = 0;
    assert(s@.skip(0) =~= s@);
    while a < s.len() && (s[a] == '-' || s[a] == '+')
        invariant
            a <= s@.len(),
            trim_start_signs(s@) == trim_start_signs(s@.skip(a as int)),
        decreases s@.len() - a,
    {
        proof {
            assert(s@.skip(a as int).drop_first() =~= s@.skip(a + 1));
        }
        a = a + 1;
    }
    a
}

/// Whether `s` starts with `p`, as `str::starts_with` says.
pub fn starts_with(s: &[char], p: &[char]) -> (r: bool)
    ensures
        r == p@.is_prefix_of(s@),
{
    if p.len() > s.len() {
        return false;
    }
    let mut i: usize = 0;
    while i < p.len()
        invariant
            p@.len() <= s@.len(),
            i <= p@.len(),
            forall|j: int| 0 <= j < i ==> p@[j] == s@[j],
        decreases p@.len() - i,
    {
        if p[i] != s[i] {
            assert(!(p@ =~= s@.subrange(0, p@.len() as int)) ) by {
                assert(p@[i as int] != s@.subrange(0, p@.len() as int)[i as int]);
            }
            return false;
        }
        i = i + 1;
    }
    assert(p@ =~= s@.subrange(0, p@.len() as int));
    true
}

/// `s` without its prefix `p`, as `str::strip_prefix` gives it.
pub open spec fn strip_prefix(s: Seq<char>, p: Seq<char>) -> Option<Seq<char>> {
    if p.is_prefix_of(s) {
        Some(s.skip(p.len() as int))
    } else {
        None
    }
}

pub fn strip_prefix_of(s: &[char], p: &[char]) -> (r: Option<Vec<char>>)
    ensures
        r matches Some(v) ==> strip_prefix(s@, p@) == Some(v@),
        r is None ==> strip_prefix(s@, p@) is None,
{
    if starts_with(s, p) {
        let v = slice_to_vec(s, p.len(), s.len());
        assert(v@ =~= s@.skip(p@.len() as int));
        Some(v)
    } else {
        None
    }
}

/// `pat` occurs in `s` at position `i`.
pub open spec fn occurs_at<T>(s: Seq<T>, pat: Seq<T>, i: int) -> bool {
    0 <= i && i + pat.len() <= s.len() && s.subrange(i, i + pat.len()) == pat
}

/// `pat` occurs somewhere in `s`, as `str::contains` says.
pub open spec fn contains_seq<T>(s: Seq<T>, pat: Seq<T>) -> bool {
    exists|i: int| occurs_at(s, pat, i)
}

/// The first position where `pat` occurs in `s`, as `str::find` gives it.
pub open spec fn find_seq<T>(s: Seq<T>, pat: Seq<T>) -> Option<int> {
    if contains_seq(s, pat) {
        Some(
            choose|i: int|
                occurs_at(s, pat, i) && forall|j: int| 0 <= j < i ==> !occurs_at(s, pat, j),
        )
    } else {
        None
    }
}

pub fn occurs_at_chars(s: &[char], pat: &[char], i: usize) -> (r: bool)
    ensures
        r == occurs_at(s@, pat@, i as int),
{
    if i > s.len() || pat.len() > s.len() - i {
        return false;
    }
    let slen = s.len();
    let mut k: usize = 0;
    while k < pat.len()
        invariant
            slen == s@.len(),
            i + pat@.len() <= s@.len(),
            k <= pat@.len(),
            forall|j: int| 0 <= j < k ==> s@[i + j] == pat@[j],
        decreases pat@.len() - k,
    {
        assert(i + k < s@.len());
        if s[i + k] != pat[k] {
            assert(s@.subrange(i as int, i + pat@.len())[k as int] != pat@[k as int]);
            return false;
        }
        k = k + 1;
    }
    assert(s@.subrange(i as int, i + pat@.len()) =~= pat@);
    true
}

pub fn occurs_at_bytes(s: &[u8], pat: &[u8], i: usize) -> (r: bool)
    ensures
        r == occurs_at(s@, pat@, i as int),
{
    if i > s.len() || pat.len() > s.len() - i {
        return false;
    }
    let slen = s.len();
    let mut k: usize = 0;
    while k < pat.len()
        invariant
            slen == s@.len(),
            i + pat@.len() <= s@.len(),
            k <= pat@.len(),
            forall|j: int| 0 <= j < k ==> s@[i + j] == pat@[j],
        decreases pat@.len() - k,
    {
        assert(i + k < s@.len());
        if s[i + k] != pat[k] {
            assert(s@.subrange(i as int, i + pat@.len())[k as int] != pat@[k as int]);
            return false;
        }
        k = k + 1;
    }
    assert(s@.subrange(i as int, i + pat@.len()) =~= pat@);
    true
}

pub fn contains_chars(s: &[char], pat: &[char]) -> (r: bool)
    ensures
        r == contains_seq(s@, pat@),
{
    let mut i: usize = 0;
    while i < s.len()
        invariant
            i <= s@.len(),
            forall|j: int| 0 <= j < i ==> !occurs_at(s@, pat@, j),
        decreases s@.len() - i,
    {
        if occurs_at_chars(s, pat, i) {
            return true;
        }
        i = i + 1;
    }
    if occurs_at_chars(s, pat, s.len()) {
        return true;
    }
    assert forall|j: int| !occurs_at(s@, pat@, j) by {
        if 0 <= j < s@.len() {
            assert(!occurs_at(s@, pat@, j));
        }
    }
    false
}

proof fn lemma_find_seq<T>(s: Seq<T>, pat: Seq<T>, i: int)
    requires
        occurs_at(s, pat, i),
        forall|j: int| 0 <= j < i ==> !occurs_at(s, pat, j),
    ensures
        find_seq(s, pat) == Some(i),
{
    let k = choose|k: int|
        occurs_at(s, pat, k) && forall|j: int| 0 <= j < k ==> !occurs_at(s, pat, j);
    assert(occurs_at(s, pat, k) && forall|j: int| 0 <= j < k ==> !occurs_at(s, pat, j));
    if k < i {
        assert(!occurs_at(s, pat, k));
    }
    if k > i {
        assert(!occurs_at(s, pat, i));
    }
}

/// The first position where `pat` occurs in `s`.
pub fn find_bytes(s: &[u8], pat: &[u8]) -> (r: Option<usize>)
    ensures
        r matches Some(i) ==> find_seq(s@, pat@) == Some(i as int) && occurs_at(s@, pat@, i as int),
        r is None ==> find_seq(s@, pat@) is None,
{
    let mut i: usize = 0;
    while i < s.len()
        invariant
            i <= s@.len(),
            forall|j: int| 0 <= j < i ==> !occurs_at(s@, pat@, j),
        decreases s@.len() - i,
    {
        if occurs_at_bytes(s, pat, i) {
            proof {
                lemma_find_seq(s@, pat@, i as int);
            }
            return Some(i);
        }
        i = i + 1;
    }
    if occurs_at_bytes(s, pat, s.len()) {
        proof {
            lemma_find_seq(s@, pat@, i as int);
        }
        return Some(s.len());
    }
    assert forall|j: int| !occurs_at(s@, pat@, j) by {
        if 0 <= j < s@.len() {
            assert(!occurs_at(s@, pat@, j));
        }
    }
    None
}

pub fn contains_bytes(s: &[u8], pat: &[u8]) -> (r: bool)
    ensures
        r == contains_seq(s@, pat@),
{
    find_bytes(s, pat).is_some()
}

/// The pieces of `parts` joined with `\n` between them, as `[String]::join("\n")` gives it.
pub open spec fn join_lines(parts: Seq<Seq<char>>) -> Seq<char>
    decreases parts.len(),
{
    if parts.len() == 0 {
        seq![]
    } else if parts.len() == 1 {
        parts[0]
    } else {
        join_lines(parts.drop_last()) + seq!['\n'] + parts.last()
    }
}

pub fn join_with_newlines(parts: &Vec<Vec<char>>) -> (r: Vec<char>)
    ensures
        r@ == join_lines(views(parts@)),
{
    let mut out: Vec<char> = Vec::new();
    let mut i: usize = 0;
    while i < parts.len()
        invariant
            i <= parts@.len(),
            out@ == join_lines(views(parts@).take(i as int)),
        decreases parts@.len() - i,
    {
        let ghost before = out@;
        if i > 0 {
            out.push('\n');
        }
        let part = &parts[i];
        let mut k: usize = 0;
        while k < part.len()
            invariant
                k <= part@.len(),
                i > 0 ==> out@ == before + seq!['\n'] + part@.take(k as int),
                i == 0 ==> out@ == before + part@.take(k as int),
            decreases part@.len() - k,
        {
            out.push(part[k]);
            k = k + 1;
        }
        proof {
            let vs = views(parts@);
            assert(vs.take(i + 1).drop_last() =~= vs.take(i as int));
            assert(vs.take(i + 1).last() == part@);
            assert(part@.take(k as int) =~= part@);
            if i == 0 {
                assert(before =~= Seq::<char>::empty());
                assert(out@ =~= part@);
            }
        }
        i = i + 1;
    }
    proof {
        assert(views(parts@).take(i as int) =~= views(parts@));
    }
    out
}

pub open spec fn is_digit(c: char) -> bool {
    '0' <= c <= '9'
}

pub open spec fn digit_value(c: char) -> nat {
    (c as u32 - '0' as u32) as nat
}

/// The value of a run of decimal digits.
pub open spec fn digits_value(s: Seq<char>) -> nat
    decreases s.len(),
{
    if s.len() == 0 {
        0
    } else {
        digits_value(s.drop_last()) * 10 + digit_value(s.last())
    }
}

/// The digits of an unsigned decimal as `from_str` reads them: an optional `+`,
/// then at least one digit.
pub open spec fn decimal_digits(s: Seq<char>) -> Option<Seq<char>> {
    if digits_part(s).len() > 0 && all_digits(digits_part(s)) {
        Some(digits_part(s))
    } else {
        None
    }
}

/// `s` without one leading `+`.
pub open spec fn digits_part(s: Seq<char>) -> Seq<char> {
    if s.len() > 0 && s[0] == '+' {
        s.drop_first()
    } else {
        s
    }
}

pub open spec fn all_digits(d: Seq<char>) -> bool {
    forall|i: int| 0 <= i < d.len() ==> is_digit(#[trigger] d[i])
}

/// What `from_str` of an unsigned integer type whose largest value is `max` gives.
pub open spec fn parse_unsigned(s: Seq<char>, max: nat) -> Option<nat> {
    match decimal_digits(s) {
        Some(d) => if digits_value(d) <= max {
            Some(digits_value(d))
        } else {
            None
        },
        None => None,
    }
}

proof fn lemma_digits_value_grows(s: Seq<char>, k: int)
    requires
        0 <= k <= s.len(),
    ensures
        digits_value(s.take(k)) <= digits_value(s),
    decreases s.len() - k,
{
    if k < s.len() {
        lemma_digits_value_grows(s.drop_last(), k);
        assert(s.drop_last().take(k) =~= s.take(k));
    } else {
        assert(s.take(k) =~= s);
    }
}

/// `from_str` of an unsigned integer type whose largest value is `max`.
pub fn parse_decimal(s: &[char], max: u64) -> (r: Option<u64>)
    ensures
        r matches Some(v) ==> parse_unsigned(s@, max as nat) == Some(v as nat),
        r is None ==> parse_unsigned(s@, max as nat) is None,
{
    let start: usize = if s.len() > 0 && s[0] == '+' {
        1
    } else {
        0
    };
    let ghost d = digits_part(s@);
    proof {
        if s@.len() > 0 && s@[0] == '+' {
            assert(d =~= s@.skip(1));
        } else {
            assert(d =~= s@.skip(0));
        }
    }
    if start >= s.len() {
        return None;
    }
    let mut acc: u64 = 0;
    let mut i = start;
    while i < s.len()
        invariant
            start <= i <= s@.len(),
            d == s@.skip(start as int),
            d == digits_part(s@),
            acc as nat == digits_value(d.take(i - start)),
            acc <= max,
            forall|j: int| 0 <= j < i - start ==> is_digit(#[trigger] d[j]),
        decreases s@.len() - i,
    {
        let c = s[i];
        if !('0' <= c && c <= '9') {
            assert(!is_digit(d[i - start]));
            assert(!all_digits(d));
            return None;
        }
        let dv = (c as u32 - '0' as u32) as u64;
        proof {
            assert(d.take(i - start + 1).drop_last() =~= d.take(i - start));
            assert(d.take(i - start + 1).last() == c);
        }
        let next = match acc.checked_mul(10) {
            Some(m) => m.checked_add(dv),
            None => None,
        };
        match next {
            Some(v) if v <= max => {
                acc = v;
            },
            _ => {
                proof {
                    lemma_digits_value_grows(d, i - start + 1);
                }
                return None;
            },
        }
        i = i + 1;
    }
    proof {
        assert(d.take(i - start) =~= d);
    }
    Some(acc)
}

/// ASCII letters mapped to lower case, other characters unchanged.
pub open spec fn ascii_lower(c: char) -> char {
    if 'A' <= c <= 'Z' {
        ((c as u32) + 32) as char
    } else {
        c
    }
}

/// `a` and `b` are equal up to ASCII case, as `str::eq_ignore_ascii_case` says.
pub open spec fn eq_ignore_case(a: Seq<char>, b: Seq<char>) -> bool {
    a.len() == b.len() && forall|i: int| 0 <= i < a.len() ==> ascii_lower(a[i]) == ascii_lower(b[i])
}

pub fn to_ascii_lower(c: char) -> (r: char)
    ensures
        r == ascii_lower(c),
{
    if 'A' <= c && c <= 'Z' {
        let u = c as u32 + 32;
        assert(0x61 <= u <= 0x7A);
        char_from_ascii(u)
    } else {
        c
    }
}

fn char_from_ascii(u: u32) -> (r: char)
    requires
        u < 128,
    ensures
        r == u as char,
{
    let b = u as u8;
    b as char
}

pub fn eq_ignore_ascii_case(a: &[char], b: &[char]) -> (r: bool)
    ensures
        r == eq_ignore_case(a@, b@),
{
    if a.len() != b.len() {
        return false;
    }
    let mut i: usize = 0;
    while i < a.len()
        invariant
            a@.len() == b@.len(),
            i <= a@.len(),
            forall|j: int| 0 <= j < i ==> ascii_lower(a@[j]) == ascii_lower(b@[j]),
        decreases a@.len() - i,
    {
        if to_ascii_lower(a[i]) != to_ascii_lower(b[i]) {
            return false;
        }
        i = i + 1;
    }
    true
}

/// The number of bytes UTF-8 takes for `c`.
pub open spec fn utf8_width(c: char) -> nat {
    if (c as u32) < 0x80 {
        1
    } else if (c as u32) < 0x800 {
        2
    } else if (c as u32) < 0x10000 {
        3
    } else {
        4
    }
}

/// The number of bytes UTF-8 takes for `s`, which `str::len` returns.
pub open spec fn utf8_len(s: Seq<char>) -> nat
    decreases s.len(),
{
    if s.len() == 0 {
        0
    } else {
        utf8_len(s.drop_last()) + utf8_width(s.last())
    }
}

proof fn lemma_utf8_len_grows(s: Seq<char>, k: int)
    requires
        0 <= k <= s.len(),
    ensures
        utf8_len(s.take(k)) <= utf8_len(s),
    decreases s.len() - k,
{
    if k < s.len() {
        lemma_utf8_len_grows(s.drop_last(), k);
        assert(s.drop_last().take(k) =~= s.take(k));
    } else {
        assert(s.take(k) =~= s);
    }
}

/// Whether `s` takes fewer than `n` bytes in UTF-8.
pub fn utf8_len_below(s: &[char], n: usize) -> (r: bool)
    ensures
        r == (utf8_len(s@) < n),
{
    if n == 0 {
        return false;
    }
    let mut total: usize = 0;
    let mut i: usize = 0;
    assert(s@.take(0) =~= Seq::<char>::empty());
    while i < s.len()
        invariant
            i <= s@.len(),
            total == utf8_len(s@.take(i as int)),
            total < n,
        decreases s@.len() - i,
    {
        let u = s[i] as u32;
        let w: usize = if u < 0x80 {
            1
        } else if u < 0x800 {
            2
        } else if u < 0x10000 {
            3
        } else {
            4
        };
        proof {
            assert(s@.take(i + 1).drop_last() =~= s@.take(i as int));
        }
        if w >= n - total {
            proof {
                lemma_utf8_len_grows(s@, i + 1);
            }
            return false;
        }
        total = total + w;
        i = i + 1;
    }
    proof {
        assert(s@.take(i as int) =~= s@);
    }
    true
}

/// The decimal digits of `n`, as `to_string` writes them.
pub open spec fn decimal(n: nat) -> Seq<char>
    decreases n,
{
    if n < 10 {
        seq![digit_char(n)]
    } else {
        decimal(n / 10) + seq![digit_char(n % 10)]
    }
}

pub open spec fn digit_char(d: nat) -> char {
    (('0' as u32) + d) as char
}

proof fn lemma_decimal_digits(n: nat)
    ensures
        decimal(n).len() > 0,
        all_digits(decimal(n)),
        digits_value(decimal(n)) == n,
    decreases n,
{
    if n < 10 {
        assert(decimal(n) == seq![digit_char(n)]);
        assert(seq![digit_char(n)].drop_last() =~= Seq::<char>::empty());
        assert(digit_char(n) as u32 == '0' as u32 + n);
        assert(digit_value(digit_char(n)) == n);
        assert(digits_value(Seq::<char>::empty()) == 0);
        assert(digits_value(decimal(n)) == digits_value(decimal(n).drop_last()) * 10 + digit_value(
            decimal(n).last(),
        ));
    } else {
        lemma_decimal_digits(n / 10);
        let s = decimal(n);
        assert(s == decimal(n / 10) + seq![digit_char(n % 10)]);
        assert(s.drop_last() =~= decimal(n / 10));
        assert(digit_char((n % 10) as nat) as u32 == '0' as u32 + n % 10);
        assert(digit_value(s.last()) == n % 10);
        assert(n == (n / 10) * 10 + n % 10);
        assert(digits_value(s) == digits_value(s.drop_last()) * 10 + digit_value(s.last()));
    }
}

/// A number written in decimal reads back as itself, where it fits under `max`.
pub proof fn law_decimal_reads_back(n: nat, max: nat)
    requires
        n <= max,
    ensures
        parse_unsigned(decimal(n), max) == Some(n),
        decimal(n).len() > 0,
        is_digit(decimal(n).last()),
{
    lemma_decimal_digits(n);
    assert(is_digit(decimal(n)[0]));
    assert(digits_part(decimal(n)) == decimal(n));
    assert(is_digit(decimal(n)[decimal(n).len() - 1]));
}

/// `n` written in decimal.
pub fn decimal_string(n: u64) -> (r: String)
    ensures
        r@ == decimal(n as nat),
{
    let mut digits: Vec<char> = Vec::new();
    let mut m = n;
    while m >= 10
        invariant
            decimal(n as nat) == decimal(m as nat) + digits@,
        decreases m,
    {
        let d = m % 10;
        let c = char_from_ascii((48 + d) as u32);
        let ghost before = digits@;
        digits.insert(0, c);
        proof {
            assert(digits@ =~= seq![c] + before);
            assert(decimal(m as nat) == decimal((m / 10) as nat) + seq![digit_char((m % 10) as nat)]);
            assert(decimal(m as nat) + before =~= decimal((m / 10) as nat) + digits@);
        }
        m = m / 10;
    }
    let c = char_from_ascii((48 + m) as u32);
    let mut r = String::new();
    r.push(c);
    let mut i: usize = 0;
    while i < digits.len()
        invariant
            i <= digits@.len(),
            r@ == seq![c] + digits@.take(i as int),
        decreases digits@.len() - i,
    {
        r.push(digits[i]);
        proof {
            assert(digits@.take(i + 1) =~= digits@.take(i as int).push(digits@[i as int]));
        }
        i = i + 1;
    }
    proof {
        assert(digits@.take(i as int) =~= digits@);
        assert(decimal(m as nat) =~= seq![c]);
    }
    r
}

/// A string made of a string literal.
pub fn lit(s: &str) -> (r: String)
    ensures
        r@ == s@,
{
    s.to_owned()
}

/// `a` followed by `b`.
pub fn cat2(a: &str, b: &str) -> (r: String)
    ensures
        r@ == a@ + b@,
{
    let mut r = lit(a);
    r.append(b);
    r
}

/// `a` followed by `b` and `c`.
pub fn cat3(a: &str, b: &str, c: &str) -> (r: String)
    ensures
        r@ == a@ + b@ + c@,
{
    let mut r = lit(a);
    r.append(b);
    r.append(c);
    r
}

/// `v` with copies of the strings of `extra` appended.
pub fn extend_strings(v: &mut Vec<String>, extra: &Vec<String>)
    ensures
        strings_view(final(v)@) == strings_view(old(v)@) + strings_view(extra@),
{
    let ghost start = strings_view(v@);
    let mut i: usize = 0;
    while i < extra.len()
        invariant
            i <= extra@.len(),
            strings_view(v@) == start + strings_view(extra@).take(i as int),
        decreases extra@.len() - i,
    {
        let ghost before = v@;
        let c = extra[i].clone();
        assert(c@ == extra@[i as int]@);
        v.push(c);
        proof {
            lemma_strings_view_push(before, c);
            lemma_strings_view_take(extra@, i as int);
            assert(start + strings_view(extra@).take(i + 1) =~= (start + strings_view(
                extra@,
            ).take(i as int)).push(c@));
        }
        i = i + 1;
    }
    proof {
        assert(strings_view(extra@).take(i as int) =~= strings_view(extra@));
    }
}

pub open spec fn strings_view(v: Seq<String>) -> Seq<Seq<char>> {
    v.map_values(|x: String| x@)
}

pub proof fn lemma_strings_view_push(v: Seq<String>, x: String)
    ensures
        strings_view(v.push(x)) == strings_view(v).push(x@),
{
    assert(strings_view(v.push(x)) =~= strings_view(v).push(x@));
}

pub proof fn lemma_strings_view_take(v: Seq<String>, i: int)
    requires
        0 <= i < v.len(),
    ensures
        strings_view(v).take(i + 1) == strings_view(v).take(i).push(v[i]@),
{
    assert(strings_view(v).take(i + 1) =~= strings_view(v).take(i).push(v[i]@));
}

/// Whether two character sequences are equal.
pub fn eq_chars(a: &[char], b: &[char]) -> (r: bool)
    ensures
        r == (a@ == b@),
{
    if a.len() != b.len() {
        return false;
    }
    let mut i: usize = 0;
    while i < a.len()
        invariant
            a@.len() == b@.len(),
            i <= a@.len(),
            forall|j: int| 0 <= j < i ==> a@[j] == b@[j],
        decreases a@.len() - i,
    {
        if a[i] != b[i] {
            return false;
        }
        i = i + 1;
    }
    assert(a@ =~= b@);
    true
}

/// The pieces, each trimmed, without those that are empty once trimmed, in order.
pub open spec fn trimmed_nonempty(pieces: Seq<Seq<char>>) -> Seq<Seq<char>>
    decreases pieces.len(),
{
    if pieces.len() == 0 {
        seq![]
    } else {
        let prev = trimmed_nonempty(pieces.drop_last());
        if trim(pieces.last()).len() == 0 {
            prev
        } else {
            prev.push(trim(pieces.last()))
        }
    }
}

/// The `n`-th NUL-separated field of a graph line, or nothing.
pub open spec fn field(parts: Seq<Seq<char>>, n: int) -> Seq<char> {
    if n < parts.len() {
        parts[n]
    } else {
        seq![]
    }
}


/// `a` sorts strictly before `b`: the order of `str`'s `Ord`, character by character
/// on code points, a proper prefix first. (UTF-8 keeps this order on the bytes.)
pub open spec fn chars_lt(a: Seq<char>, b: Seq<char>) -> bool
    decreases a.len(),
{
    if b.len() == 0 {
        false
    } else if a.len() == 0 {
        true
    } else if a[0] < b[0] {
        true
    } else if a[0] == b[0] {
        chars_lt(a.drop_first(), b.drop_first())
    } else {
        false
    }
}

pub proof fn lemma_chars_lt_irreflexive(a: Seq<char>)
    ensures
        !chars_lt(a, a),
    decreases a.len(),
{
    if a.len() > 0 {
        lemma_chars_lt_irreflexive(a.drop_first());
    }
}

pub proof fn lemma_chars_lt_transitive(a: Seq<char>, b: Seq<char>, c: Seq<char>)
    requires
        chars_lt(a, b),
        chars_lt(b, c),
    ensures
        chars_lt(a, c),
    decreases a.len(),
{
    if a.len() > 0 && b.len() > 0 && c.len() > 0 && a[0] == b[0] && b[0] == c[0] {
        lemma_chars_lt_transitive(a.drop_first(), b.drop_first(), c.drop_first());
    }
}

pub proof fn lemma_chars_lt_total(a: Seq<char>, b: Seq<char>)
    requires
        a != b,
    ensures
        chars_lt(a, b) || chars_lt(b, a),
    decreases a.len(),
{
    if a.len() > 0 && b.len() > 0 && a[0] == b[0] {
        if a.drop_first() == b.drop_first() {
            assert(a =~= seq![a[0]] + a.drop_first());
            assert(b =~= seq![b[0]] + b.drop_first());
        }
        lemma_chars_lt_total(a.drop_first(), b.drop_first());
    } else if a.len() == 0 && b.len() == 0 {
        assert(a =~= b);
    }
}

/// How two strings compare in the order of `chars_lt`.
#[derive(Clone, Copy, Debug, PartialEq, Eq, Structural)]
pub enum Precedence {
    Before,
    Same,
    After,
}

/// How `a` compares with `b`.
pub fn compare_chars(a: &[char], b: &[char]) -> (r: Precedence)
    ensures
        r == Precedence::Before <==> chars_lt(a@, b@),
        r == Precedence::Same <==> a@ == b@,
        r == Precedence::After <==> chars_lt(b@, a@),
{
    let mut i: usize = 0;
    proof {
        assert(a@.skip(0) =~= a@);
        assert(b@.skip(0) =~= b@);
    }
    while i < a.len() && i < b.len()
        invariant
            i <= a@.len(),
            i <= b@.len(),
            a@.take(i as int) == b@.take(i as int),
            chars_lt(a@, b@) == chars_lt(a@.skip(i as int), b@.skip(i as int)),
            chars_lt(b@, a@) == chars_lt(b@.skip(i as int), a@.skip(i as int)),
        decreases a@.len() - i,
    {
        let x = a[i];
        let y = b[i];
        if x < y {
            return Precedence::Before;
        }
        if y < x {
            return Precedence::After;
        }
        proof {
            assert(a@.skip(i as int).drop_first() =~= a@.skip(i + 1));
            assert(b@.skip(i as int).drop_first() =~= b@.skip(i + 1));
            assert(a@.take(i + 1) =~= a@.take(i as int).push(x));
            assert(b@.take(i + 1) =~= b@.take(i as int).push(y));
        }
        i = i + 1;
    }
    if i < b.len() {
        proof {
            lemma_chars_lt_irreflexive(b@.skip(i as int));
            if a@ == b@ {
                assert(false);
            }
        }
        Precedence::Before
    } else if i < a.len() {
        proof {
            if a@ == b@ {
                assert(false);
            }
        }
        Precedence::After
    } else {
        proof {
            assert(a@ =~= a@.take(i as int));
            assert(b@ =~= b@.take(i as int));
            lemma_chars_lt_irreflexive(a@);
        }
        Precedence::Same
    }
}

} // verus!
