//! The URL of a remote, as `git remote get-url` gives it.
use vstd::prelude::*;

use crate::text::{
    chars_of, contains_chars, contains_seq, split, split_char, trim_end_char, trim_end_char_len,
    views,
};

verus! {

broadcast use vstd::seq::group_seq_axioms;

/// The URL of a remote.
#[derive(Clone, Debug, PartialEq, Eq)]
pub struct LocalGitUrl {
    pub url: String,
}

/// `s` without every trailing `pat`, as `str::trim_end_matches(pat)` gives it.
pub open spec fn trim_end_str(s: Seq<char>, pat: Seq<char>) -> Seq<char>
    decreases s.len(),
{
    if pat.len() > 0 && pat.len() <= s.len() && s.skip(s.len() - pat.len()) == pat {
        trim_end_str(s.take(s.len() - pat.len()), pat)
    } else {
        s
    }
}

/// The repository name of a URL: its last `/`-separated piece, trailing slashes
/// ignored, without trailing `.git`; none when that leaves nothing.
pub open spec fn spec_repo_name(url: Seq<char>) -> Option<Seq<char>> {
    let name = trim_end_str(split(trim_end_char(url, '/'), '/').last(), ".git"@);
    if name.len() == 0 {
        None
    } else {
        Some(name)
    }
}

fn ends_with_at(s: &[char], to: usize, pat: &[char]) -> (r: bool)
    requires
        to <= s@.len(),
    ensures
        r == (pat@.len() <= to && s@.take(to as int).skip(to - pat@.len()) == pat@),
{
    if pat.len() > to {
        return false;
    }
    let start = to - pat.len();
    let mut i: usize = 0;
    while i < pat.len()
        invariant
            start + pat@.len() == to <= s@.len(),
            i <= pat@.len(),
            forall|j: int| 0 <= j < i ==> s@[start + j] == pat@[j],
        decreases pat@.len() - i,
    {
        if s[start + i] != pat[i] {
            assert(s@.take(to as int).skip(start as int)[i as int] != pat@[i as int]);
            return false;
        }
        i = i + 1;
    }
    assert(s@.take(to as int).skip(start as int) =~= pat@);
    true
}

impl LocalGitUrl {
    pub fn make(url: &str) -> (r: Self)
        ensures
            r.url@ == url@,
    {
        LocalGitUrl { url: url.to_owned() }
    }

    /// Whether the URL names GitHub.
    pub fn is_github(&self) -> (r: bool)
        ensures
            r == contains_seq(self.url@, "github.com"@),
    {
        let u = chars_of(self.url.as_str());
        let g = chars_of("github.com");
        contains_chars(u.as_slice(), g.as_slice())
    }

    /// The name of the repository that the URL names.
    pub fn repo_name(&self) -> (r: Option<String>)
        ensures
            match r {
                Some(n) => spec_repo_name(self.url@) == Some(n@),
                None => spec_repo_name(self.url@) is None,
            },
    {
        let u = chars_of(self.url.as_str());
        let end = trim_end_char_len(u.as_slice(), u.len(), '/');
        assert(u@.take(u@.len() as int) =~= u@);
        let trimmed = crate::text::slice_to_vec(u.as_slice(), 0, end);
        proof {
            assert(trimmed@ == trim_end_char(self.url@, '/'));
        }
        let pieces = split_char(trimmed.as_slice(), '/');
        assert(views(pieces@).len() == pieces@.len());
        let last = &pieces[pieces.len() - 1];
        assert(last@ == split(trim_end_char(self.url@, '/'), '/').last());
        let suffix = chars_of(".git");
        let mut len: usize = last.len();
        proof {
            assert(last@.take(len as int) =~= last@);
        }
        while ends_with_at(last.as_slice(), len, suffix.as_slice())
            invariant
                len <= last@.len(),
                suffix@ == ".git"@,
                trim_end_str(last@.take(len as int), ".git"@) == trim_end_str(last@, ".git"@),
            decreases len,
        {
            proof {
                reveal_strlit(".git");
                assert(last@.take(len as int).take(len - 4) =~= last@.take(len - 4));
            }
            len = len - suffix.len();
        }
        proof {
            reveal_strlit(".git");
        }
        assert(trim_end_str(last@.take(len as int), ".git"@) == last@.take(len as int));
        if len == 0 {
            None
        } else {
            Some(crate::text::string_of(last.as_slice(), 0, len))
        }
    }
}

proof fn lemma_trim_end_str_done(s: Seq<char>, pat: Seq<char>)
    requires
        pat.len() > 0,
    ensures
        !(pat.len() <= trim_end_str(s, pat).len() && trim_end_str(s, pat).skip(
            trim_end_str(s, pat).len() - pat.len(),
        ) == pat),
    decreases s.len(),
{
    if pat.len() <= s.len() && s.skip(s.len() - pat.len()) == pat {
        lemma_trim_end_str_done(s.take(s.len() - pat.len()), pat);
    }
}

/// The repository name of a URL is never empty and never ends with `.git`.
pub proof fn law_repo_name_has_no_git_suffix(url: Seq<char>)
    ensures
        spec_repo_name(url) matches Some(n) ==> n.len() > 0 && !(4 <= n.len() && n.skip(
            n.len() - 4,
        ) == ".git"@),
{
    reveal_strlit(".git");
    let name = trim_end_str(split(trim_end_char(url, '/'), '/').last(), ".git"@);
    lemma_trim_end_str_done(split(trim_end_char(url, '/'), '/').last(), ".git"@);
}

} // verus!
