//! The gitiles source URL grammar.
//!
//! Gitiles instances serve base64-encoded source files through URLs of the
//! exact shape `https://<repo>.git/+/<rev>/<path>?format=TEXT`. This module
//! parses such URLs into [`MappedPath::Git`] permalinks. Any deviation from
//! the grammar (missing marker, empty component, trailing content) is a
//! parse failure, never a partial match.

use crate::mapped_path::{MappedPath, MappedPathView};
use vstd::prelude::*;
use vstd::string::StrSliceExecFns;

verus! {

/// The pattern `pat` occurs in `s` starting at position `i`.
pub open spec fn contains_at(s: Seq<char>, pat: Seq<char>, i: int) -> bool {
    0 <= i && i + pat.len() <= s.len() && s.subrange(i, i + pat.len() as int) == pat
}

/// The position of the first occurrence of `pat` in `s` at or after `i`.
pub open spec fn find_from(s: Seq<char>, pat: Seq<char>, i: int) -> Option<int>
    decreases s.len() - i,
    when 0 <= i <= s.len() && pat.len() > 0
{
    if i + pat.len() > s.len() {
        None
    } else if contains_at(s, pat, i) {
        Some(i)
    } else {
        find_from(s, pat, i + 1)
    }
}

/// What `find_from` returns: the first match position, or a guarantee that
/// no position at or after `i` matches.
pub proof fn lemma_find_from_props(s: Seq<char>, pat: Seq<char>, i: int)
    requires
        0 <= i <= s.len(),
        pat.len() > 0,
    ensures
        match find_from(s, pat, i) {
            Some(j) => i <= j && contains_at(s, pat, j) && forall|k: int|
                i <= k < j ==> !contains_at(s, pat, k),
            None => forall|k: int| i <= k ==> !contains_at(s, pat, k),
        },
    decreases s.len() - i,
{
    if i + pat.len() > s.len() {
        assert forall|k: int| i <= k implies !contains_at(s, pat, k) by {
            assert(k + pat.len() > s.len());
        }
    } else if contains_at(s, pat, i) {
    } else {
        lemma_find_from_props(s, pat, i + 1);
    }
}

/// If `pat` occurs at `j` and nowhere earlier than `j` at or after `i`,
/// the search from `i` finds exactly `j`.
pub proof fn lemma_find_from_first(s: Seq<char>, pat: Seq<char>, i: int, j: int)
    requires
        0 <= i <= j,
        pat.len() > 0,
        contains_at(s, pat, j),
        forall|k: int| i <= k < j ==> !contains_at(s, pat, k),
    ensures
        find_from(s, pat, i) == Some(j),
    decreases j - i,
{
    if i == j {
    } else {
        lemma_find_from_first(s, pat, i + 1, j);
    }
}

/// `pat` does not occur anywhere in `s`.
pub open spec fn no_occurrence(s: Seq<char>, pat: Seq<char>) -> bool {
    forall|i: int| !contains_at(s, pat, i)
}

/// `pat` has no nonempty proper border: no proper suffix of it equals a
/// prefix of it. A pattern with this property cannot straddle the boundary
/// between a preceding text and an occurrence of the pattern itself.
pub open spec fn has_no_border(pat: Seq<char>) -> bool {
    forall|k: int| 1 <= k < pat.len() ==> pat.skip(k) != #[trigger] pat.take(pat.len() - k)
}

/// In `a + pat + suffix`, where `pat` does not occur in `a` and has no
/// border, the first occurrence of `pat` is exactly at `a.len()`.
pub proof fn lemma_first_match_at_boundary(a: Seq<char>, pat: Seq<char>, suffix: Seq<char>)
    requires
        pat.len() > 0,
        has_no_border(pat),
        no_occurrence(a, pat),
    ensures
        find_from(a + pat + suffix, pat, 0) == Some(a.len() as int),
{
    let s = a + pat + suffix;
    let n = pat.len() as int;
    let la = a.len() as int;
    assert(s.subrange(la, la + n) =~= pat);
    assert(contains_at(s, pat, la));
    assert forall|j: int| 0 <= j < la implies !contains_at(s, pat, j) by {
        if contains_at(s, pat, j) {
            if j + n <= la {
                assert(a.subrange(j, j + n) =~= s.subrange(j, j + n));
                assert(contains_at(a, pat, j));
                assert(false);
            } else {
                let m = j + n - la;
                assert(1 <= m < n);
                let k = n - m;
                assert forall|x: int| 0 <= x < m implies pat.skip(k)[x] == #[trigger] pat.take(
                    n - k,
                )[x] by {
                    assert(s.subrange(j, j + n) == pat);
                    assert(pat[k + x] == s.subrange(j, j + n)[k + x]);
                    assert(s[j + k + x] == s[la + x]);
                    assert(s[la + x] == pat[x]);
                }
                assert(pat.skip(k) =~= pat.take(n - k));
                assert(false);
            }
        }
    }
    lemma_find_from_first(s, pat, 0, la);
}

/// The exact grammar: `https://` + repo + `.git/+/` + rev + `/` + path +
/// `?format=TEXT`, with nothing after it. A successful parse yields the
/// components of the git permalink; everything else yields `None`.
pub open spec fn gitiles_parse(s: Seq<char>) -> Option<MappedPathView> {
    let https = "https://"@;
    let git_marker = ".git/+/"@;
    let slash = "/"@;
    let fmt = "?format=TEXT"@;
    if s.len() < https.len() || s.subrange(0, https.len() as int) != https {
        None
    } else {
        let rest = s.skip(https.len() as int);
        match find_from(rest, git_marker, 0) {
            None => None,
            Some(p) => if p == 0 {
                None
            } else {
                let repo = rest.take(p);
                let rest2 = rest.skip(p + git_marker.len() as int);
                match find_from(rest2, slash, 0) {
                    None => None,
                    Some(q) => if q == 0 {
                        None
                    } else {
                        let rev = rest2.take(q);
                        let rest3 = rest2.skip(q + slash.len() as int);
                        match find_from(rest3, fmt, 0) {
                            None => None,
                            Some(t) => if t == 0 || rest3.len() != t + fmt.len() {
                                None
                            } else {
                                Some(
                                    MappedPathView::Git {
                                        repo,
                                        path: rest3.take(t),
                                        rev,
                                    },
                                )
                            },
                        }
                    },
                }
            },
        }
    }
}

/// Whether `pat` occurs in `s` at position `i` (character-wise comparison).
fn match_at(s: &str, pat: &str, i: usize) -> (r: bool)
    requires
        i + pat@.len() <= s@.len(),
        s@.len() <= usize::MAX,
    ensures
        r == contains_at(s@, pat@, i as int),
{
    let n = pat.unicode_len();
    let mut j: usize = 0;
    while j < n
        invariant
            j <= n,
            n == pat@.len(),
            i + n <= s@.len() <= usize::MAX,
            forall|k: int| 0 <= k < j ==> s@[i + k] == pat@[k],
        decreases n - j,
    {
        if s.get_char(i + j) != pat.get_char(j) {
            proof {
                assert(s@.subrange(i as int, i + pat@.len())[j as int] == s@[i + j]);
            }
            return false;
        }
        j = j + 1;
    }
    proof {
        assert(s@.subrange(i as int, i + pat@.len()) =~= pat@);
    }
    true
}

/// The first occurrence of `pat` in `s` at or after `from`.
fn find_sub(s: &str, pat: &str, from: usize) -> (r: Option<usize>)
    requires
        pat@.len() > 0,
        from <= s@.len(),
    ensures
        match r {
            Some(j) => find_from(s@, pat@, from as int) == Some(j as int),
            None => find_from(s@, pat@, from as int) is None,
        },
{
    let slen = s.unicode_len();
    let plen = pat.unicode_len();
    let mut i: usize = from;
    while plen <= slen - i
        invariant
            from <= i <= slen,
            slen == s@.len(),
            plen == pat@.len(),
            plen > 0,
            find_from(s@, pat@, from as int) == find_from(s@, pat@, i as int),
        decreases slen - i,
    {
        if match_at(s, pat, i) {
            return Some(i);
        }
        i = i + 1;
    }
    None
}

/// Parse a gitiles `?format=TEXT` source URL into a git permalink.
///
/// Returns the `{repo, path, rev}` components exactly when the input obeys
/// the grammar of [`gitiles_parse`]; any deviation — including trailing
/// content after `?format=TEXT` — returns `None`.
pub fn parse_gitiles_url(url: &str) -> (r: Option<MappedPath>)
    ensures
        match r {
            Some(m) => gitiles_parse(url@) == Some(m@),
            None => gitiles_parse(url@) is None,
        },
{
    proof {
        reveal_strlit("https://");
        reveal_strlit(".git/+/");
        reveal_strlit("/");
        reveal_strlit("?format=TEXT");
    }
    let len = url.unicode_len();
    if len < 8 {
        return None;
    }
    if !match_at(url, "https://", 0) {
        proof {
            assert(url@.subrange(0, 8) != "https://"@);
        }
        return None;
    }
    let rest = url.substring_char(8, len);
    proof {
        assert(rest@ =~= url@.skip(8));
    }
    let rest_len = len - 8;
    let p = match find_sub(rest, ".git/+/", 0) {
        Some(p) => p,
        None => {
            return None;
        },
    };
    if p == 0 {
        return None;
    }
    proof {
        lemma_find_from_props(rest@, ".git/+/"@, 0);
    }
    let repo = rest.substring_char(0, p);
    let rest2 = rest.substring_char(p + 7, rest_len);
    proof {
        assert(rest2@ =~= rest@.skip(p + 7));
    }
    let q = match find_sub(rest2, "/", 0) {
        Some(q) => q,
        None => {
            return None;
        },
    };
    if q == 0 {
        return None;
    }
    proof {
        lemma_find_from_props(rest2@, "/"@, 0);
    }
    let rev = rest2.substring_char(0, q);
    let rest2_len = rest_len - (p + 7);
    let rest3 = rest2.substring_char(q + 1, rest2_len);
    proof {
        assert(rest3@ =~= rest2@.skip(q + 1));
    }
    let t = match find_sub(rest3, "?format=TEXT", 0) {
        Some(t) => t,
        None => {
            return None;
        },
    };
    proof {
        lemma_find_from_props(rest3@, "?format=TEXT"@, 0);
    }
    let rest3_len = rest2_len - (q + 1);
    if t == 0 || rest3_len != t + 12 {
        return None;
    }
    let path = rest3.substring_char(0, t);
    proof {
        assert(repo@ =~= rest@.take(p as int));
        assert(rev@ =~= rest2@.take(q as int));
        assert(path@ =~= rest3@.take(t as int));
    }
    Some(
        MappedPath::Git {
            repo: repo.to_owned(),
            path: path.to_owned(),
            rev: rev.to_owned(),
        },
    )
}

/// The canonical text of a gitiles URL with the given components.
pub open spec fn gitiles_url_of(repo: Seq<char>, path: Seq<char>, rev: Seq<char>) -> Seq<char> {
    "https://"@ + repo + ".git/+/"@ + rev + "/"@ + path + "?format=TEXT"@
}

/// The components are usable in a gitiles URL: each is nonempty, and none
/// contains the marker that terminates it in the grammar.
pub open spec fn gitiles_components_valid(
    repo: Seq<char>,
    path: Seq<char>,
    rev: Seq<char>,
) -> bool {
    &&& repo.len() > 0
    &&& rev.len() > 0
    &&& path.len() > 0
    &&& no_occurrence(repo, ".git/+/"@)
    &&& no_occurrence(rev, "/"@)
    &&& no_occurrence(path, "?format=TEXT"@)
}

/// Round trip: parsing the canonical URL built from any valid components
/// recovers exactly those components. Together with the exactness of
/// [`gitiles_parse`] (which rejects any trailing content), this pins the
/// parser on the whole grammar.
pub proof fn lemma_gitiles_round_trip(repo: Seq<char>, path: Seq<char>, rev: Seq<char>)
    requires
        gitiles_components_valid(repo, path, rev),
    ensures
        gitiles_parse(gitiles_url_of(repo, path, rev)) == Some(
            MappedPathView::Git { repo, path, rev },
        ),
{
    reveal_strlit("https://");
    reveal_strlit(".git/+/");
    reveal_strlit("/");
    reveal_strlit("?format=TEXT");
    let https = "https://"@;
    let git_marker = ".git/+/"@;
    let slash = "/"@;
    let fmt = "?format=TEXT"@;
    let s = gitiles_url_of(repo, path, rev);
    assert(s.subrange(0, 8) =~= https);
    let rest = s.skip(8);
    let tail1 = rev + slash + path + fmt;
    assert(rest =~= repo + git_marker + tail1);
    assert(has_no_border(git_marker)) by {
        assert forall|k: int| 1 <= k < 7 implies git_marker.skip(k) != #[trigger] git_marker.take(
            7 - k,
        ) by {
            assert(git_marker.skip(k)[0] == git_marker[k]);
            assert(git_marker.take(7 - k)[0] == git_marker[0]);
            assert(git_marker[k] != git_marker[0]);
        }
    }
    lemma_first_match_at_boundary(repo, git_marker, tail1);
    assert(find_from(rest, git_marker, 0) == Some(repo.len() as int));
    let p = repo.len() as int;
    assert(rest.take(p) =~= repo);
    let rest2 = rest.skip(p + 7);
    let tail2 = path + fmt;
    assert(rest2 =~= rev + slash + tail2);
    assert(has_no_border(slash));
    lemma_first_match_at_boundary(rev, slash, tail2);
    assert(find_from(rest2, slash, 0) == Some(rev.len() as int));
    let q = rev.len() as int;
    assert(rest2.take(q) =~= rev);
    let rest3 = rest2.skip(q + 1);
    assert(rest3 =~= path + fmt);
    assert(has_no_border(fmt)) by {
        assert forall|k: int| 1 <= k < 12 implies fmt.skip(k) != #[trigger] fmt.take(12 - k) by {
            assert(fmt.skip(k)[0] == fmt[k]);
            assert(fmt.take(12 - k)[0] == fmt[0]);
            assert(fmt[k] != fmt[0]);
        }
    }
    lemma_first_match_at_boundary(path, fmt, Seq::<char>::empty());
    assert(path + fmt + Seq::<char>::empty() =~= rest3);
    assert(find_from(rest3, fmt, 0) == Some(path.len() as int));
    let t = path.len() as int;
    assert(rest3.len() == t + 12);
    assert(rest3.take(t) =~= path);
}

/// The converse: the parser accepts nothing outside the grammar. A
/// successful parse means the input was exactly the canonical URL of the
/// recovered components, and those components are valid. Together with
/// [`lemma_gitiles_round_trip`] this pins the parser on the whole
/// grammar: it succeeds on the canonical URLs and on nothing else.
pub proof fn lemma_gitiles_parse_exact(s: Seq<char>)
    requires
        gitiles_parse(s) is Some,
    ensures
        gitiles_parse(s) matches Some(MappedPathView::Git { repo, path, rev })
            && gitiles_components_valid(repo, path, rev) && s == gitiles_url_of(repo, path, rev),
{
    reveal_strlit("https://");
    reveal_strlit(".git/+/");
    reveal_strlit("/");
    reveal_strlit("?format=TEXT");
    let https = "https://"@;
    let git_marker = ".git/+/"@;
    let slash = "/"@;
    let fmt = "?format=TEXT"@;
    let rest = s.skip(8);
    lemma_find_from_props(rest, git_marker, 0);
    let p = find_from(rest, git_marker, 0)->Some_0;
    let repo = rest.take(p);
    assert forall|i: int| !contains_at(repo, git_marker, i) by {
        if contains_at(repo, git_marker, i) {
            assert(rest.subrange(i, i + 7) =~= repo.subrange(i, i + 7));
            assert(contains_at(rest, git_marker, i));
            assert(false);
        }
    }
    let rest2 = rest.skip(p + 7);
    lemma_find_from_props(rest2, slash, 0);
    let q = find_from(rest2, slash, 0)->Some_0;
    let rev = rest2.take(q);
    assert forall|i: int| !contains_at(rev, slash, i) by {
        if contains_at(rev, slash, i) {
            assert(rest2.subrange(i, i + 1) =~= rev.subrange(i, i + 1));
            assert(contains_at(rest2, slash, i));
            assert(false);
        }
    }
    let rest3 = rest2.skip(q + 1);
    lemma_find_from_props(rest3, fmt, 0);
    let t = find_from(rest3, fmt, 0)->Some_0;
    let path = rest3.take(t);
    assert forall|i: int| !contains_at(path, fmt, i) by {
        if contains_at(path, fmt, i) {
            assert(rest3.subrange(i, i + 12) =~= path.subrange(i, i + 12));
            assert(contains_at(rest3, fmt, i));
            assert(false);
        }
    }
    assert(rest3 =~= path + fmt) by {
        assert(rest3.subrange(t, t + 12) == fmt);
    }
    assert(rest2 =~= rev + slash + rest3) by {
        assert(rest2.subrange(q, q + 1) == slash);
    }
    assert(rest =~= repo + git_marker + rest2) by {
        assert(rest.subrange(p, p + 7) == git_marker);
    }
    assert(s =~= https + rest) by {
        assert(s.subrange(0, 8) == https);
    }
    assert(s =~= gitiles_url_of(repo, path, rev));
}

} // verus!
