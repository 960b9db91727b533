use crate::variant::{last_index_of, lemma_last_index_of_props};
use vstd::prelude::*;
use vstd::string::StrSliceExecFns;
use vstd::string::StringExecFns;

verus! {

/// How often `c` occurs in `s`.
pub open spec fn count_char(s: Seq<char>, c: char) -> nat
    decreases s.len(),
{
    if s.len() == 0 {
        0
    } else {
        count_char(s.drop_last(), c) + if s.last() == c {
            1nat
        } else {
            0nat
        }
    }
}

/// A repository identifier is well formed iff it is exactly one
/// `/`-delimited `owner/name` pair, that is, holds exactly one `/`.
pub open spec fn repo_well_formed(s: Seq<char>) -> bool {
    count_char(s, '/') == 1
}

proof fn lemma_count_char_zero(s: Seq<char>, c: char)
    requires
        count_char(s, c) == 0,
    ensures
        forall|j: int| 0 <= j < s.len() ==> s[j] != c,
    decreases s.len(),
{
    if s.len() > 0 {
        lemma_count_char_zero(s.drop_last(), c);
        assert(forall|j: int| 0 <= j < s.len() - 1 ==> s[j] == s.drop_last()[j]);
    }
}

proof fn lemma_count_char_occurrence(s: Seq<char>, c: char, k: int)
    requires
        0 <= k < s.len(),
        s[k] == c,
    ensures
        count_char(s, c) >= 1,
    decreases s.len(),
{
    if k < s.len() - 1 {
        assert(s.drop_last()[k] == s[k]);
        lemma_count_char_occurrence(s.drop_last(), c, k);
    }
}

/// In a sequence holding `c` exactly once, an occurrence of `c` is the only
/// one.
proof fn lemma_count_char_unique(s: Seq<char>, c: char, k: int)
    requires
        count_char(s, c) == 1,
        0 <= k < s.len(),
        s[k] == c,
    ensures
        forall|j: int| 0 <= j < s.len() && j != k ==> s[j] != c,
    decreases s.len(),
{
    if k == s.len() - 1 {
        if s.last() == c {
            lemma_count_char_zero(s.drop_last(), c);
            assert(forall|j: int| 0 <= j < s.len() - 1 ==> s[j] == s.drop_last()[j]);
        } else {
            assert(false);
        }
    } else {
        assert(s.drop_last()[k] == s[k]);
        if s.last() == c {
            lemma_count_char_occurrence(s.drop_last(), c, k);
            assert(false);
        } else {
            lemma_count_char_unique(s.drop_last(), c, k);
            assert(forall|j: int| 0 <= j < s.len() - 1 ==> s[j] == s.drop_last()[j]);
        }
    }
}

/// Whether a repository identifier is exactly one `owner/name` pair.
pub fn validate_repo(repo: &str) -> (r: bool)
    ensures
        r == repo_well_formed(repo@),
{
    let n = repo.unicode_len();
    let mut cnt: usize = 0;
    let mut i: usize = 0;
    while i < n
        invariant
            i <= n,
            n == repo@.len(),
            cnt <= i,
            cnt == count_char(repo@.take(i as int), '/'),
        decreases n - i,
    {
        let c = repo.get_char(i);
        if c == '/' {
            cnt += 1;
        }
        proof {
            let s = repo@;
            assert(s.take(i + 1).drop_last() =~= s.take(i as int));
            assert(s.take(i + 1).last() == s[i as int]);
        }
        i += 1;
    }
    proof {
        assert(repo@.take(n as int) =~= repo@);
    }
    cnt == 1
}

/// Split a well-formed repository identifier into its owner and name; a
/// malformed one, with no `/` or more than one, is rejected.
pub fn split_repo(repo: &str) -> (r: Option<(String, String)>)
    ensures
        match r {
            Some(p) => {
                &&& repo_well_formed(repo@)
                &&& p.0@ == repo@.take(last_index_of(repo@, '/'))
                &&& p.1@ == repo@.skip(last_index_of(repo@, '/') + 1)
            },
            None => !repo_well_formed(repo@),
        },
{
    if !validate_repo(repo) {
        return None;
    }
    let n = repo.unicode_len();
    let mut i: usize = 0;
    while i < n
        invariant
            i <= n,
            n == repo@.len(),
            repo_well_formed(repo@),
            forall|j: int| 0 <= j < i ==> repo@[j] != '/',
        decreases n - i,
    {
        if repo.get_char(i) == '/' {
            proof {
                lemma_count_char_unique(repo@, '/', i as int);
                lemma_last_index_of_props(repo@, '/');
            }
            let owner = repo.substring_char(0, i);
            let name = repo.substring_char(i + 1, n);
            return Some((String::from_str(owner), String::from_str(name)));
        }
        i += 1;
    }
    proof {
        lemma_some_occurrence(repo@, '/');
        let k = choose|k: int| 0 <= k < repo@.len() && repo@[k] == '/';
        assert(false);
    }
    None
}

/// A character counted at least once occurs somewhere.
proof fn lemma_some_occurrence(s: Seq<char>, c: char)
    requires
        count_char(s, c) >= 1,
    ensures
        exists|k: int| 0 <= k < s.len() && s[k] == c,
    decreases s.len(),
{
    if s.len() > 0 {
        if s.last() == c {
            assert(s[s.len() - 1] == c);
        } else {
            lemma_some_occurrence(s.drop_last(), c);
            let k = choose|k: int| 0 <= k < s.drop_last().len() && s.drop_last()[k] == c;
            assert(s[k] == c);
        }
    }
}

} // verus!
