use vstd::prelude::*;
use vstd::string::StrSliceExecFns;
use vstd::string::StringExecFns;

verus! {

/// The index of the last occurrence of `c` in `s`, or -1 when `c` does not
/// occur.
pub open spec fn last_index_of(s: Seq<char>, c: char) -> int
    decreases s.len(),
{
    if s.len() == 0 {
        -1
    } else if s.last() == c {
        s.len() - 1
    } else {
        last_index_of(s.drop_last(), c)
    }
}

pub proof fn lemma_last_index_of_props(s: Seq<char>, c: char)
    ensures
        -1 <= last_index_of(s, c) < s.len(),
        last_index_of(s, c) == -1 ==> forall|j: int| 0 <= j < s.len() ==> s[j] != c,
        last_index_of(s, c) >= 0 ==> s[last_index_of(s, c)] == c,
        last_index_of(s, c) >= 0 ==> forall|j: int|
            last_index_of(s, c) < j < s.len() ==> s[j] != c,
    decreases s.len(),
{
    if s.len() > 0 && s.last() != c {
        lemma_last_index_of_props(s.drop_last(), c);
        assert(forall|j: int| 0 <= j < s.len() - 1 ==> s[j] == s.drop_last()[j]);
    }
}

/// The hardware-variant tag of one asset filename, by the convention
/// `<name>-<variant>.<ext>`: strip the final extension, which must be `bin`
/// or `hex`, then take the suffix after the last remaining hyphen. Every
/// other shape, `.dfu` assets included, carries no variant.
pub open spec fn variant_of(name: Seq<char>) -> Option<Seq<char>> {
    let d = last_index_of(name, '.');
    if d < 0 {
        None
    } else {
        let ext = name.skip(d + 1);
        if ext == "bin"@ || ext == "hex"@ {
            let stem = name.take(d);
            let h = last_index_of(stem, '-');
            if h < 0 {
                None
            } else {
                Some(stem.skip(h + 1))
            }
        } else {
            None
        }
    }
}

/// Strict lexicographic order on character sequences, by code point; the
/// order `String` comparison and sorting use.
pub open spec fn lex_lt(a: Seq<char>, b: Seq<char>) -> bool
    decreases a.len(),
{
    if b.len() == 0 {
        false
    } else if a.len() == 0 {
        true
    } else if a.first() != b.first() {
        (a.first() as int) < (b.first() as int)
    } else {
        lex_lt(a.drop_first(), b.drop_first())
    }
}

pub proof fn lemma_lex_lt_trans(a: Seq<char>, b: Seq<char>, c: Seq<char>)
    requires
        lex_lt(a, b),
        lex_lt(b, c),
    ensures
        lex_lt(a, c),
    decreases a.len(),
{
    if a.len() > 0 && b.len() > 0 && a.first() == b.first() && b.first() == c.first() {
        lemma_lex_lt_trans(a.drop_first(), b.drop_first(), c.drop_first());
    }
}

pub proof fn lemma_lex_lt_trichotomy(a: Seq<char>, b: Seq<char>)
    ensures
        lex_lt(a, b) || lex_lt(b, a) || a == b,
    decreases a.len(),
{
    if a.len() == 0 && b.len() == 0 {
        assert(a =~= b);
    } else if a.len() > 0 && b.len() > 0 && a.first() == b.first() {
        lemma_lex_lt_trichotomy(a.drop_first(), b.drop_first());
        if a.drop_first() == b.drop_first() {
            assert(a.drop_first().len() == a.len() - 1);
            assert(b.drop_first().len() == b.len() - 1);
            assert(a.len() == b.len());
            assert forall|k: int| 0 <= k < a.len() implies a[k] == b[k] by {
                if k == 0 {
                    assert(a[0] == a.first());
                    assert(b[0] == b.first());
                } else {
                    assert(a.drop_first()[k - 1] == b.drop_first()[k - 1]);
                    assert(a.drop_first()[k - 1] == a[k]);
                    assert(b.drop_first()[k - 1] == b[k]);
                }
            }
            assert(a =~= b);
        }
    }
}

/// Find the last occurrence of `c` in `s`.
fn find_last(s: &str, c: char) -> (r: Option<usize>)
    ensures
        match r {
            Some(i) => i < s@.len() && last_index_of(s@, c) == i,
            None => last_index_of(s@, c) == -1,
        },
{
    let n = s.unicode_len();
    let mut i: usize = n;
    while i > 0
        invariant
            i <= n,
            n == s@.len(),
            forall|j: int| i <= j < n ==> s@[j] != c,
        decreases i,
    {
        i = i - 1;
        if s.get_char(i) == c {
            proof {
                lemma_last_index_of_props(s@, c);
            }
            return Some(i);
        }
    }
    proof {
        lemma_last_index_of_props(s@, c);
    }
    None
}

/// Character-for-character string equality.
pub fn str_eq(a: &str, b: &str) -> (r: bool)
    ensures
        r == (a@ == b@),
{
    let n = a.unicode_len();
    if n != b.unicode_len() {
        return false;
    }
    let mut i: usize = 0;
    while i < n
        invariant
            i <= n,
            n == a@.len(),
            n == b@.len(),
            forall|j: int| 0 <= j < i ==> a@[j] == b@[j],
        decreases n - i,
    {
        if a.get_char(i) != b.get_char(i) {
            return false;
        }
        i += 1;
    }
    proof {
        assert(a@ =~= b@);
    }
    true
}

/// Strict lexicographic string comparison, matching `lex_lt` on the views.
pub fn str_lt(a: &str, b: &str) -> (r: bool)
    ensures
        r == lex_lt(a@, b@),
{
    let an = a.unicode_len();
    let bn = b.unicode_len();
    let mut i: usize = 0;
    proof {
        assert(a@.skip(0) =~= a@);
        assert(b@.skip(0) =~= b@);
    }
    while i < an || i < bn
        invariant
            i <= an,
            i <= bn,
            an == a@.len(),
            bn == b@.len(),
            lex_lt(a@, b@) == lex_lt(a@.skip(i as int), b@.skip(i as int)),
        decreases an - i + bn - i,
    {
        if i >= bn {
            return false;
        }
        if i >= an {
            return true;
        }
        let ca = a.get_char(i);
        let cb = b.get_char(i);
        if ca != cb {
            return ca < cb;
        }
        proof {
            assert(a@.skip(i as int).drop_first() =~= a@.skip(i + 1));
            assert(b@.skip(i as int).drop_first() =~= b@.skip(i + 1));
        }
        i += 1;
    }
    false
}

/// Extract the hardware-variant tag from one asset filename, or report that
/// it carries none.
pub fn extract_variant(name: &str) -> (r: Option<String>)
    ensures
        match r {
            Some(v) => variant_of(name@) == Some(v@),
            None => variant_of(name@) is None,
        },
{
    let n = name.unicode_len();
    match find_last(name, '.') {
        None => None,
        Some(d) => {
            let ext = name.substring_char(d + 1, n);
            if str_eq(ext, "bin") || str_eq(ext, "hex") {
                let stem = name.substring_char(0, d);
                proof {
                    assert(stem@ =~= name@.take(d as int));
                }
                match find_last(stem, '-') {
                    None => None,
                    Some(h) => {
                        let tail = stem.substring_char(h + 1, d);
                        Some(String::from_str(tail))
                    },
                }
            } else {
                None
            }
        },
    }
}

/// The index of the first asset filename carrying the variant tag `t`, or
/// -1 when none does.
pub open spec fn first_match_idx(assets: Seq<Seq<char>>, t: Seq<char>) -> int
    decreases assets.len(),
{
    if assets.len() == 0 {
        -1
    } else if variant_of(assets.first()) == Some(t) {
        0
    } else {
        let r = first_match_idx(assets.drop_first(), t);
        if r < 0 {
            -1
        } else {
            r + 1
        }
    }
}

pub proof fn lemma_first_match_idx_props(assets: Seq<Seq<char>>, t: Seq<char>)
    ensures
        -1 <= first_match_idx(assets, t) < assets.len(),
        first_match_idx(assets, t) == -1 ==> forall|j: int|
            0 <= j < assets.len() ==> variant_of(assets[j]) != Some(t),
        first_match_idx(assets, t) >= 0 ==> variant_of(assets[first_match_idx(assets, t)])
            == Some(t),
        first_match_idx(assets, t) >= 0 ==> forall|j: int|
            0 <= j < first_match_idx(assets, t) ==> variant_of(assets[j]) != Some(t),
        first_match_idx(assets, t) >= 0 <==> variants_in(assets, t),
    decreases assets.len(),
{
    if assets.len() == 0 {
        assert(!variants_in(assets, t));
    } else if variant_of(assets.first()) == Some(t) {
        assert(variant_of(assets[0]) == Some(t));
        assert(variants_in(assets, t));
    } else {
        lemma_first_match_idx_props(assets.drop_first(), t);
        assert(forall|j: int|
            0 <= j < assets.len() - 1 ==> assets.drop_first()[j] == assets[j + 1]);
        let r = first_match_idx(assets.drop_first(), t);
        if r < 0 {
            assert forall|j: int| 0 <= j < assets.len() implies variant_of(assets[j])
                != Some(t) by {
                if j > 0 {
                    assert(assets.drop_first()[j - 1] == assets[j]);
                }
            }
            assert(!variants_in(assets, t));
        } else {
            assert(assets.drop_first()[r] == assets[r + 1]);
            assert(variant_of(assets[r + 1]) == Some(t));
            assert(variants_in(assets, t));
            assert forall|j: int| 0 <= j < r + 1 implies variant_of(assets[j]) != Some(t) by {
                if j > 0 {
                    assert(assets.drop_first()[j - 1] == assets[j]);
                }
            }
        }
    }
}

/// Find the first asset of a release that carries the variant tag `t`; the
/// asset a download for that variant must fetch.
pub fn find_variant_asset(assets: &Vec<String>, t: &str) -> (r: Option<usize>)
    ensures
        match r {
            Some(j) => j < assets@.len() && first_match_idx(assets.deep_view(), t@) == j,
            None => first_match_idx(assets.deep_view(), t@) == -1,
        },
{
    let ghost dv = assets.deep_view();
    let mut j: usize = 0;
    while j < assets.len()
        invariant
            j <= assets@.len(),
            dv == assets.deep_view(),
            forall|k: int| 0 <= k < j ==> variant_of(dv[k]) != Some(t@),
        decreases assets@.len() - j,
    {
        let hit = match extract_variant(assets[j].as_str()) {
            Some(v) => str_eq(v.as_str(), t),
            None => false,
        };
        if hit {
            proof {
                assert(variant_of(dv[j as int]) == Some(t@));
                assert(variants_in(dv, t@));
                lemma_first_match_idx_props(dv, t@);
            }
            return Some(j);
        }
        j += 1;
    }
    proof {
        lemma_first_match_idx_props(dv, t@);
        if variants_in(dv, t@) {
            let k = choose|k: int| 0 <= k < dv.len() && #[trigger] variant_of(dv[k]) == Some(t@);
            assert(false);
        }
    }
    None
}

/// `s` is strictly ascending in lexicographic order; strictness also means
/// it holds no duplicate.
pub open spec fn strictly_sorted(s: Seq<Seq<char>>) -> bool {
    forall|i: int, j: int| 0 <= i < j < s.len() ==> lex_lt(s[i], s[j])
}

/// Some asset in the list carries the variant tag `t`.
pub open spec fn variants_in(assets: Seq<Seq<char>>, t: Seq<char>) -> bool {
    exists|i: int| 0 <= i < assets.len() && variant_of(assets[i]) == Some(t)
}

/// Insert `t` into a strictly sorted vector, keeping it strictly sorted;
/// a duplicate is dropped.
fn insert_sorted(v: &mut Vec<String>, t: String)
    requires
        strictly_sorted(old(v).deep_view()),
    ensures
        strictly_sorted(final(v).deep_view()),
        forall|x: Seq<char>|
            final(v).deep_view().contains(x) <==> (old(v).deep_view().contains(x) || x == t@),
{
    let ghost dv = v.deep_view();
    let mut i: usize = 0;
    while i < v.len() && str_lt(v[i].as_str(), t.as_str())
        invariant
            i <= v@.len(),
            v.deep_view() == dv,
            strictly_sorted(dv),
            forall|j: int| 0 <= j < i ==> lex_lt(dv[j], t@),
        decreases v@.len() - i,
    {
        i += 1;
    }
    if i < v.len() {
        let same = v[i].as_str();
        if str_eq(same, t.as_str()) {
            proof {
                assert(dv.contains(dv[i as int]));
                assert forall|x: Seq<char>|
                    dv.contains(x) <==> (dv.contains(x) || x == t@) by {
                    if x == t@ {
                        assert(dv[i as int] == t@);
                    }
                }
            }
            return;
        }
    }
    proof {
        if i < dv.len() {
            lemma_lex_lt_trichotomy(dv[i as int], t@);
            assert(lex_lt(t@, dv[i as int]));
        }
    }
    let ghost tv = t@;
    v.insert(i, t);
    proof {
        let nv = v.deep_view();
        assert(nv.len() == dv.len() + 1);
        assert(forall|k: int| 0 <= k < i ==> nv[k] == dv[k]);
        assert(forall|k: int| i < k < nv.len() ==> #[trigger] nv[k] == dv[k - 1]);
        assert(nv[i as int] == tv);
        let it = i as int;
        if it < dv.len() {
            assert forall|j: int| it <= j < dv.len() implies lex_lt(tv, dv[j]) by {
                if j > it {
                    lemma_lex_lt_trans(tv, dv[it], dv[j]);
                }
            }
        }
        assert forall|p: int, q: int| 0 <= p < q < nv.len() implies lex_lt(nv[p], nv[q]) by {
            if p < it && q > it {
                lemma_lex_lt_trans(dv[p], tv, dv[q - 1]);
            }
        }
        assert forall|x: Seq<char>|
            nv.contains(x) <==> (dv.contains(x) || x == tv) by {
            if nv.contains(x) {
                let k = choose|k: int| 0 <= k < nv.len() && nv[k] == x;
                if k < i as int {
                    assert(dv[k] == x);
                    assert(dv.contains(x));
                } else if k > i as int {
                    assert(dv[k - 1] == x);
                    assert(dv.contains(x));
                }
            }
            if dv.contains(x) {
                let k = choose|k: int| 0 <= k < dv.len() && dv[k] == x;
                if k < i as int {
                    assert(nv[k] == x);
                } else {
                    assert(nv[k + 1] == x);
                }
                assert(nv.contains(x));
            }
            if x == tv {
                assert(nv[i as int] == x);
                assert(nv.contains(x));
            }
        }
    }
}

/// The variant tags offered for one release: every tag extracted from its
/// flashable assets, deduplicated and sorted ascending. An empty result
/// means no hardware variant was found and must be surfaced as such.
pub fn variant_tags(assets: &Vec<String>) -> (out: Vec<String>)
    ensures
        strictly_sorted(out.deep_view()),
        forall|t: Seq<char>|
            out.deep_view().contains(t) <==> variants_in(assets.deep_view(), t),
{
    let mut out: Vec<String> = Vec::new();
    let mut i: usize = 0;
    while i < assets.len()
        invariant
            i <= assets@.len(),
            strictly_sorted(out.deep_view()),
            forall|t: Seq<char>|
                out.deep_view().contains(t) <==> variants_in(
                    assets.deep_view().take(i as int),
                    t,
                ),
        decreases assets@.len() - i,
    {
        let ghost pre = out.deep_view();
        let ghost dv = assets.deep_view();
        let extracted = extract_variant(assets[i].as_str());
        let ghost got = match extracted {
            Some(ref s) => Some(s@),
            None => None,
        };
        match extracted {
            Some(tag) => insert_sorted(&mut out, tag),
            None => {},
        }
        proof {
            assert forall|t: Seq<char>|
                out.deep_view().contains(t) <==> variants_in(dv.take(i + 1), t) by {
                assert(dv.take(i + 1)[i as int] == dv[i as int]);
                assert(forall|j: int| 0 <= j < i + 1 ==> dv.take(i + 1)[j] == dv[j]);
                if out.deep_view().contains(t) {
                    if pre.contains(t) {
                        let k = choose|k: int|
                            0 <= k < i && #[trigger] variant_of(dv.take(i as int)[k]) == Some(t);
                        assert(variant_of(dv.take(i + 1)[k]) == Some(t));
                    } else {
                        assert(got == Some(t));
                        assert(variant_of(dv.take(i + 1)[i as int]) == Some(t));
                    }
                }
                if variants_in(dv.take(i + 1), t) {
                    let k = choose|k: int|
                        0 <= k < i + 1 && #[trigger] variant_of(dv.take(i + 1)[k]) == Some(t);
                    if k < i {
                        assert(variant_of(dv.take(i as int)[k]) == Some(t));
                        assert(variants_in(dv.take(i as int), t));
                    } else {
                        assert(got == Some(t));
                    }
                }
            }
        }
        i += 1;
    }
    proof {
        broadcast use vstd::prelude::Seq::lemma_take_len;

        assert(assets.deep_view().take(assets.deep_view().len() as int) == assets.deep_view());
    }
    out
}

} // verus!
