use vstd::prelude::*;
use vstd::string::StrSliceExecFns;

verus! {

/// One release as the remote source reports it: a tag, a prerelease flag,
/// and every asset filename, flashable or not.
pub struct RawRelease {
    pub tag_name: String,
    pub prerelease: bool,
    pub assets: Vec<String>,
}

/// One release after filtering: only the flashable asset filenames remain,
/// and releases without any flashable asset are dropped entirely.
#[derive(Debug)]
pub struct Release {
    pub tag_name: String,
    pub prerelease: bool,
    pub stm32_assets: Vec<String>,
}

#[verifier::ext_equal]
pub struct RawReleaseModel {
    pub tag_name: Seq<char>,
    pub prerelease: bool,
    pub assets: Seq<Seq<char>>,
}

#[verifier::ext_equal]
pub struct ReleaseModel {
    pub tag_name: Seq<char>,
    pub prerelease: bool,
    pub stm32_assets: Seq<Seq<char>>,
}

impl View for RawRelease {
    type V = RawReleaseModel;

    open spec fn view(&self) -> RawReleaseModel {
        RawReleaseModel {
            tag_name: self.tag_name@,
            prerelease: self.prerelease,
            assets: self.assets.deep_view(),
        }
    }
}

impl DeepView for RawRelease {
    type V = RawReleaseModel;

    open spec fn deep_view(&self) -> RawReleaseModel {
        self.view()
    }
}

impl View for Release {
    type V = ReleaseModel;

    open spec fn view(&self) -> ReleaseModel {
        ReleaseModel {
            tag_name: self.tag_name@,
            prerelease: self.prerelease,
            stm32_assets: self.stm32_assets.deep_view(),
        }
    }
}

impl DeepView for Release {
    type V = ReleaseModel;

    open spec fn deep_view(&self) -> ReleaseModel {
        self.view()
    }
}

/// `s` ends with `suffix`.
pub open spec fn has_suffix(s: Seq<char>, suffix: Seq<char>) -> bool {
    s.len() >= suffix.len() && s.skip(s.len() - suffix.len()) == suffix
}

/// An asset is flashable iff its filename ends with `.bin`, `.hex` or `.dfu`.
pub open spec fn is_flashable_name(s: Seq<char>) -> bool {
    has_suffix(s, ".bin"@) || has_suffix(s, ".hex"@) || has_suffix(s, ".dfu"@)
}

/// The flashable asset filenames, in their original order.
pub open spec fn flashable_of(assets: Seq<Seq<char>>) -> Seq<Seq<char>> {
    assets.filter(|a: Seq<char>| is_flashable_name(a))
}

/// A release is kept iff at least one of its assets is flashable.
pub open spec fn keeps(r: RawReleaseModel) -> bool {
    flashable_of(r.assets).len() > 0
}

pub open spec fn to_release_model(r: RawReleaseModel) -> ReleaseModel {
    ReleaseModel { tag_name: r.tag_name, prerelease: r.prerelease, stm32_assets: flashable_of(r.assets) }
}

/// The whole catalog filter: keep the releases with at least one flashable
/// asset, in their original order, each trimmed to its flashable assets.
pub open spec fn catalog_of(raw: Seq<RawReleaseModel>) -> Seq<ReleaseModel> {
    raw.filter(|r: RawReleaseModel| keeps(r)).map_values(|r: RawReleaseModel| to_release_model(r))
}

pub fn str_has_suffix(s: &str, suffix: &str) -> (r: bool)
    ensures
        r == has_suffix(s@, suffix@),
{
    let n = s.unicode_len();
    let m = suffix.unicode_len();
    if m > n {
        return false;
    }
    let start = n - m;
    let mut i: usize = 0;
    while i < m
        invariant
            m <= n,
            n == s@.len(),
            m == suffix@.len(),
            start == n - m,
            i <= m,
            forall|j: int| 0 <= j < i ==> s@[start + j] == suffix@[j],
        decreases m - i,
    {
        if s.get_char(start + i) != suffix.get_char(i) {
            proof {
                assert(s@.skip(s@.len() - suffix@.len())[i as int] == s@[start + i]);
            }
            return false;
        }
        i += 1;
    }
    proof {
        assert(s@.skip(s@.len() - suffix@.len()) =~= suffix@);
    }
    true
}

/// Whether one asset filename marks a programmable firmware image.
pub fn is_flashable(name: &str) -> (r: bool)
    ensures
        r == is_flashable_name(name@),
{
    str_has_suffix(name, ".bin") || str_has_suffix(name, ".hex") || str_has_suffix(name, ".dfu")
}

/// The flashable asset filenames of one release, kept in order.
pub fn flashable_assets(assets: &Vec<String>) -> (out: Vec<String>)
    ensures
        out.deep_view() == flashable_of(assets.deep_view()),
{
    let mut out: Vec<String> = Vec::new();
    let mut i: usize = 0;
    while i < assets.len()
        invariant
            i <= assets@.len(),
            out.deep_view() == flashable_of(assets.deep_view().take(i as int)),
        decreases assets@.len() - i,
    {
        let ghost pre = out.deep_view();
        let name = &assets[i];
        let flashable = is_flashable(name.as_str());
        if flashable {
            out.push(name.clone());
        }
        proof {
            broadcast use vstd::prelude::Seq::lemma_take_succ_push;
            broadcast use vstd::prelude::Seq::lemma_filter_push;

            let dv = assets.deep_view();
            assert(dv[i as int] == name@);
            assert(dv.take(i + 1) == dv.take(i as int).push(dv[i as int]));
            if flashable {
                assert(out.deep_view() =~= pre.push(name@));
            }
        }
        i += 1;
    }
    proof {
        broadcast use vstd::prelude::Seq::lemma_take_len;

        assert(assets.deep_view().take(assets.deep_view().len() as int) == assets.deep_view());
    }
    out
}

/// Clone a list of filenames, character for character.
fn clone_strings(v: &Vec<String>) -> (r: Vec<String>)
    ensures
        r@ == v@,
{
    let mut out: Vec<String> = Vec::new();
    let mut i: usize = 0;
    while i < v.len()
        invariant
            i <= v@.len(),
            out@ == v@.take(i as int),
        decreases v@.len() - i,
    {
        out.push(v[i].clone());
        proof {
            broadcast use vstd::prelude::Seq::lemma_take_succ_push;

            assert(v@.take(i + 1) == v@.take(i as int).push(v@[i as int]));
        }
        i += 1;
    }
    proof {
        broadcast use vstd::prelude::Seq::lemma_take_len;

        assert(v@.take(v@.len() as int) == v@);
    }
    out
}

/// Clone a filtered release list; the copy carries the same tags, flags and
/// asset names.
pub fn clone_releases(v: &Vec<Release>) -> (r: Vec<Release>)
    ensures
        r.deep_view() == v.deep_view(),
{
    let mut out: Vec<Release> = Vec::new();
    let mut i: usize = 0;
    while i < v.len()
        invariant
            i <= v@.len(),
            out.deep_view() == v.deep_view().take(i as int),
        decreases v@.len() - i,
    {
        let ghost pre = out.deep_view();
        let rel = &v[i];
        let copy = Release {
            tag_name: rel.tag_name.clone(),
            prerelease: rel.prerelease,
            stm32_assets: clone_strings(&rel.stm32_assets),
        };
        proof {
            assert(copy@ =~= v.deep_view()[i as int]);
        }
        out.push(copy);
        proof {
            broadcast use vstd::prelude::Seq::lemma_take_succ_push;

            let dv = v.deep_view();
            assert(dv.take(i + 1) == dv.take(i as int).push(dv[i as int]));
            assert(out.deep_view() =~= pre.push(dv[i as int]));
        }
        i += 1;
    }
    proof {
        broadcast use vstd::prelude::Seq::lemma_take_len;

        assert(v.deep_view().take(v.deep_view().len() as int) == v.deep_view());
    }
    out
}

/// The catalog filter over a whole raw release list: exactly the releases
/// with at least one flashable asset are kept, in their original order, and
/// each kept release's asset list is trimmed to its flashable assets.
pub fn filter_releases(raw: &Vec<RawRelease>) -> (out: Vec<Release>)
    ensures
        out.deep_view() == catalog_of(raw.deep_view()),
{
    let mut out: Vec<Release> = Vec::new();
    let mut i: usize = 0;
    while i < raw.len()
        invariant
            i <= raw@.len(),
            out.deep_view() == catalog_of(raw.deep_view().take(i as int)),
        decreases raw@.len() - i,
    {
        let ghost pre = out.deep_view();
        let r = &raw[i];
        let kept = flashable_assets(&r.assets);
        if kept.len() > 0 {
            let tag_name = r.tag_name.clone();
            let filtered = Release { tag_name, prerelease: r.prerelease, stm32_assets: kept };
            proof {
                assert(filtered@ =~= to_release_model(raw.deep_view()[i as int]));
            }
            out.push(filtered);
        }
        proof {
            broadcast use vstd::prelude::Seq::lemma_take_succ_push;
            broadcast use vstd::prelude::Seq::lemma_filter_push;
            broadcast use vstd::prelude::Seq::lemma_push_map_commute;

            let dv = raw.deep_view();
            let rm = dv[i as int];
            assert(dv.take(i + 1) == dv.take(i as int).push(rm));
            if kept.len() > 0 {
                assert(out.deep_view() =~= pre.push(to_release_model(rm)));
                assert(catalog_of(dv.take(i + 1)) == catalog_of(dv.take(i as int)).push(
                    to_release_model(rm),
                ));
            } else {
                assert(!keeps(rm));
            }
        }
        i += 1;
    }
    proof {
        broadcast use vstd::prelude::Seq::lemma_take_len;

        assert(raw.deep_view().take(raw.deep_view().len() as int) == raw.deep_view());
    }
    out
}

} // verus!
