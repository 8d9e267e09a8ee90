//! Release metadata as returned by the hosting API, and the selection of the
//! first asset that carries the package suffix.

use vstd::prelude::*;

verus! {

/// One downloadable file attached to a release: its published file name and
/// its fetch URL, exactly as the API reports them.
#[derive(Debug, PartialEq, Eq)]
pub struct Asset {
    pub name: String,
    pub url: String,
}

/// A published, tagged version of a repository, with its ordered sequence of
/// downloadable assets.
#[derive(Debug, PartialEq, Eq)]
pub struct Release {
    pub tag_name: String,
    pub assets: Vec<Asset>,
}

/// The file-name suffix that marks an asset as the package to download.
pub const PACKAGE_SUFFIX: &'static str = ".shed";

/// `s` ends with `suffix`.
pub open spec fn ends_with_seq(s: Seq<char>, suffix: Seq<char>) -> bool {
    &&& suffix.len() <= s.len()
    &&& s.subrange(s.len() - suffix.len(), s.len() as int) == suffix
}

/// Whether a string ends with the given suffix, compared character by
/// character from the back.
pub fn str_ends_with(s: &str, suffix: &str) -> (r: bool)
    ensures
        r == ends_with_seq(s@, suffix@),
{
    let n = s.unicode_len();
    let m = suffix.unicode_len();
    if m > n {
        return false;
    }
    let mut k: usize = 0;
    while k < m
        invariant
            n == s@.len(),
            m == suffix@.len(),
            m <= n,
            k <= m,
            forall|j: int| 0 <= j < k ==> s@[n - m + j] == suffix@[j],
        decreases m - k,
    {
        if s.get_char(n - m + k) != suffix.get_char(k) {
            proof {
                // The tail differs from the suffix at offset k.
                assert(s@.subrange(s@.len() - suffix@.len(), s@.len() as int)[k as int]
                    == s@[n - m + k]);
            }
            return false;
        }
        k += 1;
    }
    proof {
        assert(s@.subrange(s@.len() - suffix@.len(), s@.len() as int) =~= suffix@);
    }
    true
}

/// The asset at `i` is the first of the sequence whose name ends with the
/// suffix.
pub open spec fn is_first_match(assets: Seq<Asset>, suffix: Seq<char>, i: int) -> bool {
    &&& 0 <= i < assets.len()
    &&& ends_with_seq(assets[i].name@, suffix)
    &&& forall|j: int| 0 <= j < i ==> !ends_with_seq(#[trigger] assets[j].name@, suffix)
}

/// Scans the assets in their published order and returns the index of the
/// first one whose name ends with `suffix`; every asset before it does not
/// match, and when `None` comes back no asset matches at all.
pub fn select_asset(assets: &Vec<Asset>, suffix: &str) -> (r: Option<usize>)
    ensures
        match r {
            Some(i) => is_first_match(assets@, suffix@, i as int),
            None => forall|j: int| 0 <= j < assets@.len()
                ==> !ends_with_seq(#[trigger] assets@[j].name@, suffix@),
        },
{
    let mut i: usize = 0;
    while i < assets.len()
        invariant
            i <= assets@.len(),
            forall|j: int| 0 <= j < i ==> !ends_with_seq(#[trigger] assets@[j].name@, suffix@),
        decreases assets@.len() - i,
    {
        if str_ends_with(assets[i].name.as_str(), suffix) {
            return Some(i);
        }
        i += 1;
    }
    None
}

} // verus!
