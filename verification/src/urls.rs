//! Construction of the two endpoints the program talks to: the latest-release
//! metadata query and the asset download path.

use vstd::prelude::*;
use crate::repo::RepoId;

verus! {

/// The latest-release metadata endpoint for a repository.
pub open spec fn metadata_url_seq(owner: Seq<char>, repo: Seq<char>) -> Seq<char> {
    "https://api.github.com/repos/"@ + owner + "/"@ + repo + "/releases/latest"@
}

/// The download path of one named asset of one tagged release.
pub open spec fn download_url_seq(
    owner: Seq<char>,
    repo: Seq<char>,
    tag: Seq<char>,
    asset_name: Seq<char>,
) -> Seq<char> {
    "https://github.com/"@ + owner + "/"@ + repo + "/releases/download/"@ + tag + "/"@
        + asset_name
}

/// Builds the URL that resolves the latest release of `id`.
pub fn metadata_url(id: &RepoId) -> (r: String)
    ensures
        r@ == metadata_url_seq(id.owner@, id.repo@),
{
    let mut s = String::from_str("https://api.github.com/repos/");
    s.append(id.owner.as_str());
    s.append("/");
    s.append(id.repo.as_str());
    s.append("/releases/latest");
    proof {
        assert(s@ =~= metadata_url_seq(id.owner@, id.repo@));
    }
    s
}

/// Builds the URL that downloads the asset named `asset_name` from the
/// release tagged `tag` of `id`.
pub fn download_url(id: &RepoId, tag: &str, asset_name: &str) -> (r: String)
    ensures
        r@ == download_url_seq(id.owner@, id.repo@, tag@, asset_name@),
{
    let mut s = String::from_str("https://github.com/");
    s.append(id.owner.as_str());
    s.append("/");
    s.append(id.repo.as_str());
    s.append("/releases/download/");
    s.append(tag);
    s.append("/");
    s.append(asset_name);
    proof {
        assert(s@ =~= download_url_seq(id.owner@, id.repo@, tag@, asset_name@));
    }
    s
}

} // verus!
