//! The decisions of one program run: interpreting the two HTTP responses,
//! planning the download, and mapping the outcome to an exit code.

use vstd::prelude::*;
use crate::release::{Asset, Release, ends_with_seq, is_first_match, select_asset};
use crate::repo::{ArgError, RepoId};
use crate::urls::{download_url, download_url_seq};

verus! {

/// Why the latest release could not be resolved.
#[derive(Clone, Copy, Debug, PartialEq, Eq, Structural)]
pub enum ResolveError {
    /// The metadata endpoint answered with a status other than 200.
    Status(u16),
    /// The metadata endpoint answered 200 but the body did not deserialize
    /// into a release.
    Malformed,
    /// The request never produced a response (DNS, connection, TLS).
    Transport,
}

/// Why the selected asset could not be downloaded and saved.
#[derive(Clone, Copy, Debug, PartialEq, Eq, Structural)]
pub enum DownloadError {
    /// The download endpoint answered with a status other than 200.
    Status(u16),
    /// Creating or writing the local file failed.
    Io,
    /// The request never produced a response (DNS, connection, TLS).
    Transport,
}

/// Turns the metadata response into a resolved release. `status` is the HTTP
/// status of the response and `parsed` the release its body deserialized
/// into, when it did; on a status other than 200 the body is never consulted.
pub fn interpret_metadata_response(status: u16, parsed: Option<Release>) -> (r: Result<
    Release,
    ResolveError,
>)
    ensures
        match r {
            Ok(release) => status == 200 && parsed == Some(release),
            Err(e) => match e {
                ResolveError::Status(s) => s == status && status != 200,
                ResolveError::Malformed => status == 200 && parsed is None,
                ResolveError::Transport => false,
            },
        },
{
    if status != 200 {
        Err(ResolveError::Status(status))
    } else {
        match parsed {
            Some(release) => Ok(release),
            None => Err(ResolveError::Malformed),
        }
    }
}

/// What the program intends to fetch: the fully-qualified download URL and
/// the local file name, which is the asset's own published name used
/// verbatim.
#[derive(Debug, PartialEq, Eq)]
pub struct DownloadPlan {
    pub url: String,
    pub filename: String,
}

/// Picks the first asset of the release whose name ends with `suffix` and
/// builds its download URL; `None` means no asset matches and nothing is to
/// be downloaded.
pub fn plan_download(id: &RepoId, release: &Release, suffix: &str) -> (r: Option<DownloadPlan>)
    ensures
        match r {
            Some(plan) => exists|i: int| {
                &&& #[trigger] is_first_match(release.assets@, suffix@, i)
                &&& plan.filename@ == release.assets@[i].name@
                &&& plan.url@ == download_url_seq(
                    id.owner@,
                    id.repo@,
                    release.tag_name@,
                    release.assets@[i].name@,
                )
            },
            None => forall|j: int| 0 <= j < release.assets@.len()
                ==> !ends_with_seq(#[trigger] release.assets@[j].name@, suffix@),
        },
{
    match select_asset(&release.assets, suffix) {
        Some(i) => {
            let name = release.assets[i].name.clone();
            let url = download_url(id, release.tag_name.as_str(), name.as_str());
            proof {
                assert(is_first_match(release.assets@, suffix@, i as int));
            }
            Some(DownloadPlan { url, filename: name })
        },
        None => None,
    }
}

/// The one local file the program produces: its name, its full binary
/// contents, and the POSIX permission bits to set after writing.
#[derive(Debug, PartialEq, Eq)]
pub struct FileWrite {
    pub filename: String,
    pub contents: Vec<u8>,
    pub mode: u32,
}

/// Turns the download response into the file write to perform. Only a 200
/// response produces a write; its contents are the response body
/// byte for byte, and the permission bits are `rwxr-xr-x`. On any other
/// status no file is to be created.
pub fn interpret_download_response(filename: &str, status: u16, body: Vec<u8>) -> (r: Result<
    FileWrite,
    DownloadError,
>)
    ensures
        match r {
            Ok(w) => {
                &&& status == 200
                &&& w.filename@ == filename@
                &&& w.contents@ == body@
                &&& w.mode == 0o755
            },
            Err(e) => status != 200 && e == DownloadError::Status(status),
        },
{
    if status == 200 {
        Ok(FileWrite { filename: filename.to_owned(), contents: body, mode: 0o755 })
    } else {
        Err(DownloadError::Status(status))
    }
}

/// How one run of the program ended.
#[derive(Clone, Copy, Debug, PartialEq, Eq, Structural)]
pub enum RunOutcome {
    /// The argument count was wrong; a usage message is printed and the run
    /// counts as clean.
    Usage,
    /// The single argument was not a well-formed `owner/repo` pair.
    BadArgument(ArgError),
    /// The selected asset was downloaded and saved.
    Downloaded,
    /// The release resolved but no asset carries the package suffix; nothing
    /// is downloaded and the run counts as clean.
    NoMatchingAsset,
    /// The latest release could not be resolved.
    ResolveFailed(ResolveError),
    /// The selected asset could not be downloaded or saved.
    DownloadFailed(DownloadError),
}

/// The process exit status for each outcome: clean runs and the deliberate
/// no-matching-asset no-op exit 0, a malformed argument exits 2, a resolution
/// failure 3, and a download failure 4.
pub fn exit_code(outcome: RunOutcome) -> (r: i32)
    ensures
        r == (match outcome {
            RunOutcome::Usage => 0int,
            RunOutcome::BadArgument(_) => 2int,
            RunOutcome::Downloaded => 0int,
            RunOutcome::NoMatchingAsset => 0int,
            RunOutcome::ResolveFailed(_) => 3int,
            RunOutcome::DownloadFailed(_) => 4int,
        }),
{
    match outcome {
        RunOutcome::Usage => 0,
        RunOutcome::BadArgument(_) => 2,
        RunOutcome::Downloaded => 0,
        RunOutcome::NoMatchingAsset => 0,
        RunOutcome::ResolveFailed(_) => 3,
        RunOutcome::DownloadFailed(_) => 4,
    }
}

} // verus!
