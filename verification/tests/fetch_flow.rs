use spm::outcome::{
    exit_code, interpret_download_response, interpret_metadata_response, plan_download,
    DownloadError, ResolveError, RunOutcome,
};
use spm::release::{select_asset, str_ends_with, Asset, Release, PACKAGE_SUFFIX};
use spm::repo::{ArgError, RepoId};
use spm::urls::{download_url, metadata_url};

fn asset(name: &str) -> Asset {
    Asset {
        name: name.to_string(),
        url: format!("https://api.github.com/assets/{}", name),
    }
}

fn repo_id() -> RepoId {
    RepoId {
        owner: "octo".to_string(),
        repo: "widgets".to_string(),
    }
}

#[test]
fn package_suffix_is_shed() {
    assert_eq!(PACKAGE_SUFFIX, ".shed");
}

#[test]
fn metadata_url_follows_the_latest_release_template() {
    assert_eq!(
        metadata_url(&repo_id()),
        "https://api.github.com/repos/octo/widgets/releases/latest"
    );
}

#[test]
fn download_url_follows_the_release_asset_template() {
    assert_eq!(
        download_url(&repo_id(), "v1.2", "bar.shed"),
        "https://github.com/octo/widgets/releases/download/v1.2/bar.shed"
    );
}

#[test]
fn suffix_check_matches_only_true_suffixes() {
    assert!(str_ends_with("bar.shed", ".shed"));
    assert!(str_ends_with(".shed", ".shed"));
    assert!(!str_ends_with("bar.txt", ".shed"));
    assert!(!str_ends_with("shed", ".shed"));
    assert!(!str_ends_with("", ".shed"));
    assert!(!str_ends_with("bar.shed.txt", ".shed"));
    assert!(str_ends_with("bar", ""));
}

#[test]
fn first_matching_asset_is_selected() {
    let assets = vec![asset("foo.txt"), asset("bar.shed"), asset("baz.shed")];
    assert_eq!(select_asset(&assets, PACKAGE_SUFFIX), Some(1));
}

#[test]
fn no_matching_asset_selects_nothing() {
    let assets = vec![asset("foo.txt"), asset("readme.md")];
    assert_eq!(select_asset(&assets, PACKAGE_SUFFIX), None);
}

#[test]
fn plan_picks_the_first_match_and_never_a_later_one() {
    let release = Release {
        tag_name: "v1.2".to_string(),
        assets: vec![asset("foo.txt"), asset("bar.shed"), asset("baz.shed")],
    };
    let plan = plan_download(&repo_id(), &release, PACKAGE_SUFFIX).unwrap();
    assert_eq!(plan.filename, "bar.shed");
    assert_eq!(
        plan.url,
        "https://github.com/octo/widgets/releases/download/v1.2/bar.shed"
    );
}

#[test]
fn plan_is_empty_when_no_asset_carries_the_suffix() {
    let release = Release {
        tag_name: "v1.2".to_string(),
        assets: vec![asset("foo.txt"), asset("readme.md")],
    };
    assert_eq!(plan_download(&repo_id(), &release, PACKAGE_SUFFIX), None);
}

#[test]
fn metadata_200_with_a_release_resolves() {
    let release = Release {
        tag_name: "v1.2".to_string(),
        assets: vec![asset("bar.shed")],
    };
    let resolved = interpret_metadata_response(200, Some(release)).unwrap();
    assert_eq!(resolved.tag_name, "v1.2");
    assert_eq!(resolved.assets.len(), 1);
    assert_eq!(resolved.assets[0].name, "bar.shed");
}

#[test]
fn metadata_500_is_a_resolution_error_with_the_status() {
    assert_eq!(
        interpret_metadata_response(500, None),
        Err(ResolveError::Status(500))
    );
}

#[test]
fn metadata_200_with_an_unreadable_body_is_a_deserialization_error() {
    assert_eq!(
        interpret_metadata_response(200, None),
        Err(ResolveError::Malformed)
    );
}

#[test]
fn download_404_is_a_download_error_and_produces_no_write() {
    let r = interpret_download_response("bar.shed", 404, vec![1, 2, 3]);
    assert_eq!(r, Err(DownloadError::Status(404)));
}

#[test]
fn download_200_writes_the_body_byte_for_byte_with_mode_755() {
    let body = vec![0x7F, 0x45, 0x4C, 0x46, 0x02, 0x01, 0x00];
    let w = interpret_download_response("bar.shed", 200, body.clone()).unwrap();
    assert_eq!(w.filename, "bar.shed");
    assert_eq!(w.contents, body);
    assert_eq!(w.mode, 0o755);
}

#[test]
fn exit_codes_map_each_outcome() {
    assert_eq!(exit_code(RunOutcome::Usage), 0);
    assert_eq!(exit_code(RunOutcome::BadArgument(ArgError::MalformedRepo)), 2);
    assert_eq!(exit_code(RunOutcome::Downloaded), 0);
    assert_eq!(exit_code(RunOutcome::NoMatchingAsset), 0);
    assert_eq!(exit_code(RunOutcome::ResolveFailed(ResolveError::Status(500))), 3);
    assert_eq!(exit_code(RunOutcome::ResolveFailed(ResolveError::Transport)), 3);
    assert_eq!(exit_code(RunOutcome::ResolveFailed(ResolveError::Malformed)), 3);
    assert_eq!(exit_code(RunOutcome::DownloadFailed(DownloadError::Status(404))), 4);
    assert_eq!(exit_code(RunOutcome::DownloadFailed(DownloadError::Io)), 4);
    assert_eq!(exit_code(RunOutcome::DownloadFailed(DownloadError::Transport)), 4);
}
