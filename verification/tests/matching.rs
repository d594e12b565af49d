use termlibs::app_downloader::{Filetype, TargetArch, TargetDeployment, TargetOs};
use termlibs::matcher::{match_assets, CandidateAsset, DownloadInfo, MIN_ASSET_SIZE};
use termlibs::static_site::{render_page, wrap_body};
use termlibs::supported_apps::{get_app, Repo, SupportedApp};
use termlibs::types::{InstallMethod, InstallQueryOptions, ScriptResponse, StringList};

fn asset(name: &str, size: u64, content_type: &str) -> CandidateAsset {
    CandidateAsset {
        name: name.to_string(),
        label: None,
        url: format!("https://example.com/{}", name),
        content_type: content_type.to_string(),
        size,
    }
}

#[test]
fn test_match_assets_scenario() {
    let candidates = vec![
        asset("yq_linux_amd64", 5_000_000, "application/octet-stream"),
        asset("yq_linux_amd64.tar.gz", 6_000_000, "application/gzip"),
        asset("checksums.txt", 200, "text/plain"),
    ];
    let desired = TargetDeployment::new(TargetOs::Linux, TargetArch::Amd64);
    let matched = match_assets(&candidates, &desired);
    assert_eq!(matched.len(), 2);
    assert_eq!(matched[0].name, "yq_linux_amd64");
    assert_eq!(matched[0].target.filetype, Filetype::Binary);
    assert_eq!(matched[1].name, "yq_linux_amd64.tar.gz");
    assert_eq!(matched[1].target.deployment, desired);
    assert_eq!(matched[0].size, 5_000_000);
    assert_eq!(matched[1].label, "");
}

#[test]
fn test_small_asset_excluded_on_size_alone() {
    // 1 KiB, matching platform, harmless extension and content type: the
    // size predicate alone excludes it.
    let candidates = vec![asset("yq_linux_amd64", 1024, "application/octet-stream")];
    let desired = TargetDeployment::new(TargetOs::Linux, TargetArch::Amd64);
    assert!(match_assets(&candidates, &desired).is_empty());
    // One byte over the threshold is kept.
    let candidates = vec![
        asset("yq_linux_amd64", MIN_ASSET_SIZE + 1, "application/octet-stream"),
    ];
    assert_eq!(match_assets(&candidates, &desired).len(), 1);
}

#[test]
fn test_unknown_never_matches_concrete_target() {
    let candidates = vec![asset("mystery-asset", 5_000_000, "application/octet-stream")];
    let desired = TargetDeployment::new(TargetOs::Linux, TargetArch::Amd64);
    assert!(match_assets(&candidates, &desired).is_empty());
    // An unknown asset does match an explicitly unknown target.
    let unknown = TargetDeployment::new(TargetOs::Unknown, TargetArch::Unknown);
    assert_eq!(match_assets(&candidates, &unknown).len(), 1);
}

#[test]
fn test_mime_parameters_are_ignored() {
    // The essence of the declared content type decides, not the raw string.
    let candidates = vec![
        asset("yq_linux_amd64", 5_000_000, "text/plain; charset=utf-8"),
        asset("yq_linux_amd64.tar.gz", 5_000_000, "application/gzip; q=1"),
    ];
    let desired = TargetDeployment::new(TargetOs::Linux, TargetArch::Amd64);
    let matched = match_assets(&candidates, &desired);
    assert_eq!(matched.len(), 1);
    assert_eq!(matched[0].name, "yq_linux_amd64.tar.gz");
}

#[test]
fn test_skip_extensions() {
    let desired = TargetDeployment::new(TargetOs::Linux, TargetArch::Amd64);
    for name in [
        "yq_linux_amd64.asc",
        "yq_linux_amd64.md5",
        "yq_linux_amd64.sha1",
        "yq_linux_amd64.sha256",
        "yq_linux_amd64.sha512",
        "yq_linux_amd64.sig",
        "yq_linux_amd64.txt",
    ] {
        let candidates = vec![asset(name, 5_000_000, "application/octet-stream")];
        assert!(match_assets(&candidates, &desired).is_empty(), "{} must be skipped", name);
    }
}

#[test]
fn test_from_asset_and_describe() {
    let candidate = CandidateAsset {
        name: "yq_linux_amd64".to_string(),
        label: Some("stable".to_string()),
        url: "https://example.com/yq_linux_amd64".to_string(),
        content_type: "application/octet-stream".to_string(),
        size: 5_000_000,
    };
    let info = DownloadInfo::from_asset(&candidate);
    assert_eq!(info.label, "stable");
    assert_eq!(info.target.deployment, TargetDeployment::new(TargetOs::Linux, TargetArch::Amd64));
    assert_eq!(
        info.describe(),
        "[yq_linux_amd64](https://example.com/yq_linux_amd64) for linux-amd64 as a binary"
    );
}

#[test]
fn test_get_app() {
    let yq = get_app("yq").unwrap();
    assert_eq!(yq.shortname, "yq");
    assert_eq!(yq.source, "github");
    match &yq.repo {
        Repo::Github(address) => {
            assert_eq!(address.as_str(), "https://api.github.com/repos/mikefarah/yq")
        }
        other => panic!("unexpected repo {:?}", other),
    }
    assert!(get_app("gh").is_some());
    assert!(get_app("uv").is_some());
    assert!(get_app("unsupported-app").is_none());
}

#[test]
fn test_supported_app_new() {
    let app = SupportedApp::new("demo", Repo::github("owner/demo"), "github");
    assert_eq!(app.shortname, "demo");
    assert_eq!(app.source, "github");
    assert_eq!(app.repo, Repo::Github("https://api.github.com/repos/owner/demo".to_string()));
}

#[test]
fn test_get_github_repo() {
    let repo = Repo::github("cli/cli");
    assert_eq!(repo.get_github_repo(), Some("cli/cli".to_string()));
    let plain = Repo::Url("https://example.com/downloads".to_string());
    assert_eq!(plain.get_github_repo(), Some("/downloads".to_string()));
    let invalid = Repo::Url("not a url".to_string());
    assert_eq!(invalid.get_github_repo(), None);
}

#[test]
fn test_install_method_from() {
    assert_eq!(InstallMethod::from("installer"), InstallMethod::Installer);
    assert_eq!(InstallMethod::from("binary"), InstallMethod::Binary);
    assert_eq!(InstallMethod::from("anything else"), InstallMethod::Binary);
}

#[test]
fn test_install_query_options() {
    let mut options = InstallQueryOptions::default();
    assert_eq!(options.app, None);
    assert_eq!(options.version, "latest");
    assert_eq!(options.prefix, "$HOME/.local");
    assert_eq!(options.arch, TargetArch::Amd64);
    assert_eq!(options.os, TargetOs::Linux);
    assert_eq!(options.method, InstallMethod::Binary);
    assert_eq!(options.log_level, "DEBUG");
    options.set_app("yq".to_string());
    assert_eq!(options.app, Some("yq".to_string()));
    assert_eq!(options.version, "latest");
    assert_eq!(
        options.target_deployment(),
        TargetDeployment::new(TargetOs::Linux, TargetArch::Amd64)
    );
}

#[test]
fn test_string_list_new() {
    let list = StringList::new(vec!["https://a".to_string(), "https://b".to_string()]);
    assert_eq!(list.links, vec!["https://a".to_string(), "https://b".to_string()]);
}

#[test]
fn test_script_response_new() {
    let response = ScriptResponse::new("install-yq.sh".to_string(), "echo hi".to_string());
    assert_eq!(response.filename, "install-yq.sh");
    assert_eq!(response.body, b"echo hi".to_vec());
    assert_eq!(response.body_size, 7);
}

#[test]
fn test_wrap_body() {
    assert_eq!(
        wrap_body("<p>x</p>"),
        "<head><title>termlibs</title></head><body><p>x</p></body>"
    );
}

#[test]
fn test_render_page() {
    let rendered = render_page("# hello");
    let html = comrak::markdown_to_html("# hello", &comrak::Options::default());
    assert_eq!(rendered, format!("<head><title>termlibs</title></head><body>{}</body>", html));
    assert!(rendered.contains("<h1>hello</h1>"));
}
