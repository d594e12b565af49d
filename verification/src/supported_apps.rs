//! The registry of applications the service knows how to install, and the
//! source repository each one is fetched from.
//!
//! The registry is a fixed rule set: [`get_app`] is a pure function from an
//! application's short name to its entry, so the lookup carries no hidden
//! state and is independently testable.

use vstd::prelude::*;

use crate::text::{str_eq, trim_prefix, trim_prefix_str};

verus! {

/// The base of the hosted source-registry API that release listings are
/// fetched from.
pub open spec fn github_api_base() -> Seq<char> {
    "https://api.github.com"@
}

/// The API address of a hosted repository, e.g.
/// `https://api.github.com/repos/mikefarah/yq`.
pub open spec fn github_repo_url(repo: Seq<char>) -> Seq<char> {
    github_api_base() + "/repos/"@ + repo
}

/// Where an application's releases live: a hosted source repository, a plain
/// URL, or a Python package index entry.
#[derive(Debug, Clone, PartialOrd, PartialEq)]
pub enum Repo {
    Github(String),
    Url(String),
    Python(String),
}

/// The mathematical value of a [`Repo`].
#[verifier::ext_equal]
pub enum RepoView {
    Github(Seq<char>),
    Url(Seq<char>),
    Python(Seq<char>),
}

impl View for Repo {
    type V = RepoView;

    open spec fn view(&self) -> RepoView {
        match self {
            Repo::Github(s) => RepoView::Github(s@),
            Repo::Url(s) => RepoView::Url(s@),
            Repo::Python(s) => RepoView::Python(s@),
        }
    }
}

impl DeepView for Repo {
    type V = RepoView;

    open spec fn deep_view(&self) -> RepoView {
        self.view()
    }
}

/// The path component of a URL — percent-encoded, starting with `/` for
/// URLs that can be a base — or nothing when the string does not parse as an
/// absolute URL.  The value is whatever the url parser derives; it is a
/// function of the string alone.
pub uninterp spec fn url_path_of(s: Seq<char>) -> Option<Seq<char>>;

/// Relies on `url::Url::parse` and `url::Url::path`: parsing is
/// deterministic, and the path of the parsed URL is a function of the input
/// string alone; a string that does not parse has no path.
#[verifier::external_body]
fn parse_url_path(s: &str) -> (r: Option<String>)
    ensures
        (r matches Some(p) ==> url_path_of(s@) == Some(p@)),
        (r is None ==> url_path_of(s@) is None),
{
    match url::Url::parse(s) {
        Ok(u) => Some(u.path().to_string()),
        Err(_) => None,
    }
}

/// The repository identifier hidden in a registry address: the URL's path
/// with every leading `/repos/` removed, or nothing when the address does
/// not parse as a URL.
pub open spec fn github_repo_of(u: Seq<char>) -> Option<Seq<char>> {
    match url_path_of(u) {
        Some(p) => Some(trim_prefix(p, "/repos/"@)),
        None => None,
    }
}

impl Repo {
    /// The address string this repository points at.
    pub open spec fn address(&self) -> Seq<char> {
        match self {
            Repo::Github(s) => s@,
            Repo::Url(s) => s@,
            Repo::Python(s) => s@,
        }
    }

    /// A hosted source repository, addressed through the registry API.
    pub fn github(repo: &str) -> (r: Repo)
        ensures
            r@ == RepoView::Github(github_repo_url(repo@)),
    {
        Repo::Github(String::from_str("https://api.github.com").concat("/repos/").concat(repo))
    }

    /// A plain URL source.
    pub fn url(address: &str) -> (r: Repo)
        ensures
            r@ == RepoView::Url(address@),
    {
        Repo::Url(address.to_owned())
    }

    /// A Python package index source.
    pub fn python(app: &str) -> (r: Repo)
        ensures
            r@ == RepoView::Python("https://pypi.org/simple/"@ + app@),
    {
        Repo::Python(String::from_str("https://pypi.org/simple/").concat(app))
    }

    /// The `owner/name` identifier of the repository, recovered from its
    /// address, or nothing when the address is not a well-formed URL.
    pub fn get_github_repo(&self) -> (r: Option<String>)
        ensures
            r.deep_view() == github_repo_of(self.address()),
    {
        let s: &String = match self {
            Repo::Github(s) => s,
            Repo::Url(s) => s,
            Repo::Python(s) => s,
        };
        match parse_url_path(s.as_str()) {
            Some(p) => Some(trim_prefix_str(p.as_str(), "/repos/").to_owned()),
            None => None,
        }
    }
}

/// One entry of the application registry: the short name users ask for, the
/// repository its releases come from, and the kind of source.
#[derive(Debug, Clone)]
pub struct SupportedApp {
    pub shortname: String,
    pub repo: Repo,
    pub source: String,
}

/// The mathematical value of a [`SupportedApp`].
#[verifier::ext_equal]
pub struct SupportedAppView {
    pub shortname: Seq<char>,
    pub repo: RepoView,
    pub source: Seq<char>,
}

impl View for SupportedApp {
    type V = SupportedAppView;

    open spec fn view(&self) -> SupportedAppView {
        SupportedAppView { shortname: self.shortname@, repo: self.repo@, source: self.source@ }
    }
}

impl DeepView for SupportedApp {
    type V = SupportedAppView;

    open spec fn deep_view(&self) -> SupportedAppView {
        self.view()
    }
}

impl SupportedApp {
    /// Build a registry entry from its parts.
    pub fn new(shortname: &str, repo: Repo, source: &str) -> (r: Self)
        ensures
            r@ == (SupportedAppView { shortname: shortname@, repo: repo@, source: source@ }),
    {
        Self { shortname: shortname.to_owned(), repo, source: source.to_owned() }
    }
}

/// The registry entry of a hosted-repository application.
pub open spec fn github_app_view(shortname: Seq<char>, repo: Seq<char>) -> SupportedAppView {
    SupportedAppView {
        shortname,
        repo: RepoView::Github(github_repo_url(repo)),
        source: "github"@,
    }
}

/// The fixed application registry, as a function from short name to entry.
pub open spec fn spec_get_app(name: Seq<char>) -> Option<SupportedAppView> {
    if name == "yq"@ {
        Some(github_app_view("yq"@, "mikefarah/yq"@))
    } else if name == "jq"@ {
        Some(github_app_view("jq"@, "jqlang/jq"@))
    } else if name == "gh"@ {
        Some(github_app_view("gh"@, "cli/cli"@))
    } else if name == "jsonnet"@ {
        Some(github_app_view("jsonnet"@, "google/go-jsonnet"@))
    } else if name == "shellcheck"@ {
        Some(github_app_view("shellcheck"@, "koalaman/shellcheck"@))
    } else if name == "shfmt"@ {
        Some(github_app_view("shfmt"@, "mvdan/sh"@))
    } else if name == "yutc"@ {
        Some(github_app_view("yutc"@, "adam-huganir/yutc"@))
    } else if name == "kubectl"@ {
        Some(github_app_view("kubectl"@, "kubernetes/kubectl"@))
    } else if name == "helm"@ {
        Some(github_app_view("helm"@, "helm/helm"@))
    } else if name == "uv"@ {
        Some(github_app_view("uv"@, "astral-sh/uv"@))
    } else {
        None
    }
}

/// One hosted-repository registry entry.
fn github_app(shortname: &str, repo: &str) -> (r: SupportedApp)
    ensures
        r@ == github_app_view(shortname@, repo@),
{
    SupportedApp::new(shortname, Repo::github(repo), "github")
}

/// Look an application up in the fixed registry.
pub fn get_app(name: &str) -> (r: Option<SupportedApp>)
    ensures
        r.deep_view() == spec_get_app(name@),
{
    if str_eq(name, "yq") {
        Some(github_app("yq", "mikefarah/yq"))
    } else if str_eq(name, "jq") {
        Some(github_app("jq", "jqlang/jq"))
    } else if str_eq(name, "gh") {
        Some(github_app("gh", "cli/cli"))
    } else if str_eq(name, "jsonnet") {
        Some(github_app("jsonnet", "google/go-jsonnet"))
    } else if str_eq(name, "shellcheck") {
        Some(github_app("shellcheck", "koalaman/shellcheck"))
    } else if str_eq(name, "shfmt") {
        Some(github_app("shfmt", "mvdan/sh"))
    } else if str_eq(name, "yutc") {
        Some(github_app("yutc", "adam-huganir/yutc"))
    } else if str_eq(name, "kubectl") {
        Some(github_app("kubectl", "kubernetes/kubectl"))
    } else if str_eq(name, "helm") {
        Some(github_app("helm", "helm/helm"))
    } else if str_eq(name, "uv") {
        Some(github_app("uv", "astral-sh/uv"))
    } else {
        None
    }
}

} // verus!
