//! Request options and response payloads for the callers of the core.
//!
//! These types carry plain values between the web layer and the library: the
//! options of an install request, a list of links, and a generated script
//! with its filename.

use vstd::prelude::*;

use crate::app_downloader::{TargetArch, TargetOs};
use crate::text::str_eq;

verus! {

/// Whether the user asked for an installer package or a bare binary.
#[derive(Debug, Clone, Copy, PartialEq, Eq, Structural)]
pub enum InstallMethod {
    Installer,
    Binary,
}

impl From<&str> for InstallMethod {
    /// `"installer"` selects the installer method; anything else falls back
    /// to the binary method.
    fn from(value: &str) -> (r: InstallMethod) {
        if str_eq(value, "installer") {
            InstallMethod::Installer
        } else {
            InstallMethod::Binary
        }
    }
}

impl vstd::std_specs::convert::FromSpecImpl<&str> for InstallMethod {
    open spec fn obeys_from_spec() -> bool {
        true
    }

    open spec fn from_spec(v: &str) -> InstallMethod {
        if v@ == "installer"@ {
            InstallMethod::Installer
        } else {
            InstallMethod::Binary
        }
    }
}

/// Options of one install request.  The web layer parses them from the query
/// string; defaults come from [`InstallQueryOptions::default`].
#[derive(Debug, Clone)]
pub struct InstallQueryOptions {
    pub app: Option<String>,
    pub version: String,
    pub prefix: String,
    pub arch: TargetArch,
    pub os: TargetOs,
    pub method: InstallMethod,
    pub download_only: bool,
    pub force: bool,
    pub quiet: bool,
    pub log_level: String,
}

impl InstallQueryOptions {
    /// Build request options from their parts.
    pub fn new(
        app: Option<String>,
        version: String,
        prefix: String,
        arch: TargetArch,
        os: TargetOs,
        method: InstallMethod,
        download_only: bool,
        force: bool,
        quiet: bool,
        log_level: String,
    ) -> (r: InstallQueryOptions)
        ensures
            r == (InstallQueryOptions {
                app,
                version,
                prefix,
                arch,
                os,
                method,
                download_only,
                force,
                quiet,
                log_level,
            }),
    {
        InstallQueryOptions {
            app,
            version,
            prefix,
            arch,
            os,
            method,
            download_only,
            force,
            quiet,
            log_level,
        }
    }

    /// Record which application the request is for; every other option is
    /// untouched.
    pub fn set_app(&mut self, app: String)
        ensures
            *final(self) == (InstallQueryOptions { app: Some(app), ..*old(self) }),
    {
        self.app = Some(app);
    }

    /// The deployment target the request asks for.
    pub fn target_deployment(&self) -> (r: crate::app_downloader::TargetDeployment)
        ensures
            r == (crate::app_downloader::TargetDeployment { os: self.os, arch: self.arch }),
    {
        crate::app_downloader::TargetDeployment::new(self.os, self.arch)
    }
}

impl Default for InstallQueryOptions {
    /// The documented defaults of an install request: the latest version of
    /// an unnamed application, for Linux on amd64, fetched as a binary into
    /// `$HOME/.local`, verbose logging.
    fn default() -> (r: InstallQueryOptions)
        ensures
            r.app is None,
            r.version@ == "latest"@,
            r.prefix@ == "$HOME/.local"@,
            r.arch == TargetArch::Amd64,
            r.os == TargetOs::Linux,
            r.method == InstallMethod::Binary,
            !r.download_only,
            !r.force,
            !r.quiet,
            r.log_level@ == "DEBUG"@,
    {
        InstallQueryOptions {
            app: None,
            version: String::from_str("latest"),
            prefix: String::from_str("$HOME/.local"),
            arch: TargetArch::Amd64,
            os: TargetOs::Linux,
            method: InstallMethod::Binary,
            download_only: false,
            force: false,
            quiet: false,
            log_level: String::from_str("DEBUG"),
        }
    }
}

/// Extra command-line arguments a set of request options contributes to the
/// generated script.
pub trait QueryOptions {
    fn to_args(&self) -> String;
}

impl QueryOptions for InstallQueryOptions {
    /// These options contribute no extra arguments.
    fn to_args(&self) -> String {
        String::new()
    }
}

/// A list of download links, handed back to the web layer as a response
/// payload.
pub struct StringList {
    pub links: Vec<String>,
}

impl StringList {
    /// Wrap a list of links.
    pub fn new(links: Vec<String>) -> (r: StringList)
        ensures
            r.links == links,
    {
        StringList { links }
    }
}

/// A generated install script: its download filename, its bytes, and their
/// count.
pub struct ScriptResponse {
    pub filename: String,
    pub body: Vec<u8>,
    pub body_size: usize,
}

impl ScriptResponse {
    /// Package a script under the filename it should be served as.
    pub fn new(filename: String, body: String) -> (r: ScriptResponse)
        ensures
            r.filename == filename,
            r.body@ == vstd::utf8::encode_utf8(body@),
            r.body_size == r.body@.len(),
    {
        let body_bytes = body.as_str().as_bytes_vec();
        let body_size = body_bytes.len();
        ScriptResponse { filename, body: body_bytes, body_size }
    }
}

} // verus!
