//! A verified core for a release-asset download helper.
//!
//! Given the raw filename of a published release asset, the library derives
//! the operating system, CPU architecture and packaging format the asset is
//! built for, and selects from a list of candidate assets the ones that fit a
//! desired deployment target.  All classification is total and pure: every
//! filename maps to a value, with `Unknown` variants standing in for "could
//! not determine".

pub mod app_downloader;
pub mod matcher;
pub mod shell_files;
pub mod static_site;
pub mod supported_apps;
pub mod text;
pub mod types;
